use vstd::prelude::*;

verus! {

/// Describes all the ways a REST request can fail.
#[derive(Debug, Clone, PartialEq, Eq)]
pub enum Error {
    /// The request was cancelled by a reset of the request service.
    Aborted,
    /// The underlying connection or HTTP exchange failed.
    HyperError,
    /// A header value held bytes that a header may not hold.
    InvalidHeaderError,
    /// The HTTP request could not be assembled.
    HttpError,
    /// The request did not finish within its timeout.
    TimeoutError,
    /// A response body could not be decoded.
    DeserializeError,
    /// The request could not be handed to the request service.
    SendError,
    /// The request service went away before it answered.
    ReceiveError,
    /// The response carried an unexpected status code, with a message or error code.
    ApiError(u16, String),
    /// The string given was not a valid URI.
    UriError,
}

impl Error {
    /// Errors that say something about the health of the address that was used:
    /// the connection failed, or the request ran out of time.
    pub open spec fn spec_is_connection_failure(&self) -> bool {
        self is HyperError || self is TimeoutError
    }

    pub fn is_connection_failure(&self) -> (r: bool)
        ensures
            r == self.spec_is_connection_failure(),
    {
        match self {
            Error::HyperError | Error::TimeoutError => true,
            _ => false,
        }
    }
}

pub open spec fn flattened<T, E>(result: Result<Result<T, E>, E>) -> Result<T, E> {
    match result {
        Ok(inner) => inner,
        Err(err) => Err(err),
    }
}

/// Merges an outer failure into the inner result.
pub fn flatten_result<T, E>(result: Result<Result<T, E>, E>) -> (r: Result<T, E>)
    ensures
        r == flattened(result),
{
    match result {
        Ok(value) => value,
        Err(err) => Err(err),
    }
}

} // verus!
