use crate::error::Error;
use vstd::prelude::*;

verus! {

#[verifier::external_type_specification]
#[verifier::external_body]
pub struct ExAborted(futures::future::Aborted);

#[verifier::external_type_specification]
#[verifier::external_body]
pub struct ExElapsed(tokio::time::Elapsed);

/// How one request ended. A cancellation wins over an expired timeout, and an
/// expired timeout wins over whatever the connection produced.
pub enum RequestOutcome<T> {
    Cancelled,
    TimedOut,
    Finished(Result<T, Error>),
}

pub open spec fn outcome_result<T>(outcome: RequestOutcome<T>) -> Result<T, Error> {
    match outcome {
        RequestOutcome::Cancelled => Err(Error::Aborted),
        RequestOutcome::TimedOut => Err(Error::TimeoutError),
        RequestOutcome::Finished(result) => result,
    }
}

pub open spec fn layers_outcome<T, E>(
    layers: Result<Result<Result<T, E>, futures::future::Aborted>, tokio::time::Elapsed>,
) -> RequestOutcome<T> {
    match layers {
        Err(_) => RequestOutcome::TimedOut,
        Ok(Err(_)) => RequestOutcome::Cancelled,
        Ok(Ok(Err(_))) => RequestOutcome::Finished(Err(Error::HyperError)),
        Ok(Ok(Ok(v))) => RequestOutcome::Finished(Ok(v)),
    }
}

/// The outcome of a request run as a timeout around an abortable HTTP call.
/// The timeout is the outer layer: when it reports expiry, the call had not
/// finished, so the outcome is `TimedOut` even where the call was about to
/// succeed. An abort observed by the call is `Cancelled`; a transport error
/// becomes `HyperError`.
pub fn outcome_from_layers<T, E>(
    layers: Result<Result<Result<T, E>, futures::future::Aborted>, tokio::time::Elapsed>,
) -> (r: RequestOutcome<T>)
    ensures
        r == layers_outcome(layers),
{
    match layers {
        Err(_) => RequestOutcome::TimedOut,
        Ok(Err(_)) => RequestOutcome::Cancelled,
        Ok(Ok(Err(_))) => RequestOutcome::Finished(Err(Error::HyperError)),
        Ok(Ok(Ok(v))) => RequestOutcome::Finished(Ok(v)),
    }
}

/// Whether a finished request must be reported to the address cache as a
/// connection failure of `host_addr`: only a literal network address (given
/// as `Some`), and only a transport or timeout failure.
pub open spec fn reports_failure<T, A>(host_addr: Option<A>, response: Result<T, Error>) -> bool {
    &&& host_addr is Some
    &&& match response {
        Err(err) => err.spec_is_connection_failure(),
        Ok(_) => false,
    }
}

/// Resolves an outcome into what the caller receives, and the address (if
/// any) whose connection failure must be registered with the address cache.
pub fn finish_request<T, A>(outcome: RequestOutcome<T>, host_addr: Option<A>) -> (r: (
    Result<T, Error>,
    Option<A>,
))
    ensures
        r.0 == outcome_result(outcome),
        r.1 is Some <==> reports_failure(host_addr, r.0),
        r.1 is Some ==> r.1 == host_addr,
{
    let response = match outcome {
        RequestOutcome::Cancelled => Err(Error::Aborted),
        RequestOutcome::TimedOut => Err(Error::TimeoutError),
        RequestOutcome::Finished(result) => result,
    };
    let report = match &response {
        Err(err) => err.is_connection_failure(),
        Ok(_) => false,
    };
    if report {
        (response, host_addr)
    } else {
        (response, None)
    }
}

/// A request whose timeout expired before its call finished ends in
/// `TimeoutError`, never in a response; it is reported as a connection
/// failure when its host is a literal address.
pub proof fn lemma_expired_timeout_is_timed_out<T, E, A>(
    layers: Result<Result<Result<T, E>, futures::future::Aborted>, tokio::time::Elapsed>,
    host_addr: Option<A>,
)
    requires
        layers is Err,
    ensures
        outcome_result(layers_outcome(layers)) == Err::<T, Error>(Error::TimeoutError),
        reports_failure(host_addr, outcome_result(layers_outcome(layers))) <==> host_addr is Some,
{
}

/// Errors raised while building a request, and cancellations, never reach
/// the address cache, whatever the host; transport and timeout failures
/// reach it exactly when the host is a literal address.
pub proof fn lemma_only_connection_failures_reported<T, A>(host_addr: Option<A>, err: Error)
    ensures
        (err is UriError || err is InvalidHeaderError || err is HttpError || err is Aborted)
            ==> !reports_failure(host_addr, Err::<T, Error>(err)),
        (err is HyperError || err is TimeoutError) ==> (reports_failure(
            host_addr,
            Err::<T, Error>(err),
        ) <==> host_addr is Some),
        forall|v: T| !reports_failure(host_addr, Ok::<T, Error>(v)),
{
}

} // verus!
