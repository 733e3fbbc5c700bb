use crate::error::Error;
use vstd::prelude::*;

verus! {

pub const STATUS_NOT_FOUND: u16 = 404;

pub const STATUS_METHOD_NOT_ALLOWED: u16 = 405;

/// The error body the backend sends with an unexpected status.
pub struct ErrorResponse {
    pub code: String,
}

/// What to do with a response once its status is known.
pub enum ResponseStep {
    /// The status is the expected one: hand the response to the caller.
    Accept,
    /// The call failed with this error; the body is not read.
    Fail(Error),
    /// Read the body as an `ErrorResponse` and pass it to `error_from_body`.
    DecodeErrorBody,
}

/// The fixed message of a status whose body need not follow the error schema.
pub open spec fn fixed_message(status: u16) -> Option<Seq<char>> {
    if status == STATUS_NOT_FOUND {
        Some("Not found"@)
    } else if status == STATUS_METHOD_NOT_ALLOWED {
        Some("Method not allowed"@)
    } else {
        None
    }
}

/// The step for a response with an unexpected `status`: a fixed message for
/// 404 and 405, else the body is decoded.
pub open spec fn error_step(status: u16, r: ResponseStep) -> bool {
    match fixed_message(status) {
        Some(msg) => r matches ResponseStep::Fail(Error::ApiError(s, m)) && s == status && m@ == msg,
        None => r is DecodeErrorBody,
    }
}

/// Decides on a response with an unexpected status.
pub fn handle_error_response(status: u16) -> (r: ResponseStep)
    ensures
        error_step(status, r),
{
    if status == STATUS_NOT_FOUND {
        ResponseStep::Fail(Error::ApiError(status, "Not found".to_string()))
    } else if status == STATUS_METHOD_NOT_ALLOWED {
        ResponseStep::Fail(Error::ApiError(status, "Method not allowed".to_string()))
    } else {
        ResponseStep::DecodeErrorBody
    }
}

/// Accepts a response with the expected status; any other goes to
/// `handle_error_response`.
pub fn parse_rest_response(status: u16, expected_status: u16) -> (r: ResponseStep)
    ensures
        status == expected_status ==> r is Accept,
        status != expected_status ==> error_step(status, r),
{
    if status != expected_status {
        return handle_error_response(status);
    }
    ResponseStep::Accept
}

/// The error of a response with an unexpected `status`, from the decoded
/// error body: the body's code, or the error that reading or decoding the
/// body ran into.
pub fn error_from_body(status: u16, decoded: Result<ErrorResponse, Error>) -> (r: Error)
    ensures
        match decoded {
            Ok(body) => r == Error::ApiError(status, body.code),
            Err(e) => r == e,
        },
{
    match decoded {
        Ok(body) => Error::ApiError(status, body.code),
        Err(e) => e,
    }
}

pub open spec fn is_digit(c: char) -> bool {
    '0' <= c && c <= '9'
}

pub open spec fn digit_value(c: char) -> nat {
    (c as u32 - '0' as u32) as nat
}

/// The number that a sequence of decimal digits spells.
pub open spec fn digits_value(s: Seq<char>) -> nat
    decreases s.len(),
{
    if s.len() == 0 {
        0
    } else {
        digits_value(s.drop_last()) * 10 + digit_value(s.last())
    }
}

/// The digits of a number text: without its leading `+`, if any.
pub open spec fn unsigned_digits(s: Seq<char>) -> Seq<char> {
    if s.len() > 0 && s[0] == '+' {
        s.skip(1)
    } else {
        s
    }
}

pub open spec fn all_digits(d: Seq<char>) -> bool {
    forall|i: int| 0 <= i < d.len() ==> is_digit(#[trigger] d[i])
}

/// What `usize::from_str` gives: an optional `+`, then one or more decimal
/// digits whose value fits.
pub open spec fn parsed_usize(s: Seq<char>) -> Option<usize> {
    let d = unsigned_digits(s);
    if d.len() > 0 && all_digits(d) && digits_value(d) <= usize::MAX {
        Some(digits_value(d) as usize)
    } else {
        None
    }
}

proof fn lemma_prefix_value_le(s: Seq<char>, i: int)
    requires
        0 <= i <= s.len(),
    ensures
        digits_value(s.subrange(0, i)) <= digits_value(s),
    decreases s.len(),
{
    if i < s.len() {
        lemma_prefix_value_le(s.drop_last(), i);
        assert(s.drop_last().subrange(0, i) =~= s.subrange(0, i));
    } else {
        assert(s.subrange(0, i) =~= s);
    }
}

/// Reads a decimal `usize` the way `usize::from_str` does.
pub fn parse_usize(s: &str) -> (r: Option<usize>)
    ensures
        r == parsed_usize(s@),
{
    let len = s.unicode_len();
    let mut start: usize = 0;
    if len > 0 && s.get_char(0) == '+' {
        start = 1;
    }
    let ghost d = unsigned_digits(s@);
    if start == len {
        return None;
    }
    let mut value: usize = 0;
    let mut i: usize = start;
    while i < len
        invariant
            start <= i <= len,
            len == s@.len(),
            start < len,
            d == s@.subrange(start as int, len as int),
            d == unsigned_digits(s@),
            forall|j: int| 0 <= j < i - start ==> is_digit(#[trigger] d[j]),
            value == digits_value(d.subrange(0, i - start)),
        decreases len - i,
    {
        let c = s.get_char(i);
        assert(c == d[i - start]);
        if c < '0' || c > '9' {
            let ghost k: int = i - start;
            assert(!is_digit(d[k]));
            return None;
        }
        let digit = (c as u32 - '0' as u32) as usize;
        assert(d.subrange(0, i + 1 - start).drop_last() =~= d.subrange(0, i - start));
        assert(digits_value(d.subrange(0, i + 1 - start)) == value * 10 + digit);
        if value > (usize::MAX - digit) / 10 {
            proof {
                assert(value * 10 + digit > usize::MAX) by (nonlinear_arith)
                    requires
                        value > (usize::MAX - digit) / 10,
                        digit <= 9,
                ;
                lemma_prefix_value_le(d, i + 1 - start);
                assert(digits_value(d) > usize::MAX);
            }
            return None;
        }
        assert(value * 10 + digit <= usize::MAX) by (nonlinear_arith)
            requires
                value <= (usize::MAX - digit) / 10,
                digit <= 9,
        ;
        value = value * 10 + digit;
        i = i + 1;
    }
    assert(d.subrange(0, len - start) =~= d);
    Some(value)
}

/// The capacity to reserve for a body: the declared content length where it
/// reads as a number, else nothing.
pub fn body_capacity(content_length: Option<&str>) -> (r: usize)
    ensures
        r == (match content_length {
            Some(text) => match parsed_usize(text@) {
                Some(n) => n,
                None => 0,
            },
            None => 0,
        }),
{
    match content_length {
        Some(text) => match parse_usize(text) {
            Some(n) => n,
            None => 0,
        },
        None => 0,
    }
}

/// Appends one received chunk to the body read so far.
pub fn extend_body(body: &mut Vec<u8>, chunk: &[u8])
    ensures
        final(body)@ == old(body)@ + chunk@,
{
    let mut i: usize = 0;
    while i < chunk.len()
        invariant
            i <= chunk@.len(),
            body@ == old(body)@ + chunk@.subrange(0, i as int),
        decreases chunk@.len() - i,
    {
        body.push(chunk[i]);
        i = i + 1;
    }
    assert(chunk@.subrange(0, chunk@.len() as int) =~= chunk@);
}

} // verus!
