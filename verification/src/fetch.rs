//! The HTTP fetch client's rules: the deadline of a fetch, and what an
//! exchange with the server amounts to.
//!
//! The exchange itself is performed by the caller. It reports what
//! happened as an [`Exchange`], and [`fetch_http_get_result`] says what the
//! fetch yields.

use vstd::prelude::*;
use vstd::utf8::valid_utf8;
use sp_core::offchain::{Duration, Timestamp};

verus! {

/// How long a fetch may take unless the caller says otherwise, in
/// milliseconds, from sending the request to the arrival of the response.
pub const FETCH_TIMEOUT_MS: u64 = 2_000;

/// The status code of a response that is accepted.
pub const STATUS_OK: u16 = 200;

/// An error that the host's HTTP interface reports.
#[derive(Clone, Copy, Debug, PartialEq, Eq, Structural)]
pub enum HttpError {
    /// The deadline was reached.
    DeadlineReached,
    /// The request timed out or the connection failed.
    IoError,
    /// Some other error.
    Unknown,
}

/// Why a fetch yielded no data.
#[derive(Clone, Copy, Debug, PartialEq, Eq, Structural)]
pub enum FetchError {
    /// No response arrived before the deadline.
    DeadlineExceeded,
    /// The request could not be sent, or the connection failed.
    Transport,
    /// The server answered with a status other than [`STATUS_OK`].
    BadStatus,
    /// The body of the response is not valid UTF-8.
    InvalidEncoding,
}

/// What happened to one HTTP request.
#[derive(Clone, Debug, PartialEq, Eq)]
pub enum Exchange {
    /// The request could not be sent.
    NotSent,
    /// No response arrived before the deadline.
    TimedOut,
    /// The host reported an error in place of a response.
    Failed(HttpError),
    /// A response arrived. The body is read only where [`accepts`] holds of
    /// the status code, and is left empty otherwise.
    Response { code: u16, body: Vec<u8> },
}

/// What a fetch yields after the given exchange: the body of an accepted
/// response, or the reason why there is none.
pub open spec fn fetch_result(exchange: Exchange) -> Result<Seq<u8>, FetchError> {
    match exchange {
        Exchange::NotSent => Err(FetchError::Transport),
        Exchange::TimedOut => Err(FetchError::DeadlineExceeded),
        Exchange::Failed(HttpError::DeadlineReached) => Err(FetchError::DeadlineExceeded),
        Exchange::Failed(_) => Err(FetchError::Transport),
        Exchange::Response { code, body } => if code != STATUS_OK {
            Err(FetchError::BadStatus)
        } else if !valid_utf8(body@) {
            Err(FetchError::InvalidEncoding)
        } else {
            Ok(body@)
        },
    }
}

/// The point in time `timeout` milliseconds after `now`, both in
/// milliseconds since the epoch; the end of time where that cannot be
/// represented.
pub open spec fn deadline_after(now: u64, timeout: u64) -> u64 {
    if now + timeout <= u64::MAX {
        (now + timeout) as u64
    } else {
        u64::MAX
    }
}

/// `sp_core::offchain::Timestamp::add` moves a timestamp forward by a
/// duration and stops at the largest timestamp there is. This is not
/// proved: the contract restates the one line of that function.
#[verifier::external_body]
fn timestamp_add(now: u64, millis: u64) -> (at: u64)
    ensures
        at == deadline_after(now, millis),
{
    Timestamp::from_unix_millis(now).add(Duration::from_millis(millis)).unix_millis()
}

/// The deadline of a fetch that starts at `now` and may take `timeout`
/// milliseconds. One deadline covers the sending of the request and the
/// wait for the response.
pub fn deadline(now: u64, timeout: u64) -> (at: u64)
    ensures
        at == deadline_after(now, timeout),
{
    timestamp_add(now, timeout)
}

/// Whether a response with this status code is accepted. The body of a
/// response that is not accepted need not be read.
pub fn accepts(code: u16) -> (ok: bool)
    ensures
        ok == (code == STATUS_OK),
{
    code == STATUS_OK
}

/// `core::str::from_utf8` succeeds on exactly the byte strings that are
/// valid UTF-8. This is not proved: the contract restates the standard
/// library's documentation over `vstd`'s definition of UTF-8.
#[verifier::external_body]
fn is_utf8(bytes: &[u8]) -> (ok: bool)
    ensures
        ok == valid_utf8(bytes@),
{
    core::str::from_utf8(bytes).is_ok()
}

/// What a fetch yields after the given exchange.
pub fn fetch_http_get_result(exchange: Exchange) -> (res: Result<Vec<u8>, FetchError>)
    ensures
        match fetch_result(exchange) {
            Ok(body) => res matches Ok(data) && data@ == body,
            Err(e) => res == Err::<Vec<u8>, FetchError>(e),
        },
{
    match exchange {
        Exchange::NotSent => Err(FetchError::Transport),
        Exchange::TimedOut => Err(FetchError::DeadlineExceeded),
        Exchange::Failed(HttpError::DeadlineReached) => Err(FetchError::DeadlineExceeded),
        Exchange::Failed(_) => Err(FetchError::Transport),
        Exchange::Response { code, body } => {
            if !accepts(code) {
                Err(FetchError::BadStatus)
            } else if !is_utf8(body.as_slice()) {
                Err(FetchError::InvalidEncoding)
            } else {
                Ok(body)
            }
        },
    }
}

} // verus!
