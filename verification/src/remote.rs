//! The request to the remote time-tracking service, and the classification
//! of what comes back.
//!
//! The HTTP exchange itself happens outside; this module builds the URL to
//! fetch and decides, from the status line and the decoded body, whether a
//! fetch succeeded and with which error it failed.

use vstd::prelude::*;

use crate::durations::ApiResponse;

verus! {

/// Why one fetch failed. Every failure is logged and retried on the next
/// poll tick; none updates the title.
#[derive(Debug)]
pub enum FetchError {
    /// The service answered with a non-success status.
    Http { status: u16 },
    /// The request itself failed (connection, TLS, or the like).
    Network,
    /// A success answer whose body did not decode as a durations response.
    Decode,
}

/// The URL that asks for the durations of `date`.
pub open spec fn url_spec(date: Seq<char>) -> Seq<char> {
    "https://wakatime.com/api/v1/users/current/durations?date="@ + date
}

/// Build the URL that asks for the durations of `date` (`YYYY-MM-DD`).
pub fn request_url(date: &str) -> (r: String)
    ensures
        r@ == url_spec(date@),
{
    String::from_str("https://wakatime.com/api/v1/users/current/durations?date=").concat(date)
}

/// Relies on chrono::Local::now and chrono's `%Y-%m-%d` formatting: today's
/// date in the local time zone. The value depends on the clock and the time
/// zone, so nothing is promised of it.
#[verifier::external_body]
fn local_date_string() -> (r: String) {
    chrono::Local::now().format("%Y-%m-%d").to_string()
}

/// The URL to fetch now: the fixed endpoint with today's local date as the
/// `date` query parameter.
pub fn todays_url() -> (r: String)
    ensures
        exists|date: Seq<char>| r@ == url_spec(date),
{
    let date = local_date_string();
    let r = request_url(date.as_str());
    proof {
        assert(r@ == url_spec(date@));
    }
    r
}

/// Whether an HTTP status line reports success.
pub fn status_is_success(status: u16) -> (r: bool)
    ensures
        r == (200 <= status < 300),
{
    200 <= status && status < 300
}

/// Decide the outcome of one fetch from the status line and the decoded
/// body, where the caller managed to decode one. `Ok` exactly when the
/// status reports success and the body decoded; a non-success status is
/// surfaced with its code, a success status without a decoded body as a
/// decode failure.
pub fn classify_response(status: u16, decoded: Option<ApiResponse>) -> (r: Result<
    ApiResponse,
    FetchError,
>)
    ensures
        200 <= status < 300 && decoded is Some ==> (r matches Ok(resp) && decoded == Some(resp)),
        200 <= status < 300 && decoded is None ==> (r matches Err(e) && e is Decode),
        !(200 <= status < 300) ==> (r matches Err(e) && e == (FetchError::Http { status })),
{
    if status_is_success(status) {
        match decoded {
            Some(resp) => Ok(resp),
            None => Err(FetchError::Decode),
        }
    } else {
        Err(FetchError::Http { status })
    }
}

} // verus!
