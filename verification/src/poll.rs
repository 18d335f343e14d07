//! The poll loop's decisions. The loop itself — one detached worker that
//! fetches, hands successes to the UI, and sleeps between rounds — runs
//! outside; this module fixes its cadence and what each round does.

use vstd::prelude::*;

use crate::durations::ApiResponse;
use crate::remote::FetchError;

verus! {

/// Seconds the worker sleeps after each fetch, success or failure. The
/// first fetch happens immediately at startup.
pub const POLL_INTERVAL_SECS: u64 = 60;

/// What the worker does after one fetch.
pub enum WorkerDirective {
    /// Hand the response to the UI, then wait out the interval.
    Deliver(ApiResponse),
    /// Log the failure — the title stays as it was — and wait out the
    /// interval.
    LogAndWait(FetchError),
}

/// One round of the poll loop: a success is delivered, a failure is logged
/// and waited out.
pub fn worker_step(fetched: Result<ApiResponse, FetchError>) -> (d: WorkerDirective)
    ensures
        match fetched {
            Ok(resp) => d == WorkerDirective::Deliver(resp),
            Err(e) => d == WorkerDirective::LogAndWait(e),
        },
{
    match fetched {
        Ok(resp) => WorkerDirective::Deliver(resp),
        Err(e) => WorkerDirective::LogAndWait(e),
    }
}

/// Whether the worker keeps polling after a delivery: a failed send means
/// the UI loop is gone, which ends the worker; anything else does not.
pub fn worker_continues(send_ok: bool) -> (r: bool)
    ensures
        r == send_ok,
{
    send_ok
}

} // verus!
