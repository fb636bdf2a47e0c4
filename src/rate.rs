//! Rate-limit headers and the classification of failed responses.

use vstd::prelude::*;
use crate::error::{ApiError, ErrorView};
use crate::text::{parse_u64, parsed_u64};

verus! {

/// The rate-limit state a response reports.
#[derive(Clone, Copy, PartialEq, Eq, Structural, Debug)]
pub struct RateState {
    /// Calls left in the current window.
    pub remaining: Option<u64>,
    /// When the window resets, in seconds since the epoch.
    pub reset: Option<u64>,
}

/// A header value read as a number; absent when missing or not a number.
pub open spec fn header_number(h: Option<Seq<char>>) -> Option<u64> {
    match h {
        Some(v) => parsed_u64(v),
        None => None,
    }
}

/// The rate-limit state of the two headers.
pub open spec fn rate_of(remaining: Option<Seq<char>>, reset: Option<Seq<char>>) -> RateState {
    RateState { remaining: header_number(remaining), reset: header_number(reset) }
}

fn read_number(h: &Option<String>) -> (r: Option<u64>)
    ensures
        r == header_number(crate::text::opt_view(*h)),
{
    match h {
        Some(v) => parse_u64(v.as_str()),
        None => None,
    }
}

/// Reads the rate-limit headers of a response.
pub fn read_rate_state(remaining: &Option<String>, reset: &Option<String>) -> (r: RateState)
    ensures
        r == rate_of(crate::text::opt_view(*remaining), crate::text::opt_view(*reset)),
{
    RateState { remaining: read_number(remaining), reset: read_number(reset) }
}

/// Seconds from `now` until `reset`; zero once it has passed.
pub open spec fn reset_delay(reset: u64, now: u64) -> u64 {
    if reset >= now {
        (reset - now) as u64
    } else {
        0
    }
}

/// The failure an unsuccessful response stands for: rate limiting when no
/// calls are left and the reset time is known, else the status and body.
pub open spec fn failure_of(status: u16, rate: RateState, body: Seq<u8>, now: u64) -> ErrorView {
    match (rate.remaining, rate.reset) {
        (Some(left), Some(reset)) if left == 0 => ErrorView::RateLimited { reset_in: reset_delay(reset, now) },
        _ => ErrorView::RequestFailed { status, body },
    }
}

/// Classifies an unsuccessful response, at time `now` in seconds since the
/// epoch.
pub fn classify_failure(status: u16, rate: RateState, body: Vec<u8>, now: u64) -> (r: ApiError)
    ensures
        r@ == failure_of(status, rate, body@, now),
{
    match (rate.remaining, rate.reset) {
        (Some(left), Some(reset)) if left == 0 => ApiError::RateLimited {
            reset_in: if reset >= now { reset - now } else { 0 },
        },
        _ => ApiError::RequestFailed { status, body },
    }
}

} // verus!
