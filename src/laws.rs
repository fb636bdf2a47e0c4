//! Properties of the executor that relate several calls or hold of every
//! response.

use vstd::prelude::*;
use crate::cache::{lemma_disabled_finds_nothing, ResponseCache};
use crate::error::ErrorView;
use crate::executor::{
    continuation_of, is_success, outcome, remembers, validator_for, IncomingView, Method,
    ReplyView, NOT_MODIFIED,
};
use crate::rate::{rate_of, reset_delay};

verus! {

/// The decoded part of a call's result: the payload, or the failure.
pub open spec fn decoded_part(r: Result<ReplyView, ErrorView>) -> Result<Option<Seq<u8>>, ErrorView> {
    match r {
        Ok(reply) => Ok(reply.payload),
        Err(e) => Err(e),
    }
}

/// Revalidation round trip. A successful GET of `uri` whose response
/// carries a validator is remembered by an enabled cache; when that first
/// call decoded to a value, a later GET of the same URI answered "not
/// modified" decodes to the same value. A "no content" first answer is
/// remembered with no body, which decodes to the same absent value.
pub proof fn lemma_revalidation_round_trip(
    before: ResponseCache,
    after: ResponseCache,
    uri: Seq<char>,
    first: IncomingView,
    second: IncomingView,
    first_at: u64,
    second_at: u64,
)
    requires
        before.is_enabled(),
        is_success(first.status),
        first.validator is Some,
        remembers(before, after, Method::Get, uri, first),
        second.status == NOT_MODIFIED,
    ensures
        outcome(before, uri, first, first_at) is Ok ==> decoded_part(outcome(after, uri, second, second_at))
            == decoded_part(outcome(before, uri, first, first_at)),
{
    assert(after.entry(uri) is Some);
}

/// When the "not modified" answer carries no `Link` header, the round trip
/// also hands back the first call's continuation: the whole result repeats.
pub proof fn lemma_revalidation_keeps_continuation(
    before: ResponseCache,
    after: ResponseCache,
    uri: Seq<char>,
    first: IncomingView,
    second: IncomingView,
    first_at: u64,
    second_at: u64,
)
    requires
        before.is_enabled(),
        is_success(first.status),
        first.validator is Some,
        remembers(before, after, Method::Get, uri, first),
        second.status == NOT_MODIFIED,
        second.link is None,
    ensures
        outcome(before, uri, first, first_at) is Ok ==> outcome(after, uri, second, second_at) == outcome(
            before,
            uri,
            first,
            first_at,
        ),
{
    assert(after.entry(uri) is Some);
}

/// Rate limiting. An unsuccessful response (neither 2xx nor "not
/// modified") that reports no calls left and a reset time is reported as
/// rate limited, with a delay of the reset time minus the present time,
/// and zero once the reset time has passed.
pub proof fn lemma_rate_limited_delay(
    cache: ResponseCache,
    uri: Seq<char>,
    resp: IncomingView,
    now: u64,
    reset: u64,
)
    requires
        !is_success(resp.status),
        resp.status != NOT_MODIFIED,
        rate_of(resp.remaining, resp.reset).remaining == Some(0u64),
        rate_of(resp.remaining, resp.reset).reset == Some(reset),
    ensures
        outcome(cache, uri, resp, now) == Err::<ReplyView, ErrorView>(
            ErrorView::RateLimited { reset_in: reset_delay(reset, now) },
        ),
        reset >= now ==> reset_delay(reset, now) == reset - now,
        reset < now ==> reset_delay(reset, now) == 0,
{
}

/// A "no content" response decodes to an explicit absent value, whatever
/// its body; it never fails to decode.
pub proof fn lemma_no_content_is_absent(cache: ResponseCache, uri: Seq<char>, resp: IncomingView, now: u64)
    requires
        resp.status == 204,
    ensures
        outcome(cache, uri, resp, now) == Ok::<ReplyView, ErrorView>(
            ReplyView { continuation: continuation_of(resp.link), payload: None },
        ),
{
}

/// With a disabled cache every call behaves as uncached: no request carries
/// a conditional-fetch precondition, and taking a response leaves the cache
/// finding nothing.
pub proof fn lemma_disabled_cache_is_uncached(
    before: ResponseCache,
    after: ResponseCache,
    method: Method,
    uri: Seq<char>,
    resp: IncomingView,
    other: Seq<char>,
)
    requires
        !before.is_enabled(),
        remembers(before, after, method, uri, resp),
    ensures
        validator_for(before, method, other) is None,
        validator_for(after, method, other) is None,
        after.entry(other) is None,
{
    lemma_disabled_finds_nothing(before, other);
    lemma_disabled_finds_nothing(after, other);
}

} // verus!
