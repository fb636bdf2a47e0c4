//! The failures a call through the pipeline can end in.

use vstd::prelude::*;

verus! {

/// Why a call failed. None of these is retried by the pipeline.
#[derive(Clone, Debug, PartialEq, Eq)]
pub enum ApiError {
    /// The credential that the call needs is missing, or the call's
    /// constraint cannot be met by the credential at hand; nothing was sent.
    AuthUnavailable,
    /// The token-issuing endpoint failed or answered without a token.
    TokenRefreshFailed,
    /// The quota is spent; it is restored after `reset_in` seconds.
    RateLimited { reset_in: u64 },
    /// Any other unsuccessful status, with the body that came with it.
    RequestFailed { status: u16, body: Vec<u8> },
    /// The body is not the JSON document the call expects.
    DecodeFailed,
    /// A "not modified" answer arrived but no cached body is there to use.
    CacheUnreachable,
    /// The address of the call is not a valid absolute URL.
    InvalidUrl,
}

/// The mathematical value of an [`ApiError`].
pub enum ErrorView {
    AuthUnavailable,
    TokenRefreshFailed,
    RateLimited { reset_in: u64 },
    RequestFailed { status: u16, body: Seq<u8> },
    DecodeFailed,
    CacheUnreachable,
    InvalidUrl,
}

impl View for ApiError {
    type V = ErrorView;

    open spec fn view(&self) -> ErrorView {
        match self {
            ApiError::AuthUnavailable => ErrorView::AuthUnavailable,
            ApiError::TokenRefreshFailed => ErrorView::TokenRefreshFailed,
            ApiError::RateLimited { reset_in } => ErrorView::RateLimited { reset_in: *reset_in },
            ApiError::RequestFailed { status, body } => ErrorView::RequestFailed {
                status: *status,
                body: body@,
            },
            ApiError::DecodeFailed => ErrorView::DecodeFailed,
            ApiError::CacheUnreachable => ErrorView::CacheUnreachable,
            ApiError::InvalidUrl => ErrorView::InvalidUrl,
        }
    }
}

/// The text of a byte string read as UTF-8, each invalid sequence replaced
/// by U+FFFD.
pub uninterp spec fn lossy_of(b: Seq<u8>) -> Seq<char>;

/// Relies on `String::from_utf8_lossy`: the text, with invalid sequences
/// replaced, which depends on the bytes alone.
#[verifier::external_body]
fn lossy_text(b: &[u8]) -> (r: String)
    ensures
        r@ == lossy_of(b@),
{
    String::from_utf8_lossy(b).into_owned()
}

/// A text as `Debug` writes a `str`: quoted, with special characters
/// escaped.
pub uninterp spec fn debug_of(s: Seq<char>) -> Seq<char>;

/// Relies on the `Debug` impl of `str`: the quoted, escaped text, which
/// depends on the characters alone.
#[verifier::external_body]
fn debug_quoted(s: &str) -> (r: String)
    ensures
        r@ == debug_of(s@),
{
    format!("{:?}", s)
}

/// The message of a failed call with `status` whose body reads as
/// `excerpt`.
pub open spec fn failure_text(status: u16, excerpt: Seq<char>) -> Seq<char> {
    "code: "@ + crate::text::decimal(status as nat) + ", error: "@ + excerpt
}

/// The message of a failed call with `status`, given its body's excerpt.
pub fn failure_message(status: u16, excerpt: &str) -> (r: String)
    ensures
        r@ == failure_text(status, excerpt@),
{
    let mut m = String::from_str("code: ");
    crate::text::push_decimal(&mut m, status as u64);
    m.append(", error: ");
    m.append(excerpt);
    m
}

impl ApiError {
    /// The message that describes the failure.
    pub fn message(&self) -> (r: String)
        ensures
            r@ == message_of(self@),
    {
        match self {
            ApiError::AuthUnavailable => String::from_str("no credential satisfies the request"),
            ApiError::TokenRefreshFailed => String::from_str("could not obtain an access token"),
            ApiError::RateLimited { reset_in } => {
                let mut m = String::from_str("rate limit exceeded, will reset in ");
                crate::text::push_decimal(&mut m, *reset_in);
                m.append(" seconds");
                m
            },
            ApiError::RequestFailed { status, body } => {
                if body.len() == 0 {
                    let mut m = String::from_str("code: ");
                    crate::text::push_decimal(&mut m, *status as u64);
                    m.append(", empty response");
                    m
                } else {
                    let text = lossy_text(body.as_slice());
                    failure_message(*status, debug_quoted(text.as_str()).as_str())
                }
            },
            ApiError::DecodeFailed => String::from_str("response body could not be decoded"),
            ApiError::CacheUnreachable => String::from_str("not modified, but no cached response"),
            ApiError::InvalidUrl => String::from_str("invalid request URL"),
        }
    }
}

/// The message of each failure.
pub open spec fn message_of(e: ErrorView) -> Seq<char> {
    match e {
        ErrorView::AuthUnavailable => "no credential satisfies the request"@,
        ErrorView::TokenRefreshFailed => "could not obtain an access token"@,
        ErrorView::RateLimited { reset_in } => "rate limit exceeded, will reset in "@ + crate::text::decimal(
            reset_in as nat,
        ) + " seconds"@,
        ErrorView::RequestFailed { status, body } => if body.len() == 0 {
            "code: "@ + crate::text::decimal(status as nat) + ", empty response"@
        } else {
            failure_text(status, debug_of(lossy_of(body)))
        },
        ErrorView::DecodeFailed => "response body could not be decoded"@,
        ErrorView::CacheUnreachable => "not modified, but no cached response"@,
        ErrorView::InvalidUrl => "invalid request URL"@,
    }
}

} // verus!
