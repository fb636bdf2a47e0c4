//! What a successful response decodes to.

use vstd::prelude::*;
use crate::error::{ApiError, ErrorView};

verus! {

/// The decoded result of a call: nothing, for a "no content" status, or a
/// well-formed JSON document, which the caller reads as the type it expects.
#[derive(Clone, Debug, PartialEq, Eq)]
pub enum Payload {
    Absent,
    Json(Vec<u8>),
}

/// The mathematical value of a payload: `None` when absent.
pub open spec fn payload_view(p: Payload) -> Option<Seq<u8>> {
    match p {
        Payload::Absent => None,
        Payload::Json(b) => Some(b@),
    }
}

/// The mathematical value of a decoding result.
pub open spec fn payload_result(r: Result<Payload, ApiError>) -> Result<Option<Seq<u8>>, ErrorView> {
    match r {
        Ok(p) => Ok(payload_view(p)),
        Err(e) => Err(e@),
    }
}

/// Whether `b` is a JSON document, as serde_json reads one.
pub uninterp spec fn json_accepts(b: Seq<u8>) -> bool;

/// Relies on `serde_json::from_slice` into `serde_json::Value`: it succeeds
/// on a well-formed JSON document, whether it does depends on the bytes
/// alone, and empty input fails (end of input while parsing a value).
#[verifier::external_body]
fn is_json(b: &[u8]) -> (r: bool)
    ensures
        r == json_accepts(b@),
        b@.len() == 0 ==> !r,
{
    serde_json::from_slice::<serde_json::Value>(b).is_ok()
}

/// A body that must hold JSON, decoded.
pub open spec fn decoded_body(body: Seq<u8>, well_formed: bool) -> Result<Option<Seq<u8>>, ErrorView> {
    if well_formed {
        Ok(Some(body))
    } else {
        Err(ErrorView::DecodeFailed)
    }
}

/// The body of a successful response with status `status`, decoded: a "no
/// content" status is absent whatever the body; any other needs JSON, which
/// an empty body never is.
pub open spec fn decoded(status: u16, body: Seq<u8>, well_formed: bool) -> Result<Option<Seq<u8>>, ErrorView> {
    if status == 204 {
        Ok(None)
    } else if body.len() == 0 {
        Err(ErrorView::DecodeFailed)
    } else {
        decoded_body(body, well_formed)
    }
}

/// Decodes a successful response, given whether its body is well-formed
/// JSON.
pub fn payload_from(status: u16, body: Vec<u8>, well_formed: bool) -> (r: Result<Payload, ApiError>)
    ensures
        payload_result(r) == decoded(status, body@, well_formed),
{
    if status == 204 {
        Ok(Payload::Absent)
    } else if body.len() == 0 {
        Err(ApiError::DecodeFailed)
    } else if well_formed {
        Ok(Payload::Json(body))
    } else {
        Err(ApiError::DecodeFailed)
    }
}

/// Decodes the body of a successful response with status `status`.
pub fn decode(status: u16, body: Vec<u8>) -> (r: Result<Payload, ApiError>)
    ensures
        payload_result(r) == decoded(status, body@, json_accepts(body@)),
{
    if status == 204 {
        return Ok(Payload::Absent);
    }
    if body.len() == 0 {
        return Err(ApiError::DecodeFailed);
    }
    let well_formed = is_json(body.as_slice());
    payload_from(status, body, well_formed)
}

/// A cached body, decoded: an empty one stands for a "no content" answer
/// and is absent; any other needs JSON.
pub open spec fn cached_decoded(body: Seq<u8>) -> Result<Option<Seq<u8>>, ErrorView> {
    if body.len() == 0 {
        Ok(None)
    } else {
        decoded_body(body, json_accepts(body))
    }
}

/// Decodes a body taken from the response cache.
pub fn decode_cached(body: Vec<u8>) -> (r: Result<Payload, ApiError>)
    ensures
        payload_result(r) == cached_decoded(body@),
{
    if body.len() == 0 {
        return Ok(Payload::Absent);
    }
    decode(200, body)
}

} // verus!
