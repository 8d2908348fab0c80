//! Snapshot data URLs: the image-format prefix and the base64 payload.
use crate::outcome::{FailureReason, FailureView};
use crate::text::{occurs_at, starts_with, trim, trimmed};
use base64::engine::general_purpose::STANDARD;
use base64::Engine;
use vstd::prelude::*;

verus! {

/// What base64's standard engine decodes a text to, if it accepts it.
pub uninterp spec fn base64_decoded(s: Seq<char>) -> Option<Seq<u8>>;

/// What base64's standard engine encodes bytes to.
pub uninterp spec fn base64_encoded(b: Seq<u8>) -> Seq<char>;

/// Relies on base64's `STANDARD.decode`. That engine accepts only canonical
/// padding and zero trailing bits, so encoding what it decoded gives back the
/// text it was given.
#[verifier::external_body]
fn decode_base64(s: &str) -> (r: Option<Vec<u8>>)
    ensures
        r is Some <==> base64_decoded(s@) is Some,
        r matches Some(b) ==> base64_decoded(s@) == Some(b@) && base64_encoded(b@) == s@,
{
    STANDARD.decode(s).ok()
}

/// Relies on base64's `STANDARD.encode`, which panics only when the encoded
/// length overflows `usize`.
#[verifier::external_body]
fn encode_base64(b: &[u8]) -> (r: String)
    requires
        b@.len() <= usize::MAX / 2,
    ensures
        r@ == base64_encoded(b@),
{
    STANDARD.encode(b)
}

/// The base64 payload of a snapshot: the trimmed data URL after its JPEG or PNG prefix.
pub open spec fn snapshot_payload(data_url: Seq<char>) -> Option<Seq<char>> {
    let t = trimmed(data_url);
    if occurs_at(t, "data:image/jpeg;base64,"@, 0) {
        Some(t.subrange("data:image/jpeg;base64,"@.len() as int, t.len() as int))
    } else if occurs_at(t, "data:image/png;base64,"@, 0) {
        Some(t.subrange("data:image/png;base64,"@.len() as int, t.len() as int))
    } else {
        None
    }
}

/// The bytes a snapshot holds, or `InvalidEncoding`.
pub open spec fn decoded_snapshot(data_url: Seq<char>) -> Result<Seq<u8>, FailureView> {
    match snapshot_payload(data_url) {
        Some(p) => match base64_decoded(p) {
            Some(b) => Ok(b),
            None => Err(FailureView::InvalidEncoding),
        },
        None => Err(FailureView::InvalidEncoding),
    }
}

pub open spec fn bytes_result_view(r: Result<Vec<u8>, FailureReason>) -> Result<Seq<u8>, FailureView> {
    match r {
        Ok(b) => Ok(b@),
        Err(e) => Err(e@),
    }
}

/// The base64 payload of a snapshot data URL, if it has a recognized image prefix.
pub fn payload_of(data_url: &str) -> (r: Option<&str>)
    ensures
        r matches Some(p) ==> snapshot_payload(data_url@) == Some(p@),
        r is None ==> snapshot_payload(data_url@) is None,
{
    let t = trim(data_url);
    let n = t.unicode_len();
    let jpeg = "data:image/jpeg;base64,";
    let png = "data:image/png;base64,";
    if starts_with(t, jpeg) {
        Some(t.substring_char(jpeg.unicode_len(), n))
    } else if starts_with(t, png) {
        Some(t.substring_char(png.unicode_len(), n))
    } else {
        None
    }
}

/// Decodes a snapshot data URL into the image bytes it carries. Encoding those
/// bytes again gives back the payload.
pub fn decode_snapshot(data_url: &str) -> (r: Result<Vec<u8>, FailureReason>)
    ensures
        bytes_result_view(r) == decoded_snapshot(data_url@),
        r matches Ok(b) ==> snapshot_payload(data_url@) matches Some(p) && base64_encoded(b@)
            == p,
{
    match payload_of(data_url) {
        Some(p) => match decode_base64(p) {
            Some(b) => Ok(b),
            None => Err(FailureReason::InvalidEncoding),
        },
        None => Err(FailureReason::InvalidEncoding),
    }
}

/// The base64 payload that encodes `bytes`.
pub fn encode_payload(bytes: &[u8]) -> (r: String)
    requires
        bytes@.len() <= usize::MAX / 2,
    ensures
        r@ == base64_encoded(bytes@),
{
    encode_base64(bytes)
}

} // verus!
