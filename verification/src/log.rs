//! Handling of the driver's information logs.
//!
//! After a failed compile or link the driver fills a caller-supplied byte
//! buffer with a diagnostic log and reports how many bytes it wrote. The
//! renderer reads at most 1024 bytes of it: the log is truncated to the
//! reported length, clamped to that fixed bound and to the buffer actually
//! handed over, and then decoded as text, with invalid byte sequences
//! replaced rather than rejected.

use vstd::prelude::*;
use vstd::slice::{slice_subrange, slice_to_vec};

verus! {

/// The bytes of a driver log that are kept: the first `reported_len` bytes,
/// clamped to the fixed bound and to what the buffer holds; a negative
/// reported length keeps nothing.
pub open spec fn spec_truncate_log(raw: Seq<u8>, reported_len: int) -> Seq<u8> {
    let clamped = if reported_len < 0 {
        0
    } else if reported_len > 1024 {
        1024
    } else {
        reported_len
    };
    if clamped > raw.len() {
        raw
    } else {
        raw.take(clamped)
    }
}

/// A kept log never exceeds the fixed bound.
pub proof fn lemma_truncate_log_bounded(raw: Seq<u8>, reported_len: int)
    ensures
        spec_truncate_log(raw, reported_len).len() <= 1024,
{
}

/// Truncate a driver log buffer to the length the driver reported, clamped
/// to the fixed bound and to the buffer itself.
pub fn truncate_info_log(raw: &[u8], reported_len: i32) -> (out: Vec<u8>)
    ensures
        out@ == spec_truncate_log(raw@, reported_len as int),
{
    let clamped: usize = if reported_len < 0 {
        0
    } else if reported_len > 1024 {
        1024
    } else {
        reported_len as usize
    };
    if clamped > raw.len() {
        slice_to_vec(raw)
    } else {
        slice_to_vec(slice_subrange(raw, 0, clamped))
    }
}

/// What decoding a byte sequence as text with replacement yields.
pub uninterp spec fn lossy_decode(bytes: Seq<u8>) -> Seq<char>;

/// Relies on String::from_utf8_lossy: the result depends on the bytes
/// alone, and bytes that are valid text — in particular, plain ASCII —
/// come through unchanged.
#[verifier::external_body]
fn decode_utf8_lossy(bytes: &Vec<u8>) -> (r: String)
    ensures
        r@ == lossy_decode(bytes@),
        (forall|i: int| 0 <= i < bytes@.len() ==> bytes@[i] < 128) ==> (r@.len() == bytes@.len()
            && (forall|i: int| 0 <= i < bytes@.len() ==> r@[i] as u32 == bytes@[i] as u32)),
{
    String::from_utf8_lossy(bytes.as_slice()).into_owned()
}

/// The text of a driver log, given the buffer the driver filled and the
/// length it reported: the kept bytes, decoded with replacement.
pub fn get_info_log(raw: &[u8], reported_len: i32) -> (log: String)
    ensures
        log@ == lossy_decode(spec_truncate_log(raw@, reported_len as int)),
{
    let kept = truncate_info_log(raw, reported_len);
    decode_utf8_lossy(&kept)
}

} // verus!
