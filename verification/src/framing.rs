//! Framing: one length-delimited envelope per logical message.
//!
//! A frame is a 4-byte little-endian length followed by the serialized body.
//! Every read is assumed to deliver exactly one frame, which must fit the
//! configured buffer capacity; an oversized body is refused outright rather
//! than truncated.

use vstd::prelude::*;
use crate::error::Error;
use crate::wire::{bytes_fit, spec_enc_bytes, spec_dec_bytes, push_bytes_seg, read_bytes_seg};

verus! {

/// The bytes of one frame around a body.
pub open spec fn spec_frame(body: Seq<u8>) -> Seq<u8> {
    spec_enc_bytes(body)
}

/// Whether a framed body fits a buffer of `max` bytes.
pub open spec fn frame_fits(body: Seq<u8>, max: int) -> bool {
    4 + body.len() <= max
}

/// Parse a byte sequence as exactly one frame: its body.
pub open spec fn spec_unframe(b: Seq<u8>) -> Option<Seq<u8>> {
    match spec_dec_bytes(b) {
        Some((body, rest)) => if rest.len() == 0 {
            Some(body)
        } else {
            None
        },
        None => None,
    }
}

/// Wrap a body in a frame bounded by the buffer capacity `max`.
pub fn frame_bytes(body: &[u8], max: usize) -> (r: Result<Vec<u8>, Error>)
    ensures
        r matches Ok(b) ==> bytes_fit(body@) && frame_fits(body@, max as int) && b@ == spec_frame(
            body@,
        ),
        r is Err ==> !(bytes_fit(body@) && frame_fits(body@, max as int)) && r == Err::<
            Vec<u8>,
            Error,
        >(Error::PayloadTooLarge),
{
    if body.len() > usize::MAX - 4 || body.len() + 4 > max {
        return Err(Error::PayloadTooLarge);
    }
    let mut out: Vec<u8> = Vec::new();
    if !push_bytes_seg(&mut out, body) {
        return Err(Error::PayloadTooLarge);
    }
    Ok(out)
}

/// Read exactly one frame out of a received buffer: its body.
pub fn unframe_bytes(buf: &[u8]) -> (r: Result<Vec<u8>, Error>)
    ensures
        r matches Ok(b) ==> spec_unframe(buf@) == Some(b@),
        r is Err ==> spec_unframe(buf@) is None && r == Err::<Vec<u8>, Error>(
            Error::Deserialization,
        ),
{
    assert(buf@.skip(0) =~= buf@);
    match read_bytes_seg(buf, 0) {
        Some((body, end)) => {
            if end == buf.len() {
                assert(buf@.skip(end as int).len() == 0);
                Ok(body)
            } else {
                assert(buf@.skip(end as int).len() > 0);
                Err(Error::Deserialization)
            }
        },
        None => Err(Error::Deserialization),
    }
}

/// Unframing undoes framing: the round trip of the frame layer.
pub proof fn lemma_frame_round_trip(body: Seq<u8>)
    requires
        bytes_fit(body),
    ensures
        spec_unframe(spec_frame(body)) == Some(body),
{
    crate::wire::lemma_bytes_seg_round_trip(body, Seq::<u8>::empty());
    assert(spec_frame(body) + Seq::<u8>::empty() =~= spec_frame(body));
}

} // verus!
