//! Length-prefixed segments: the primitive layer of the wire format.
//!
//! Every variable-length field of an envelope travels as a segment: a 4-byte
//! little-endian length followed by that many bytes. Strings travel as the
//! segment of their UTF-8 encoding. Encoding and decoding are exact inverses,
//! which the lemmas at the bottom state.

use vstd::prelude::*;
use vstd::bytes::*;
use vstd::slice::{slice_subrange, slice_to_vec};
use vstd::string::StrSliceExecFns;
use vstd::utf8::{encode_utf8, decode_utf8, valid_utf8};
use vstd::utf8::{encode_utf8_valid_utf8, encode_utf8_decode_utf8};

verus! {

/// Whether a byte field is short enough for a 4-byte length prefix.
pub open spec fn bytes_fit(b: Seq<u8>) -> bool {
    b.len() <= u32::MAX
}

/// Whether a string's UTF-8 form is short enough for a 4-byte length prefix.
pub open spec fn str_fit(s: Seq<char>) -> bool {
    encode_utf8(s).len() <= u32::MAX
}

/// A byte field as a segment: 4-byte little-endian length, then the bytes.
pub open spec fn spec_enc_bytes(b: Seq<u8>) -> Seq<u8> {
    spec_u32_to_le_bytes(b.len() as u32) + b
}

/// A string as a segment of its UTF-8 encoding.
pub open spec fn spec_enc_str(s: Seq<char>) -> Seq<u8> {
    spec_enc_bytes(encode_utf8(s))
}

/// Parse one byte segment off the front of `b`: the field and what follows it.
pub open spec fn spec_dec_bytes(b: Seq<u8>) -> Option<(Seq<u8>, Seq<u8>)> {
    if b.len() < 4 {
        None
    } else {
        let n = spec_u32_from_le_bytes(b.take(4)) as int;
        if b.len() - 4 < n {
            None
        } else {
            Some((b.subrange(4, 4 + n), b.skip(4 + n)))
        }
    }
}

/// Parse one string segment off the front of `b`; the field must be UTF-8.
pub open spec fn spec_dec_str(b: Seq<u8>) -> Option<(Seq<char>, Seq<u8>)> {
    match spec_dec_bytes(b) {
        Some((field, rest)) => if valid_utf8(field) {
            Some((decode_utf8(field), rest))
        } else {
            None
        },
        None => None,
    }
}

/// Append the segment form of `b` to `out`; refuse a field too long to prefix.
pub fn push_bytes_seg(out: &mut Vec<u8>, b: &[u8]) -> (ok: bool)
    ensures
        ok <==> bytes_fit(b@),
        ok ==> final(out)@ == old(out)@ + spec_enc_bytes(b@),
        !ok ==> final(out)@ == old(out)@,
{
    if b.len() as u64 > u32::MAX as u64 {
        return false;
    }
    let mut len_bytes = u32_to_le_bytes(b.len() as u32);
    out.append(&mut len_bytes);
    out.extend_from_slice(b);
    assert(out@ =~= old(out)@ + spec_enc_bytes(b@));
    true
}

/// Append the segment form of a string to `out`.
pub fn push_str_seg(out: &mut Vec<u8>, s: &str) -> (ok: bool)
    ensures
        ok <==> str_fit(s@),
        ok ==> final(out)@ == old(out)@ + spec_enc_str(s@),
        !ok ==> final(out)@ == old(out)@,
{
    let bytes = s.as_bytes_vec();
    push_bytes_seg(out, bytes.as_slice())
}

/// Read one byte segment of `buf` starting at `pos`: the field and the
/// position just past it. `None` exactly when no well-formed segment starts
/// there.
pub fn read_bytes_seg(buf: &[u8], pos: usize) -> (r: Option<(Vec<u8>, usize)>)
    requires
        pos <= buf@.len(),
    ensures
        match r {
            Some((field, end)) => {
                &&& spec_dec_bytes(buf@.skip(pos as int)) == Some((field@, buf@.skip(end as int)))
                &&& pos <= end <= buf@.len()
            },
            None => spec_dec_bytes(buf@.skip(pos as int)) is None,
        },
{
    let remaining = buf.len() - pos;
    if remaining < 4 {
        assert(buf@.skip(pos as int).len() < 4);
        return None;
    }
    let len_slice = slice_subrange(buf, pos, pos + 4);
    assert(len_slice@ =~= buf@.skip(pos as int).take(4));
    let n_u32 = u32_from_le_bytes(len_slice);
    if ((remaining - 4) as u64) < (n_u32 as u64) {
        return None;
    }
    let n = n_u32 as usize;
    let field = slice_to_vec(slice_subrange(buf, pos + 4, pos + 4 + n));
    let end = pos + 4 + n;
    assert(field@ =~= buf@.skip(pos as int).subrange(4, 4 + n as int));
    assert(buf@.skip(end as int) =~= buf@.skip(pos as int).skip(4 + n as int));
    Some((field, end))
}

/// Read one string segment of `buf` starting at `pos`.
pub fn read_str_seg(buf: &[u8], pos: usize) -> (r: Option<(String, usize)>)
    requires
        pos <= buf@.len(),
    ensures
        match r {
            Some((field, end)) => {
                &&& spec_dec_str(buf@.skip(pos as int)) == Some((field@, buf@.skip(end as int)))
                &&& pos <= end <= buf@.len()
            },
            None => spec_dec_str(buf@.skip(pos as int)) is None,
        },
{
    match read_bytes_seg(buf, pos) {
        Some((field, end)) => match string_from_utf8(field) {
            Some(s) => Some((s, end)),
            None => None,
        },
        None => None,
    }
}

/// Relies on `String::from_utf8`: it succeeds exactly on valid UTF-8 input and
/// the resulting string's characters are that input's UTF-8 decoding.
#[verifier::external_body]
pub(crate) fn string_from_utf8(b: Vec<u8>) -> (r: Option<String>)
    ensures
        r is Some <==> valid_utf8(b@),
        r matches Some(s) ==> s@ == decode_utf8(b@),
{
    match String::from_utf8(b) {
        Ok(s) => Some(s),
        Err(_) => None,
    }
}

/// Decoding a byte segment undoes encoding it, whatever follows.
pub proof fn lemma_bytes_seg_round_trip(b: Seq<u8>, rest: Seq<u8>)
    requires
        bytes_fit(b),
    ensures
        spec_dec_bytes(spec_enc_bytes(b) + rest) == Some((b, rest)),
{
    lemma_auto_spec_u32_to_from_le_bytes();
    let whole = spec_enc_bytes(b) + rest;
    assert(whole.take(4) =~= spec_u32_to_le_bytes(b.len() as u32));
    let n = spec_u32_from_le_bytes(whole.take(4)) as int;
    assert(n == b.len() as int);
    assert(whole.subrange(4, 4 + n) =~= b);
    assert(whole.skip(4 + n) =~= rest);
}

/// Re-encoding a parsed byte segment reproduces the bytes it came from:
/// the segment form is canonical.
pub proof fn lemma_bytes_seg_re_encode(b: Seq<u8>)
    requires
        spec_dec_bytes(b) is Some,
    ensures
        ({
            let pr = spec_dec_bytes(b)->0;
            &&& bytes_fit(pr.0)
            &&& spec_enc_bytes(pr.0) + pr.1 == b
        }),
{
    lemma_auto_spec_u32_to_from_le_bytes();
    let pr = spec_dec_bytes(b)->0;
    let n = spec_u32_from_le_bytes(b.take(4)) as int;
    assert(pr.0 =~= b.subrange(4, 4 + n));
    assert(pr.0.len() == n);
    assert(spec_u32_to_le_bytes(pr.0.len() as u32) =~= b.take(4));
    assert(spec_enc_bytes(pr.0) + pr.1 =~= b);
}

/// Re-encoding a parsed string segment reproduces the bytes it came from.
pub proof fn lemma_str_seg_re_encode(b: Seq<u8>)
    requires
        spec_dec_str(b) is Some,
    ensures
        ({
            let pr = spec_dec_str(b)->0;
            &&& str_fit(pr.0)
            &&& spec_enc_str(pr.0) + pr.1 == b
        }),
{
    broadcast use vstd::utf8::decode_utf8_encode_utf8;
    lemma_bytes_seg_re_encode(b);
}

/// Decoding a string segment undoes encoding it, whatever follows.
pub proof fn lemma_str_seg_round_trip(s: Seq<char>, rest: Seq<u8>)
    requires
        str_fit(s),
    ensures
        spec_dec_str(spec_enc_str(s) + rest) == Some((s, rest)),
{
    broadcast use encode_utf8_valid_utf8, encode_utf8_decode_utf8;
    lemma_bytes_seg_round_trip(encode_utf8(s), rest);
}

} // verus!
