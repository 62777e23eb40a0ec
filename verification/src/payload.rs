//! Typed payloads: the data a Node publishes and requests.
//!
//! A payload type fixes its own byte form through the [`Message`] trait, and
//! proves that decoding undoes encoding. The type tag travels with every
//! envelope and is validated against the requested type before a typed decode
//! is attempted.

use vstd::prelude::*;
use vstd::bytes::*;
use vstd::slice::slice_to_vec;
use vstd::string::{StrSliceExecFns, StringExecFns};
use vstd::utf8::{encode_utf8, decode_utf8, valid_utf8};
use vstd::utf8::{encode_utf8_valid_utf8, encode_utf8_decode_utf8};
use crate::error::Error;
use crate::wire::string_from_utf8;

verus! {

/// A value that can travel as a payload: it has a deterministic byte form,
/// a type tag, and decoding its encoding gives it back.
pub trait Message: Sized + DeepView {
    /// Whether the value is small enough for its byte form to be exact; every
    /// value a program can hold in memory is.
    spec fn payload_wf(&self) -> bool;

    /// The value's byte form.
    spec fn spec_enc(&self) -> Seq<u8>;

    /// The value a byte sequence stands for, as a mathematical view, if any.
    spec fn spec_dec(b: Seq<u8>) -> Option<Self::V>;

    /// The tag this type travels under.
    spec fn spec_tag() -> Seq<char>;

    /// Round trip: decoding a well-formed value's encoding gives it back.
    proof fn lemma_round_trip(v: &Self)
        requires
            v.payload_wf(),
        ensures
            Self::spec_dec(v.spec_enc()) == Some(v.deep_view()),
    ;

    /// Canonical form: a value whose view some bytes decode to encodes back
    /// to exactly those bytes, so re-encoding a decoded value reproduces the
    /// original encoding.
    proof fn lemma_re_encode(v: &Self, b: Seq<u8>)
        requires
            Self::spec_dec(b) == Some(v.deep_view()),
        ensures
            v.payload_wf(),
            v.spec_enc() == b,
    ;

    /// Serialize the value; fails exactly on values too large to encode.
    fn encode(&self) -> (r: Result<Vec<u8>, Error>)
        ensures
            r matches Ok(b) ==> self.payload_wf() && b@ == self.spec_enc(),
            r is Err ==> !self.payload_wf() && r == Err::<Vec<u8>, Error>(Error::Serialization),
    ;

    /// Deserialize a value; fails exactly when the bytes decode as none.
    fn decode(b: &[u8]) -> (r: Result<Self, Error>)
        ensures
            r matches Ok(v) ==> Self::spec_dec(b@) == Some(v.deep_view()),
            r is Err ==> Self::spec_dec(b@) is None && r == Err::<Self, Error>(
                Error::Deserialization,
            ),
    ;

    /// The tag this type travels under, as a string.
    fn type_tag() -> (r: String)
        ensures
            r@ == Self::spec_tag(),
    ;

    /// A copy of the value, equal under its view.
    fn dup(&self) -> (r: Self)
        ensures
            r.deep_view() == self.deep_view(),
    ;
}

impl Message for bool {
    open spec fn payload_wf(&self) -> bool {
        true
    }

    open spec fn spec_enc(&self) -> Seq<u8> {
        if *self {
            seq![1u8]
        } else {
            seq![0u8]
        }
    }

    open spec fn spec_dec(b: Seq<u8>) -> Option<bool> {
        if b.len() == 1 && b[0] == 0 {
            Some(false)
        } else if b.len() == 1 && b[0] == 1 {
            Some(true)
        } else {
            None
        }
    }

    open spec fn spec_tag() -> Seq<char> {
        "bool"@
    }

    proof fn lemma_round_trip(v: &bool) {
    }

    proof fn lemma_re_encode(v: &bool, b: Seq<u8>) {
        assert(v.spec_enc() =~= b);
    }

    fn encode(&self) -> (r: Result<Vec<u8>, Error>) {
        let mut out: Vec<u8> = Vec::new();
        if *self {
            out.push(1);
        } else {
            out.push(0);
        }
        Ok(out)
    }

    fn decode(b: &[u8]) -> (r: Result<bool, Error>) {
        if b.len() != 1 {
            return Err(Error::Deserialization);
        }
        let c = *vstd::slice::slice_index_get(b, 0);
        if c == 0 {
            Ok(false)
        } else if c == 1 {
            Ok(true)
        } else {
            Err(Error::Deserialization)
        }
    }

    fn type_tag() -> (r: String) {
        String::from_str("bool")
    }

    fn dup(&self) -> (r: bool) {
        *self
    }
}

impl Message for u32 {
    open spec fn payload_wf(&self) -> bool {
        true
    }

    open spec fn spec_enc(&self) -> Seq<u8> {
        spec_u32_to_le_bytes(*self)
    }

    open spec fn spec_dec(b: Seq<u8>) -> Option<u32> {
        if b.len() == 4 {
            Some(spec_u32_from_le_bytes(b))
        } else {
            None
        }
    }

    open spec fn spec_tag() -> Seq<char> {
        "u32"@
    }

    proof fn lemma_round_trip(v: &u32) {
        lemma_auto_spec_u32_to_from_le_bytes();
    }

    proof fn lemma_re_encode(v: &u32, b: Seq<u8>) {
        lemma_auto_spec_u32_to_from_le_bytes();
        assert(v.spec_enc() =~= b);
    }

    fn encode(&self) -> (r: Result<Vec<u8>, Error>) {
        proof {
            lemma_auto_spec_u32_to_from_le_bytes();
        }
        Ok(u32_to_le_bytes(*self))
    }

    fn decode(b: &[u8]) -> (r: Result<u32, Error>) {
        if b.len() != 4 {
            return Err(Error::Deserialization);
        }
        Ok(u32_from_le_bytes(b))
    }

    fn type_tag() -> (r: String) {
        String::from_str("u32")
    }

    fn dup(&self) -> (r: u32) {
        *self
    }
}

impl Message for u64 {
    open spec fn payload_wf(&self) -> bool {
        true
    }

    open spec fn spec_enc(&self) -> Seq<u8> {
        spec_u64_to_le_bytes(*self)
    }

    open spec fn spec_dec(b: Seq<u8>) -> Option<u64> {
        if b.len() == 8 {
            Some(spec_u64_from_le_bytes(b))
        } else {
            None
        }
    }

    open spec fn spec_tag() -> Seq<char> {
        "u64"@
    }

    proof fn lemma_round_trip(v: &u64) {
        lemma_auto_spec_u64_to_from_le_bytes();
    }

    proof fn lemma_re_encode(v: &u64, b: Seq<u8>) {
        lemma_auto_spec_u64_to_from_le_bytes();
        assert(v.spec_enc() =~= b);
    }

    fn encode(&self) -> (r: Result<Vec<u8>, Error>) {
        proof {
            lemma_auto_spec_u64_to_from_le_bytes();
        }
        Ok(u64_to_le_bytes(*self))
    }

    fn decode(b: &[u8]) -> (r: Result<u64, Error>) {
        if b.len() != 8 {
            return Err(Error::Deserialization);
        }
        Ok(u64_from_le_bytes(b))
    }

    fn type_tag() -> (r: String) {
        String::from_str("u64")
    }

    fn dup(&self) -> (r: u64) {
        *self
    }
}

impl Message for usize {
    open spec fn payload_wf(&self) -> bool {
        true
    }

    open spec fn spec_enc(&self) -> Seq<u8> {
        spec_u64_to_le_bytes(*self as u64)
    }

    open spec fn spec_dec(b: Seq<u8>) -> Option<usize> {
        if b.len() == 8 {
            let x = spec_u64_from_le_bytes(b);
            if x <= usize::MAX {
                Some(x as usize)
            } else {
                None
            }
        } else {
            None
        }
    }

    open spec fn spec_tag() -> Seq<char> {
        "usize"@
    }

    proof fn lemma_round_trip(v: &usize) {
        lemma_auto_spec_u64_to_from_le_bytes();
    }

    proof fn lemma_re_encode(v: &usize, b: Seq<u8>) {
        lemma_auto_spec_u64_to_from_le_bytes();
        assert(v.spec_enc() =~= b);
    }

    fn encode(&self) -> (r: Result<Vec<u8>, Error>) {
        proof {
            lemma_auto_spec_u64_to_from_le_bytes();
        }
        Ok(u64_to_le_bytes(*self as u64))
    }

    fn decode(b: &[u8]) -> (r: Result<usize, Error>) {
        if b.len() != 8 {
            return Err(Error::Deserialization);
        }
        let x = u64_from_le_bytes(b);
        if x <= (usize::MAX as u64) {
            Ok(x as usize)
        } else {
            Err(Error::Deserialization)
        }
    }

    fn type_tag() -> (r: String) {
        String::from_str("usize")
    }

    fn dup(&self) -> (r: usize) {
        *self
    }
}

impl Message for () {
    open spec fn payload_wf(&self) -> bool {
        true
    }

    open spec fn spec_enc(&self) -> Seq<u8> {
        Seq::<u8>::empty()
    }

    open spec fn spec_dec(b: Seq<u8>) -> Option<()> {
        if b.len() == 0 {
            Some(())
        } else {
            None
        }
    }

    open spec fn spec_tag() -> Seq<char> {
        "()"@
    }

    proof fn lemma_round_trip(v: &()) {
    }

    proof fn lemma_re_encode(v: &(), b: Seq<u8>) {
        assert(v.spec_enc() =~= b);
    }

    fn encode(&self) -> (r: Result<Vec<u8>, Error>) {
        let out: Vec<u8> = Vec::new();
        assert(out@ =~= Seq::<u8>::empty());
        Ok(out)
    }

    fn decode(b: &[u8]) -> (r: Result<(), Error>) {
        if b.len() == 0 {
            Ok(())
        } else {
            Err(Error::Deserialization)
        }
    }

    fn type_tag() -> (r: String) {
        String::from_str("()")
    }

    fn dup(&self) -> (r: ()) {
    }
}

impl Message for String {
    open spec fn payload_wf(&self) -> bool {
        true
    }

    open spec fn spec_enc(&self) -> Seq<u8> {
        encode_utf8(self@)
    }

    open spec fn spec_dec(b: Seq<u8>) -> Option<Seq<char>> {
        if valid_utf8(b) {
            Some(decode_utf8(b))
        } else {
            None
        }
    }

    open spec fn spec_tag() -> Seq<char> {
        "String"@
    }

    proof fn lemma_round_trip(v: &String) {
        broadcast use encode_utf8_valid_utf8, encode_utf8_decode_utf8;
    }

    proof fn lemma_re_encode(v: &String, b: Seq<u8>) {
        vstd::utf8::decode_utf8_encode_utf8(b);
        assert(v.spec_enc() =~= b);
    }

    fn encode(&self) -> (r: Result<Vec<u8>, Error>) {
        Ok(self.as_str().as_bytes_vec())
    }

    fn decode(b: &[u8]) -> (r: Result<String, Error>) {
        match string_from_utf8(slice_to_vec(b)) {
            Some(s) => Ok(s),
            None => Err(Error::Deserialization),
        }
    }

    fn type_tag() -> (r: String) {
        String::from_str("String")
    }

    fn dup(&self) -> (r: String) {
        self.clone()
    }
}

/// A planar position, the canonical example payload: coordinates carried as
/// IEEE-754 single-precision bit patterns, so that the library itself never
/// holds a floating-point value.
#[derive(Clone, Copy, Debug, PartialEq, Eq, Structural)]
pub struct Pose {
    /// Bit pattern of the x coordinate.
    pub x_bits: u32,
    /// Bit pattern of the y coordinate.
    pub y_bits: u32,
}

impl DeepView for Pose {
    type V = Pose;

    open spec fn deep_view(&self) -> Pose {
        *self
    }
}

impl Message for Pose {
    open spec fn payload_wf(&self) -> bool {
        true
    }

    open spec fn spec_enc(&self) -> Seq<u8> {
        spec_u32_to_le_bytes(self.x_bits) + spec_u32_to_le_bytes(self.y_bits)
    }

    open spec fn spec_dec(b: Seq<u8>) -> Option<Pose> {
        if b.len() == 8 {
            Some(
                Pose {
                    x_bits: spec_u32_from_le_bytes(b.take(4)),
                    y_bits: spec_u32_from_le_bytes(b.skip(4)),
                },
            )
        } else {
            None
        }
    }

    open spec fn spec_tag() -> Seq<char> {
        "Pose"@
    }

    proof fn lemma_round_trip(v: &Pose) {
        lemma_auto_spec_u32_to_from_le_bytes();
        assert(v.spec_enc().take(4) =~= spec_u32_to_le_bytes(v.x_bits));
        assert(v.spec_enc().skip(4) =~= spec_u32_to_le_bytes(v.y_bits));
    }

    proof fn lemma_re_encode(v: &Pose, b: Seq<u8>) {
        lemma_auto_spec_u32_to_from_le_bytes();
        assert(spec_u32_to_le_bytes(v.x_bits) =~= b.take(4));
        assert(spec_u32_to_le_bytes(v.y_bits) =~= b.skip(4));
        assert(v.spec_enc() =~= b);
    }

    fn encode(&self) -> (r: Result<Vec<u8>, Error>) {
        proof {
            lemma_auto_spec_u32_to_from_le_bytes();
        }
        let mut out = u32_to_le_bytes(self.x_bits);
        let mut tail = u32_to_le_bytes(self.y_bits);
        out.append(&mut tail);
        Ok(out)
    }

    fn decode(b: &[u8]) -> (r: Result<Pose, Error>) {
        if b.len() != 8 {
            return Err(Error::Deserialization);
        }
        let head = vstd::slice::slice_subrange(b, 0, 4);
        let tail = vstd::slice::slice_subrange(b, 4, 8);
        assert(head@ =~= b@.take(4));
        assert(tail@ =~= b@.skip(4));
        Ok(Pose { x_bits: u32_from_le_bytes(head), y_bits: u32_from_le_bytes(tail) })
    }

    fn type_tag() -> (r: String) {
        String::from_str("Pose")
    }

    fn dup(&self) -> (r: Pose) {
        *self
    }
}

impl<T: Message> Message for Option<T> {
    open spec fn payload_wf(&self) -> bool {
        match self {
            Some(v) => v.payload_wf(),
            None => true,
        }
    }

    open spec fn spec_enc(&self) -> Seq<u8> {
        match self {
            None => seq![0u8],
            Some(v) => seq![1u8] + v.spec_enc(),
        }
    }

    open spec fn spec_dec(b: Seq<u8>) -> Option<Option<T::V>> {
        if b.len() == 1 && b[0] == 0 {
            Some(None)
        } else if b.len() >= 1 && b[0] == 1 {
            match T::spec_dec(b.skip(1)) {
                Some(v) => Some(Some(v)),
                None => None,
            }
        } else {
            None
        }
    }

    open spec fn spec_tag() -> Seq<char> {
        "Option<"@ + T::spec_tag() + ">"@
    }

    proof fn lemma_round_trip(v: &Option<T>) {
        match v {
            None => {
                assert(v.spec_enc().len() == 1);
            },
            Some(inner) => {
                let whole = v.spec_enc();
                assert(whole[0] == 1u8);
                assert(whole.skip(1) =~= inner.spec_enc());
                T::lemma_round_trip(inner);
            },
        }
    }

    proof fn lemma_re_encode(v: &Option<T>, b: Seq<u8>) {
        match v {
            None => {
                assert(b.len() == 1 && b[0] == 0);
                assert(v.spec_enc() =~= b);
            },
            Some(inner) => {
                assert(b.len() >= 1 && b[0] == 1);
                T::lemma_re_encode(inner, b.skip(1));
                assert(v.spec_enc() =~= seq![1u8] + inner.spec_enc());
                assert(v.spec_enc() =~= b);
            },
        }
    }

    fn encode(&self) -> (r: Result<Vec<u8>, Error>) {
        match self {
            None => {
                let mut out: Vec<u8> = Vec::new();
                out.push(0);
                assert(out@ =~= self.spec_enc());
                Ok(out)
            },
            Some(v) => {
                let mut out: Vec<u8> = Vec::new();
                out.push(1);
                match v.encode() {
                    Ok(mut body) => {
                        out.append(&mut body);
                        assert(out@ =~= self.spec_enc());
                        Ok(out)
                    },
                    Err(e) => Err(Error::Serialization),
                }
            },
        }
    }

    fn decode(b: &[u8]) -> (r: Result<Option<T>, Error>) {
        if b.len() == 0 {
            return Err(Error::Deserialization);
        }
        let c = *vstd::slice::slice_index_get(b, 0);
        if c == 0 {
            if b.len() == 1 {
                Ok(None)
            } else {
                Err(Error::Deserialization)
            }
        } else if c == 1 {
            let body = vstd::slice::slice_subrange(b, 1, b.len());
            assert(body@ =~= b@.skip(1));
            match T::decode(body) {
                Ok(v) => Ok(Some(v)),
                Err(e) => Err(Error::Deserialization),
            }
        } else {
            Err(Error::Deserialization)
        }
    }

    fn type_tag() -> (r: String) {
        let mut t = String::from_str("Option<");
        let inner = T::type_tag();
        t.append(inner.as_str());
        t.append(">");
        t
    }

    fn dup(&self) -> (r: Option<T>) {
        match self {
            None => None,
            Some(v) => Some(v.dup()),
        }
    }
}

/// The byte form of a list of strings: each as a length-prefixed segment,
/// in order.
pub open spec fn spec_enc_str_list(l: Seq<Seq<char>>) -> Seq<u8>
    decreases l.len(),
{
    if l.len() == 0 {
        Seq::<u8>::empty()
    } else {
        crate::wire::spec_enc_str(l[0]) + spec_enc_str_list(l.drop_first())
    }
}

/// Parse exactly `n` string segments off the front of `b`: the strings and
/// what follows them.
pub open spec fn spec_dec_str_list(b: Seq<u8>, n: nat) -> Option<(Seq<Seq<char>>, Seq<u8>)>
    decreases n,
{
    if n == 0 {
        Some((Seq::<Seq<char>>::empty(), b))
    } else {
        match crate::wire::spec_dec_str(b) {
            Some((s, rest)) => match spec_dec_str_list(rest, (n - 1) as nat) {
                Some((l, rest2)) => Some((seq![s] + l, rest2)),
                None => None,
            },
            None => None,
        }
    }
}

/// Decoding a string list undoes encoding it, whatever follows.
pub proof fn lemma_str_list_round_trip(l: Seq<Seq<char>>, rest: Seq<u8>)
    requires
        forall|i: int| 0 <= i < l.len() ==> crate::wire::str_fit(#[trigger] l[i]),
    ensures
        spec_dec_str_list(spec_enc_str_list(l) + rest, l.len()) == Some((l, rest)),
    decreases l.len(),
{
    if l.len() == 0 {
        assert(spec_enc_str_list(l) + rest =~= rest);
    } else {
        let tail = l.drop_first();
        let whole = spec_enc_str_list(l) + rest;
        assert(whole =~= crate::wire::spec_enc_str(l[0]) + (spec_enc_str_list(tail) + rest));
        crate::wire::lemma_str_seg_round_trip(l[0], spec_enc_str_list(tail) + rest);
        lemma_str_list_round_trip(tail, rest);
        assert(seq![l[0]] + tail =~= l);
    }
}

/// Appending one string to a list appends its segment to the list's byte form.
pub proof fn lemma_enc_str_list_snoc(l: Seq<Seq<char>>, s: Seq<char>)
    ensures
        spec_enc_str_list(l.push(s)) == spec_enc_str_list(l) + crate::wire::spec_enc_str(s),
    decreases l.len(),
{
    if l.len() == 0 {
        assert(l.push(s)[0] == s);
        assert(l.push(s).drop_first() =~= Seq::<Seq<char>>::empty());
        assert(spec_enc_str_list(l.push(s)) == crate::wire::spec_enc_str(s) + spec_enc_str_list(
            Seq::<Seq<char>>::empty(),
        ));
        assert(spec_enc_str_list(l.push(s)) =~= spec_enc_str_list(l) + crate::wire::spec_enc_str(
            s,
        ));
    } else {
        let ldf = l.drop_first();
        assert(l.push(s)[0] == l[0]);
        assert(l.push(s).drop_first() =~= ldf.push(s));
        lemma_enc_str_list_snoc(ldf, s);
        assert(spec_enc_str_list(l.push(s)) == crate::wire::spec_enc_str(l[0])
            + spec_enc_str_list(ldf.push(s)));
        assert(spec_enc_str_list(l.push(s)) =~= spec_enc_str_list(l) + crate::wire::spec_enc_str(
            s,
        ));
    }
}

/// Re-encoding a parsed string list reproduces the bytes it came from.
pub proof fn lemma_dec_str_list_re_encode(b: Seq<u8>, n: nat)
    requires
        spec_dec_str_list(b, n) is Some,
    ensures
        ({
            let pr = spec_dec_str_list(b, n)->0;
            &&& pr.0.len() == n
            &&& forall|i: int| 0 <= i < pr.0.len() ==> crate::wire::str_fit(#[trigger] pr.0[i])
            &&& spec_enc_str_list(pr.0) + pr.1 == b
        }),
    decreases n,
{
    if n == 0 {
        assert(spec_enc_str_list(Seq::<Seq<char>>::empty()) + b =~= b);
    } else {
        let s_pr = crate::wire::spec_dec_str(b)->0;
        crate::wire::lemma_str_seg_re_encode(b);
        lemma_dec_str_list_re_encode(s_pr.1, (n - 1) as nat);
        let sub = spec_dec_str_list(s_pr.1, (n - 1) as nat)->0;
        let pr = spec_dec_str_list(b, n)->0;
        assert(pr.0 =~= seq![s_pr.0] + sub.0);
        assert(pr.0[0] == s_pr.0);
        assert(pr.0.drop_first() =~= sub.0);
        assert(spec_enc_str_list(pr.0) == crate::wire::spec_enc_str(s_pr.0) + spec_enc_str_list(
            sub.0,
        ));
        assert(spec_enc_str_list(pr.0) + pr.1 =~= b);
        assert forall|i: int| 0 <= i < pr.0.len() implies crate::wire::str_fit(pr.0[i]) by {
            if i > 0 {
                assert(pr.0[i] == sub.0[i - 1]);
            }
        };
    }
}

/// Read exactly `n` string segments of `buf` starting at `pos`.
fn read_str_list(buf: &[u8], pos: usize, n: u32) -> (r: Option<(Vec<String>, usize)>)
    requires
        pos <= buf@.len(),
    ensures
        match r {
            Some((l, end)) => {
                &&& spec_dec_str_list(buf@.skip(pos as int), n as nat) == Some(
                    (l.deep_view(), buf@.skip(end as int)),
                )
                &&& pos <= end <= buf@.len()
            },
            None => spec_dec_str_list(buf@.skip(pos as int), n as nat) is None,
        },
    decreases n,
{
    if n == 0 {
        let l: Vec<String> = Vec::new();
        assert(l.deep_view() =~= Seq::<Seq<char>>::empty());
        return Some((l, pos));
    }
    match crate::wire::read_str_seg(buf, pos) {
        Some((s, p2)) => match read_str_list(buf, p2, n - 1) {
            Some((mut l, end)) => {
                let ghost l0 = l.deep_view();
                l.insert(0, s);
                assert(l.deep_view() =~= seq![s@] + l0);
                Some((l, end))
            },
            None => None,
        },
        None => None,
    }
}

impl Message for Vec<String> {
    open spec fn payload_wf(&self) -> bool {
        &&& self.deep_view().len() <= u32::MAX
        &&& forall|i: int|
            0 <= i < self.deep_view().len() ==> crate::wire::str_fit(#[trigger] self.deep_view()[i])
    }

    open spec fn spec_enc(&self) -> Seq<u8> {
        spec_u32_to_le_bytes(self.deep_view().len() as u32) + spec_enc_str_list(self.deep_view())
    }

    open spec fn spec_dec(b: Seq<u8>) -> Option<Seq<Seq<char>>> {
        if b.len() < 4 {
            None
        } else {
            let n = spec_u32_from_le_bytes(b.take(4));
            match spec_dec_str_list(b.skip(4), n as nat) {
                Some((l, rest)) => if rest.len() == 0 {
                    Some(l)
                } else {
                    None
                },
                None => None,
            }
        }
    }

    open spec fn spec_tag() -> Seq<char> {
        "Vec<String>"@
    }

    proof fn lemma_round_trip(v: &Vec<String>) {
        lemma_auto_spec_u32_to_from_le_bytes();
        let l = v.deep_view();
        let whole = v.spec_enc();
        assert(whole.take(4) =~= spec_u32_to_le_bytes(l.len() as u32));
        assert(whole.skip(4) =~= spec_enc_str_list(l) + Seq::<u8>::empty());
        lemma_str_list_round_trip(l, Seq::<u8>::empty());
    }

    proof fn lemma_re_encode(v: &Vec<String>, b: Seq<u8>) {
        lemma_auto_spec_u32_to_from_le_bytes();
        let n = spec_u32_from_le_bytes(b.take(4));
        lemma_dec_str_list_re_encode(b.skip(4), n as nat);
        let pr = spec_dec_str_list(b.skip(4), n as nat)->0;
        assert(pr.0 == v.deep_view());
        assert(pr.1.len() == 0);
        assert(spec_enc_str_list(v.deep_view()) =~= spec_enc_str_list(pr.0) + pr.1);
        assert(v.deep_view().len() == n);
        assert(spec_u32_to_le_bytes(v.deep_view().len() as u32) =~= b.take(4));
        assert(v.spec_enc() =~= b);
    }

    fn encode(&self) -> (r: Result<Vec<u8>, Error>) {
        proof {
            lemma_auto_spec_u32_to_from_le_bytes();
        }
        if (self.len() as u64) > (u32::MAX as u64) {
            return Err(Error::Serialization);
        }
        let mut out = u32_to_le_bytes(self.len() as u32);
        let ghost prefix = out@;
        let mut i: usize = 0;
        while i < self.len()
            invariant
                0 <= i <= self.len(),
                self.len() <= u32::MAX,
                prefix == spec_u32_to_le_bytes(self.deep_view().len() as u32),
                out@ == prefix + spec_enc_str_list(self.deep_view().take(i as int)),
                forall|j: int|
                    0 <= j < i ==> crate::wire::str_fit(#[trigger] self.deep_view()[j]),
            decreases self.len() - i,
        {
            let s = &self[i];
            let ghost l_before = self.deep_view().take(i as int);
            if !crate::wire::push_str_seg(&mut out, s.as_str()) {
                assert(!crate::wire::str_fit(self.deep_view()[i as int]));
                return Err(Error::Serialization);
            }
            proof {
                lemma_enc_str_list_snoc(l_before, s@);
                assert(self.deep_view().take(i as int + 1) =~= l_before.push(s@));
            }
            i = i + 1;
        }
        assert(self.deep_view().take(self.len() as int) =~= self.deep_view());
        Ok(out)
    }

    fn decode(b: &[u8]) -> (r: Result<Vec<String>, Error>) {
        if b.len() < 4 {
            return Err(Error::Deserialization);
        }
        let head = vstd::slice::slice_subrange(b, 0, 4);
        assert(head@ =~= b@.take(4));
        let n = u32_from_le_bytes(head);
        match read_str_list(b, 4, n) {
            Some((l, end)) => {
                if end == b.len() {
                    assert(b@.skip(end as int).len() == 0);
                    Ok(l)
                } else {
                    assert(b@.skip(end as int).len() > 0);
                    Err(Error::Deserialization)
                }
            },
            None => Err(Error::Deserialization),
        }
    }

    fn type_tag() -> (r: String) {
        String::from_str("Vec<String>")
    }

    fn dup(&self) -> (r: Vec<String>) {
        let mut out: Vec<String> = Vec::new();
        let mut i: usize = 0;
        while i < self.len()
            invariant
                0 <= i <= self.len(),
                out.deep_view() == self.deep_view().take(i as int),
            decreases self.len() - i,
        {
            let ghost before = out.deep_view();
            out.push(self[i].clone());
            assert(out.deep_view() =~= before.push(self@[i as int]@));
            assert(self.deep_view().take(i as int + 1) =~= before.push(self@[i as int]@));
            i = i + 1;
        }
        assert(self.deep_view().take(self.len() as int) =~= self.deep_view());
        out
    }
}

} // verus!
