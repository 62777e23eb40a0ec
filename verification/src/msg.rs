//! The wire envelope: the only form that crosses a connection.
//!
//! An envelope carries a message kind, a producer-assigned timestamp, a topic
//! name, an advisory type tag, and a raw payload. [`spec_enc_envelope`] fixes
//! its byte form; encoding and decoding are exact inverses on well-formed
//! envelopes. An acknowledgement (the reply to a publish) has its own one-byte
//! body, short enough that it can never be mistaken for an envelope.

use vstd::prelude::*;
use vstd::bytes::*;
use vstd::slice::slice_subrange;
use vstd::string::StringExecFns;
use crate::error::Error;
use crate::time::Timestamp;
use crate::payload::Message;
use crate::wire::{
    bytes_fit, str_fit, spec_enc_bytes, spec_enc_str, spec_dec_bytes, spec_dec_str,
    push_bytes_seg, push_str_seg, read_bytes_seg, read_str_seg,
    lemma_bytes_seg_round_trip, lemma_str_seg_round_trip, lemma_bytes_seg_re_encode,
    lemma_str_seg_re_encode,
};

verus! {

/// What an envelope asks the Host to do.
#[derive(Clone, Copy, Debug, PartialEq, Eq, Structural)]
pub enum MsgType {
    /// Publish a value to a topic.
    SET,
    /// Request the latest value for a topic.
    GET,
    /// Request the set of known topic names.
    TOPICS,
    /// Announce a topic-bound session; reserved for a future push mode and
    /// carried through the Host's dispatch without a data effect.
    SUBSCRIBE,
}

/// The one-byte wire code of a message kind.
pub open spec fn kind_code(k: MsgType) -> u8 {
    match k {
        MsgType::SET => 0,
        MsgType::GET => 1,
        MsgType::TOPICS => 2,
        MsgType::SUBSCRIBE => 3,
    }
}

/// The message kind a wire code stands for, if any.
pub open spec fn kind_from_code(c: u8) -> Option<MsgType> {
    match c {
        0u8 => Some(MsgType::SET),
        1u8 => Some(MsgType::GET),
        2u8 => Some(MsgType::TOPICS),
        3u8 => Some(MsgType::SUBSCRIBE),
        _ => None,
    }
}

impl MsgType {
    /// Turn the kind into its one-byte wire code.
    pub fn code(self) -> (r: u8)
        ensures
            r == kind_code(self),
    {
        match self {
            MsgType::SET => 0,
            MsgType::GET => 1,
            MsgType::TOPICS => 2,
            MsgType::SUBSCRIBE => 3,
        }
    }

    /// Read a kind back from its one-byte wire code.
    pub fn from_code(c: u8) -> (r: Option<MsgType>)
        ensures
            r == kind_from_code(c),
    {
        match c {
            0 => Some(MsgType::SET),
            1 => Some(MsgType::GET),
            2 => Some(MsgType::TOPICS),
            3 => Some(MsgType::SUBSCRIBE),
            _ => None,
        }
    }
}

/// The mathematical shape of an envelope: what the contracts speak of.
#[verifier::ext_equal]
pub ghost struct EnvView {
    pub kind: MsgType,
    pub stamp: u64,
    pub topic: Seq<char>,
    pub data_type: Seq<char>,
    pub data: Seq<u8>,
}

/// The untyped message envelope.
#[derive(Debug)]
pub struct GenericMsg {
    /// What the Host is asked to do with this envelope.
    pub msg_type: MsgType,
    /// Producer-assigned instant, compared for staleness, never for dispatch.
    pub timestamp: Timestamp,
    /// Topic name; empty only for TOPICS requests.
    pub topic: String,
    /// Name of the payload's type; validated against the requested type on
    /// typed decoding.
    pub data_type: String,
    /// Raw payload bytes; empty for GET and TOPICS requests.
    pub data: Vec<u8>,
}

impl View for GenericMsg {
    type V = EnvView;

    open spec fn view(&self) -> EnvView {
        EnvView {
            kind: self.msg_type,
            stamp: self.timestamp.micros,
            topic: self.topic@,
            data_type: self.data_type@,
            data: self.data@,
        }
    }
}

/// Whether every field of an envelope fits its 4-byte length prefix.
pub open spec fn env_wf(e: EnvView) -> bool {
    &&& str_fit(e.topic)
    &&& str_fit(e.data_type)
    &&& bytes_fit(e.data)
}

/// The byte form of an envelope: kind code, 8-byte little-endian timestamp,
/// then topic, type tag and payload as length-prefixed segments.
pub open spec fn spec_enc_envelope(e: EnvView) -> Seq<u8> {
    seq![kind_code(e.kind)] + spec_u64_to_le_bytes(e.stamp) + spec_enc_str(e.topic)
        + spec_enc_str(e.data_type) + spec_enc_bytes(e.data)
}

/// Parse a byte sequence as exactly one envelope.
pub open spec fn spec_dec_envelope(b: Seq<u8>) -> Option<EnvView> {
    if b.len() < 9 {
        None
    } else {
        match kind_from_code(b[0]) {
            Some(kind) => {
                let stamp = spec_u64_from_le_bytes(b.subrange(1, 9));
                match spec_dec_str(b.skip(9)) {
                    Some((topic, r1)) => match spec_dec_str(r1) {
                        Some((data_type, r2)) => match spec_dec_bytes(r2) {
                            Some((data, r3)) => if r3.len() == 0 {
                                Some(EnvView { kind, stamp, topic, data_type, data })
                            } else {
                                None
                            },
                            None => None,
                        },
                        None => None,
                    },
                    None => None,
                }
            },
            None => None,
        }
    }
}

/// Serialize an envelope; fails exactly when a field is too long to prefix.
pub fn encode_envelope(m: &GenericMsg) -> (r: Result<Vec<u8>, Error>)
    ensures
        r matches Ok(b) ==> env_wf(m@) && b@ == spec_enc_envelope(m@),
        r is Err ==> !env_wf(m@) && r == Err::<Vec<u8>, Error>(Error::Serialization),
{
    let mut out: Vec<u8> = Vec::new();
    out.push(m.msg_type.code());
    let mut stamp_bytes = u64_to_le_bytes(m.timestamp.micros);
    out.append(&mut stamp_bytes);
    if !push_str_seg(&mut out, m.topic.as_str()) {
        return Err(Error::Serialization);
    }
    if !push_str_seg(&mut out, m.data_type.as_str()) {
        return Err(Error::Serialization);
    }
    if !push_bytes_seg(&mut out, m.data.as_slice()) {
        return Err(Error::Serialization);
    }
    assert(out@ =~= spec_enc_envelope(m@));
    Ok(out)
}

/// Deserialize exactly one envelope; fails exactly when the bytes are not an
/// envelope's encoding.
pub fn decode_envelope(buf: &[u8]) -> (r: Result<GenericMsg, Error>)
    ensures
        r matches Ok(m) ==> spec_dec_envelope(buf@) == Some(m@),
        r is Err ==> spec_dec_envelope(buf@) is None && r == Err::<GenericMsg, Error>(
            Error::Deserialization,
        ),
{
    if buf.len() < 9 {
        return Err(Error::Deserialization);
    }
    let kind = match MsgType::from_code(*vstd::slice::slice_index_get(buf, 0)) {
        Some(k) => k,
        None => {
            return Err(Error::Deserialization);
        },
    };
    let stamp_slice = slice_subrange(buf, 1, 9);
    assert(stamp_slice@ =~= buf@.subrange(1, 9));
    let stamp = u64_from_le_bytes(stamp_slice);
    let (topic, p1) = match read_str_seg(buf, 9) {
        Some(pair) => pair,
        None => {
            return Err(Error::Deserialization);
        },
    };
    let (data_type, p2) = match read_str_seg(buf, p1) {
        Some(pair) => pair,
        None => {
            return Err(Error::Deserialization);
        },
    };
    let (data, p3) = match read_bytes_seg(buf, p2) {
        Some(pair) => pair,
        None => {
            return Err(Error::Deserialization);
        },
    };
    if p3 != buf.len() {
        assert(buf@.skip(p3 as int).len() > 0);
        return Err(Error::Deserialization);
    }
    assert(buf@.skip(p3 as int).len() == 0);
    Ok(GenericMsg {
        msg_type: kind,
        timestamp: Timestamp::from_micros(stamp),
        topic,
        data_type,
        data,
    })
}

/// Decoding an envelope undoes encoding it: the round trip of the untyped
/// wire form.
pub proof fn lemma_envelope_round_trip(e: EnvView)
    requires
        env_wf(e),
    ensures
        spec_dec_envelope(spec_enc_envelope(e)) == Some(e),
{
    lemma_auto_spec_u64_to_from_le_bytes();
    let whole = spec_enc_envelope(e);
    let tail = spec_enc_str(e.topic) + spec_enc_str(e.data_type) + spec_enc_bytes(e.data);
    assert(whole.len() >= 9);
    assert(whole[0] == kind_code(e.kind));
    assert(kind_from_code(kind_code(e.kind)) == Some(e.kind));
    assert(whole.subrange(1, 9) =~= spec_u64_to_le_bytes(e.stamp));
    assert(whole.skip(9) =~= spec_enc_str(e.topic) + (spec_enc_str(e.data_type)
        + spec_enc_bytes(e.data)));
    lemma_str_seg_round_trip(e.topic, spec_enc_str(e.data_type) + spec_enc_bytes(e.data));
    assert(spec_enc_str(e.data_type) + spec_enc_bytes(e.data) =~= spec_enc_str(e.data_type) + (
    spec_enc_bytes(e.data) + Seq::<u8>::empty()));
    lemma_str_seg_round_trip(e.data_type, spec_enc_bytes(e.data) + Seq::<u8>::empty());
    lemma_bytes_seg_round_trip(e.data, Seq::<u8>::empty());
    assert(spec_dec_envelope(whole) == Some(e));
}

/// The mathematical shape of a typed message: the envelope fields with the
/// payload as the value's view.
#[verifier::ext_equal]
pub ghost struct MsgView<V> {
    pub kind: MsgType,
    pub stamp: u64,
    pub topic: Seq<char>,
    pub data_type: Seq<char>,
    pub data: V,
}

/// A message whose payload is a strongly-typed value rather than raw bytes.
#[derive(Debug)]
pub struct Msg<T: Message> {
    /// What the Host is asked to do with this message.
    pub msg_type: MsgType,
    /// Producer-assigned instant, compared for staleness, never for dispatch.
    pub timestamp: Timestamp,
    /// Topic name.
    pub topic: String,
    /// Tag of the payload's type, validated on typed decoding.
    pub data_type: String,
    /// The typed payload.
    pub data: T,
}

impl<T: Message> View for Msg<T> {
    type V = MsgView<T::V>;

    open spec fn view(&self) -> MsgView<T::V> {
        MsgView {
            kind: self.msg_type,
            stamp: self.timestamp.micros,
            topic: self.topic@,
            data_type: self.data_type@,
            data: self.data.deep_view(),
        }
    }
}

/// The envelope a typed message serializes into: same fields, payload encoded.
pub open spec fn spec_typed_to_env<T: Message>(m: &Msg<T>) -> EnvView {
    EnvView {
        kind: m.msg_type,
        stamp: m.timestamp.micros,
        topic: m.topic@,
        data_type: m.data_type@,
        data: m.data.spec_enc(),
    }
}

impl<T: Message> Msg<T> {
    /// Create a typed message; its type tag is fixed by the payload type.
    pub fn new(msg_type: MsgType, topic: &str, data: T, now: Timestamp) -> (r: Msg<T>)
        ensures
            r.msg_type == msg_type,
            r.timestamp == now,
            r.topic@ == topic@,
            r.data_type@ == T::spec_tag(),
            r.data == data,
    {
        Msg {
            msg_type,
            timestamp: now,
            topic: String::from_str(topic),
            data_type: T::type_tag(),
            data,
        }
    }

    /// Set the message's topic.
    pub fn set_topic(&mut self, topic: &str)
        ensures
            final(self).topic@ == topic@,
            final(self).msg_type == old(self).msg_type,
            final(self).timestamp == old(self).timestamp,
            final(self).data_type == old(self).data_type,
            final(self).data == old(self).data,
    {
        self.topic = String::from_str(topic);
    }

    /// Set the message's timestamp.
    pub fn set_timestamp(&mut self, timestamp: Timestamp)
        ensures
            final(self).timestamp == timestamp,
            final(self).msg_type == old(self).msg_type,
            final(self).topic == old(self).topic,
            final(self).data_type == old(self).data_type,
            final(self).data == old(self).data,
    {
        self.timestamp = timestamp;
    }

    /// Set the message's payload.
    pub fn set_data(&mut self, data: T)
        ensures
            final(self).data == data,
            final(self).msg_type == old(self).msg_type,
            final(self).timestamp == old(self).timestamp,
            final(self).topic == old(self).topic,
            final(self).data_type == old(self).data_type,
    {
        self.data = data;
    }

    /// Serialize the payload, turning the typed message into an envelope;
    /// fails exactly on payloads too large to encode.
    pub fn to_generic(&self) -> (r: Result<GenericMsg, Error>)
        ensures
            r matches Ok(g) ==> self.data.payload_wf() && g@ == spec_typed_to_env(self),
            r is Err ==> !self.data.payload_wf() && r == Err::<GenericMsg, Error>(
                Error::Serialization,
            ),
    {
        match self.data.encode() {
            Ok(data) => Ok(
                GenericMsg {
                    msg_type: self.msg_type,
                    timestamp: self.timestamp,
                    topic: self.topic.clone(),
                    data_type: self.data_type.clone(),
                    data,
                },
            ),
            Err(_) => Err(Error::Serialization),
        }
    }
}

impl<T: Message> Msg<T> {
    /// An equal copy of the message, equal under its view.
    pub fn dup(&self) -> (r: Msg<T>)
        ensures
            r@ == self@,
    {
        let r = Msg {
            msg_type: self.msg_type,
            timestamp: self.timestamp,
            topic: self.topic.clone(),
            data_type: self.data_type.clone(),
            data: self.data.dup(),
        };
        assert(r@ =~= self@);
        r
    }
}

impl GenericMsg {
    /// A SET envelope publishing already-encoded payload bytes for `T`.
    pub fn set<T: Message>(topic: &str, data: Vec<u8>, now: Timestamp) -> (r: GenericMsg)
        ensures
            r@ == (EnvView {
                kind: MsgType::SET,
                stamp: now.micros,
                topic: topic@,
                data_type: T::spec_tag(),
                data: data@,
            }),
    {
        let r = GenericMsg {
            msg_type: MsgType::SET,
            timestamp: now,
            topic: String::from_str(topic),
            data_type: T::type_tag(),
            data,
        };
        assert(r@ =~= (EnvView {
            kind: MsgType::SET,
            stamp: now.micros,
            topic: topic@,
            data_type: T::spec_tag(),
            data: r.data@,
        }));
        r
    }

    /// A GET envelope requesting the latest value for a topic as a `T`.
    pub fn get<T: Message>(topic: &str, now: Timestamp) -> (r: GenericMsg)
        ensures
            r@ == (EnvView {
                kind: MsgType::GET,
                stamp: now.micros,
                topic: topic@,
                data_type: T::spec_tag(),
                data: Seq::<u8>::empty(),
            }),
    {
        let r = GenericMsg {
            msg_type: MsgType::GET,
            timestamp: now,
            topic: String::from_str(topic),
            data_type: T::type_tag(),
            data: Vec::new(),
        };
        assert(r@ =~= (EnvView {
            kind: MsgType::GET,
            stamp: now.micros,
            topic: topic@,
            data_type: T::spec_tag(),
            data: Seq::<u8>::empty(),
        }));
        r
    }

    /// A TOPICS envelope requesting the set of known topic names.
    pub fn topics(now: Timestamp) -> (r: GenericMsg)
        ensures
            r@ == (EnvView {
                kind: MsgType::TOPICS,
                stamp: now.micros,
                topic: Seq::<char>::empty(),
                data_type: <() as Message>::spec_tag(),
                data: Seq::<u8>::empty(),
            }),
    {
        let r = GenericMsg {
            msg_type: MsgType::TOPICS,
            timestamp: now,
            topic: String::new(),
            data_type: <() as Message>::type_tag(),
            data: Vec::new(),
        };
        assert(r@ =~= (EnvView {
            kind: MsgType::TOPICS,
            stamp: now.micros,
            topic: Seq::<char>::empty(),
            data_type: <() as Message>::spec_tag(),
            data: Seq::<u8>::empty(),
        }));
        r
    }

    /// Decode the payload as `T`, turning the envelope into a typed message;
    /// fails exactly when the envelope's type tag is not `T`'s or its payload
    /// does not decode as a `T`.
    pub fn to_typed<T: Message>(&self) -> (r: Result<Msg<T>, Error>)
        ensures
            r matches Ok(m) ==> {
                &&& self.data_type@ == T::spec_tag()
                &&& T::spec_dec(self.data@) == Some(m.data.deep_view())
                &&& m.msg_type == self.msg_type
                &&& m.timestamp == self.timestamp
                &&& m.topic@ == self.topic@
                &&& m.data_type@ == self.data_type@
            },
            r is Err ==> (self.data_type@ != T::spec_tag() || T::spec_dec(self.data@) is None)
                && r == Err::<Msg<T>, Error>(Error::Deserialization),
    {
        let expected = T::type_tag();
        if !(self.data_type == expected) {
            return Err(Error::Deserialization);
        }
        match T::decode(self.data.as_slice()) {
            Ok(data) => Ok(
                Msg {
                    msg_type: self.msg_type,
                    timestamp: self.timestamp,
                    topic: self.topic.clone(),
                    data_type: self.data_type.clone(),
                    data,
                },
            ),
            Err(_) => Err(Error::Deserialization),
        }
    }
}

/// Re-encode direction of the typed conversion: a typed message obtained
/// from an envelope serializes back into that very envelope, field for field
/// and payload bytes included.
pub proof fn lemma_typed_re_encode<T: Message>(m: &Msg<T>, env: EnvView)
    requires
        T::spec_dec(env.data) == Some(m.data.deep_view()),
        m.msg_type == env.kind,
        m.timestamp.micros == env.stamp,
        m.topic@ == env.topic,
        m.data_type@ == env.data_type,
    ensures
        m.data.payload_wf(),
        spec_typed_to_env(m) == env,
{
    T::lemma_re_encode(&m.data, env.data);
    assert(spec_typed_to_env(m) =~= env);
}

/// Round trip of the typed conversion: for a payload whose tag matches its
/// type, decoding the envelope's payload gives the original value back.
pub proof fn lemma_typed_round_trip<T: Message>(m: &Msg<T>)
    requires
        m.data.payload_wf(),
        m.data_type@ == T::spec_tag(),
    ensures
        T::spec_dec(spec_typed_to_env(m).data) == Some(m.data.deep_view()),
        spec_typed_to_env(m).data_type == T::spec_tag(),
{
    T::lemma_round_trip(&m.data);
}

/// Re-encoding a decoded envelope reproduces the bytes it came from, payload
/// bytes included: the envelope's byte form is canonical.
pub proof fn lemma_envelope_re_encode(b: Seq<u8>)
    requires
        spec_dec_envelope(b) is Some,
    ensures
        ({
            let env = spec_dec_envelope(b)->0;
            &&& env_wf(env)
            &&& spec_enc_envelope(env) == b
        }),
{
    lemma_auto_spec_u64_to_from_le_bytes();
    let env = spec_dec_envelope(b)->0;
    assert(kind_code(env.kind) == b[0]);
    assert(spec_u64_to_le_bytes(env.stamp) =~= b.subrange(1, 9));
    let t_pr = spec_dec_str(b.skip(9))->0;
    lemma_str_seg_re_encode(b.skip(9));
    let d_pr = spec_dec_str(t_pr.1)->0;
    lemma_str_seg_re_encode(t_pr.1);
    let p_pr = spec_dec_bytes(d_pr.1)->0;
    lemma_bytes_seg_re_encode(d_pr.1);
    assert(p_pr.1.len() == 0);
    assert(spec_enc_bytes(env.data) =~= spec_enc_bytes(p_pr.0) + p_pr.1);
    assert(spec_enc_str(env.data_type) + spec_enc_bytes(env.data) =~= t_pr.1);
    assert(spec_enc_str(env.topic) + (spec_enc_str(env.data_type) + spec_enc_bytes(env.data))
        =~= b.skip(9));
    assert(spec_enc_str(env.topic) + spec_enc_str(env.data_type) + spec_enc_bytes(env.data)
        =~= b.skip(9));
    assert(seq![kind_code(env.kind)] + spec_u64_to_le_bytes(env.stamp) =~= b.take(9));
    assert(spec_enc_envelope(env) =~= b.take(9) + b.skip(9));
    assert(b.take(9) + b.skip(9) =~= b);
    assert(spec_enc_envelope(env) == b);
}

/// The byte body of an acknowledgement: 0 for success, else the error's code.
pub open spec fn spec_enc_ack(a: Result<(), Error>) -> Seq<u8> {
    match a {
        Ok(_) => seq![0u8],
        Err(e) => seq![e.spec_code()],
    }
}

/// Parse a byte sequence as exactly one acknowledgement.
pub open spec fn spec_dec_ack(b: Seq<u8>) -> Option<Result<(), Error>> {
    if b.len() != 1 {
        None
    } else if b[0] == 0 {
        Some(Ok(()))
    } else {
        match Error::spec_from_code(b[0]) {
            Some(e) => Some(Err(e)),
            None => None,
        }
    }
}

/// Serialize an acknowledgement body.
pub fn encode_ack(a: Result<(), Error>) -> (r: Vec<u8>)
    ensures
        r@ == spec_enc_ack(a),
{
    let mut out: Vec<u8> = Vec::new();
    match a {
        Ok(_) => out.push(0),
        Err(e) => out.push(e.code()),
    }
    out
}

/// Deserialize exactly one acknowledgement body.
pub fn decode_ack(buf: &[u8]) -> (r: Option<Result<(), Error>>)
    ensures
        r == spec_dec_ack(buf@),
{
    if buf.len() != 1 {
        return None;
    }
    let c = *vstd::slice::slice_index_get(buf, 0);
    if c == 0 {
        Some(Ok(()))
    } else {
        match Error::from_code(c) {
            Some(e) => Some(Err(e)),
            None => None,
        }
    }
}

/// Decoding an acknowledgement undoes encoding it.
pub proof fn lemma_ack_round_trip(a: Result<(), Error>)
    ensures
        spec_dec_ack(spec_enc_ack(a)) == Some(a),
{
    match a {
        Ok(u) => {
            assert(spec_enc_ack(a) =~= seq![0u8]);
            assert(spec_enc_ack(a)[0] == 0u8);
            assert(spec_dec_ack(spec_enc_ack(a)) == Some(Ok::<(), Error>(())));
            assert(a == Ok::<(), Error>(u));
        },
        Err(e) => {
            crate::error::lemma_error_code_round_trip(e);
            assert(e.spec_code() != 0);
        },
    }
}

/// An acknowledgement body is never a valid envelope, and the other way
/// round: a reply's one form can always be told from the other.
pub proof fn lemma_ack_envelope_disjoint(a: Result<(), Error>, e: EnvView)
    ensures
        spec_enc_ack(a) != spec_enc_envelope(e),
        spec_dec_envelope(spec_enc_ack(a)) is None,
{
    lemma_auto_spec_u64_to_from_le_bytes();
    assert(spec_enc_ack(a).len() == 1);
    assert(spec_enc_envelope(e).len() >= 9);
}

} // verus!
