//! The Host: the broker that owns the topic store and answers one frame at a
//! time.
//!
//! Socket work stays with the caller: an accept loop hands each received
//! frame to [`handle_frame`] and writes the returned reply back, one handler
//! per connection. Dispatch is by message kind: a SET stores the entire
//! received envelope verbatim, so a later GET can replay it with its original
//! timestamp and type tag; a GET on an unknown topic is answered with an
//! explicit `NotFound` acknowledgement rather than left hanging.

use vstd::prelude::*;
use vstd::string::StringExecFns;
use crate::error::Error;
use crate::time::Timestamp;
use crate::msg::{
    MsgType, GenericMsg, EnvView, env_wf, spec_enc_envelope, spec_dec_envelope, spec_enc_ack, spec_dec_ack,
    encode_envelope, decode_envelope, encode_ack,
};
use crate::payload::{Message, spec_enc_str_list};
use crate::framing::{spec_frame, spec_unframe, frame_fits, frame_bytes, unframe_bytes};
use crate::store::TopicStore;
use crate::wire::{bytes_fit, str_fit};

verus! {

/// How the Host answers one received frame.
pub enum FrameOutcome {
    /// Write these bytes back on the connection.
    Reply(Vec<u8>),
    /// Abort this connection; the frame was not a well-formed envelope.
    Close,
}

/// The bytes of a framed acknowledgement.
pub open spec fn spec_ack_frame(a: Result<(), Error>) -> Seq<u8> {
    spec_frame(spec_enc_ack(a))
}

/// The envelope carried by a received frame, if it carries one.
pub open spec fn spec_env_of_frame(b: Seq<u8>) -> Option<EnvView> {
    match spec_unframe(b) {
        Some(body) => spec_dec_envelope(body),
        None => None,
    }
}

/// Whether a topic catalog is small enough to encode as a TOPICS payload.
pub open spec fn topics_payload_wf(names: Seq<Seq<char>>) -> bool {
    &&& names.len() <= u32::MAX
    &&& forall|i: int| 0 <= i < names.len() ==> str_fit(#[trigger] names[i])
}

/// The envelope a TOPICS request is answered with: the catalog as a
/// list-of-strings payload, stamped by the Host.
pub open spec fn spec_topics_env(names: Seq<Seq<char>>, now: u64) -> EnvView {
    EnvView {
        kind: MsgType::TOPICS,
        stamp: now,
        topic: Seq::<char>::empty(),
        data_type: <Vec<String> as Message>::spec_tag(),
        data: vstd::bytes::spec_u32_to_le_bytes(names.len() as u32) + spec_enc_str_list(names),
    }
}

/// Frame an acknowledgement; five bytes, so it fits every allowed buffer.
fn ack_reply(a: Result<(), Error>, max: usize) -> (r: Vec<u8>)
    requires
        max >= 5,
    ensures
        r@ == spec_ack_frame(a),
{
    let body = encode_ack(a);
    match frame_bytes(body.as_slice(), max) {
        Ok(out) => out,
        Err(_) => {
            proof {
                assert(spec_enc_ack(a).len() == 1);
                assert(false);
            }
            Vec::new()
        },
    }
}

/// Answer one received frame against the topic store.
///
/// A frame that does not carry a well-formed envelope closes the connection
/// and leaves the store alone. A SET stores the whole envelope under its
/// topic and is acknowledged; a GET replays the stored envelope verbatim, or
/// answers `NotFound`; a TOPICS request is answered with the catalog; a
/// SUBSCRIBE announcement is acknowledged without a data effect. A
/// persistence failure is answered with a `StoreAccess` acknowledgement.
pub fn handle_frame(store: &mut TopicStore, buf: &[u8], now: Timestamp, max: usize) -> (r:
    FrameOutcome)
    requires
        old(store).inv(),
        max >= 5,
    ensures
        final(store).inv(),
        ({
            let u = spec_unframe(buf@);
            let parsed = spec_env_of_frame(buf@);
            match parsed {
                None => {
                    &&& r is Close
                    &&& final(store).contents() == old(store).contents()
                    &&& final(store).topic_names() == old(store).topic_names()
                },
                Some(env) => match env.kind {
                    MsgType::SET => {
                        let body = u->0;
                        r matches FrameOutcome::Reply(out) && ({
                            ||| {
                                &&& out@ == spec_ack_frame(Ok(()))
                                &&& final(store).contents() == old(store).contents().insert(
                                    env.topic,
                                    body,
                                )
                                &&& final(store).topic_set() == old(store).topic_set().insert(
                                    env.topic,
                                )
                            }
                            ||| {
                                &&& out@ == spec_ack_frame(Err(Error::StoreAccess))
                                &&& final(store).topic_names() == old(store).topic_names()
                                &&& (final(store).contents() == old(store).contents()
                                    || final(store).contents() == old(store).contents().insert(
                                        env.topic,
                                        body,
                                    ))
                            }
                        })
                    },
                    MsgType::GET => {
                        let c = old(store).contents();
                        &&& final(store).contents() == old(store).contents()
                        &&& final(store).topic_names() == old(store).topic_names()
                        &&& r matches FrameOutcome::Reply(out)
                        &&& {
                            ||| out@ == spec_ack_frame(Err(Error::StoreAccess))
                            ||| {
                                &&& c.contains_key(env.topic)
                                &&& bytes_fit(c[env.topic])
                                &&& frame_fits(c[env.topic], max as int)
                                &&& out@ == spec_frame(c[env.topic])
                            }
                            ||| {
                                &&& c.contains_key(env.topic)
                                &&& !(bytes_fit(c[env.topic]) && frame_fits(
                                    c[env.topic],
                                    max as int,
                                ))
                                &&& out@ == spec_ack_frame(Err(Error::PayloadTooLarge))
                            }
                            ||| {
                                &&& !c.contains_key(env.topic)
                                &&& out@ == spec_ack_frame(Err(Error::NotFound))
                            }
                        }
                    },
                    MsgType::TOPICS => {
                        let names = old(store).topic_names();
                        let tenv = spec_topics_env(names, now.micros);
                        let envb = spec_enc_envelope(tenv);
                        &&& final(store).contents() == old(store).contents()
                        &&& final(store).topic_names() == old(store).topic_names()
                        &&& r matches FrameOutcome::Reply(out)
                        &&& {
                            ||| {
                                &&& topics_payload_wf(names)
                                &&& env_wf(tenv)
                                &&& bytes_fit(envb)
                                &&& frame_fits(envb, max as int)
                                &&& out@ == spec_frame(envb)
                            }
                            ||| {
                                &&& !(topics_payload_wf(names) && env_wf(tenv))
                                &&& out@ == spec_ack_frame(Err(Error::Serialization))
                            }
                            ||| {
                                &&& topics_payload_wf(names)
                                &&& env_wf(tenv)
                                &&& !(bytes_fit(envb) && frame_fits(envb, max as int))
                                &&& out@ == spec_ack_frame(Err(Error::PayloadTooLarge))
                            }
                        }
                    },
                    MsgType::SUBSCRIBE => {
                        &&& final(store).contents() == old(store).contents()
                        &&& final(store).topic_names() == old(store).topic_names()
                        &&& r matches FrameOutcome::Reply(out) && out@ == spec_ack_frame(Ok(()))
                    },
                },
            }
        }),
{
    let body = match unframe_bytes(buf) {
        Ok(b) => b,
        Err(_) => {
            return FrameOutcome::Close;
        },
    };
    let m = match decode_envelope(body.as_slice()) {
        Ok(m) => m,
        Err(_) => {
            return FrameOutcome::Close;
        },
    };
    match m.msg_type {
        MsgType::SET => {
            match store.insert(&m.topic, body.as_slice()) {
                Ok(_) => FrameOutcome::Reply(ack_reply(Ok(()), max)),
                Err(_) => FrameOutcome::Reply(ack_reply(Err(Error::StoreAccess), max)),
            }
        },
        MsgType::GET => {
            match store.get(&m.topic) {
                Ok(stored) => match frame_bytes(stored.as_slice(), max) {
                    Ok(out) => FrameOutcome::Reply(out),
                    Err(_) => FrameOutcome::Reply(ack_reply(Err(Error::PayloadTooLarge), max)),
                },
                Err(Error::NotFound) => FrameOutcome::Reply(ack_reply(Err(Error::NotFound), max)),
                Err(_) => FrameOutcome::Reply(ack_reply(Err(Error::StoreAccess), max)),
            }
        },
        MsgType::TOPICS => {
            let names = store.topics();
            let payload = match names.encode() {
                Ok(p) => p,
                Err(_) => {
                    return FrameOutcome::Reply(ack_reply(Err(Error::Serialization), max));
                },
            };
            let reply_msg = GenericMsg {
                msg_type: MsgType::TOPICS,
                timestamp: now,
                topic: String::new(),
                data_type: <Vec<String> as Message>::type_tag(),
                data: payload,
            };
            assert(reply_msg@ =~= spec_topics_env(store.topic_names(), now.micros));
            let env_bytes = match encode_envelope(&reply_msg) {
                Ok(b) => b,
                Err(_) => {
                    return FrameOutcome::Reply(ack_reply(Err(Error::Serialization), max));
                },
            };
            match frame_bytes(env_bytes.as_slice(), max) {
                Ok(out) => FrameOutcome::Reply(out),
                Err(_) => FrameOutcome::Reply(ack_reply(Err(Error::PayloadTooLarge), max)),
            }
        },
        MsgType::SUBSCRIBE => FrameOutcome::Reply(ack_reply(Ok(()), max)),
    }
}

/// Configuration the Host is built from.
#[derive(Debug)]
pub struct HostConfig {
    /// Name of the interface to listen on.
    pub interface: String,
    /// Port to listen on.
    pub socket_num: usize,
    /// Name recorded for the topic store. The store itself is temporary and
    /// lives at a fresh private path of the persistence layer's choosing, so
    /// the name is diagnostic, not a location.
    pub store_name: String,
}

impl HostConfig {
    /// Configuration for a given interface, with the default port and store
    /// name.
    pub fn new(interface: &str) -> (r: HostConfig)
        ensures
            r.interface@ == interface@,
            r.socket_num == 25000,
            r.store_name@ == "rhiza_store"@,
    {
        HostConfig {
            interface: String::from_str(interface),
            socket_num: 25000,
            store_name: String::from_str("rhiza_store"),
        }
    }

    /// Replace the port.
    pub fn socket_num(self, socket_num: usize) -> (r: HostConfig)
        ensures
            r.socket_num == socket_num,
            r.interface == self.interface,
            r.store_name == self.store_name,
    {
        HostConfig { socket_num, ..self }
    }

    /// Replace the store name.
    pub fn store_name(self, store_name: &str) -> (r: HostConfig)
        ensures
            r.store_name@ == store_name@,
            r.interface == self.interface,
            r.socket_num == self.socket_num,
    {
        HostConfig { store_name: String::from_str(store_name), ..self }
    }
}

impl Default for HostConfig {
    /// The loopback interface, the default port, the default store name.
    fn default() -> (r: HostConfig)
        ensures
            r.interface@ == "lo"@,
            r.socket_num == 25000,
            r.store_name@ == "rhiza_store"@,
    {
        HostConfig::new("lo")
    }
}

/// The broker: its configuration and its topic store. The caller runs the
/// accept loop and hands each connection's frames to [`handle_frame`].
pub struct Host {
    /// The configuration the Host was built from.
    pub cfg: HostConfig,
    /// The topic store; one per Host, shared by every connection handler.
    pub store: TopicStore,
}

impl Host {
    /// Build a Host from its configuration, opening a fresh, empty store.
    pub fn from_config(cfg: HostConfig) -> (r: Result<Host, Error>)
        ensures
            r matches Ok(h) ==> {
                &&& h.store.inv()
                &&& h.store.contents() == Map::<Seq<char>, Seq<u8>>::empty()
                &&& h.store.topic_names() == Seq::<Seq<char>>::empty()
                &&& h.cfg == cfg
            },
            r is Err ==> r == Err::<Host, Error>(Error::StoreAccess),
    {
        match TopicStore::new() {
            Ok(store) => Ok(Host { cfg, store }),
            Err(_) => Err(Error::StoreAccess),
        }
    }
}

/// Publish-then-request consistency: once a SET whose payload encodes `v`
/// has landed under topic `t`, the stored envelope decodes back to the very
/// same envelope, and its payload decodes back to `v`. A request served from
/// the store therefore returns a value equal to the one published.
pub proof fn lemma_set_get_consistency<T: Message>(v: T, env: EnvView, m: Map<Seq<char>, Seq<u8>>, t: Seq<char>)
    requires
        v.payload_wf(),
        env_wf(env),
        env.data == v.spec_enc(),
        env.data_type == T::spec_tag(),
    ensures
        m.insert(t, spec_enc_envelope(env)).contains_key(t),
        spec_dec_envelope(m.insert(t, spec_enc_envelope(env))[t]) == Some(env),
        T::spec_dec(env.data) == Some(v.deep_view()),
{
    crate::msg::lemma_envelope_round_trip(env);
    T::lemma_round_trip(&v);
}

/// Publish-then-request consistency on the wire: the frame a GET replays for
/// a stored SET parses back, at the requesting node, to a message carrying
/// the very value that was published, with the publisher's timestamp.
pub proof fn lemma_replayed_frame_parses_back<T: Message>(topic: Seq<char>, v: &T, now: u64)
    requires
        v.payload_wf(),
        env_wf(crate::node::spec_set_env::<T>(topic, v, now)),
        bytes_fit(spec_enc_envelope(crate::node::spec_set_env::<T>(topic, v, now))),
    ensures
        crate::node::spec_parse_reply::<T>(
            spec_frame(spec_enc_envelope(crate::node::spec_set_env::<T>(topic, v, now))),
        ) == Ok::<crate::msg::MsgView<T::V>, Error>(
            crate::msg::MsgView {
                kind: MsgType::SET,
                stamp: now,
                topic,
                data_type: T::spec_tag(),
                data: v.deep_view(),
            },
        ),
{
    vstd::bytes::lemma_auto_spec_u64_to_from_le_bytes();
    let env = crate::node::spec_set_env::<T>(topic, v, now);
    let envb = spec_enc_envelope(env);
    crate::framing::lemma_frame_round_trip(envb);
    assert(envb.len() >= 9);
    assert(spec_dec_ack(envb) is None);
    crate::msg::lemma_envelope_round_trip(env);
    T::lemma_round_trip(v);
}

/// Topic enumeration on the wire: the frame the Host answers a TOPICS
/// request with parses back, at the querying node, to exactly the catalog's
/// list of topic names.
pub proof fn lemma_topics_reply_parses_back(names: Seq<Seq<char>>, now: u64)
    requires
        topics_payload_wf(names),
        env_wf(spec_topics_env(names, now)),
        bytes_fit(spec_enc_envelope(spec_topics_env(names, now))),
    ensures
        crate::node::spec_parse_reply::<Vec<String>>(
            spec_frame(spec_enc_envelope(spec_topics_env(names, now))),
        ) == Ok::<crate::msg::MsgView<Seq<Seq<char>>>, Error>(
            crate::msg::MsgView {
                kind: MsgType::TOPICS,
                stamp: now,
                topic: Seq::<char>::empty(),
                data_type: <Vec<String> as Message>::spec_tag(),
                data: names,
            },
        ),
{
    vstd::bytes::lemma_auto_spec_u64_to_from_le_bytes();
    vstd::bytes::lemma_auto_spec_u32_to_from_le_bytes();
    let env = spec_topics_env(names, now);
    let envb = spec_enc_envelope(env);
    crate::framing::lemma_frame_round_trip(envb);
    assert(envb.len() >= 9);
    assert(spec_dec_ack(envb) is None);
    crate::msg::lemma_envelope_round_trip(env);
    let data = env.data;
    assert(data.take(4) =~= vstd::bytes::spec_u32_to_le_bytes(names.len() as u32));
    assert(data.skip(4) =~= spec_enc_str_list(names) + Seq::<u8>::empty());
    crate::payload::lemma_str_list_round_trip(names, Seq::<u8>::empty());
}

/// What the topic catalog holds after a run of successful publishes on the
/// topics `ts`, in that order, starting from a fresh store.
pub open spec fn spec_topics_after(ts: Seq<Seq<char>>) -> Set<Seq<char>>
    decreases ts.len(),
{
    if ts.len() == 0 {
        Set::<Seq<char>>::empty()
    } else {
        spec_topics_after(ts.drop_last()).insert(ts.last())
    }
}

/// Topic enumeration: after publishing on any sequence of topics, the
/// catalog holds exactly the set of those topics — whatever the publish
/// order, however often each repeats.
pub proof fn lemma_topic_enumeration(ts: Seq<Seq<char>>)
    ensures
        spec_topics_after(ts) == ts.to_set(),
    decreases ts.len(),
{
    if ts.len() == 0 {
        assert(spec_topics_after(ts) =~= ts.to_set());
    } else {
        lemma_topic_enumeration(ts.drop_last());
        assert forall|t: Seq<char>| ts.to_set().contains(t) implies spec_topics_after(
            ts,
        ).contains(t) by {
            let i = choose|i: int| 0 <= i < ts.len() && ts[i] == t;
            if i < ts.len() - 1 {
                assert(ts.drop_last()[i] == t);
                assert(ts.drop_last().contains(t));
            }
        };
        assert forall|t: Seq<char>| spec_topics_after(ts).contains(t) implies ts.to_set().contains(
            t,
        ) by {
            if t == ts.last() {
                assert(ts.contains(t));
            } else {
                assert(ts.drop_last().to_set().contains(t));
                let i = choose|i: int| 0 <= i < ts.drop_last().len() && ts.drop_last()[i] == t;
                assert(ts[i] == t);
                assert(ts.contains(t));
            }
        };
        assert(spec_topics_after(ts) =~= ts.to_set());
    }
}

} // verus!
