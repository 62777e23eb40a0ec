//! The Node: a typed client endpoint with its state encoded in its type.
//!
//! A Node starts Idle, becomes Active once its caller has connected and
//! announced its topic, and Subscribed once a poller owns the connection.
//! Publish and request exist only on an Active node, and reading the
//! subscription cache only on a Subscribed one: an out-of-order call does not
//! compile. The node's verified work is the protocol itself — building the
//! frames it sends and interpreting the frames it receives; its caller moves
//! those bytes over the transport.

use vstd::prelude::*;
use vstd::string::StringExecFns;
use core::marker::PhantomData;
use crate::error::Error;
use crate::time::Timestamp;
use crate::msg::{
    MsgType, GenericMsg, Msg, MsgView, EnvView, env_wf, spec_enc_envelope, spec_dec_envelope,
    spec_dec_ack, encode_envelope, decode_envelope, decode_ack,
};
use crate::payload::Message;
use crate::framing::{spec_frame, spec_unframe, frame_fits, frame_bytes, unframe_bytes};
use crate::wire::bytes_fit;

verus! {

/// State marker for a Node that has not been connected to a Host.
#[derive(Debug)]
pub struct Idle;

/// State marker for a Node capable of manually sending publish/request
/// messages.
#[derive(Debug)]
pub struct Active;

/// State marker for a Node whose connection is owned by a subscription
/// poller.
#[derive(Debug)]
pub struct Subscription;

/// Configuration a Node is built from.
#[derive(Debug)]
pub struct NodeConfig<T: Message> {
    /// What the node's payload type is, recorded for the builder only.
    pub data_kind: PhantomData<T>,
    /// A name for the node, for diagnostics.
    pub name: String,
    /// The topic this node is bound to.
    pub topic: String,
    /// The Host's address, as `host:port` text the caller resolves.
    pub host_addr: String,
    /// Capacity of the receive buffer; no frame may exceed it.
    pub max_buffer_size: usize,
}

impl<T: Message> NodeConfig<T> {
    /// Configuration under a given node name, on the default Host address,
    /// with an empty topic and the default buffer capacity.
    pub fn new(name: &str) -> (r: NodeConfig<T>)
        ensures
            r.name@ == name@,
            r.topic@ == Seq::<char>::empty(),
            r.host_addr@ == "127.0.0.1:25000"@,
            r.max_buffer_size == 4096,
    {
        NodeConfig {
            data_kind: PhantomData,
            name: String::from_str(name),
            topic: String::new(),
            host_addr: String::from_str("127.0.0.1:25000"),
            max_buffer_size: 4096,
        }
    }

    /// Replace the topic.
    pub fn topic(self, topic: &str) -> (r: NodeConfig<T>)
        ensures
            r.topic@ == topic@,
            r.name == self.name,
            r.host_addr == self.host_addr,
            r.max_buffer_size == self.max_buffer_size,
    {
        NodeConfig { topic: String::from_str(topic), ..self }
    }

    /// Replace the node name.
    pub fn name(self, name: &str) -> (r: NodeConfig<T>)
        ensures
            r.name@ == name@,
            r.topic == self.topic,
            r.host_addr == self.host_addr,
            r.max_buffer_size == self.max_buffer_size,
    {
        NodeConfig { name: String::from_str(name), ..self }
    }

    /// Replace the Host address.
    pub fn host_addr(self, host_addr: &str) -> (r: NodeConfig<T>)
        ensures
            r.host_addr@ == host_addr@,
            r.name == self.name,
            r.topic == self.topic,
            r.max_buffer_size == self.max_buffer_size,
    {
        NodeConfig { host_addr: String::from_str(host_addr), ..self }
    }

    /// Replace the receive buffer capacity; anything under the size of an
    /// acknowledgement is rejected.
    pub fn max_buffer_size(self, max_buffer_size: usize) -> (r: Result<NodeConfig<T>, Error>)
        ensures
            r matches Ok(c) ==> max_buffer_size >= 5 && c.max_buffer_size == max_buffer_size
                && c.name == self.name && c.topic == self.topic && c.host_addr == self.host_addr,
            r is Err ==> max_buffer_size < 5 && r == Err::<NodeConfig<T>, Error>(
                Error::PayloadTooLarge,
            ),
    {
        if max_buffer_size < 5 {
            return Err(Error::PayloadTooLarge);
        }
        Ok(NodeConfig { max_buffer_size, ..self })
    }

    /// Build an unconnected Node from this configuration.
    pub fn build(self) -> (r: Result<Node<Idle, T>, Error>)
        ensures
            r matches Ok(n) ==> {
                &&& n.name == self.name
                &&& n.topic == self.topic
                &&& n.host_addr == self.host_addr
                &&& n.max_buffer_size == self.max_buffer_size
                &&& n.max_buffer_size >= 5
            },
            r is Err ==> self.max_buffer_size < 5 && r == Err::<Node<Idle, T>, Error>(
                Error::PayloadTooLarge,
            ),
    {
        if self.max_buffer_size < 5 {
            return Err(Error::PayloadTooLarge);
        }
        Ok(
            Node {
                state: PhantomData,
                data_kind: PhantomData,
                name: self.name,
                topic: self.topic,
                host_addr: self.host_addr,
                max_buffer_size: self.max_buffer_size,
            },
        )
    }
}

/// A strongly-typed endpoint bound to one topic. `State` is one of [`Idle`],
/// [`Active`] or [`Subscription`]; what a node can do is fixed by it at
/// compile time.
#[derive(Debug)]
pub struct Node<State, T: Message> {
    /// Which state this node is in; carried in the type alone.
    pub state: PhantomData<State>,
    /// What the node's payload type is; carried in the type alone.
    pub data_kind: PhantomData<T>,
    /// A name for the node, for diagnostics.
    pub name: String,
    /// The topic this node is bound to.
    pub topic: String,
    /// The Host's address.
    pub host_addr: String,
    /// Capacity of the receive buffer; at least the size of an
    /// acknowledgement.
    pub max_buffer_size: usize,
}

/// The envelope a publish sends: a SET of the encoded value.
pub open spec fn spec_set_env<T: Message>(topic: Seq<char>, v: &T, now: u64) -> EnvView {
    EnvView {
        kind: MsgType::SET,
        stamp: now,
        topic,
        data_type: T::spec_tag(),
        data: v.spec_enc(),
    }
}

/// The envelope a request sends: a GET with an empty payload.
pub open spec fn spec_get_env<T: Message>(topic: Seq<char>, now: u64) -> EnvView {
    EnvView {
        kind: MsgType::GET,
        stamp: now,
        topic,
        data_type: T::spec_tag(),
        data: Seq::<u8>::empty(),
    }
}

/// The envelope a topics query sends: a TOPICS with an empty topic and
/// payload.
pub open spec fn spec_topics_req_env(now: u64) -> EnvView {
    EnvView {
        kind: MsgType::TOPICS,
        stamp: now,
        topic: Seq::<char>::empty(),
        data_type: <() as Message>::spec_tag(),
        data: Seq::<u8>::empty(),
    }
}

/// The envelope the handshake sends: a SUBSCRIBE announcing the topic.
pub open spec fn spec_handshake_env(topic: Seq<char>, now: u64) -> EnvView {
    EnvView {
        kind: MsgType::SUBSCRIBE,
        stamp: now,
        topic,
        data_type: <() as Message>::spec_tag(),
        data: Seq::<u8>::empty(),
    }
}

/// What a received reply frame means to a node expecting a `Msg<T>`: the
/// typed message, or the error the reply carries or deserves.
pub open spec fn spec_parse_reply<T: Message>(b: Seq<u8>) -> Result<MsgView<T::V>, Error> {
    match spec_unframe(b) {
        None => Err(Error::Deserialization),
        Some(body) => match spec_dec_ack(body) {
            Some(a) => match a {
                Ok(u) => Err(Error::Deserialization),
                Err(e) => Err(e),
            },
            None => match spec_dec_envelope(body) {
                None => Err(Error::Deserialization),
                Some(env) => if env.data_type == T::spec_tag() {
                    match T::spec_dec(env.data) {
                        Some(v) => Ok(
                            MsgView {
                                kind: env.kind,
                                stamp: env.stamp,
                                topic: env.topic,
                                data_type: env.data_type,
                                data: v,
                            },
                        ),
                        None => Err(Error::Deserialization),
                    }
                } else {
                    Err(Error::Deserialization)
                },
            },
        },
    }
}

/// Wrap an envelope in a frame bounded by `max`; `Serialization` exactly when
/// a field is too long to encode, `PayloadTooLarge` exactly when the encoded
/// envelope does not fit.
fn frame_envelope(m: &GenericMsg, max: usize) -> (r: Result<Vec<u8>, Error>)
    ensures
        r matches Ok(b) ==> env_wf(m@) && bytes_fit(spec_enc_envelope(m@)) && frame_fits(
            spec_enc_envelope(m@),
            max as int,
        ) && b@ == spec_frame(spec_enc_envelope(m@)),
        r == Err::<Vec<u8>, Error>(Error::Serialization) <==> !env_wf(m@),
        r == Err::<Vec<u8>, Error>(Error::PayloadTooLarge) <==> env_wf(m@) && !(bytes_fit(
            spec_enc_envelope(m@),
        ) && frame_fits(spec_enc_envelope(m@), max as int)),
        r is Err ==> r == Err::<Vec<u8>, Error>(Error::Serialization) || r == Err::<Vec<u8>, Error>(
            Error::PayloadTooLarge,
        ),
{
    let env_bytes = match encode_envelope(m) {
        Ok(b) => b,
        Err(_) => {
            return Err(Error::Serialization);
        },
    };
    frame_bytes(env_bytes.as_slice(), max)
}

/// Parse one reply frame as a typed message, surfacing an error
/// acknowledgement as the error it carries.
pub(crate) fn parse_typed_reply<T: Message>(reply: &[u8]) -> (r: Result<Msg<T>, Error>)
    ensures
        match r {
            Ok(m) => spec_parse_reply::<T>(reply@) == Ok::<MsgView<T::V>, Error>(m@),
            Err(e) => spec_parse_reply::<T>(reply@) == Err::<MsgView<T::V>, Error>(e),
        },
{
    let body = match unframe_bytes(reply) {
        Ok(b) => b,
        Err(_) => {
            return Err(Error::Deserialization);
        },
    };
    if body.len() == 1 {
        match decode_ack(body.as_slice()) {
            Some(a) => match a {
                Ok(_) => {
                    return Err(Error::Deserialization);
                },
                Err(e) => {
                    return Err(e);
                },
            },
            None => {
                assert(spec_dec_envelope(body@) is None);
                return Err(Error::Deserialization);
            },
        }
    }
    assert(spec_dec_ack(body@) is None);
    let generic = match decode_envelope(body.as_slice()) {
        Ok(g) => g,
        Err(_) => {
            return Err(Error::Deserialization);
        },
    };
    match generic.to_typed::<T>() {
        Ok(m) => {
            assert(spec_parse_reply::<T>(reply@) == Ok::<MsgView<T::V>, Error>(m@));
            Ok(m)
        },
        Err(_) => Err(Error::Deserialization),
    }
}

impl<T: Message> Node<Idle, T> {
    /// The frame the handshake sends on connect: a SUBSCRIBE announcing the
    /// node's topic to the Host.
    pub fn handshake_frame(&self, now: Timestamp) -> (r: Result<Vec<u8>, Error>)
        ensures
            ({
                let env = spec_handshake_env(self.topic@, now.micros);
                let envb = spec_enc_envelope(env);
                match r {
                    Ok(b) => env_wf(env) && bytes_fit(envb) && frame_fits(
                        envb,
                        self.max_buffer_size as int,
                    ) && b@ == spec_frame(envb),
                    Err(e) => (e == Error::Serialization && !env_wf(env)) || (e
                        == Error::PayloadTooLarge && env_wf(env) && !(bytes_fit(envb)
                        && frame_fits(envb, self.max_buffer_size as int))),
                }
            }),
    {
        let m = GenericMsg {
            msg_type: MsgType::SUBSCRIBE,
            timestamp: now,
            topic: self.topic.clone(),
            data_type: <() as Message>::type_tag(),
            data: Vec::new(),
        };
        assert(m@ =~= spec_handshake_env(self.topic@, now.micros));
        frame_envelope(&m, self.max_buffer_size)
    }

    /// The transition a successful connect and handshake completes:
    /// the node becomes Active, able to publish and request.
    pub fn activate(self) -> (r: Node<Active, T>)
        ensures
            r.name == self.name,
            r.topic == self.topic,
            r.host_addr == self.host_addr,
            r.max_buffer_size == self.max_buffer_size,
    {
        Node {
            state: PhantomData,
            data_kind: PhantomData,
            name: self.name,
            topic: self.topic,
            host_addr: self.host_addr,
            max_buffer_size: self.max_buffer_size,
        }
    }

}

impl<T: Message> Node<Active, T> {
    /// The transition a successful subscription completes: the poller owns
    /// the connection from here on, and the Active node is consumed, so no
    /// direct publish or request can race with the poller.
    pub fn subscribe(self) -> (r: Node<Subscription, T>)
        ensures
            r.name == self.name,
            r.topic == self.topic,
            r.host_addr == self.host_addr,
            r.max_buffer_size == self.max_buffer_size,
    {
        Node {
            state: PhantomData,
            data_kind: PhantomData,
            name: self.name,
            topic: self.topic,
            host_addr: self.host_addr,
            max_buffer_size: self.max_buffer_size,
        }
    }

    /// The frame a publish sends: a SET carrying the encoded value, stamped
    /// `now`. The caller writes it and then reads one acknowledgement frame.
    pub fn publish_frame(&self, val: &T, now: Timestamp) -> (r: Result<Vec<u8>, Error>)
        ensures
            ({
                let env = spec_set_env::<T>(self.topic@, val, now.micros);
                let envb = spec_enc_envelope(env);
                match r {
                    Ok(b) => val.payload_wf() && env_wf(env) && bytes_fit(envb) && frame_fits(
                        envb,
                        self.max_buffer_size as int,
                    ) && b@ == spec_frame(envb),
                    Err(e) => (e == Error::Serialization && !(val.payload_wf() && env_wf(env)))
                        || (e == Error::PayloadTooLarge && val.payload_wf() && env_wf(env) && !(
                        bytes_fit(envb) && frame_fits(envb, self.max_buffer_size as int))),
                }
            }),
    {
        let data = match val.encode() {
            Ok(d) => d,
            Err(_) => {
                return Err(Error::Serialization);
            },
        };
        let m = GenericMsg {
            msg_type: MsgType::SET,
            timestamp: now,
            topic: self.topic.clone(),
            data_type: T::type_tag(),
            data,
        };
        assert(m@ =~= spec_set_env::<T>(self.topic@, val, now.micros));
        frame_envelope(&m, self.max_buffer_size)
    }

    /// Interpret the acknowledgement frame a publish reads back: the Host's
    /// verdict, or `Deserialization` if the frame is not an acknowledgement.
    pub fn parse_publish_ack(&self, reply: &[u8]) -> (r: Result<(), Error>)
        ensures
            ({
                match spec_unframe(reply@) {
                    Some(body) => match spec_dec_ack(body) {
                        Some(a) => r == a,
                        None => r == Err::<(), Error>(Error::Deserialization),
                    },
                    None => r == Err::<(), Error>(Error::Deserialization),
                }
            }),
    {
        let body = match unframe_bytes(reply) {
            Ok(b) => b,
            Err(_) => {
                return Err(Error::Deserialization);
            },
        };
        match decode_ack(body.as_slice()) {
            Some(a) => a,
            None => Err(Error::Deserialization),
        }
    }

    /// The frame a request sends: a GET for the node's topic, stamped `now`.
    /// The caller writes it and then reads exactly one reply frame.
    pub fn request_frame(&self, now: Timestamp) -> (r: Result<Vec<u8>, Error>)
        ensures
            ({
                let env = spec_get_env::<T>(self.topic@, now.micros);
                let envb = spec_enc_envelope(env);
                match r {
                    Ok(b) => env_wf(env) && bytes_fit(envb) && frame_fits(
                        envb,
                        self.max_buffer_size as int,
                    ) && b@ == spec_frame(envb),
                    Err(e) => (e == Error::Serialization && !env_wf(env)) || (e
                        == Error::PayloadTooLarge && env_wf(env) && !(bytes_fit(envb)
                        && frame_fits(envb, self.max_buffer_size as int))),
                }
            }),
    {
        let m = GenericMsg {
            msg_type: MsgType::GET,
            timestamp: now,
            topic: self.topic.clone(),
            data_type: T::type_tag(),
            data: Vec::new(),
        };
        assert(m@ =~= spec_get_env::<T>(self.topic@, now.micros));
        frame_envelope(&m, self.max_buffer_size)
    }

    /// Interpret the reply a request reads back: the typed message the Host
    /// replayed, or the error it answered with — `NotFound` for a topic no
    /// publish has landed on.
    pub fn parse_reply(&self, reply: &[u8]) -> (r: Result<Msg<T>, Error>)
        ensures
            match r {
                Ok(m) => spec_parse_reply::<T>(reply@) == Ok::<MsgView<T::V>, Error>(m@),
                Err(e) => spec_parse_reply::<T>(reply@) == Err::<MsgView<T::V>, Error>(e),
            },
    {
        parse_typed_reply::<T>(reply)
    }

    /// The frame a topics query sends: a TOPICS request, stamped `now`.
    pub fn topics_frame(&self, now: Timestamp) -> (r: Result<Vec<u8>, Error>)
        ensures
            ({
                let env = spec_topics_req_env(now.micros);
                let envb = spec_enc_envelope(env);
                match r {
                    Ok(b) => env_wf(env) && bytes_fit(envb) && frame_fits(
                        envb,
                        self.max_buffer_size as int,
                    ) && b@ == spec_frame(envb),
                    Err(e) => (e == Error::Serialization && !env_wf(env)) || (e
                        == Error::PayloadTooLarge && env_wf(env) && !(bytes_fit(envb)
                        && frame_fits(envb, self.max_buffer_size as int))),
                }
            }),
    {
        let m = GenericMsg {
            msg_type: MsgType::TOPICS,
            timestamp: now,
            topic: String::new(),
            data_type: <() as Message>::type_tag(),
            data: Vec::new(),
        };
        assert(m@ =~= spec_topics_req_env(now.micros));
        frame_envelope(&m, self.max_buffer_size)
    }

    /// Interpret the reply a topics query reads back: the list of known
    /// topic names.
    pub fn parse_topics_reply(&self, reply: &[u8]) -> (r: Result<Msg<Vec<String>>, Error>)
        ensures
            match r {
                Ok(m) => spec_parse_reply::<Vec<String>>(reply@) == Ok::<
                    MsgView<Seq<Seq<char>>>,
                    Error,
                >(m@),
                Err(e) => spec_parse_reply::<Vec<String>>(reply@) == Err::<
                    MsgView<Seq<Seq<char>>>,
                    Error,
                >(e),
            },
    {
        parse_typed_reply::<Vec<String>>(reply)
    }
}

} // verus!
