//! A lightweight pub/sub messaging library.
//!
//! A central broker (the Host) keeps the latest value published on each named
//! topic; client endpoints (Nodes) publish typed values to a topic or pull the
//! latest value for a topic. The wire envelope, its framing, the Host's
//! dispatch against the topic store, the Node's typed state machine, and the
//! subscription staleness policy are all verified; socket I/O is left to the
//! caller, which hands frames in and out as plain byte vectors.

pub mod error;
pub mod time;
pub mod wire;
pub mod msg;
pub mod payload;
pub mod framing;
pub mod store;
pub mod host;
pub mod node;
pub mod subscription;
