//! The error taxonomy the library introduces.

use vstd::prelude::*;

verus! {

/// Everything that a publish, request, or subscription read can report.
///
/// Per-call errors are returned to the caller, never panicked; the verified
/// functions of this crate do not panic.
#[derive(Clone, Copy, Debug, PartialEq, Eq, Structural)]
pub enum Error {
    /// The transport-level connect to the Host failed.
    StreamConnection,
    /// The topic-announce exchange with the Host failed.
    Handshake,
    /// The secondary (datagram) socket could not be bound.
    AccessSocket,
    /// The stream endpoint is unavailable or not yet connected.
    AccessStream,
    /// A value or envelope could not be encoded for the wire.
    Serialization,
    /// Received bytes did not decode as the expected value or envelope.
    Deserialization,
    /// A request hit a topic that no publish has ever landed on.
    NotFound,
    /// An encoded frame would exceed the configured buffer capacity.
    PayloadTooLarge,
    /// The subscription poller has not yet produced a value.
    NoSubscriptionValue,
    /// An internal runtime handle was missing: a programming invariant broke.
    HandleAccess,
    /// The topic store's persistence layer failed.
    StoreAccess,
}

impl Error {
    /// The one-byte code this error travels under in an acknowledgement.
    pub open spec fn spec_code(self) -> u8 {
        match self {
            Error::StreamConnection => 1,
            Error::Handshake => 2,
            Error::AccessSocket => 3,
            Error::AccessStream => 4,
            Error::Serialization => 5,
            Error::Deserialization => 6,
            Error::NotFound => 7,
            Error::PayloadTooLarge => 8,
            Error::NoSubscriptionValue => 9,
            Error::HandleAccess => 10,
            Error::StoreAccess => 11,
        }
    }

    /// The error a given code stands for, if any.
    pub open spec fn spec_from_code(code: u8) -> Option<Error> {
        match code {
            1u8 => Some(Error::StreamConnection),
            2u8 => Some(Error::Handshake),
            3u8 => Some(Error::AccessSocket),
            4u8 => Some(Error::AccessStream),
            5u8 => Some(Error::Serialization),
            6u8 => Some(Error::Deserialization),
            7u8 => Some(Error::NotFound),
            8u8 => Some(Error::PayloadTooLarge),
            9u8 => Some(Error::NoSubscriptionValue),
            10u8 => Some(Error::HandleAccess),
            11u8 => Some(Error::StoreAccess),
            _ => None,
        }
    }

    /// Turn the error into its one-byte wire code.
    pub fn code(self) -> (r: u8)
        ensures
            r == self.spec_code(),
            Error::spec_from_code(r) == Some(self),
    {
        match self {
            Error::StreamConnection => 1,
            Error::Handshake => 2,
            Error::AccessSocket => 3,
            Error::AccessStream => 4,
            Error::Serialization => 5,
            Error::Deserialization => 6,
            Error::NotFound => 7,
            Error::PayloadTooLarge => 8,
            Error::NoSubscriptionValue => 9,
            Error::HandleAccess => 10,
            Error::StoreAccess => 11,
        }
    }

    /// Read an error back from its one-byte wire code.
    pub fn from_code(code: u8) -> (r: Option<Error>)
        ensures
            r == Error::spec_from_code(code),
    {
        match code {
            1 => Some(Error::StreamConnection),
            2 => Some(Error::Handshake),
            3 => Some(Error::AccessSocket),
            4 => Some(Error::AccessStream),
            5 => Some(Error::Serialization),
            6 => Some(Error::Deserialization),
            7 => Some(Error::NotFound),
            8 => Some(Error::PayloadTooLarge),
            9 => Some(Error::NoSubscriptionValue),
            10 => Some(Error::HandleAccess),
            11 => Some(Error::StoreAccess),
            _ => None,
        }
    }

    /// A short human-readable name for the error.
    pub fn describe(self) -> (r: &'static str)
    {
        match self {
            Error::StreamConnection => "stream connection failed",
            Error::Handshake => "handshake exchange failed",
            Error::AccessSocket => "datagram socket unavailable",
            Error::AccessStream => "stream endpoint unavailable",
            Error::Serialization => "value could not be encoded",
            Error::Deserialization => "bytes did not decode",
            Error::NotFound => "no value published on this topic",
            Error::PayloadTooLarge => "frame exceeds buffer capacity",
            Error::NoSubscriptionValue => "subscription has no value yet",
            Error::HandleAccess => "internal runtime handle missing",
            Error::StoreAccess => "topic store persistence failed",
        }
    }
}

/// Round trip: every error comes back unchanged from its wire code.
pub proof fn lemma_error_code_round_trip(e: Error)
    ensures
        Error::spec_from_code(e.spec_code()) == Some(e),
{
}

} // verus!
