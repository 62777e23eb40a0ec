//! The subscription cache and the poller's staleness policy.
//!
//! A background poller repeatedly requests the node's topic and commits each
//! reply here. A reply only replaces the cached entry when its timestamp is
//! strictly newer, so the cached timestamp never decreases: a duplicate or
//! reordered reply can never roll the cache back. A reply that does not
//! decode is discarded without touching the cache. The caller sleeps for the
//! poll interval only after a commit; stale or malformed replies retry at
//! once.

use vstd::prelude::*;
use crate::error::Error;
use crate::msg::{Msg, MsgView};
use crate::node::spec_parse_reply;
use crate::payload::Message;

verus! {

/// How one poll iteration ended.
#[derive(Clone, Copy, Debug, PartialEq, Eq, Structural)]
pub enum PollOutcome {
    /// The reply was newer than the cache and was committed; sleep for the
    /// poll interval before the next request.
    Updated,
    /// The reply was not strictly newer than the cache; retry at once.
    Stale,
    /// The reply did not decode as a message; retry at once.
    Malformed,
}

/// What committing a reply does to a cache holding `c`: replace it exactly
/// when the reply is strictly newer, keep it otherwise.
pub open spec fn spec_apply<V>(c: Option<MsgView<V>>, m: MsgView<V>) -> Option<MsgView<V>> {
    match c {
        None => Some(m),
        Some(o) => if m.stamp > o.stamp {
            Some(m)
        } else {
            c
        },
    }
}

/// The cached timestamp; the epoch while the cache is empty.
pub open spec fn spec_cache_stamp<V>(c: Option<MsgView<V>>) -> u64 {
    match c {
        None => 0,
        Some(m) => m.stamp,
    }
}

/// The cache after committing a whole run of replies, oldest first.
pub open spec fn spec_run<V>(c: Option<MsgView<V>>, ms: Seq<MsgView<V>>) -> Option<MsgView<V>>
    decreases ms.len(),
{
    if ms.len() == 0 {
        c
    } else {
        spec_run(spec_apply(c, ms[0]), ms.drop_first())
    }
}

/// The last value a subscription has accepted, shared between its poller
/// (the single writer) and any number of readers.
pub struct SubscriptionCache<T: Message> {
    latest: Option<Msg<T>>,
}

impl<T: Message> SubscriptionCache<T> {
    /// What the cache holds.
    pub closed spec fn cached(&self) -> Option<MsgView<T::V>> {
        match self.latest {
            Some(m) => Some(m@),
            None => None,
        }
    }

    /// An empty cache: no value has been accepted yet.
    pub fn new() -> (r: SubscriptionCache<T>)
        ensures
            r.cached() is None,
    {
        SubscriptionCache { latest: None }
    }

    /// Commit one decoded reply under the staleness policy: the cache is
    /// replaced exactly when the reply is strictly newer, and the cached
    /// timestamp never decreases.
    pub fn apply_reply(&mut self, reply: Msg<T>) -> (accepted: bool)
        ensures
            final(self).cached() == spec_apply(old(self).cached(), reply@),
            accepted <==> final(self).cached() == Some(reply@) && (old(self).cached() is None
                || reply@.stamp > spec_cache_stamp(old(self).cached())),
            spec_cache_stamp(final(self).cached()) >= spec_cache_stamp(old(self).cached()),
    {
        match &self.latest {
            None => {
                self.latest = Some(reply);
                true
            },
            Some(o) => {
                if reply.timestamp.is_newer_than(&o.timestamp) {
                    self.latest = Some(reply);
                    true
                } else {
                    false
                }
            },
        }
    }

    /// The last accepted message, or `NoSubscriptionValue` while the poller
    /// has not yet produced one.
    pub fn get_subscribed_data(&self) -> (r: Result<Msg<T>, Error>)
        ensures
            match r {
                Ok(m) => self.cached() == Some(m@),
                Err(e) => self.cached() is None && e == Error::NoSubscriptionValue,
            },
    {
        match &self.latest {
            Some(m) => Ok(m.dup()),
            None => Err(Error::NoSubscriptionValue),
        }
    }

    /// One poll iteration, after the reply frame has been read: decode it
    /// and commit it under the staleness policy.
    pub fn poll_step(&mut self, reply: &[u8]) -> (r: PollOutcome)
        ensures
            ({
                let p = spec_parse_reply::<T>(reply@);
                match p {
                    Ok(m) => {
                        &&& final(self).cached() == spec_apply(old(self).cached(), m)
                        &&& (r == PollOutcome::Updated <==> final(self).cached() == Some(m) && (old(
                            self,
                        ).cached() is None || m.stamp > spec_cache_stamp(old(self).cached())))
                        &&& (r == PollOutcome::Updated || r == PollOutcome::Stale)
                    },
                    Err(e) => r == PollOutcome::Malformed && final(self).cached() == old(
                        self,
                    ).cached(),
                }
            }),
            spec_cache_stamp(final(self).cached()) >= spec_cache_stamp(old(self).cached()),
    {
        let m = match crate::node::parse_typed_reply::<T>(reply) {
            Ok(m) => m,
            Err(_) => {
                return PollOutcome::Malformed;
            },
        };
        if self.apply_reply(m) {
            PollOutcome::Updated
        } else {
            PollOutcome::Stale
        }
    }
}

/// Staleness monotonicity: over any run of replies, in any order, the
/// cached timestamp never decreases — a reply no newer than the cache never
/// overwrites it.
pub proof fn lemma_staleness_monotonic<V>(c: Option<MsgView<V>>, ms: Seq<MsgView<V>>)
    ensures
        spec_cache_stamp(spec_run(c, ms)) >= spec_cache_stamp(c),
    decreases ms.len(),
{
    if ms.len() > 0 {
        lemma_staleness_monotonic(spec_apply(c, ms[0]), ms.drop_first());
    }
}

} // verus!
