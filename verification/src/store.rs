//! The topic store: a durable mapping from topic name to the latest stored
//! envelope bytes.
//!
//! Persistence is delegated to an embedded key-value tree, consumed only
//! through open, insert-by-key and get-by-key; the store keeps its own
//! verified catalog of topic names for enumeration. On the success path the
//! catalog and the tree move in lockstep; after a persistence failure the two
//! can disagree, which the contracts state rather than hide.

use vstd::prelude::*;
use crate::error::Error;
use crate::payload::Message;

verus! {

/// The persistent key-value tree; opaque to the verifier, modeled by
/// [`store_map`].
#[verifier::external_body]
pub struct StoreDb {
    db: sled::Db,
}

/// What the persistent tree holds: topic names to stored envelope bytes.
pub uninterp spec fn store_map(s: StoreDb) -> Map<Seq<char>, Seq<u8>>;

/// Relies on `sled::Config::open` with the `temporary` flag and the default
/// path: a temporary database lives under a fresh salted path, so it opens
/// holding no keys and is removed when dropped. A failure to open comes back
/// as `StoreAccess`.
#[verifier::external_body]
fn db_open_temporary() -> (r: Result<StoreDb, Error>)
    ensures
        match r {
            Ok(s) => store_map(s) == Map::<Seq<char>, Seq<u8>>::empty(),
            Err(e) => e == Error::StoreAccess,
        },
{
    match sled::Config::default().temporary(true).open() {
        Ok(db) => Ok(StoreDb { db }),
        Err(_) => Err(Error::StoreAccess),
    }
}

/// Relies on `sled::Tree::insert`: it sets this key to this value and touches
/// no other key; on an error, reported as `StoreAccess`, the write may or may
/// not have landed.
#[verifier::external_body]
fn db_insert(s: &mut StoreDb, topic: &String, value: &[u8]) -> (r: Result<(), Error>)
    ensures
        match r {
            Ok(u) => store_map(*final(s)) == store_map(*old(s)).insert(topic@, value@),
            Err(e) => e == Error::StoreAccess && (store_map(*final(s)) == store_map(*old(s))
                || store_map(*final(s)) == store_map(*old(s)).insert(topic@, value@)),
        },
{
    match s.db.insert(topic.as_bytes(), value) {
        Ok(_) => Ok(()),
        Err(_) => Err(Error::StoreAccess),
    }
}

/// Relies on `sled::Tree::get`: `Ok(Some)` returns exactly the value the key
/// maps to, `Ok(None)` comes exactly when the key is absent, and the tree is
/// not changed. A read failure comes back as `StoreAccess`.
#[verifier::external_body]
fn db_get(s: &StoreDb, topic: &String) -> (r: Result<Option<Vec<u8>>, Error>)
    ensures
        match r {
            Ok(v) => match v {
                Some(bytes) => store_map(*s).contains_key(topic@) && bytes@ == store_map(*s)[
                    topic@],
                None => !store_map(*s).contains_key(topic@),
            },
            Err(e) => e == Error::StoreAccess,
        },
{
    match s.db.get(topic.as_bytes()) {
        Ok(Some(v)) => Ok(Some(v.to_vec())),
        Ok(None) => Ok(None),
        Err(_) => Err(Error::StoreAccess),
    }
}

/// The topic store: the persistent tree plus a verified catalog of every
/// topic a publish has landed on.
pub struct TopicStore {
    db: StoreDb,
    names: Vec<String>,
}

impl TopicStore {
    /// The mapping from topic name to the latest stored envelope bytes.
    pub closed spec fn contents(&self) -> Map<Seq<char>, Seq<u8>> {
        store_map(self.db)
    }

    /// The catalog of topic names, in first-publish order.
    pub closed spec fn topic_names(&self) -> Seq<Seq<char>> {
        self.names.deep_view()
    }

    /// The catalog as a set.
    pub open spec fn topic_set(&self) -> Set<Seq<char>> {
        self.topic_names().to_set()
    }

    /// The catalog holds each topic at most once.
    pub open spec fn inv(&self) -> bool {
        forall|i: int, j: int|
            0 <= i < j < self.topic_names().len() ==> self.topic_names()[i]
                != self.topic_names()[j]
    }

    /// Open a fresh, empty store.
    pub fn new() -> (r: Result<TopicStore, Error>)
        ensures
            r matches Ok(s) ==> {
                &&& s.inv()
                &&& s.contents() == Map::<Seq<char>, Seq<u8>>::empty()
                &&& s.topic_names() == Seq::<Seq<char>>::empty()
            },
            r is Err ==> r == Err::<TopicStore, Error>(Error::StoreAccess),
    {
        match db_open_temporary() {
            Ok(db) => {
                let names: Vec<String> = Vec::new();
                assert(names.deep_view() =~= Seq::<Seq<char>>::empty());
                Ok(TopicStore { db, names })
            },
            Err(_) => Err(Error::StoreAccess),
        }
    }

    /// Whether the catalog already holds this topic.
    fn knows_topic(&self, topic: &String) -> (r: bool)
        ensures
            r == self.topic_set().contains(topic@),
    {
        let mut i: usize = 0;
        while i < self.names.len()
            invariant
                0 <= i <= self.names.len(),
                forall|j: int| 0 <= j < i ==> self.topic_names()[j] != topic@,
            decreases self.names.len() - i,
        {
            if self.names[i].eq(topic) {
                assert(self.topic_names()[i as int] == topic@);
                assert(self.topic_set().contains(topic@));
                return true;
            }
            i = i + 1;
        }
        assert(forall|j: int| 0 <= j < self.topic_names().len() ==> self.topic_names()[j]
            != topic@);
        assert(!self.topic_set().contains(topic@));
        false
    }

    /// Store `value` as the latest bytes for `topic`, overwriting
    /// unconditionally, and enter the topic into the catalog.
    pub fn insert(&mut self, topic: &String, value: &[u8]) -> (r: Result<(), Error>)
        requires
            old(self).inv(),
        ensures
            final(self).inv(),
            r is Ok ==> {
                &&& final(self).contents() == old(self).contents().insert(topic@, value@)
                &&& final(self).topic_set() == old(self).topic_set().insert(topic@)
            },
            r is Err ==> {
                &&& r == Err::<(), Error>(Error::StoreAccess)
                &&& final(self).topic_names() == old(self).topic_names()
                &&& (final(self).contents() == old(self).contents() || final(self).contents()
                    == old(self).contents().insert(topic@, value@))
            },
    {
        match db_insert(&mut self.db, topic, value) {
            Ok(_) => {
                if !self.knows_topic(topic) {
                    let ghost names0 = self.topic_names();
                    self.names.push(topic.clone());
                    proof {
                        assert(self.topic_names() =~= names0.push(topic@));
                        names0.lemma_push_to_set_commute(topic@);
                        assert(self.topic_set() == old(self).topic_set().insert(topic@));
                        assert(!names0.to_set().contains(topic@));
                        assert forall|j: int| 0 <= j < names0.len() implies names0[j] != topic@ by {
                            if names0[j] == topic@ {
                                assert(names0.contains(topic@));
                            }
                        };
                        assert(self.inv());
                    }
                } else {
                    proof {
                        assert(old(self).topic_set().contains(topic@));
                        assert(self.topic_set() =~= old(self).topic_set().insert(topic@));
                    }
                }
                Ok(())
            },
            Err(_) => {
                proof {
                    assert(self.topic_names() == old(self).topic_names());
                    assert(self.inv());
                }
                Err(Error::StoreAccess)
            },
        }
    }

    /// The latest stored bytes for `topic`; `NotFound` exactly when no insert
    /// has ever landed on it.
    pub fn get(&self, topic: &String) -> (r: Result<Vec<u8>, Error>)
        ensures
            r matches Ok(b) ==> self.contents().contains_key(topic@) && b@ == self.contents()[
                topic@],
            r == Err::<Vec<u8>, Error>(Error::NotFound) ==> !self.contents().contains_key(topic@),
            r is Err ==> r == Err::<Vec<u8>, Error>(Error::NotFound) || r == Err::<Vec<u8>, Error>(
                Error::StoreAccess,
            ),
    {
        match db_get(&self.db, topic) {
            Ok(Some(bytes)) => Ok(bytes),
            Ok(None) => Err(Error::NotFound),
            Err(_) => Err(Error::StoreAccess),
        }
    }

    /// Every topic the catalog holds: exactly the set of topics published,
    /// each exactly once, whatever the publish order.
    pub fn topics(&self) -> (r: Vec<String>)
        requires
            self.inv(),
        ensures
            r.deep_view() == self.topic_names(),
            r.deep_view().to_set() == self.topic_set(),
            forall|i: int, j: int|
                0 <= i < j < r.deep_view().len() ==> r.deep_view()[i] != r.deep_view()[j],
    {
        self.names.dup()
    }
}

} // verus!
