//! The collaborators of the bridge, each as one flat capability.
//!
//! The traits are implemented outside this library, over a graph store, a
//! key-value cache, a message bus and a reply queue. Nothing is assumed of an
//! implementation: every call may fail, and the functions that call through a
//! trait are verified for whatever comes back. What an implementation promises
//! of its own methods is passed on by those functions: their contracts say
//! which calls are made, and speak of the results as the results of those
//! calls.

use vstd::prelude::*;
use crate::client::{Await, Increment, Publish};
use crate::error::Error;
use crate::message::Reply;

verus! {

/// The authoritative store of people and their friendships.
pub trait Persister {
    /// How the store names a person.
    type UID;

    /// Registers a person.
    fn insert_node(&self, uid: Self::UID) -> Result<(), Error>;

    /// Removes a person.
    fn delete_node(&self, uid: Self::UID) -> Result<(), Error>;

    /// Whether the person is registered.
    fn exist_node(&self, uid: Self::UID) -> Result<bool, Error>;

    /// Makes two people friends.
    fn insert(&self, uid_a: Self::UID, uid_b: Self::UID) -> Result<(), Error>;

    /// Ends the friendship of two people.
    fn delete(&self, uid_a: Self::UID, uid_b: Self::UID) -> Result<(), Error>;

    /// The friends of a person, in the store's stable order.
    fn friends(&self, uid: Self::UID) -> Result<Vec<Self::UID>, Error>;

    /// Whether two people are friends.
    fn is_friend(&self, uid_a: Self::UID, uid_b: Self::UID) -> Result<bool, Error>;

    /// The people reached from `uid` over at least `threshold` paths of
    /// `level` friendships.
    fn recommendations(&self, uid: Self::UID, level: i32, threshold: i32) -> Result<
        Vec<Self::UID>,
        Error,
    >;
}

/// The cache of friend lists, one whole list per person.
pub trait Cacher {
    /// How the cache names a person.
    type UID;

    /// Replaces the entry of a person.
    fn insert(&self, uid: Self::UID, friends: Vec<Self::UID>) -> Result<(), Error>;

    /// Drops the entry of a person.
    fn delete(&self, uid: Self::UID) -> Result<(), Error>;

    /// The entry of a person, or `None` on a miss.
    fn query(&self, uid: Self::UID) -> Result<Option<Vec<Self::UID>>, Error>;
}

/// The counters that number the requests of each requester. An increment is
/// one atomic step: no two increments of one counter hand out the same value.
pub trait Counter {
    /// Increments the counter by one and hands back its new value.
    fn increment(&self, order: Increment) -> Result<i32, String>;
}

/// The sending side of the bus.
pub trait Publisher {
    /// Publishes one message under its key.
    fn publish(&self, order: Publish) -> Result<(), String>;
}

/// The reply slots, seen from the caller that waits on one of them.
pub trait ReplySource {
    /// Blocks until the slot of the key holds an envelope or the time is up,
    /// and takes at most one envelope: the key and the envelope, or nothing.
    fn await_reply(&self, order: Await) -> Result<Vec<String>, String>;
}

/// The way replies travel back: each is appended to the slot of its
/// correlation key.
pub trait Outputer {
    /// Delivers the payload of a success.
    fn ok(&self, key: String, data: Reply) -> Result<(), Error>;

    /// Delivers the detail of a failure.
    fn error(&self, key: String, err: String) -> Result<(), Error>;
}

} // verus!
