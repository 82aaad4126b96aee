//! What a connection pool needs to know of the two brokers: where they are,
//! and that a connection is never given up on without asking it.

use vstd::prelude::*;
use crate::error::{Error, INTERNAL_SERVER_ERROR};

verus! {

/// The client of the key-value store, opaque to this library.
#[verifier::external_type_specification]
#[verifier::external_body]
pub struct ExRedisClient(redis::Client);

/// The error of the key-value store, opaque to this library.
#[verifier::external_type_specification]
#[verifier::external_body]
pub struct ExRedisError(redis::RedisError);

/// `redis::Client::open` on a URL. It checks the URL and connects to nothing;
/// whether it accepts a URL is left to it, so nothing is claimed of the result.
#[verifier::external_body]
fn open(uri: &str) -> (opened: Result<redis::Client, redis::RedisError>) {
    redis::Client::open(uri)
}

/// The text that `redis::RedisError` displays. Nothing is claimed of it.
#[verifier::external_body]
fn describe(error: &redis::RedisError) -> (text: String) {
    format!("{}", error)
}

/// The brokers of the message bus, as a pool connects to them.
#[derive(Debug, Clone, PartialEq, Eq)]
pub struct KafkaManager {
    hosts: Vec<String>,
}

impl KafkaManager {
    /// The addresses of the brokers.
    pub closed spec fn brokers(&self) -> Seq<String> {
        self.hosts@
    }

    /// A manager for the brokers at `hosts`.
    pub fn new(hosts: Vec<String>) -> (manager: Self)
        ensures
            manager.brokers() == hosts@,
    {
        KafkaManager { hosts }
    }

    /// The addresses to connect to.
    pub fn hosts(&self) -> (hosts: &Vec<String>)
        ensures
            hosts@ == self.brokers(),
    {
        &self.hosts
    }

    /// Whether a connection is to be thrown away unasked: never. A connection
    /// is judged by asking the broker, not by guessing.
    pub fn has_broken(&self) -> (broken: bool)
        ensures
            !broken,
    {
        false
    }
}

/// Whether `opened` is what opening `uri` hands back: the result of the one
/// call of `redis::Client::open` on it.
pub closed spec fn opens(uri: &str, opened: Result<redis::Client, redis::RedisError>) -> bool {
    call_ensures(open, (uri,), opened)
}

/// Whether `text` is what `error` displays.
pub closed spec fn describes(error: &redis::RedisError, text: String) -> bool {
    call_ensures(describe, (error,), text)
}

/// Whether `manager` is what opening `uri` leads to: the manager of the
/// client that came back, or an internal error with the text that the refusal
/// displays.
pub open spec fn managed(uri: &str, manager: Result<RedisManager, Error>) -> bool {
    exists|opened: Result<redis::Client, redis::RedisError>| #[trigger]
        opens(uri, opened) && match opened {
            Ok(client) => manager matches Ok(m) && m.source() == client,
            Err(refusal) => manager matches Err(error) && error.status() == INTERNAL_SERVER_ERROR
                && exists|text: String| #[trigger] describes(&refusal, text) && error.detail() == text@,
        }
}

/// The key-value store, as a pool connects to it.
pub struct RedisManager {
    client: redis::Client,
}

impl RedisManager {
    /// The client that connections are made from.
    pub closed spec fn source(&self) -> redis::Client {
        self.client
    }

    /// Turns an opened client into a manager, and a refused URL into an
    /// internal error with the message `text`.
    pub fn from_opened(opened: Result<redis::Client, String>) -> (manager: Result<Self, Error>)
        ensures
            match opened {
                Ok(client) => manager matches Ok(m) && m.source() == client,
                Err(text) => manager matches Err(error) && error.detail() == text@ && error.status()
                    == INTERNAL_SERVER_ERROR,
            },
    {
        match opened {
            Ok(client) => Ok(RedisManager { client }),
            Err(text) => Err(Error::new_500(text)),
        }
    }

    /// A manager for the store at `uri`. The URL is checked, nothing is
    /// connected. The URL is opened once: a client that comes back is the one
    /// the manager keeps, and a refusal is an internal error that speaks with
    /// the words of the refusal.
    pub fn new(uri: &str) -> (manager: Result<Self, Error>)
        ensures
            managed(uri, manager),
            manager matches Err(error) ==> error.status() == INTERNAL_SERVER_ERROR,
    {
        match open(uri) {
            Ok(client) => {
                assert(opens(uri, Ok(client)));
                RedisManager::from_opened(Ok(client))
            },
            Err(error) => {
                let text = describe(&error);
                assert(opens(uri, Err(error)));
                assert(describes(&error, text));
                RedisManager::from_opened(Err(text))
            },
        }
    }

    /// The client to connect with.
    pub fn client(&self) -> (client: &redis::Client)
        ensures
            *client == self.source(),
    {
        &self.client
    }

    /// Whether a connection is to be thrown away unasked: never.
    pub fn has_broken(&self) -> (broken: bool)
        ensures
            !broken,
    {
        false
    }
}

} // verus!
