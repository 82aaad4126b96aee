//! The client side of the bridge: a call that publishes a request under a fresh
//! correlation key and waits on the reply slot of that key.
//!
//! The call is laid out as the decisions between its three suspensions: the
//! requester's counter is incremented, the request is published, the reply is
//! waited for. After each of them the call is handed what happened and says
//! what to do next, so that exactly one message is published and exactly one
//! wait is entered per call. `call` runs the three against collaborators that
//! block; a caller that must not block takes the same steps by itself.

use vstd::prelude::*;
use crate::capability::{Counter, Publisher, ReplySource};
use crate::error::BridgeError;
use crate::message::{response_of_envelope, Reply, Request, Response, ResponseView};
use crate::text::{
    decimal, decimal_text, digits, is_digit, lemma_digit_is_no_sign, lemma_digits_are_digits,
    lemma_digits_injective,
};

verus! {

/// The topic on which requests about friendships travel.
pub open spec fn friendship_topic() -> Seq<char> {
    "friendship"@
}

/// Seconds granted to the bus for taking a message.
pub const SEND_PATIENCE: u64 = 10;

/// Seconds that `add_node` waits for its reply.
pub const DEFAULT_READ_TIMEOUT: usize = 10;

/// The correlation key issued at `timestamp` for the sequence number `seq`:
/// both in decimal notation, joined by a hyphen.
pub open spec fn correlation_key(timestamp: int, seq: int) -> Seq<char> {
    decimal(timestamp) + seq!['-'] + decimal(seq)
}

/// The name of the counter that numbers the requests of `uid`.
pub open spec fn counter_of(uid: int) -> Seq<char> {
    decimal(uid) + "_seq"@
}

/// Makes the correlation key of the request numbered `seq`, issued at `timestamp`.
pub fn gen_key(timestamp: i64, seq: i32) -> (key: String)
    ensures
        key@ == correlation_key(timestamp as int, seq as int),
{
    let mut key = decimal_text(timestamp);
    proof {
        reveal_strlit("-");
    }
    key.append("-");
    key.append(decimal_text(seq as i64).as_str());
    assert(key@ =~= correlation_key(timestamp as int, seq as int));
    key
}

/// The counter to increment for the next request of `uid`.
pub fn counter_key(uid: i64) -> (counter: String)
    ensures
        counter@ == counter_of(uid as int),
{
    let mut counter = decimal_text(uid);
    counter.append("_seq");
    counter
}

/// The size of a number without its sign.
pub open spec fn magnitude(n: int) -> nat {
    if n < 0 {
        (-n) as nat
    } else {
        n as nat
    }
}

proof fn lemma_decimal_ends_in_digit(n: int)
    ensures
        decimal(n).len() >= 1,
        is_digit(decimal(n).last()),
{
    lemma_digits_are_digits(magnitude(n));
    let d = digits(magnitude(n));
    assert(is_digit(d[d.len() - 1]));
}

/// How a key ends: with the digits of the sequence number, after a hyphen
/// that follows a second hyphen exactly when the number is negative.
proof fn lemma_key_shape(timestamp: int, seq: int)
    ensures
        ({
            let key = correlation_key(timestamp, seq);
            let tail = digits(magnitude(seq));
            let n = key.len() as int;
            let m = tail.len() as int;
            &&& m >= 1
            &&& n >= m + 2
            &&& key.subrange(n - m, n) == tail
            &&& key[n - m - 1] == '-'
            &&& seq < 0 ==> key[n - m - 2] == '-'
            &&& seq >= 0 ==> is_digit(key[n - m - 2])
            &&& forall|i: int| n - m <= i < n ==> is_digit(#[trigger] key[i])
        }),
{
    let key = correlation_key(timestamp, seq);
    let tail = digits(magnitude(seq));
    let head = decimal(timestamp);
    let n = key.len() as int;
    let m = tail.len() as int;
    lemma_digits_are_digits(magnitude(seq));
    lemma_decimal_ends_in_digit(timestamp);
    if seq < 0 {
        assert(key =~= head + seq!['-'] + seq!['-'] + tail);
        assert(key.subrange(n - m, n) =~= tail);
        assert forall|i: int| n - m <= i < n implies is_digit(#[trigger] key[i]) by {
            assert(key[i] == tail[i - (n - m)]);
        }
    } else {
        assert(key =~= head + seq!['-'] + tail);
        assert(key.subrange(n - m, n) =~= tail);
        assert(key[n - m - 2] == head.last());
        assert forall|i: int| n - m <= i < n implies is_digit(#[trigger] key[i]) by {
            assert(key[i] == tail[i - (n - m)]);
        }
    }
}

/// Two keys of different sequence numbers differ, whatever the clock showed
/// when they were issued: the sequence number can be read off the end of the
/// key. A requester whose counter never hands out a number twice therefore
/// never holds the same key twice.
pub proof fn lemma_keys_differ(timestamp1: int, seq1: int, timestamp2: int, seq2: int)
    requires
        seq1 != seq2,
    ensures
        correlation_key(timestamp1, seq1) != correlation_key(timestamp2, seq2),
{
    let k1 = correlation_key(timestamp1, seq1);
    let k2 = correlation_key(timestamp2, seq2);
    if k1 == k2 {
        let d1 = digits(magnitude(seq1));
        let d2 = digits(magnitude(seq2));
        let n = k1.len() as int;
        let m1 = d1.len() as int;
        let m2 = d2.len() as int;
        lemma_key_shape(timestamp1, seq1);
        lemma_key_shape(timestamp2, seq2);
        if m1 < m2 {
            assert(is_digit(k2[n - m1 - 1]));
            lemma_digit_is_no_sign(k2[n - m1 - 1]);
        } else if m2 < m1 {
            assert(is_digit(k1[n - m2 - 1]));
            lemma_digit_is_no_sign(k1[n - m2 - 1]);
        }
        assert(m1 == m2);
        assert(d1 == d2);
        lemma_digits_injective(magnitude(seq1), magnitude(seq2));
        if seq1 < 0 && seq2 >= 0 {
            lemma_digit_is_no_sign(k2[n - m2 - 2]);
        }
        if seq2 < 0 && seq1 >= 0 {
            lemma_digit_is_no_sign(k1[n - m1 - 2]);
        }
        assert(false);
    }
}

/// The order to increment a counter by one and report its new value.
#[derive(Debug, Clone, PartialEq, Eq)]
pub struct Increment {
    pub counter: String,
}

/// The order to publish one message.
#[derive(Debug, Clone, PartialEq, Eq)]
pub struct Publish {
    pub topic: String,
    pub key: String,
    pub body: String,
    /// Seconds after which the bus counts as unreachable.
    pub patience: u64,
}

/// The order to wait on one reply slot.
#[derive(Debug, Clone, PartialEq, Eq)]
pub struct Await {
    pub key: String,
    /// Seconds after which the wait is given up.
    pub timeout: usize,
}

/// A call that has no correlation key yet.
#[derive(Debug, Clone, PartialEq, Eq)]
pub struct Sequencing {
    pub topic: String,
    pub body: String,
    pub read_timeout: usize,
}

/// A call whose request is on its way to the bus.
#[derive(Debug, Clone, PartialEq, Eq)]
pub struct Publishing {
    pub key: String,
    pub read_timeout: usize,
}

/// A call that is blocked on its reply slot.
#[derive(Debug, Clone, PartialEq, Eq)]
pub struct Waiting {
    pub key: String,
}

/// Starts a call for the requester `uid`: the request is written down and the
/// requester's counter is to be incremented. Nothing is published yet.
pub fn request(uid: i64, topic: String, req: &Request, read_timeout: usize) -> (started: (Sequencing, Increment))
    ensures
        started.0.topic == topic,
        started.0.body@ == req.wire(),
        started.0.read_timeout == read_timeout,
        started.1.counter@ == counter_of(uid as int),
{
    (Sequencing { topic, body: req.encode(), read_timeout }, Increment { counter: counter_key(uid) })
}

/// Starts the call that registers the person `uid`, asked by that person.
pub fn add_node(uid: i64) -> (started: (Sequencing, Increment))
    ensures
        started.0.topic@ == friendship_topic(),
        started.0.body@ == (Request::AddNode { uid }).wire(),
        started.0.read_timeout == DEFAULT_READ_TIMEOUT,
        started.1.counter@ == counter_of(uid as int),
{
    request(uid, String::from_str("friendship"), &Request::AddNode { uid }, DEFAULT_READ_TIMEOUT)
}

impl Sequencing {
    /// Goes on after the counter was asked. With a number, the request is to
    /// be published under the key of that number and of the time `now`; with
    /// none, the call ends as `Unavailable` and nothing is published.
    pub fn sequenced(self, seq: Result<i32, String>, now: i64) -> (next: Result<(Publishing, Publish), BridgeError>)
        ensures
            match seq {
                Ok(number) => next matches Ok((publishing, publish))
                    && publish.key@ == correlation_key(now as int, number as int)
                    && publish.topic == self.topic
                    && publish.body == self.body
                    && publish.patience == SEND_PATIENCE
                    && publishing.key == publish.key
                    && publishing.read_timeout == self.read_timeout,
                Err(detail) => next == Err::<(Publishing, Publish), BridgeError>(
                    BridgeError::Unavailable { detail },
                ),
            },
    {
        match seq {
            Ok(number) => {
                let key = gen_key(now, number);
                Ok(
                    (
                        Publishing { key: key.clone(), read_timeout: self.read_timeout },
                        Publish { topic: self.topic, key, body: self.body, patience: SEND_PATIENCE },
                    ),
                )
            },
            Err(detail) => Err(BridgeError::Unavailable { detail }),
        }
    }
}

impl Publishing {
    /// Goes on after the publish. Where the bus took the message, the reply
    /// slot of the key is to be waited on; where it did not, the call ends as
    /// `PublishFailed` and no wait is entered.
    pub fn published(self, sent: Result<(), String>) -> (next: Result<(Waiting, Await), BridgeError>)
        ensures
            match sent {
                Ok(()) => next == Ok::<(Waiting, Await), BridgeError>(
                    (Waiting { key: self.key }, Await { key: self.key, timeout: self.read_timeout }),
                ),
                Err(detail) => next == Err::<(Waiting, Await), BridgeError>(
                    BridgeError::PublishFailed { detail },
                ),
            },
    {
        match sent {
            Ok(()) => Ok(
                (Waiting { key: self.key.clone() }, Await { key: self.key, timeout: self.read_timeout }),
            ),
            Err(detail) => Err(BridgeError::PublishFailed { detail }),
        }
    }
}

/// What a wait on a reply slot hands back: the items popped, the envelope
/// last, or nothing where the deadline passed first.
pub open spec fn waited_for(popped: Result<Vec<String>, String>) -> Result<String, BridgeError> {
    match popped {
        Ok(items) => if items.len() == 0 {
            Err(BridgeError::Timeout)
        } else {
            Ok(items[items.len() - 1])
        },
        Err(detail) => Err(BridgeError::Unavailable { detail }),
    }
}

impl Waiting {
    /// Ends the call after the wait. An empty pop means that the deadline
    /// passed: the call ends as `Timeout`, and whatever arrives in the slot
    /// later is never collected. Otherwise the envelope is the last item.
    pub fn waited(self, popped: Result<Vec<String>, String>) -> (envelope: Result<String, BridgeError>)
        ensures
            envelope == waited_for(popped),
    {
        match popped {
            Ok(mut items) => match items.pop() {
                Some(envelope) => Ok(envelope),
                None => Err(BridgeError::Timeout),
            },
            Err(detail) => Err(BridgeError::Unavailable { detail }),
        }
    }
}

/// What a reply means to the caller: the payload of a success, the detail of
/// a failure as a remote error.
pub open spec fn verdict_of(response: Option<Response>) -> Result<Reply, BridgeError> {
    match response {
        Some(Response::Success { data }) => Ok(data),
        Some(Response::Failure { detail }) => Err(BridgeError::RemoteError { detail }),
        None => Err(BridgeError::DecodeFailed),
    }
}

/// Tells the caller what a reply means: a success yields its payload, a
/// failure is a remote error with its detail, and what is no envelope at all
/// is reported as such.
pub fn verdict(response: Option<Response>) -> (outcome: Result<Reply, BridgeError>)
    ensures
        outcome == verdict_of(response),
{
    match response {
        Some(Response::Success { data }) => Ok(data),
        Some(Response::Failure { detail }) => Err(BridgeError::RemoteError { detail }),
        None => Err(BridgeError::DecodeFailed),
    }
}

/// What an envelope means to the caller, by what it spells.
pub open spec fn reads_as(envelope: Seq<char>, outcome: Result<Reply, BridgeError>) -> bool {
    match response_of_envelope(envelope) {
        Some(ResponseView::Success { data }) => outcome matches Ok(reply) && reply@ == data,
        Some(ResponseView::Failure { detail }) => outcome matches Err(BridgeError::RemoteError { detail: d })
            && d@ == detail,
        None => outcome == Err::<Reply, BridgeError>(BridgeError::DecodeFailed),
    }
}

/// Opens the envelope that a call came back with.
pub fn read_reply(envelope: &str) -> (outcome: Result<Reply, BridgeError>)
    ensures
        reads_as(envelope@, outcome),
{
    verdict(Response::decode(envelope))
}

/// How a call ends once it waits on its slot: with whatever the one wait on
/// the slot of its key brought, opened.
pub open spec fn waited_out<R: ReplySource>(
    replies: &R,
    wait: Await,
    outcome: Result<Reply, BridgeError>,
) -> bool {
    exists|popped: Result<Vec<String>, String>| #[trigger]
        call_ensures(R::await_reply, (replies, wait), popped) && match waited_for(popped) {
            Ok(envelope) => reads_as(envelope@, outcome),
            Err(error) => outcome == Err::<Reply, BridgeError>(error),
        }
}

/// How a call ends once it has its key: as `PublishFailed` where the one
/// publish failed, else as the wait on the slot of the key ends.
pub open spec fn published_out<B: Publisher, R: ReplySource>(
    publisher: &B,
    replies: &R,
    publish: Publish,
    read_timeout: usize,
    outcome: Result<Reply, BridgeError>,
) -> bool {
    exists|sent: Result<(), String>| #[trigger]
        call_ensures(B::publish, (publisher, publish), sent) && match sent {
            Ok(_) => waited_out(replies, Await { key: publish.key, timeout: read_timeout }, outcome),
            Err(detail) => outcome == Err::<Reply, BridgeError>(BridgeError::PublishFailed { detail }),
        }
}

/// How a call ends: as `Unavailable` where the one increment of the counter
/// failed, else as the call that publishes under the key of the new number
/// and of the time `now` ends.
pub open spec fn called<K: Counter, B: Publisher, R: ReplySource>(
    counter: &K,
    publisher: &B,
    replies: &R,
    call: Sequencing,
    increment: Increment,
    now: int,
    outcome: Result<Reply, BridgeError>,
) -> bool {
    exists|seq: Result<i32, String>| #[trigger]
        call_ensures(K::increment, (counter, increment), seq) && match seq {
            Ok(number) => exists|key: String|
                key@ == correlation_key(now, number as int) && #[trigger] published_out(
                    publisher,
                    replies,
                    Publish { topic: call.topic, key, body: call.body, patience: SEND_PATIENCE },
                    call.read_timeout,
                    outcome,
                ),
            Err(detail) => outcome == Err::<Reply, BridgeError>(BridgeError::Unavailable { detail }),
        }
}

/// Runs a started call to its end against collaborators that block: one
/// increment of the requester's counter, then at most one publish, then at
/// most one wait on the slot of the key. A step that fails ends the call, and
/// none of the later steps is taken.
pub fn call<K: Counter, B: Publisher, R: ReplySource>(
    counter: &K,
    publisher: &B,
    replies: &R,
    started: (Sequencing, Increment),
    now: i64,
) -> (outcome: Result<Reply, BridgeError>)
    ensures
        called(counter, publisher, replies, started.0, started.1, now as int, outcome),
{
    let (call, increment) = started;
    let ghost first = call;
    let seq = counter.increment(increment);
    assert(call_ensures(K::increment, (counter, started.1), seq));
    match call.sequenced(seq, now) {
        Err(error) => Err(error),
        Ok((call, publish)) => {
            let ghost order = publish;
            assert(order == Publish {
                topic: first.topic,
                key: order.key,
                body: first.body,
                patience: SEND_PATIENCE,
            });
            let sent = publisher.publish(publish);
            assert(call_ensures(B::publish, (publisher, order), sent));
            let outcome = match call.published(sent) {
                Err(error) => Err(error),
                Ok((call, wait)) => {
                    let ghost slot = wait;
                    let popped = replies.await_reply(wait);
                    assert(call_ensures(R::await_reply, (replies, slot), popped));
                    let outcome = match call.waited(popped) {
                        Ok(envelope) => read_reply(envelope.as_str()),
                        Err(error) => Err(error),
                    };
                    assert(waited_out(replies, slot, outcome));
                    outcome
                },
            };
            assert(published_out(publisher, replies, order, first.read_timeout, outcome));
            outcome
        },
    }
}

} // verus!
