//! The server side of the bridge: one consumed message in, at most one reply
//! envelope out.
//!
//! A message is received with the correlation key it was published under, if
//! one could be recovered, and its body decoded. A body that spells a request
//! is run by the cache-aside manager and answered with the outcome; a body
//! that spells none is answered with an error. Without a key nobody could
//! collect an answer: the message is dropped, and nothing is run for it. The
//! dispatcher never tries a second time.

use vstd::prelude::*;
use crate::capability::{Cacher, Outputer, Persister};
use crate::error::{Error, Fault};
use crate::handlers::{attained, execute, Task};
use crate::message::{request_of_payload, DecodeFailed, Reply, Request, Response};
use crate::text::{decimal, decimal_text};

verus! {

/// What is done with one consumed message.
#[derive(Debug, Clone, PartialEq, Eq)]
pub enum Plan {
    /// No reply could be addressed: nothing is run, nothing is sent.
    Dropped,
    /// The body spells no request: an error goes to the slot of `key`.
    Refuse { key: String },
    /// The body spells `request`: it is run and answered under `key`.
    Run { key: String, request: Request },
}

/// How one consumed message ended.
#[derive(Debug, PartialEq, Eq)]
pub enum Dispatched {
    /// No envelope was made.
    Dropped,
    /// One envelope was handed to the reply sink, which took it.
    Replied { response: Response },
    /// One envelope was handed to the reply sink, which failed.
    Undelivered { response: Response, error: Error },
}

/// What is done with a message, by its key and what its body spells.
pub open spec fn planned(key: Option<String>, decoded: Result<Request, DecodeFailed>) -> Plan {
    match key {
        None => Plan::Dropped,
        Some(key) => match decoded {
            Ok(request) => Plan::Run { key, request },
            Err(_) => Plan::Refuse { key },
        },
    }
}

/// Decides what is done with a message.
pub fn plan(key: Option<String>, decoded: Result<Request, DecodeFailed>) -> (plan: Plan)
    ensures
        plan == planned(key, decoded),
{
    match key {
        None => Plan::Dropped,
        Some(key) => match decoded {
            Ok(request) => Plan::Run { key, request },
            Err(_) => Plan::Refuse { key },
        },
    }
}

/// Whether `task` is the operation that `request` asks for: the same kind of
/// work on the same people, each named by the decimal notation of their number.
pub open spec fn asks_for(request: Request, task: Task) -> bool {
    match request {
        Request::Add { uid_a, uid_b } => task matches Task::AddFriend { uid_a: a, uid_b: b } && a@
            == decimal(uid_a as int) && b@ == decimal(uid_b as int),
        Request::Delete { uid_a, uid_b } => task matches Task::DeleteFriend { uid_a: a, uid_b: b }
            && a@ == decimal(uid_a as int) && b@ == decimal(uid_b as int),
        Request::Friends { uid } => task matches Task::QueryFriends { uid: u } && u@ == decimal(
            uid as int,
        ),
        Request::Recommendation { uid } => task matches Task::Recommendation { uid: u } && u@
            == decimal(uid as int),
        Request::AddNode { uid } => task matches Task::AddUser { uid: u } && u@ == decimal(uid as int),
        Request::DeleteNode { uid } => task matches Task::DeleteUser { uid: u } && u@ == decimal(
            uid as int,
        ),
    }
}

/// The operation of the manager that a request asks for.
pub fn task_of(request: Request) -> (task: Task)
    ensures
        asks_for(request, task),
{
    match request {
        Request::Add { uid_a, uid_b } => Task::AddFriend {
            uid_a: decimal_text(uid_a),
            uid_b: decimal_text(uid_b),
        },
        Request::Delete { uid_a, uid_b } => Task::DeleteFriend {
            uid_a: decimal_text(uid_a),
            uid_b: decimal_text(uid_b),
        },
        Request::Friends { uid } => Task::QueryFriends { uid: decimal_text(uid) },
        Request::Recommendation { uid } => Task::Recommendation { uid: decimal_text(uid) },
        Request::AddNode { uid } => Task::AddUser { uid: decimal_text(uid) },
        Request::DeleteNode { uid } => Task::DeleteUser { uid: decimal_text(uid) },
    }
}

/// The response that answers an operation: its payload, or the message of
/// the fault that stopped it.
pub open spec fn answers(result: Result<Reply, Fault>, response: Response) -> bool {
    match result {
        Ok(reply) => response == (Response::Success { data: reply }),
        Err(fault) => response matches Response::Failure { detail } && detail@
            == fault.cause().detail(),
    }
}

/// Turns the end of an operation into the response for the requester. A
/// fault of the store or the cache is never swallowed: it travels as the
/// detail of a failure.
pub fn respond(result: Result<Reply, Fault>) -> (response: Response)
    ensures
        answers(result, response),
{
    match result {
        Ok(reply) => Response::Success { data: reply },
        Err(fault) => Response::Failure { detail: fault.message() },
    }
}

/// The detail sent back for a body that spells no request.
pub open spec fn malformed() -> Seq<char> {
    "malformed request"@
}

/// The response that refuses a body that spells no request.
pub fn refuse() -> (response: Response)
    ensures
        response matches Response::Failure { detail } && detail@ == malformed(),
{
    Response::Failure { detail: String::from_str("malformed request") }
}

/// What was handed to the reply sink, and what the sink made of it: `None`
/// where nothing was handed over.
pub open spec fn delivery(dispatched: Dispatched) -> Option<(Response, Result<(), Error>)> {
    match dispatched {
        Dispatched::Replied { response } => Some((response, Ok(()))),
        Dispatched::Undelivered { response, error } => Some((response, Err(error))),
        Dispatched::Dropped => None,
    }
}

/// Whether `sent` is what the reply sink hands back for `response` under
/// `key`: the result of the one call that delivers it, a success through `ok`
/// with a copy of the payload, a failure through `error` with the detail.
pub open spec fn handed<O: Outputer>(
    outputer: &O,
    key: String,
    response: Response,
    sent: Result<(), Error>,
) -> bool {
    match response {
        Response::Success { data } => exists|copy: Reply|
            copy@ == data@ && #[trigger] call_ensures(O::ok, (outputer, key, copy), sent),
        Response::Failure { detail } => call_ensures(O::error, (outputer, key, detail), sent),
    }
}

/// Hands one response to the reply sink, under `key`, once.
pub fn deliver<O: Outputer>(outputer: &O, key: String, response: Response) -> (dispatched: Dispatched)
    ensures
        delivery(dispatched) matches Some((handed_over, sent)) && handed_over == response && handed(
            outputer,
            key,
            response,
            sent,
        ),
{
    let ghost under = key;
    let sent = match &response {
        Response::Success { data } => {
            let copy = data.clone();
            let ghost payload = copy;
            let sent = outputer.ok(key, copy);
            assert(call_ensures(O::ok, (outputer, under, payload), sent));
            sent
        },
        Response::Failure { detail } => outputer.error(key, detail.clone()),
    };
    assert(handed(outputer, under, response, sent));
    match sent {
        Ok(done) => {
            assert(done == ());
            Dispatched::Replied { response }
        },
        Err(error) => Dispatched::Undelivered { response, error },
    }
}

/// Whether `dispatched` is an end that the message with this key and body
/// comes to with these collaborators. Without a key nothing is run and
/// nothing is sent. With one, exactly one response is handed to the reply
/// sink under that key: the refusal where the body spells no request, else
/// the answer to the operation that the request asks for, as it ended.
pub open spec fn dispatched_for<P: Persister<UID = String>, C: Cacher<UID = String>, O: Outputer>(
    persister: &P,
    cacher: &C,
    outputer: &O,
    key: Option<String>,
    payload: Seq<char>,
    dispatched: Dispatched,
) -> bool {
    match key {
        None => dispatched is Dropped,
        Some(key) => delivery(dispatched) matches Some((response, sent)) && handed(
            outputer,
            key,
            response,
            sent,
        ) && match request_of_payload(payload) {
            None => response matches Response::Failure { detail } && detail@ == malformed(),
            Some(request) => exists|task: Task, result: Result<Reply, Fault>|
                asks_for(request, task) && #[trigger] attained(persister, cacher, task, result)
                    && answers(result, response),
        },
    }
}

/// Processes one consumed message: decodes the body, runs the request it
/// spells and hands exactly one envelope to the reply sink. A malformed body
/// is answered with an error under the key of the message; a message without
/// a key is dropped, whatever its body.
pub fn dispatch<P: Persister<UID = String>, C: Cacher<UID = String>, O: Outputer>(
    persister: &P,
    cacher: &C,
    outputer: &O,
    key: Option<String>,
    payload: &str,
) -> (dispatched: Dispatched)
    ensures
        dispatched_for(persister, cacher, outputer, key, payload@, dispatched),
{
    match plan(key, Request::decode(payload)) {
        Plan::Dropped => Dispatched::Dropped,
        Plan::Refuse { key } => deliver(outputer, key, refuse()),
        Plan::Run { key, request } => {
            let task = task_of(request);
            let ghost asked = task;
            let result = execute(persister, cacher, task);
            let response = respond(result);
            assert(asks_for(request, asked) && attained(persister, cacher, asked, result) && answers(
                result,
                response,
            ));
            deliver(outputer, key, response)
        },
    }
}

} // verus!
