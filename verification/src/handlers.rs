//! The cache-aside manager: every operation on friendships, run against the
//! store with the cache kept beside it.
//!
//! The store is the single source of truth. A mutation goes to the store
//! first; only after it is committed is the list of the person re-read and
//! written to the cache, whole. A read is served from the cache on a hit and
//! from the store on a miss, and never fills the cache.
//!
//! The decisions are the pure function `resume`, from what the manager waits
//! for and what came back to what it does next. `execute` runs it against the
//! collaborators.

use vstd::prelude::*;
use crate::capability::{Cacher, Persister};
use crate::error::{Error, Fault};
use crate::json::views;
use crate::message::Reply;

verus! {

/// Friendships that a path to a recommended person is made of.
pub const RECOMMENDATION_LEVEL: i32 = 2;

/// Paths that make a person worth recommending.
pub const RECOMMENDATION_THRESHOLD: i32 = 3;

/// One operation asked of the manager.
#[derive(Debug, Clone, PartialEq, Eq)]
pub enum Task {
    AddFriend { uid_a: String, uid_b: String },
    DeleteFriend { uid_a: String, uid_b: String },
    QueryFriends { uid: String },
    Recommendation { uid: String },
    AddUser { uid: String },
    DeleteUser { uid: String },
    IsFriend { uid_a: String, uid_b: String },
}

/// One call on a collaborator.
#[derive(Debug, Clone, PartialEq, Eq)]
pub enum Effect {
    InsertNode { uid: String },
    DeleteNode { uid: String },
    Insert { uid_a: String, uid_b: String },
    Delete { uid_a: String, uid_b: String },
    Friends { uid: String },
    IsFriend { uid_a: String, uid_b: String },
    Recommendations { uid: String, level: i32, threshold: i32 },
    CacheQuery { uid: String },
    CacheInsert { uid: String, friends: Vec<String> },
}

/// What came back from a call on a collaborator.
#[derive(Debug, PartialEq, Eq)]
pub enum Outcome {
    Done(Result<(), Error>),
    Flag(Result<bool, Error>),
    Listed(Result<Vec<String>, Error>),
    Cached(Result<Option<Vec<String>>, Error>),
}

/// What the manager is waiting for.
#[derive(Debug, Clone, PartialEq, Eq)]
pub enum Phase {
    /// The store is changing a friendship of `uid`.
    Mutating { uid: String },
    /// The mutation is committed; the store is listing the friends of `uid`.
    Listing { uid: String },
    /// The cache is taking the fresh list.
    Writing,
    /// The cache is looking up `uid`.
    Probing { uid: String },
    /// The store is listing people for the requester.
    Reading,
    /// The store is registering or removing a person.
    Changing,
    /// The store is answering a yes-or-no question.
    Asking,
}

/// What the manager does after a call came back.
#[derive(Debug, PartialEq, Eq)]
pub enum Progress {
    /// Make the next call.
    Next(Phase, Effect),
    /// The operation is over.
    Done(Result<Reply, Fault>),
}

impl Effect {
    /// Whether `outcome` is of the kind that this call hands back.
    pub open spec fn answered_by(self, outcome: Outcome) -> bool {
        match self {
            Effect::InsertNode { .. } => outcome is Done,
            Effect::DeleteNode { .. } => outcome is Done,
            Effect::Insert { .. } => outcome is Done,
            Effect::Delete { .. } => outcome is Done,
            Effect::Friends { .. } => outcome is Listed,
            Effect::IsFriend { .. } => outcome is Flag,
            Effect::Recommendations { .. } => outcome is Listed,
            Effect::CacheQuery { .. } => outcome is Cached,
            Effect::CacheInsert { .. } => outcome is Done,
        }
    }
}

impl Phase {
    /// Whether `outcome` is of the kind that the manager is waiting for.
    pub open spec fn expects(self, outcome: Outcome) -> bool {
        match self {
            Phase::Mutating { .. } => outcome is Done,
            Phase::Listing { .. } => outcome is Listed,
            Phase::Writing => outcome is Done,
            Phase::Probing { .. } => outcome is Cached,
            Phase::Reading => outcome is Listed,
            Phase::Changing => outcome is Done,
            Phase::Asking => outcome is Flag,
        }
    }

    /// Whether `effect` is a call whose outcome the manager can wait for in
    /// this phase.
    pub open spec fn awaits(self, effect: Effect) -> bool {
        forall|outcome: Outcome| effect.answered_by(outcome) ==> #[trigger] self.expects(outcome)
    }

    /// Whether `reply` is of the kind that the operation under way ends with
    /// when it succeeds.
    pub open spec fn hands_back(self, reply: Reply) -> bool {
        match self {
            Phase::Probing { .. } => reply is Friends,
            Phase::Reading => reply is Friends,
            Phase::Asking => reply is Flag,
            _ => reply is Done,
        }
    }

    /// Calls that are still to come, at most.
    pub open spec fn remaining(self) -> nat {
        match self {
            Phase::Mutating { .. } => 3,
            Phase::Listing { .. } => 2,
            Phase::Probing { .. } => 2,
            _ => 1,
        }
    }

    /// Tests `expects` at run time.
    pub fn accepts(&self, outcome: &Outcome) -> (yes: bool)
        ensures
            yes == self.expects(*outcome),
    {
        match self {
            Phase::Mutating { .. } | Phase::Writing | Phase::Changing => match outcome {
                Outcome::Done(_) => true,
                _ => false,
            },
            Phase::Listing { .. } | Phase::Reading => match outcome {
                Outcome::Listed(_) => true,
                _ => false,
            },
            Phase::Probing { .. } => match outcome {
                Outcome::Cached(_) => true,
                _ => false,
            },
            Phase::Asking => match outcome {
                Outcome::Flag(_) => true,
                _ => false,
            },
        }
    }
}

/// How an operation begins: the phase entered and the first call.
pub open spec fn started(task: Task) -> (Phase, Effect) {
    match task {
        Task::AddFriend { uid_a, uid_b } => (Phase::Mutating { uid: uid_a }, Effect::Insert { uid_a, uid_b }),
        Task::DeleteFriend { uid_a, uid_b } => (
            Phase::Mutating { uid: uid_a },
            Effect::Delete { uid_a, uid_b },
        ),
        Task::QueryFriends { uid } => (Phase::Probing { uid }, Effect::CacheQuery { uid }),
        Task::Recommendation { uid } => (
            Phase::Reading,
            Effect::Recommendations {
                uid,
                level: RECOMMENDATION_LEVEL,
                threshold: RECOMMENDATION_THRESHOLD,
            },
        ),
        Task::AddUser { uid } => (Phase::Changing, Effect::InsertNode { uid }),
        Task::DeleteUser { uid } => (Phase::Changing, Effect::DeleteNode { uid }),
        Task::IsFriend { uid_a, uid_b } => (Phase::Asking, Effect::IsFriend { uid_a, uid_b }),
    }
}

/// How an operation goes on after a call came back.
///
/// A failed mutation ends the operation without a refresh. A committed
/// mutation is followed by the listing of the person and the write of that
/// very list to the cache; a failure of either is a failed refresh, not a
/// failed mutation. A cache hit is the answer; a miss sends the read to the
/// store and leaves the cache as it is.
///
/// The last arm stands for outcomes of a kind that the phase does not expect.
/// `resume` does not take them, and the value there means nothing.
pub open spec fn resumed(phase: Phase, outcome: Outcome) -> Progress {
    match (phase, outcome) {
        (Phase::Mutating { uid }, Outcome::Done(Ok(()))) => Progress::Next(
            Phase::Listing { uid },
            Effect::Friends { uid },
        ),
        (Phase::Mutating { .. }, Outcome::Done(Err(e))) => Progress::Done(Err(Fault::Store(e))),
        (Phase::Listing { uid }, Outcome::Listed(Ok(friends))) => Progress::Next(
            Phase::Writing,
            Effect::CacheInsert { uid, friends },
        ),
        (Phase::Listing { .. }, Outcome::Listed(Err(e))) => Progress::Done(
            Err(Fault::CacheRefreshFailed(e)),
        ),
        (Phase::Writing, Outcome::Done(Ok(()))) => Progress::Done(Ok(Reply::Done)),
        (Phase::Writing, Outcome::Done(Err(e))) => Progress::Done(Err(Fault::CacheRefreshFailed(e))),
        (Phase::Probing { .. }, Outcome::Cached(Ok(Some(friends)))) => Progress::Done(
            Ok(Reply::Friends(friends)),
        ),
        (Phase::Probing { uid }, Outcome::Cached(Ok(None))) => Progress::Next(
            Phase::Reading,
            Effect::Friends { uid },
        ),
        (Phase::Probing { .. }, Outcome::Cached(Err(e))) => Progress::Done(Err(Fault::Cache(e))),
        (Phase::Reading, Outcome::Listed(Ok(friends))) => Progress::Done(Ok(Reply::Friends(friends))),
        (Phase::Reading, Outcome::Listed(Err(e))) => Progress::Done(Err(Fault::Store(e))),
        (Phase::Changing, Outcome::Done(Ok(()))) => Progress::Done(Ok(Reply::Done)),
        (Phase::Changing, Outcome::Done(Err(e))) => Progress::Done(Err(Fault::Store(e))),
        (Phase::Asking, Outcome::Flag(Ok(flag))) => Progress::Done(Ok(Reply::Flag(flag))),
        (Phase::Asking, Outcome::Flag(Err(e))) => Progress::Done(Err(Fault::Store(e))),
        _ => Progress::Done(Ok(Reply::Done)),
    }
}

/// Begins an operation: says which call to make first.
pub fn start(task: Task) -> (begun: (Phase, Effect))
    ensures
        begun == started(task),
        begun.0.awaits(begun.1),
{
    match task {
        Task::AddFriend { uid_a, uid_b } => (
            Phase::Mutating { uid: uid_a.clone() },
            Effect::Insert { uid_a, uid_b },
        ),
        Task::DeleteFriend { uid_a, uid_b } => (
            Phase::Mutating { uid: uid_a.clone() },
            Effect::Delete { uid_a, uid_b },
        ),
        Task::QueryFriends { uid } => (Phase::Probing { uid: uid.clone() }, Effect::CacheQuery { uid }),
        Task::Recommendation { uid } => (
            Phase::Reading,
            Effect::Recommendations {
                uid,
                level: RECOMMENDATION_LEVEL,
                threshold: RECOMMENDATION_THRESHOLD,
            },
        ),
        Task::AddUser { uid } => (Phase::Changing, Effect::InsertNode { uid }),
        Task::DeleteUser { uid } => (Phase::Changing, Effect::DeleteNode { uid }),
        Task::IsFriend { uid_a, uid_b } => (Phase::Asking, Effect::IsFriend { uid_a, uid_b }),
    }
}

/// Goes on with an operation after a call came back: says which call to make
/// next, or how the operation ended.
pub fn resume(phase: Phase, outcome: Outcome) -> (progress: Progress)
    requires
        phase.expects(outcome),
    ensures
        progress == resumed(phase, outcome),
        progress matches Progress::Next(next, effect) ==> next.awaits(effect) && next.remaining()
            < phase.remaining() && forall|reply: Reply|
            next.hands_back(reply) == phase.hands_back(reply),
        progress matches Progress::Done(Ok(reply)) ==> phase.hands_back(reply),
{
    match (phase, outcome) {
        (Phase::Mutating { uid }, Outcome::Done(Ok(()))) => Progress::Next(
            Phase::Listing { uid: uid.clone() },
            Effect::Friends { uid },
        ),
        (Phase::Mutating { .. }, Outcome::Done(Err(e))) => Progress::Done(Err(Fault::Store(e))),
        (Phase::Listing { uid }, Outcome::Listed(Ok(friends))) => Progress::Next(
            Phase::Writing,
            Effect::CacheInsert { uid, friends },
        ),
        (Phase::Listing { .. }, Outcome::Listed(Err(e))) => Progress::Done(
            Err(Fault::CacheRefreshFailed(e)),
        ),
        (Phase::Writing, Outcome::Done(Ok(()))) => Progress::Done(Ok(Reply::Done)),
        (Phase::Writing, Outcome::Done(Err(e))) => Progress::Done(Err(Fault::CacheRefreshFailed(e))),
        (Phase::Probing { .. }, Outcome::Cached(Ok(Some(friends)))) => Progress::Done(
            Ok(Reply::Friends(friends)),
        ),
        (Phase::Probing { uid }, Outcome::Cached(Ok(None))) => Progress::Next(
            Phase::Reading,
            Effect::Friends { uid },
        ),
        (Phase::Probing { .. }, Outcome::Cached(Err(e))) => Progress::Done(Err(Fault::Cache(e))),
        (Phase::Reading, Outcome::Listed(Ok(friends))) => Progress::Done(Ok(Reply::Friends(friends))),
        (Phase::Reading, Outcome::Listed(Err(e))) => Progress::Done(Err(Fault::Store(e))),
        (Phase::Changing, Outcome::Done(Ok(()))) => Progress::Done(Ok(Reply::Done)),
        (Phase::Changing, Outcome::Done(Err(e))) => Progress::Done(Err(Fault::Store(e))),
        (Phase::Asking, Outcome::Flag(Ok(flag))) => Progress::Done(Ok(Reply::Flag(flag))),
        (Phase::Asking, Outcome::Flag(Err(e))) => Progress::Done(Err(Fault::Store(e))),
        _ => Progress::Done(Ok(Reply::Done)),
    }
}

impl Task {
    /// Whether `reply` is of the kind that this operation ends with when it
    /// succeeds: a list for a read of friends or recommendations, a flag for
    /// a question, the bare acknowledgement for everything else.
    pub open spec fn hands_back(self, reply: Reply) -> bool {
        started(self).0.hands_back(reply)
    }
}

/// Whether `outcome` is what the collaborators hand back for `effect`: the
/// result of the one call that the effect names, made on the store or on the
/// cache with exactly the values that the effect carries.
pub open spec fn answered<P: Persister<UID = String>, C: Cacher<UID = String>>(
    persister: &P,
    cacher: &C,
    effect: Effect,
    outcome: Outcome,
) -> bool {
    match effect {
        Effect::InsertNode { uid } => outcome matches Outcome::Done(r) && call_ensures(
            P::insert_node,
            (persister, uid),
            r,
        ),
        Effect::DeleteNode { uid } => outcome matches Outcome::Done(r) && call_ensures(
            P::delete_node,
            (persister, uid),
            r,
        ),
        Effect::Insert { uid_a, uid_b } => outcome matches Outcome::Done(r) && call_ensures(
            P::insert,
            (persister, uid_a, uid_b),
            r,
        ),
        Effect::Delete { uid_a, uid_b } => outcome matches Outcome::Done(r) && call_ensures(
            P::delete,
            (persister, uid_a, uid_b),
            r,
        ),
        Effect::Friends { uid } => outcome matches Outcome::Listed(r) && call_ensures(
            P::friends,
            (persister, uid),
            r,
        ),
        Effect::IsFriend { uid_a, uid_b } => outcome matches Outcome::Flag(r) && call_ensures(
            P::is_friend,
            (persister, uid_a, uid_b),
            r,
        ),
        Effect::Recommendations { uid, level, threshold } => outcome matches Outcome::Listed(r)
            && call_ensures(P::recommendations, (persister, uid, level, threshold), r),
        Effect::CacheQuery { uid } => outcome matches Outcome::Cached(r) && call_ensures(
            C::query,
            (cacher, uid),
            r,
        ),
        Effect::CacheInsert { uid, friends } => outcome matches Outcome::Done(r) && call_ensures(
            C::insert,
            (cacher, uid, friends),
            r,
        ),
    }
}

/// Whether an operation that makes the call `effect` in `phase` ends in
/// `result` when its calls come back with `script`, one outcome per call:
/// every outcome is what the collaborators hand back for the call that the
/// decisions named, and the last one brings the decisions to `result`.
pub open spec fn ends<P: Persister<UID = String>, C: Cacher<UID = String>>(
    persister: &P,
    cacher: &C,
    phase: Phase,
    effect: Effect,
    script: Seq<Outcome>,
    result: Result<Reply, Fault>,
) -> bool
    decreases script.len(),
{
    script.len() > 0 && answered(persister, cacher, effect, script[0]) && match resumed(
        phase,
        script[0],
    ) {
        Progress::Next(next, then) => ends(persister, cacher, next, then, script.skip(1), result),
        Progress::Done(end) => script.len() == 1 && end == result,
    }
}

/// Whether `result` is an end that `task` comes to with these collaborators:
/// there are answers of theirs, each to the call that the decisions named,
/// that lead the decisions to it.
pub open spec fn attained<P: Persister<UID = String>, C: Cacher<UID = String>>(
    persister: &P,
    cacher: &C,
    task: Task,
    result: Result<Reply, Fault>,
) -> bool {
    exists|script: Seq<Outcome>|
        ends(persister, cacher, started(task).0, started(task).1, script, result)
}

/// Makes the one call that `effect` names, with the values it carries, and
/// wraps what came back.
pub fn perform<P: Persister<UID = String>, C: Cacher<UID = String>>(
    persister: &P,
    cacher: &C,
    effect: Effect,
) -> (outcome: Outcome)
    ensures
        answered(persister, cacher, effect, outcome),
        effect.answered_by(outcome),
{
    match effect {
        Effect::InsertNode { uid } => Outcome::Done(persister.insert_node(uid)),
        Effect::DeleteNode { uid } => Outcome::Done(persister.delete_node(uid)),
        Effect::Insert { uid_a, uid_b } => Outcome::Done(persister.insert(uid_a, uid_b)),
        Effect::Delete { uid_a, uid_b } => Outcome::Done(persister.delete(uid_a, uid_b)),
        Effect::Friends { uid } => Outcome::Listed(persister.friends(uid)),
        Effect::IsFriend { uid_a, uid_b } => Outcome::Flag(persister.is_friend(uid_a, uid_b)),
        Effect::Recommendations { uid, level, threshold } => Outcome::Listed(
            persister.recommendations(uid, level, threshold),
        ),
        Effect::CacheQuery { uid } => Outcome::Cached(cacher.query(uid)),
        Effect::CacheInsert { uid, friends } => Outcome::Done(cacher.insert(uid, friends)),
    }
}

/// Runs one operation against the collaborators, call by call, as `resume`
/// decides: the calls made are those that the decisions name, in their order
/// and none besides, and the result is the end that the decisions come to
/// from what the calls handed back. A success is of the kind that the
/// operation hands back.
pub fn execute<P: Persister<UID = String>, C: Cacher<UID = String>>(
    persister: &P,
    cacher: &C,
    task: Task,
) -> (result: Result<Reply, Fault>)
    ensures
        attained(persister, cacher, task, result),
        result matches Ok(reply) ==> task.hands_back(reply),
{
    let ghost first = started(task);
    let (mut phase, mut effect) = start(task);
    let ghost mut script: Seq<Outcome> = Seq::empty();
    proof {
        assert forall|rest: Seq<Outcome>, end: Result<Reply, Fault>| #[trigger]
            ends(persister, cacher, phase, effect, rest, end) implies ends(
            persister,
            cacher,
            first.0,
            first.1,
            script + rest,
            end,
        ) by {
            assert(script + rest =~= rest);
        }
    }
    loop
        invariant
            phase.awaits(effect),
            forall|rest: Seq<Outcome>, end: Result<Reply, Fault>| #[trigger]
                ends(persister, cacher, phase, effect, rest, end) ==> ends(
                    persister,
                    cacher,
                    first.0,
                    first.1,
                    script + rest,
                    end,
                ),
            forall|reply: Reply| phase.hands_back(reply) == first.0.hands_back(reply),
            first == started(task),
        decreases phase.remaining(),
    {
        let ghost asked = effect;
        let outcome = perform(persister, cacher, effect);
        let ghost before = phase;
        let ghost seen = script;
        assert(phase.expects(outcome));
        proof {
            script = script.push(outcome);
        }
        match resume(phase, outcome) {
            Progress::Next(next, then) => {
                phase = next;
                effect = then;
                proof {
                    assert forall|rest: Seq<Outcome>, end: Result<Reply, Fault>| #[trigger]
                        ends(persister, cacher, phase, effect, rest, end) implies ends(
                        persister,
                        cacher,
                        first.0,
                        first.1,
                        script + rest,
                        end,
                    ) by {
                        let longer = seq![outcome] + rest;
                        assert(script + rest =~= seen + longer);
                        assert(longer[0] == outcome);
                        assert(longer.skip(1) =~= rest);
                        assert(ends(persister, cacher, before, asked, longer, end));
                    }
                }
            },
            Progress::Done(result) => {
                proof {
                    let last = seq![outcome];
                    assert(script =~= seen + last);
                    assert(last[0] == outcome);
                    assert(ends(persister, cacher, before, asked, last, result));
                    assert(ends(persister, cacher, first.0, first.1, script, result));
                }
                return result;
            },
        }
    }
}

/// How the end of an operation that only acknowledges reads to its caller.
pub open spec fn acknowledged<P: Persister<UID = String>, C: Cacher<UID = String>>(
    persister: &P,
    cacher: &C,
    task: Task,
    result: Result<String, Fault>,
) -> bool {
    match result {
        Ok(word) => word@ == "ok"@ && attained(persister, cacher, task, Ok(Reply::Done)),
        Err(fault) => attained(persister, cacher, task, Err(fault)),
    }
}

/// How the end of an operation that lists people reads to its caller.
pub open spec fn listed<P: Persister<UID = String>, C: Cacher<UID = String>>(
    persister: &P,
    cacher: &C,
    task: Task,
    result: Result<Vec<String>, Fault>,
) -> bool {
    match result {
        Ok(friends) => attained(persister, cacher, task, Ok(Reply::Friends(friends))),
        Err(fault) => attained(persister, cacher, task, Err(fault)),
    }
}

/// How the end of an operation that answers a question reads to its caller.
pub open spec fn flagged<P: Persister<UID = String>, C: Cacher<UID = String>>(
    persister: &P,
    cacher: &C,
    task: Task,
    result: Result<bool, Fault>,
) -> bool {
    match result {
        Ok(flag) => attained(persister, cacher, task, Ok(Reply::Flag(flag))),
        Err(fault) => attained(persister, cacher, task, Err(fault)),
    }
}

fn acknowledge<P: Persister<UID = String>, C: Cacher<UID = String>>(
    persister: &P,
    cacher: &C,
    task: Task,
) -> (result: Result<String, Fault>)
    requires
        task.hands_back(Reply::Done),
    ensures
        acknowledged(persister, cacher, task, result),
{
    match execute(persister, cacher, task) {
        Ok(reply) => {
            assert(reply == Reply::Done);
            Ok(String::from_str("ok"))
        },
        Err(fault) => Err(fault),
    }
}

fn list<P: Persister<UID = String>, C: Cacher<UID = String>>(
    persister: &P,
    cacher: &C,
    task: Task,
) -> (result: Result<Vec<String>, Fault>)
    requires
        forall|reply: Reply| task.hands_back(reply) ==> reply is Friends,
    ensures
        listed(persister, cacher, task, result),
{
    match execute(persister, cacher, task) {
        Ok(Reply::Friends(friends)) => Ok(friends),
        Ok(_) => Ok(Vec::new()),
        Err(fault) => Err(fault),
    }
}

/// How a refresh of the entry of `uid` ends.
pub open spec fn refreshed<P: Persister<UID = String>, C: Cacher<UID = String>>(
    persister: &P,
    cacher: &C,
    uid: String,
    result: Result<(), Fault>,
) -> bool {
    exists|script: Seq<Outcome>|
        ends(
            persister,
            cacher,
            Phase::Listing { uid },
            Effect::Friends { uid },
            script,
            bare(result),
        )
}

/// The end of an operation whose success carries nothing but the
/// acknowledgement.
pub open spec fn bare(result: Result<(), Fault>) -> Result<Reply, Fault> {
    match result {
        Ok(()) => Ok(Reply::Done),
        Err(fault) => Err(fault),
    }
}

/// The end of an operation that hands back the word `ok`.
pub open spec fn done_end(result: Result<String, Fault>) -> Result<Reply, Fault> {
    match result {
        Ok(_) => Ok(Reply::Done),
        Err(fault) => Err(fault),
    }
}

/// The end of an operation that hands back a list.
pub open spec fn list_end(result: Result<Vec<String>, Fault>) -> Result<Reply, Fault> {
    match result {
        Ok(friends) => Ok(Reply::Friends(friends)),
        Err(fault) => Err(fault),
    }
}

/// The end of an operation that hands back a flag.
pub open spec fn flag_end(result: Result<bool, Fault>) -> Result<Reply, Fault> {
    match result {
        Ok(flag) => Ok(Reply::Flag(flag)),
        Err(fault) => Err(fault),
    }
}

/// What a refresh of the entry of `uid` that ended in `result` did, call by
/// call. A success means that the store listed the friends of `uid` and that
/// the cache took that very list for `uid`. A failed refresh means that the
/// listing failed, or that the store listed and the cache refused that very
/// list; the fault is the one that the failing call handed back. A refresh
/// ends in no other way.
pub open spec fn rebuilt<P: Persister<UID = String>, C: Cacher<UID = String>, T>(
    persister: &P,
    cacher: &C,
    uid: String,
    result: Result<T, Fault>,
) -> bool {
    match result {
        Ok(_) => exists|friends: Vec<String>| #[trigger]
            answered(persister, cacher, Effect::Friends { uid }, Outcome::Listed(Ok(friends)))
                && answered(
                persister,
                cacher,
                Effect::CacheInsert { uid, friends },
                Outcome::Done(Ok(())),
            ),
        Err(Fault::CacheRefreshFailed(e)) => answered(
            persister,
            cacher,
            Effect::Friends { uid },
            Outcome::Listed(Err(e)),
        ) || (exists|friends: Vec<String>| #[trigger]
            answered(persister, cacher, Effect::Friends { uid }, Outcome::Listed(Ok(friends)))
                && answered(
                persister,
                cacher,
                Effect::CacheInsert { uid, friends },
                Outcome::Done(Err(e)),
            )),
        Err(_) => false,
    }
}

/// What a mutation of a friendship of `uid` that ended in `result` did, call
/// by call. A store fault means that the mutation failed with it, and nothing
/// is said of any other call: none was made. Every other end means that the
/// store committed the mutation and that the entry of `uid` was then
/// refreshed, with that end.
pub open spec fn mutated<P: Persister<UID = String>, C: Cacher<UID = String>, T>(
    persister: &P,
    cacher: &C,
    mutation: Effect,
    uid: String,
    result: Result<T, Fault>,
) -> bool {
    match result {
        Err(Fault::Store(e)) => answered(persister, cacher, mutation, Outcome::Done(Err(e))),
        _ => answered(persister, cacher, mutation, Outcome::Done(Ok(()))) && rebuilt(
            persister,
            cacher,
            uid,
            result,
        ),
    }
}

/// What a read of the friends of `uid` that ended in `result` did, call by
/// call. A list is what the cache held for `uid`, or, where the cache held
/// nothing, what the store listed. A cache fault is the one of the lookup; a
/// store fault is the one of the listing after a miss. A read ends in no
/// other way, and the cache is never written.
pub open spec fn served<P: Persister<UID = String>, C: Cacher<UID = String>>(
    persister: &P,
    cacher: &C,
    uid: String,
    result: Result<Vec<String>, Fault>,
) -> bool {
    let probe = Effect::CacheQuery { uid };
    let listing = Effect::Friends { uid };
    match result {
        Ok(friends) => answered(persister, cacher, probe, Outcome::Cached(Ok(Some(friends)))) || (
        answered(persister, cacher, probe, Outcome::Cached(Ok(None))) && answered(
            persister,
            cacher,
            listing,
            Outcome::Listed(Ok(friends)),
        )),
        Err(Fault::Cache(e)) => answered(persister, cacher, probe, Outcome::Cached(Err(e))),
        Err(Fault::Store(e)) => answered(persister, cacher, probe, Outcome::Cached(Ok(None)))
            && answered(persister, cacher, listing, Outcome::Listed(Err(e))),
        Err(Fault::CacheRefreshFailed(_)) => false,
    }
}

/// What a registration or removal of a person that ended in `result` did: the
/// one call on the store succeeded, or failed with the fault, which is then a
/// store fault.
pub open spec fn changed<P: Persister<UID = String>, C: Cacher<UID = String>>(
    persister: &P,
    cacher: &C,
    change: Effect,
    result: Result<String, Fault>,
) -> bool {
    match result {
        Ok(_) => answered(persister, cacher, change, Outcome::Done(Ok(()))),
        Err(Fault::Store(e)) => answered(persister, cacher, change, Outcome::Done(Err(e))),
        Err(_) => false,
    }
}

/// What a recommendation for `uid` that ended in `result` did: the one call
/// on the store, with the fixed level and threshold, handed back the list, or
/// failed with the fault, which is then a store fault.
pub open spec fn recommended<P: Persister<UID = String>, C: Cacher<UID = String>>(
    persister: &P,
    cacher: &C,
    uid: String,
    result: Result<Vec<String>, Fault>,
) -> bool {
    let ask = Effect::Recommendations {
        uid,
        level: RECOMMENDATION_LEVEL,
        threshold: RECOMMENDATION_THRESHOLD,
    };
    match result {
        Ok(friends) => answered(persister, cacher, ask, Outcome::Listed(Ok(friends))),
        Err(Fault::Store(e)) => answered(persister, cacher, ask, Outcome::Listed(Err(e))),
        Err(_) => false,
    }
}

/// What the question whether `uid_a` and `uid_b` are friends that ended in
/// `result` did: the one call on the store handed back the flag, or failed
/// with the fault, which is then a store fault.
pub open spec fn asked<P: Persister<UID = String>, C: Cacher<UID = String>>(
    persister: &P,
    cacher: &C,
    uid_a: String,
    uid_b: String,
    result: Result<bool, Fault>,
) -> bool {
    let ask = Effect::IsFriend { uid_a, uid_b };
    match result {
        Ok(flag) => answered(persister, cacher, ask, Outcome::Flag(Ok(flag))),
        Err(Fault::Store(e)) => answered(persister, cacher, ask, Outcome::Flag(Err(e))),
        Err(_) => false,
    }
}

/// A refresh that came to an end made the calls that `rebuilt` spells out.
pub proof fn lemma_refresh_calls<P: Persister<UID = String>, C: Cacher<UID = String>>(
    persister: &P,
    cacher: &C,
    uid: String,
    end: Result<Reply, Fault>,
)
    requires
        exists|script: Seq<Outcome>|
            ends(persister, cacher, Phase::Listing { uid }, Effect::Friends { uid }, script, end),
    ensures
        rebuilt(persister, cacher, uid, end),
        end matches Ok(reply) ==> reply == Reply::Done,
{
    let script = choose|script: Seq<Outcome>|
        ends(persister, cacher, Phase::Listing { uid }, Effect::Friends { uid }, script, end);
    match script[0] {
        Outcome::Listed(Ok(friends)) => {
            let write = Effect::CacheInsert { uid, friends };
            let rest = script.skip(1);
            assert(ends(persister, cacher, Phase::Writing, write, rest, end));
            match rest[0] {
                Outcome::Done(Ok(done)) => {
                    assert(done == ());
                    assert(answered(persister, cacher, write, Outcome::Done(Ok(()))));
                },
                Outcome::Done(Err(e)) => {
                    assert(answered(persister, cacher, write, Outcome::Done(Err(e))));
                },
                _ => {},
            }
        },
        _ => {},
    }
}

/// A mutation of a friendship that came to an end made the calls that
/// `mutated` spells out.
pub proof fn lemma_mutation_calls<P: Persister<UID = String>, C: Cacher<UID = String>>(
    persister: &P,
    cacher: &C,
    mutation: Effect,
    uid: String,
    end: Result<Reply, Fault>,
)
    requires
        mutation is Insert || mutation is Delete,
        exists|script: Seq<Outcome>|
            ends(persister, cacher, Phase::Mutating { uid }, mutation, script, end),
    ensures
        mutated(persister, cacher, mutation, uid, end),
        end matches Ok(reply) ==> reply == Reply::Done,
{
    let script = choose|script: Seq<Outcome>|
        ends(persister, cacher, Phase::Mutating { uid }, mutation, script, end);
    match script[0] {
        Outcome::Done(Ok(done)) => {
            assert(done == ());
            let rest = script.skip(1);
            assert(ends(persister, cacher, Phase::Listing { uid }, Effect::Friends { uid }, rest, end));
            lemma_refresh_calls(persister, cacher, uid, end);
        },
        _ => {},
    }
}

/// A read of friends that came to an end made the calls that `served` spells
/// out, and ended in a list or a fault.
pub proof fn lemma_read_calls<P: Persister<UID = String>, C: Cacher<UID = String>>(
    persister: &P,
    cacher: &C,
    uid: String,
    end: Result<Reply, Fault>,
)
    requires
        exists|script: Seq<Outcome>|
            ends(persister, cacher, Phase::Probing { uid }, Effect::CacheQuery { uid }, script, end),
    ensures
        match end {
            Ok(Reply::Friends(friends)) => served(persister, cacher, uid, Ok(friends)),
            Ok(_) => false,
            Err(fault) => served(persister, cacher, uid, Err(fault)),
        },
{
    let script = choose|script: Seq<Outcome>|
        ends(persister, cacher, Phase::Probing { uid }, Effect::CacheQuery { uid }, script, end);
    match script[0] {
        Outcome::Cached(Ok(None)) => {
            let rest = script.skip(1);
            assert(ends(persister, cacher, Phase::Reading, Effect::Friends { uid }, rest, end));
        },
        _ => {},
    }
}

/// An operation of one call on the store that came to an end made that call,
/// and ended in what the call handed back.
pub proof fn lemma_one_call<P: Persister<UID = String>, C: Cacher<UID = String>>(
    persister: &P,
    cacher: &C,
    phase: Phase,
    effect: Effect,
    end: Result<Reply, Fault>,
) -> (outcome: Outcome)
    requires
        phase is Reading || phase is Changing || phase is Asking,
        exists|script: Seq<Outcome>| ends(persister, cacher, phase, effect, script, end),
    ensures
        answered(persister, cacher, effect, outcome),
        resumed(phase, outcome) == Progress::Done(end),
{
    let script = choose|script: Seq<Outcome>| ends(persister, cacher, phase, effect, script, end);
    script[0]
}

/// Rebuilds the cache entry of `uid` from the store: lists the friends and
/// writes that very list to the cache. A failure of either step is a failed
/// refresh.
pub fn refresh_cache<P: Persister<UID = String>, C: Cacher<UID = String>>(
    persister: &P,
    cacher: &C,
    uid: String,
) -> (result: Result<(), Fault>)
    ensures
        refreshed(persister, cacher, uid, result),
        rebuilt(persister, cacher, uid, result),
{
    let result = refresh(persister, cacher, uid);
    proof {
        lemma_refresh_calls(persister, cacher, uid, bare(result));
    }
    result
}

fn refresh<P: Persister<UID = String>, C: Cacher<UID = String>>(
    persister: &P,
    cacher: &C,
    uid: String,
) -> (result: Result<(), Fault>)
    ensures
        refreshed(persister, cacher, uid, result),
{
    let first = Phase::Listing { uid: uid.clone() };
    let ask = Effect::Friends { uid };
    let ghost asked = ask;
    let listing = perform(persister, cacher, ask);
    match resume(first, listing) {
        Progress::Next(next, effect) => {
            let ghost second = next;
            let ghost then = effect;
            let written = perform(persister, cacher, effect);
            match resume(next, written) {
                Progress::Next(_, _) => Ok(()),
                Progress::Done(result) => {
                    proof {
                        let script = seq![listing, written];
                        assert(script.skip(1) =~= seq![written]);
                        assert(ends(persister, cacher, second, then, seq![written], result));
                        assert(ends(persister, cacher, first, asked, script, result));
                    }
                    match result {
                        Ok(_) => Ok(()),
                        Err(fault) => Err(fault),
                    }
                },
            }
        },
        Progress::Done(result) => {
            proof {
                assert(ends(persister, cacher, first, asked, seq![listing], result));
            }
            match result {
                Ok(_) => Ok(()),
                Err(fault) => Err(fault),
            }
        },
    }
}

/// Makes `uid_a` and `uid_b` friends, then refreshes the cache entry of
/// `uid_a`. A store fault ends the operation before any refresh; a fault
/// during the refresh is reported as such, the friendship staying committed.
pub fn add_friend<P: Persister<UID = String>, C: Cacher<UID = String>>(
    persister: &P,
    cacher: &C,
    uid_a: String,
    uid_b: String,
) -> (result: Result<String, Fault>)
    ensures
        acknowledged(persister, cacher, Task::AddFriend { uid_a, uid_b }, result),
        mutated(persister, cacher, Effect::Insert { uid_a, uid_b }, uid_a, result),
{
    let result = acknowledge(persister, cacher, Task::AddFriend { uid_a, uid_b });
    proof {
        let end = done_end(result);
        lemma_mutation_calls(persister, cacher, Effect::Insert { uid_a, uid_b }, uid_a, end);
    }
    result
}

/// Ends the friendship of `uid_a` and `uid_b`, then refreshes the cache entry
/// of `uid_a`, in the same order and with the same reports as `add_friend`.
pub fn delete_friend<P: Persister<UID = String>, C: Cacher<UID = String>>(
    persister: &P,
    cacher: &C,
    uid_a: String,
    uid_b: String,
) -> (result: Result<String, Fault>)
    ensures
        acknowledged(persister, cacher, Task::DeleteFriend { uid_a, uid_b }, result),
        mutated(persister, cacher, Effect::Delete { uid_a, uid_b }, uid_a, result),
{
    let result = acknowledge(persister, cacher, Task::DeleteFriend { uid_a, uid_b });
    proof {
        let end = done_end(result);
        lemma_mutation_calls(persister, cacher, Effect::Delete { uid_a, uid_b }, uid_a, end);
    }
    result
}

/// Lists the friends of `uid`: from the cache on a hit, from the store on a
/// miss. The cache is not written.
pub fn query_friends<P: Persister<UID = String>, C: Cacher<UID = String>>(
    persister: &P,
    cacher: &C,
    uid: String,
) -> (result: Result<Vec<String>, Fault>)
    ensures
        listed(persister, cacher, Task::QueryFriends { uid }, result),
        served(persister, cacher, uid, result),
{
    let result = list(persister, cacher, Task::QueryFriends { uid });
    proof {
        let end = list_end(result);
        lemma_read_calls(persister, cacher, uid, end);
    }
    result
}

/// Recommends people to `uid`, computed by the store afresh: those reached
/// over at least `RECOMMENDATION_THRESHOLD` paths of `RECOMMENDATION_LEVEL`
/// friendships. The cache plays no part.
pub fn recommendation<P: Persister<UID = String>, C: Cacher<UID = String>>(
    persister: &P,
    cacher: &C,
    uid: String,
) -> (result: Result<Vec<String>, Fault>)
    ensures
        listed(persister, cacher, Task::Recommendation { uid }, result),
        recommended(persister, cacher, uid, result),
{
    let result = list(persister, cacher, Task::Recommendation { uid });
    proof {
        let end = list_end(result);
        let task = Task::Recommendation { uid };
        lemma_one_call(persister, cacher, started(task).0, started(task).1, end);
    }
    result
}

/// Registers the person `uid` in the store. The cache plays no part.
pub fn add_user<P: Persister<UID = String>, C: Cacher<UID = String>>(
    persister: &P,
    cacher: &C,
    uid: String,
) -> (result: Result<String, Fault>)
    ensures
        acknowledged(persister, cacher, Task::AddUser { uid }, result),
        changed(persister, cacher, Effect::InsertNode { uid }, result),
{
    let result = acknowledge(persister, cacher, Task::AddUser { uid });
    proof {
        let end = done_end(result);
        let outcome = lemma_one_call(persister, cacher, Phase::Changing, Effect::InsertNode { uid }, end);
        match outcome {
            Outcome::Done(Ok(done)) => {
                assert(done == ());
            },
            _ => {},
        }
    }
    result
}

/// Removes the person `uid` from the store. The cache plays no part.
pub fn delete_user<P: Persister<UID = String>, C: Cacher<UID = String>>(
    persister: &P,
    cacher: &C,
    uid: String,
) -> (result: Result<String, Fault>)
    ensures
        acknowledged(persister, cacher, Task::DeleteUser { uid }, result),
        changed(persister, cacher, Effect::DeleteNode { uid }, result),
{
    let result = acknowledge(persister, cacher, Task::DeleteUser { uid });
    proof {
        let end = done_end(result);
        let outcome = lemma_one_call(persister, cacher, Phase::Changing, Effect::DeleteNode { uid }, end);
        match outcome {
            Outcome::Done(Ok(done)) => {
                assert(done == ());
            },
            _ => {},
        }
    }
    result
}

/// Asks the store whether `uid_a` and `uid_b` are friends.
pub fn is_friend<P: Persister<UID = String>, C: Cacher<UID = String>>(
    persister: &P,
    cacher: &C,
    uid_a: String,
    uid_b: String,
) -> (result: Result<bool, Fault>)
    ensures
        flagged(persister, cacher, Task::IsFriend { uid_a, uid_b }, result),
        asked(persister, cacher, uid_a, uid_b, result),
{
    let result = match execute(persister, cacher, Task::IsFriend { uid_a, uid_b }) {
        Ok(Reply::Flag(flag)) => Ok(flag),
        Ok(_) => Ok(false),
        Err(fault) => Err(fault),
    };
    proof {
        let end = flag_end(result);
        lemma_one_call(persister, cacher, Phase::Asking, Effect::IsFriend { uid_a, uid_b }, end);
    }
    result
}

/// A store and a cache at one moment, as far as reads and refreshes can tell:
/// what the store lists for each person, and the entries of the cache. Both
/// answer every call; how a mutation changes what the store lists is the
/// store's own business and not modelled.
pub ghost struct World {
    pub listing: spec_fn(Seq<char>) -> Vec<String>,
    pub cache: Map<Seq<char>, Vec<String>>,
}

impl World {
    /// Whether the world says how `effect` is answered: it does for a listing
    /// and for a lookup or a write of the cache.
    pub open spec fn covers(self, effect: Effect) -> bool {
        effect is Friends || effect is CacheQuery || effect is CacheInsert
    }

    /// What comes back from `effect`.
    pub open spec fn answer(self, effect: Effect) -> Outcome {
        match effect {
            Effect::Friends { uid } => Outcome::Listed(Ok((self.listing)(uid@))),
            Effect::CacheQuery { uid } => Outcome::Cached(
                Ok(
                    if self.cache.contains_key(uid@) {
                        Some(self.cache[uid@])
                    } else {
                        None
                    },
                ),
            ),
            _ => Outcome::Done(Ok(())),
        }
    }

    /// The world that `effect` leaves behind: a write replaces one entry of
    /// the cache, nothing else changes anything.
    pub open spec fn after(self, effect: Effect) -> World {
        match effect {
            Effect::CacheInsert { uid, friends } => World {
                listing: self.listing,
                cache: self.cache.insert(uid@, friends),
            },
            _ => self,
        }
    }

    /// The world after the entry of `uid` was rebuilt from the store.
    pub open spec fn refreshed(self, uid: Seq<char>) -> World {
        World { listing: self.listing, cache: self.cache.insert(uid, (self.listing)(uid)) }
    }
}

/// The manager at work in `world`, from the call `effect` made in `phase`,
/// for at most `steps` calls: the world left behind and how the operation
/// ended, if it did.
pub open spec fn run(world: World, phase: Phase, effect: Effect, steps: nat) -> (World, Option<Result<Reply, Fault>>)
    decreases steps,
{
    if steps == 0 || !world.covers(effect) || !phase.expects(world.answer(effect)) {
        (world, None)
    } else {
        match resumed(phase, world.answer(effect)) {
            Progress::Next(next, then) => run(world.after(effect), next, then, (steps - 1) as nat),
            Progress::Done(result) => (world.after(effect), Some(result)),
        }
    }
}

/// What a read of the friends of `uid` returns in `world`.
pub open spec fn read(world: World, uid: String) -> Option<Result<Reply, Fault>> {
    run(world, Phase::Probing { uid }, Effect::CacheQuery { uid }, 2).1
}

/// Once the store has committed a mutation for `uid`, the refresh goes
/// through whatever the store now lists and whatever the cache held: it ends
/// in success, the entry of `uid` is what the store lists, and no other entry
/// is touched. A removal of a friendship that never existed is no exception:
/// nothing is asked of what the mutation did.
pub proof fn lemma_refresh_mirrors_store(world: World, uid: String)
    ensures
        resumed(Phase::Mutating { uid }, Outcome::Done(Ok(()))) == Progress::Next(
            Phase::Listing { uid },
            Effect::Friends { uid },
        ),
        run(world, Phase::Listing { uid }, Effect::Friends { uid }, 2) == (
            world.refreshed(uid@),
            Some(Ok::<Reply, Fault>(Reply::Done)),
        ),
{
    let listed = (world.listing)(uid@);
    let write = Effect::CacheInsert { uid, friends: listed };
    assert(resumed(Phase::Listing { uid }, world.answer(Effect::Friends { uid })) == Progress::Next(
        Phase::Writing,
        write,
    ));
    assert(world.after(Effect::Friends { uid }) == world);
    assert(run(world, Phase::Writing, write, 1) == (world.after(write), Some(Ok::<Reply, Fault>(Reply::Done))));
    assert(world.after(write) == world.refreshed(uid@));
}

/// After `uid_a` and `uid_b` became friends, a read of the friends of `uid_a`
/// is a cache hit that returns what the store lists, `uid_b` included. The
/// store is taken at its word: having committed, it lists `uid_b` among the
/// friends of `uid_a`.
pub proof fn lemma_added_friend_is_listed(world: World, uid_a: String, uid_b: String)
    requires
        views((world.listing)(uid_a@)@).contains(uid_b@),
    ensures
        started(Task::AddFriend { uid_a, uid_b }) == (
            Phase::Mutating { uid: uid_a },
            Effect::Insert { uid_a, uid_b },
        ),
        world.refreshed(uid_a@).cache[uid_a@] == (world.listing)(uid_a@),
        read(world.refreshed(uid_a@), uid_a) matches Some(Ok(Reply::Friends(friends)))
            && friends == (world.listing)(uid_a@) && views(friends@).contains(uid_b@),
{
    let after = world.refreshed(uid_a@);
    assert(after.cache.contains_key(uid_a@));
}

/// After `uid_a` and `uid_b` became friends, a read of the friends of `uid_b`
/// lists `uid_a`, unless the cache still serves an older entry of `uid_b`
/// without `uid_a`: the refresh rebuilds the entry of `uid_a` alone. The store
/// is taken at its word: having committed, it lists `uid_a` among the friends
/// of `uid_b`.
pub proof fn lemma_added_friend_lists_back(world: World, uid_a: String, uid_b: String)
    requires
        views((world.listing)(uid_b@)@).contains(uid_a@),
        uid_a@ != uid_b@ && world.cache.contains_key(uid_b@) ==> views(
            world.cache[uid_b@]@,
        ).contains(uid_a@),
    ensures
        read(world.refreshed(uid_a@), uid_b) matches Some(Ok(Reply::Friends(friends))) && views(
            friends@,
        ).contains(uid_a@),
{
    let after = world.refreshed(uid_a@);
    let probe = Effect::CacheQuery { uid: uid_b };
    assert(after.after(probe) == after);
    if !after.cache.contains_key(uid_b@) {
        assert(resumed(Phase::Probing { uid: uid_b }, after.answer(probe)) == Progress::Next(
            Phase::Reading,
            Effect::Friends { uid: uid_b },
        ));
        assert(run(after, Phase::Reading, Effect::Friends { uid: uid_b }, 1).1 == Some(
            Ok::<Reply, Fault>(Reply::Friends((world.listing)(uid_b@))),
        ));
    }
}

/// Once the store has listed the friends of a person, the manager asks
/// nothing of the list: whatever it holds, and whatever the mutation before
/// did or did not change, the list goes to the cache as it is, and only a
/// fault of the cache itself can fail the refresh.
pub proof fn lemma_refresh_fails_only_by_fault(uid: String, friends: Vec<String>, fault: Error)
    ensures
        resumed(Phase::Listing { uid }, Outcome::Listed(Ok(friends))) == Progress::Next(
            Phase::Writing,
            Effect::CacheInsert { uid, friends },
        ),
        resumed(Phase::Writing, Outcome::Done(Ok(()))) == Progress::Done(Ok(Reply::Done)),
        resumed(Phase::Writing, Outcome::Done(Err(fault))) == Progress::Done(
            Err(Fault::CacheRefreshFailed(fault)),
        ),
{
}

/// A read never writes the cache: whatever it returns, the world is as before.
pub proof fn lemma_read_leaves_cache(world: World, uid: String)
    ensures
        run(world, Phase::Probing { uid }, Effect::CacheQuery { uid }, 2).0 == world,
        read(world, uid) is Some,
{
    let probe = Effect::CacheQuery { uid };
    assert(world.after(probe) == world);
    if !world.cache.contains_key(uid@) {
        assert(resumed(Phase::Probing { uid }, world.answer(probe)) == Progress::Next(
            Phase::Reading,
            Effect::Friends { uid },
        ));
        assert(world.after(Effect::Friends { uid }) == world);
        assert(run(world, Phase::Reading, Effect::Friends { uid }, 1) == (
            world,
            Some(Ok::<Reply, Fault>(Reply::Friends((world.listing)(uid@)))),
        ));
    }
}

/// Whether the collaborators, asked for the friends of `uid` or for the
/// entry of `uid`, answer as `world` says: the store lists what the world
/// lists, and the cache holds what the world's cache holds.
pub open spec fn behaves<P: Persister<UID = String>, C: Cacher<UID = String>>(
    persister: &P,
    cacher: &C,
    world: World,
    uid: String,
) -> bool {
    &&& lists(persister, cacher, world, uid)
    &&& forall|outcome: Outcome| #[trigger]
        answered(persister, cacher, Effect::CacheQuery { uid }, outcome) ==> outcome
            == world.answer(Effect::CacheQuery { uid })
}

/// Whether the store, asked for the friends of `uid`, lists what `world`
/// lists.
pub open spec fn lists<P: Persister<UID = String>, C: Cacher<UID = String>>(
    persister: &P,
    cacher: &C,
    world: World,
    uid: String,
) -> bool {
    forall|outcome: Outcome| #[trigger]
        answered(persister, cacher, Effect::Friends { uid }, outcome) ==> outcome == world.answer(
            Effect::Friends { uid },
        )
}

/// With a store that lists what `world` lists, a refresh that ended hands
/// the cache exactly that list: on success the cache took it, and a failed
/// refresh is the cache's refusal of it.
pub proof fn lemma_refresh_follows_world<P: Persister<UID = String>, C: Cacher<UID = String>, T>(
    persister: &P,
    cacher: &C,
    world: World,
    uid: String,
    result: Result<T, Fault>,
)
    requires
        lists(persister, cacher, world, uid),
        rebuilt(persister, cacher, uid, result),
    ensures
        match result {
            Ok(_) => answered(
                persister,
                cacher,
                Effect::CacheInsert { uid, friends: (world.listing)(uid@) },
                Outcome::Done(Ok(())),
            ),
            Err(Fault::CacheRefreshFailed(e)) => answered(
                persister,
                cacher,
                Effect::CacheInsert { uid, friends: (world.listing)(uid@) },
                Outcome::Done(Err(e)),
            ),
            Err(_) => false,
        },
{
}

/// With collaborators that answer as `world` says, a read that ended returns
/// what the read returns in the world: the entry of the cache on a hit, the
/// listing of the store on a miss, and never a fault.
pub proof fn lemma_read_follows_world<P: Persister<UID = String>, C: Cacher<UID = String>>(
    persister: &P,
    cacher: &C,
    world: World,
    uid: String,
    result: Result<Vec<String>, Fault>,
)
    requires
        behaves(persister, cacher, world, uid),
        served(persister, cacher, uid, result),
    ensures
        read(world, uid) == Some(list_end(result)),
{
    let probe = Effect::CacheQuery { uid };
    assert(world.after(probe) == world);
    if !world.cache.contains_key(uid@) {
        assert(resumed(Phase::Probing { uid }, world.answer(probe)) == Progress::Next(
            Phase::Reading,
            Effect::Friends { uid },
        ));
        assert(run(world, Phase::Reading, Effect::Friends { uid }, 1).1 == Some(
            Ok::<Reply, Fault>(Reply::Friends((world.listing)(uid@))),
        ));
    }
}

/// After `add_friend` made `uid_a` and `uid_b` friends, `query_friends` lists
/// `uid_b` among the friends of `uid_a`, with collaborators that keep their
/// word. `added` is how `add_friend` ended on `persister` and `cacher`, where
/// the store listed what `world` lists and, having committed, listed `uid_b`
/// for `uid_a`. `found` is how `query_friends` ended on `later_persister` and
/// `later_cacher`, the same collaborators afterwards, which answer as the
/// world with the refreshed entry says: the cache holds what it took, and
/// nothing touched `uid_a` since. Then the cache was handed the very list of
/// the store, and the read returns that list, `uid_b` included.
pub proof fn lemma_added_friend_is_served<P: Persister<UID = String>, C: Cacher<UID = String>>(
    persister: &P,
    cacher: &C,
    later_persister: &P,
    later_cacher: &C,
    world: World,
    uid_a: String,
    uid_b: String,
    added: Result<String, Fault>,
    found: Result<Vec<String>, Fault>,
)
    requires
        added is Ok,
        mutated(persister, cacher, Effect::Insert { uid_a, uid_b }, uid_a, added),
        lists(persister, cacher, world, uid_a),
        views((world.listing)(uid_a@)@).contains(uid_b@),
        behaves(later_persister, later_cacher, world.refreshed(uid_a@), uid_a),
        served(later_persister, later_cacher, uid_a, found),
    ensures
        answered(
            persister,
            cacher,
            Effect::CacheInsert { uid: uid_a, friends: (world.listing)(uid_a@) },
            Outcome::Done(Ok(())),
        ),
        found matches Ok(friends) && friends == (world.listing)(uid_a@) && views(friends@).contains(
            uid_b@,
        ),
{
    lemma_refresh_follows_world(persister, cacher, world, uid_a, added);
    lemma_read_follows_world(later_persister, later_cacher, world.refreshed(uid_a@), uid_a, found);
    lemma_added_friend_is_listed(world, uid_a, uid_b);
}

} // verus!
