use friendship::cachers::{cache_key, decode_friends, encode_friends};
use friendship::dispatcher::{deliver, dispatch, plan, refuse, respond, task_of, Dispatched, Plan};
use friendship::error::Fault;
use friendship::handlers::{
    add_friend, add_user, delete_friend, delete_user, execute, is_friend, perform, query_friends,
    recommendation, refresh_cache, resume, start, Effect, Outcome, Phase, Progress, Task,
    RECOMMENDATION_LEVEL, RECOMMENDATION_THRESHOLD,
};
use friendship::message::{DecodeFailed, Reply};
use friendship::outputers::ReplySlots;
use friendship::{Cacher, Error, Outputer, Persister, Request, Response};
use std::cell::{Cell, RefCell};
use std::collections::{BTreeMap, BTreeSet};

/// A graph store in memory. It answers as the statements of the library ask
/// a graph database to: friendships are read in both directions, lists come
/// in ascending order, and a path never walks the same friendship twice.
struct Graph {
    nodes: RefCell<BTreeSet<String>>,
    edges: RefCell<Vec<(String, String)>>,
    calls: RefCell<Vec<String>>,
    down: Cell<bool>,
}

impl Graph {
    fn new() -> Self {
        Graph {
            nodes: RefCell::new(BTreeSet::new()),
            edges: RefCell::new(Vec::new()),
            calls: RefCell::new(Vec::new()),
            down: Cell::new(false),
        }
    }

    fn enter(&self, call: String) -> Result<(), Error> {
        self.calls.borrow_mut().push(call);
        if self.down.get() {
            Err(Error::new_500("store down".to_string()))
        } else {
            Ok(())
        }
    }

    fn neighbours(&self, uid: &str) -> Vec<(usize, String)> {
        let mut found = Vec::new();
        for (at, (a, b)) in self.edges.borrow().iter().enumerate() {
            if a == uid {
                found.push((at, b.clone()));
            } else if b == uid {
                found.push((at, a.clone()));
            }
        }
        found
    }

    fn paths(&self, from: &str, level: i32, used: &mut Vec<usize>, ends: &mut BTreeMap<String, i32>) {
        if level == 0 {
            *ends.entry(from.to_string()).or_insert(0) += 1;
            return;
        }
        for (at, next) in self.neighbours(from) {
            if !used.contains(&at) {
                used.push(at);
                self.paths(&next, level - 1, used, ends);
                used.pop();
            }
        }
    }
}

impl Persister for Graph {
    type UID = String;

    fn insert_node(&self, uid: String) -> Result<(), Error> {
        self.enter(format!("insert_node {}", uid))?;
        self.nodes.borrow_mut().insert(uid);
        Ok(())
    }

    fn delete_node(&self, uid: String) -> Result<(), Error> {
        self.enter(format!("delete_node {}", uid))?;
        self.nodes.borrow_mut().remove(&uid);
        Ok(())
    }

    fn exist_node(&self, uid: String) -> Result<bool, Error> {
        self.enter(format!("exist_node {}", uid))?;
        Ok(self.nodes.borrow().contains(&uid))
    }

    fn insert(&self, uid_a: String, uid_b: String) -> Result<(), Error> {
        self.enter(format!("insert {} {}", uid_a, uid_b))?;
        if self.nodes.borrow().contains(&uid_a) && self.nodes.borrow().contains(&uid_b) {
            self.edges.borrow_mut().push((uid_a, uid_b));
        }
        Ok(())
    }

    fn delete(&self, uid_a: String, uid_b: String) -> Result<(), Error> {
        self.enter(format!("delete {} {}", uid_a, uid_b))?;
        self.edges
            .borrow_mut()
            .retain(|(a, b)| !((*a == uid_a && *b == uid_b) || (*a == uid_b && *b == uid_a)));
        Ok(())
    }

    fn friends(&self, uid: String) -> Result<Vec<String>, Error> {
        self.enter(format!("friends {}", uid))?;
        let mut friends: Vec<String> = self.neighbours(&uid).into_iter().map(|(_, b)| b).collect();
        friends.sort();
        Ok(friends)
    }

    fn is_friend(&self, uid_a: String, uid_b: String) -> Result<bool, Error> {
        self.enter(format!("is_friend {} {}", uid_a, uid_b))?;
        Ok(self.neighbours(&uid_a).into_iter().any(|(_, b)| b == uid_b))
    }

    fn recommendations(&self, uid: String, level: i32, threshold: i32) -> Result<Vec<String>, Error> {
        self.enter(format!("recommendations {} {} {}", uid, level, threshold))?;
        let mut ends = BTreeMap::new();
        self.paths(&uid, level, &mut Vec::new(), &mut ends);
        Ok(ends.into_iter().filter(|(_, n)| *n >= threshold).map(|(dst, _)| dst).collect())
    }
}

/// A cache in memory that keeps what the cache functions of the library write.
struct Memory {
    values: RefCell<BTreeMap<String, String>>,
    calls: RefCell<Vec<String>>,
    down: Cell<bool>,
}

impl Memory {
    fn new() -> Self {
        Memory {
            values: RefCell::new(BTreeMap::new()),
            calls: RefCell::new(Vec::new()),
            down: Cell::new(false),
        }
    }

    fn enter(&self, call: String) -> Result<(), Error> {
        self.calls.borrow_mut().push(call);
        if self.down.get() {
            Err(Error::new_500("cache down".to_string()))
        } else {
            Ok(())
        }
    }

    fn stored(&self, uid: &str) -> Option<String> {
        self.values.borrow().get(&cache_key(uid)).cloned()
    }
}

impl Cacher for Memory {
    type UID = String;

    fn insert(&self, uid: String, friends: Vec<String>) -> Result<(), Error> {
        self.enter(format!("insert {} {:?}", uid, friends))?;
        let value = encode_friends(&friends)?;
        self.values.borrow_mut().insert(cache_key(&uid), value);
        Ok(())
    }

    fn delete(&self, uid: String) -> Result<(), Error> {
        self.enter(format!("delete {}", uid))?;
        self.values.borrow_mut().remove(&cache_key(&uid));
        Ok(())
    }

    fn query(&self, uid: String) -> Result<Option<Vec<String>>, Error> {
        self.enter(format!("query {}", uid))?;
        decode_friends(self.stored(&uid))
    }
}

/// A reply sink in memory over the reply slots of the library.
struct Sink {
    slots: RefCell<ReplySlots>,
    down: Cell<bool>,
}

impl Sink {
    fn new() -> Self {
        Sink { slots: RefCell::new(ReplySlots::new(60)), down: Cell::new(false) }
    }

    fn send(&self, key: String, response: Response) -> Result<(), Error> {
        if self.down.get() {
            return Err(Error::new_500("sink down".to_string()));
        }
        self.slots.borrow_mut().post(key, &response, 0);
        Ok(())
    }

    fn take(&self, key: &str) -> Option<String> {
        self.slots.borrow_mut().take(key, 0)
    }

    fn len(&self) -> usize {
        self.slots.borrow().len()
    }
}

impl Outputer for Sink {
    fn ok(&self, key: String, data: Reply) -> Result<(), Error> {
        self.send(key, Response::Success { data })
    }

    fn error(&self, key: String, err: String) -> Result<(), Error> {
        self.send(key, Response::Failure { detail: err })
    }
}

fn s(text: &str) -> String {
    text.to_string()
}

fn people(graph: &Graph, uids: &[&str]) {
    for uid in uids {
        graph.nodes.borrow_mut().insert(uid.to_string());
    }
}

fn befriend(graph: &Graph, pairs: &[(&str, &str)]) {
    for (a, b) in pairs {
        graph.edges.borrow_mut().push((a.to_string(), b.to_string()));
    }
}

#[test]
fn test_insert_node() {
    let neo = Graph::new();
    let cache = Memory::new();
    add_user(&neo, &cache, 1.to_string()).expect("failed to insert node");
    assert!(neo.exist_node(1.to_string()).expect("failed to check node exists") == true);
    delete_user(&neo, &cache, 1.to_string()).expect("failed to delete node");
    assert!(neo.exist_node(1.to_string()).expect("failed to check node exists") == false);
}

#[test]
fn test_insert_relation() {
    let neo = Graph::new();
    let cache = Memory::new();
    add_user(&neo, &cache, 1.to_string()).expect("failed to insert node");
    add_user(&neo, &cache, 2.to_string()).expect("failed to insert node");
    add_friend(&neo, &cache, 1.to_string(), 2.to_string()).expect("failed to insert relation");
    assert!(is_friend(&neo, &cache, 1.to_string(), 2.to_string()).expect("failed to check is friend") == true);
    delete_friend(&neo, &cache, 1.to_string(), 2.to_string()).expect("failed to delete relation");
    assert!(is_friend(&neo, &cache, 1.to_string(), 2.to_string()).expect("failed to check is friend") == false);
    delete_user(&neo, &cache, 1.to_string()).expect("failed to delete node");
    delete_user(&neo, &cache, 2.to_string()).expect("failed to delete node");
}

#[test]
fn test_friends() {
    let neo = Graph::new();
    let cache = Memory::new();
    add_user(&neo, &cache, 1.to_string()).expect("failed to insert node");
    add_user(&neo, &cache, 2.to_string()).expect("failed to insert node");
    add_user(&neo, &cache, 3.to_string()).expect("failed to insert node");
    add_friend(&neo, &cache, 1.to_string(), 2.to_string()).expect("failed to insert relation");
    add_friend(&neo, &cache, 1.to_string(), 3.to_string()).expect("failed to insert relation");
    let friends = query_friends(&neo, &cache, 1.to_string()).expect("failed to get friends");
    assert!(friends == vec![2.to_string(), 3.to_string()]);
    delete_friend(&neo, &cache, 1.to_string(), 2.to_string()).expect("failed to delete relation");
    delete_friend(&neo, &cache, 1.to_string(), 3.to_string()).expect("failed to delete relation");
    assert!(query_friends(&neo, &cache, 1.to_string()).expect("failed to get friends").is_empty());
}

#[test]
fn test_recommendation() {
    let neo = Graph::new();
    let cache = Memory::new();
    for uid in 1..=4 {
        add_user(&neo, &cache, uid.to_string()).expect("failed to insert node");
    }
    add_friend(&neo, &cache, 1.to_string(), 2.to_string()).expect("failed to insert relation");
    add_friend(&neo, &cache, 1.to_string(), 3.to_string()).expect("failed to insert relation");
    add_friend(&neo, &cache, 2.to_string(), 4.to_string()).expect("failed to insert relation");
    add_friend(&neo, &cache, 3.to_string(), 4.to_string()).expect("failed to insert relation");
    let rs = perform(
        &neo,
        &cache,
        Effect::Recommendations { uid: 1.to_string(), level: 2, threshold: 2 },
    );
    assert!(rs == Outcome::Listed(Ok(vec![4.to_string()])));
}

#[test]
fn friends_are_listed_on_both_sides() {
    let graph = Graph::new();
    let cache = Memory::new();
    assert_eq!(add_user(&graph, &cache, s("1")), Ok(s("ok")));
    assert_eq!(add_user(&graph, &cache, s("2")), Ok(s("ok")));
    assert_eq!(add_friend(&graph, &cache, s("1"), s("2")), Ok(s("ok")));
    assert_eq!(query_friends(&graph, &cache, s("1")), Ok(vec![s("2")]));
    assert_eq!(query_friends(&graph, &cache, s("2")), Ok(vec![s("1")]));
}

#[test]
fn the_recommendation_bound_is_inclusive() {
    let graph = Graph::new();
    let cache = Memory::new();
    people(&graph, &["1", "2", "3", "4", "5", "6"]);
    befriend(&graph, &[("1", "2"), ("1", "3"), ("2", "4"), ("3", "4"), ("1", "5"), ("5", "4"), ("5", "6")]);
    assert_eq!(
        perform(&graph, &cache, Effect::Recommendations { uid: s("1"), level: 2, threshold: 2 }),
        Outcome::Listed(Ok(vec![s("4")]))
    );
    assert_eq!(recommendation(&graph, &cache, s("1")), Ok(vec![s("4")]));
    assert_eq!(
        perform(&graph, &cache, Effect::Recommendations { uid: s("1"), level: 2, threshold: 4 }),
        Outcome::Listed(Ok(Vec::new()))
    );
    assert_eq!(
        perform(&graph, &cache, Effect::Recommendations { uid: s("1"), level: 2, threshold: 1 }),
        Outcome::Listed(Ok(vec![s("4"), s("6")]))
    );
}

#[test]
fn recommendation_asks_the_store_with_the_defaults_and_skips_the_cache() {
    let graph = Graph::new();
    let cache = Memory::new();
    people(&graph, &["1", "2", "3", "4"]);
    befriend(&graph, &[("1", "2"), ("1", "3"), ("2", "4"), ("3", "4")]);
    assert_eq!(recommendation(&graph, &cache, s("1")), Ok(Vec::new()));
    assert_eq!(*graph.calls.borrow(), vec![s("recommendations 1 2 3")]);
    assert!(cache.calls.borrow().is_empty());
    assert_eq!((RECOMMENDATION_LEVEL, RECOMMENDATION_THRESHOLD), (2, 3));
}

#[test]
fn add_friend_commits_then_lists_then_writes_the_cache() {
    let graph = Graph::new();
    let cache = Memory::new();
    people(&graph, &["1", "2", "3"]);
    befriend(&graph, &[("3", "1")]);
    assert_eq!(add_friend(&graph, &cache, s("1"), s("2")), Ok(s("ok")));
    assert_eq!(*graph.calls.borrow(), vec![s("insert 1 2"), s("friends 1")]);
    assert_eq!(*cache.calls.borrow(), vec![s("insert 1 [\"2\", \"3\"]")]);
    assert_eq!(cache.stored("1"), Some(s("[\"2\",\"3\"]")));
    assert_eq!(cache.stored("2"), None);
    assert_eq!(graph.friends(s("1")).unwrap(), decode_friends(cache.stored("1")).unwrap().unwrap());
}

#[test]
fn removing_a_friendship_that_is_not_there_refreshes_all_the_same() {
    let graph = Graph::new();
    let cache = Memory::new();
    people(&graph, &["1", "2", "3"]);
    befriend(&graph, &[("1", "3")]);
    assert_eq!(delete_friend(&graph, &cache, s("1"), s("2")), Ok(s("ok")));
    assert_eq!(*graph.calls.borrow(), vec![s("delete 1 2"), s("friends 1")]);
    assert_eq!(cache.stored("1"), Some(s("[\"3\"]")));
    assert_eq!(delete_friend(&graph, &cache, s("9"), s("8")), Ok(s("ok")));
    assert_eq!(cache.stored("9"), Some(s("[]")));
}

#[test]
fn a_failed_mutation_is_not_followed_by_a_refresh() {
    let graph = Graph::new();
    let cache = Memory::new();
    graph.down.set(true);
    assert_eq!(
        add_friend(&graph, &cache, s("1"), s("2")),
        Err(Fault::Store(Error::new_500(s("store down"))))
    );
    assert_eq!(
        delete_friend(&graph, &cache, s("1"), s("2")),
        Err(Fault::Store(Error::new_500(s("store down"))))
    );
    assert_eq!(*graph.calls.borrow(), vec![s("insert 1 2"), s("delete 1 2")]);
    assert!(cache.calls.borrow().is_empty());
}

#[test]
fn a_failed_refresh_leaves_the_mutation_committed() {
    let graph = Graph::new();
    let cache = Memory::new();
    people(&graph, &["1", "2"]);
    cache.down.set(true);
    assert_eq!(
        add_friend(&graph, &cache, s("1"), s("2")),
        Err(Fault::CacheRefreshFailed(Error::new_500(s("cache down"))))
    );
    assert_eq!(graph.friends(s("1")).unwrap(), vec![s("2")]);
    assert_eq!(cache.stored("1"), None);
}

#[test]
fn a_failed_listing_is_a_failed_refresh() {
    let graph = Graph::new();
    let cache = Memory::new();
    graph.down.set(true);
    assert_eq!(
        refresh_cache(&graph, &cache, s("1")),
        Err(Fault::CacheRefreshFailed(Error::new_500(s("store down"))))
    );
    assert!(cache.calls.borrow().is_empty());
    graph.down.set(false);
    assert_eq!(refresh_cache(&graph, &cache, s("1")), Ok(()));
    assert_eq!(cache.stored("1"), Some(s("[]")));
    cache.down.set(true);
    assert_eq!(
        refresh_cache(&graph, &cache, s("1")),
        Err(Fault::CacheRefreshFailed(Error::new_500(s("cache down"))))
    );
}

#[test]
fn a_hit_is_served_from_the_cache() {
    let graph = Graph::new();
    let cache = Memory::new();
    people(&graph, &["1", "2", "3"]);
    befriend(&graph, &[("1", "2")]);
    cache.insert(s("1"), vec![s("3")]).unwrap();
    assert_eq!(query_friends(&graph, &cache, s("1")), Ok(vec![s("3")]));
    assert!(graph.calls.borrow().is_empty());
}

#[test]
fn a_miss_is_served_from_the_store_and_fills_nothing() {
    let graph = Graph::new();
    let cache = Memory::new();
    people(&graph, &["1", "2"]);
    befriend(&graph, &[("2", "1")]);
    assert_eq!(query_friends(&graph, &cache, s("1")), Ok(vec![s("2")]));
    assert_eq!(*graph.calls.borrow(), vec![s("friends 1")]);
    assert_eq!(*cache.calls.borrow(), vec![s("query 1")]);
    assert_eq!(cache.stored("1"), None);
}

#[test]
fn an_older_entry_of_the_other_side_is_still_served() {
    let graph = Graph::new();
    let cache = Memory::new();
    people(&graph, &["1", "2", "3"]);
    assert_eq!(add_friend(&graph, &cache, s("2"), s("3")), Ok(s("ok")));
    assert_eq!(add_friend(&graph, &cache, s("1"), s("2")), Ok(s("ok")));
    assert_eq!(query_friends(&graph, &cache, s("1")), Ok(vec![s("2")]));
    assert_eq!(query_friends(&graph, &cache, s("2")), Ok(vec![s("3")]));
    assert_eq!(graph.friends(s("2")).unwrap(), vec![s("1"), s("3")]);
}

#[test]
fn read_faults_are_told_apart() {
    let graph = Graph::new();
    let cache = Memory::new();
    cache.down.set(true);
    assert_eq!(
        query_friends(&graph, &cache, s("1")),
        Err(Fault::Cache(Error::new_500(s("cache down"))))
    );
    assert!(graph.calls.borrow().is_empty());
    cache.down.set(false);
    graph.down.set(true);
    assert_eq!(
        query_friends(&graph, &cache, s("1")),
        Err(Fault::Store(Error::new_500(s("store down"))))
    );
    assert_eq!(
        recommendation(&graph, &cache, s("1")),
        Err(Fault::Store(Error::new_500(s("store down"))))
    );
    assert_eq!(
        is_friend(&graph, &cache, s("1"), s("2")),
        Err(Fault::Store(Error::new_500(s("store down"))))
    );
    assert_eq!(add_user(&graph, &cache, s("1")), Err(Fault::Store(Error::new_500(s("store down")))));
    assert_eq!(delete_user(&graph, &cache, s("1")), Err(Fault::Store(Error::new_500(s("store down")))));
}

#[test]
fn a_cached_value_that_is_no_list_is_a_cache_fault() {
    let graph = Graph::new();
    let cache = Memory::new();
    cache.values.borrow_mut().insert(cache_key("1"), s("{}"));
    assert_eq!(
        query_friends(&graph, &cache, s("1")),
        Err(Fault::Cache(Error::new_500(s("failed to deserialize json string- TypeError"))))
    );
}

#[test]
fn people_are_registered_without_the_cache() {
    let graph = Graph::new();
    let cache = Memory::new();
    assert_eq!(add_user(&graph, &cache, s("1")), Ok(s("ok")));
    assert_eq!(is_friend(&graph, &cache, s("1"), s("2")), Ok(false));
    assert_eq!(delete_user(&graph, &cache, s("1")), Ok(s("ok")));
    assert_eq!(*graph.calls.borrow(), vec![s("insert_node 1"), s("is_friend 1 2"), s("delete_node 1")]);
    assert!(cache.calls.borrow().is_empty());
}

#[test]
fn start_names_the_first_call() {
    assert_eq!(
        start(Task::AddFriend { uid_a: s("1"), uid_b: s("2") }),
        (Phase::Mutating { uid: s("1") }, Effect::Insert { uid_a: s("1"), uid_b: s("2") })
    );
    assert_eq!(
        start(Task::DeleteFriend { uid_a: s("1"), uid_b: s("2") }),
        (Phase::Mutating { uid: s("1") }, Effect::Delete { uid_a: s("1"), uid_b: s("2") })
    );
    assert_eq!(
        start(Task::QueryFriends { uid: s("1") }),
        (Phase::Probing { uid: s("1") }, Effect::CacheQuery { uid: s("1") })
    );
    assert_eq!(
        start(Task::Recommendation { uid: s("1") }),
        (Phase::Reading, Effect::Recommendations { uid: s("1"), level: 2, threshold: 3 })
    );
    assert_eq!(start(Task::AddUser { uid: s("1") }), (Phase::Changing, Effect::InsertNode { uid: s("1") }));
    assert_eq!(start(Task::DeleteUser { uid: s("1") }), (Phase::Changing, Effect::DeleteNode { uid: s("1") }));
    assert_eq!(
        start(Task::IsFriend { uid_a: s("1"), uid_b: s("2") }),
        (Phase::Asking, Effect::IsFriend { uid_a: s("1"), uid_b: s("2") })
    );
}

#[test]
fn resume_decides_every_step() {
    let e = || Error::new_500(s("x"));
    let cases = vec![
        (
            Phase::Mutating { uid: s("1") },
            Outcome::Done(Ok(())),
            Progress::Next(Phase::Listing { uid: s("1") }, Effect::Friends { uid: s("1") }),
        ),
        (Phase::Mutating { uid: s("1") }, Outcome::Done(Err(e())), Progress::Done(Err(Fault::Store(e())))),
        (
            Phase::Listing { uid: s("1") },
            Outcome::Listed(Ok(vec![s("2")])),
            Progress::Next(Phase::Writing, Effect::CacheInsert { uid: s("1"), friends: vec![s("2")] }),
        ),
        (
            Phase::Listing { uid: s("1") },
            Outcome::Listed(Err(e())),
            Progress::Done(Err(Fault::CacheRefreshFailed(e()))),
        ),
        (Phase::Writing, Outcome::Done(Ok(())), Progress::Done(Ok(Reply::Done))),
        (Phase::Writing, Outcome::Done(Err(e())), Progress::Done(Err(Fault::CacheRefreshFailed(e())))),
        (
            Phase::Probing { uid: s("1") },
            Outcome::Cached(Ok(Some(vec![s("2")]))),
            Progress::Done(Ok(Reply::Friends(vec![s("2")]))),
        ),
        (
            Phase::Probing { uid: s("1") },
            Outcome::Cached(Ok(None)),
            Progress::Next(Phase::Reading, Effect::Friends { uid: s("1") }),
        ),
        (Phase::Probing { uid: s("1") }, Outcome::Cached(Err(e())), Progress::Done(Err(Fault::Cache(e())))),
        (Phase::Reading, Outcome::Listed(Ok(Vec::new())), Progress::Done(Ok(Reply::Friends(Vec::new())))),
        (Phase::Reading, Outcome::Listed(Err(e())), Progress::Done(Err(Fault::Store(e())))),
        (Phase::Changing, Outcome::Done(Ok(())), Progress::Done(Ok(Reply::Done))),
        (Phase::Changing, Outcome::Done(Err(e())), Progress::Done(Err(Fault::Store(e())))),
        (Phase::Asking, Outcome::Flag(Ok(true)), Progress::Done(Ok(Reply::Flag(true)))),
        (Phase::Asking, Outcome::Flag(Ok(false)), Progress::Done(Ok(Reply::Flag(false)))),
        (Phase::Asking, Outcome::Flag(Err(e())), Progress::Done(Err(Fault::Store(e())))),
    ];
    for (phase, outcome, progress) in cases {
        assert!(phase.accepts(&outcome));
        assert_eq!(resume(phase, outcome), progress);
    }
}

#[test]
fn accepts_tells_the_kinds_of_outcome_apart() {
    assert!(!Phase::Writing.accepts(&Outcome::Listed(Ok(Vec::new()))));
    assert!(!Phase::Reading.accepts(&Outcome::Done(Ok(()))));
    assert!(!Phase::Probing { uid: s("1") }.accepts(&Outcome::Listed(Ok(Vec::new()))));
    assert!(!Phase::Asking.accepts(&Outcome::Cached(Ok(None))));
    assert!(!Phase::Mutating { uid: s("1") }.accepts(&Outcome::Flag(Ok(true))));
}

#[test]
fn execute_runs_a_task_to_its_end() {
    let graph = Graph::new();
    let cache = Memory::new();
    people(&graph, &["1", "2"]);
    assert_eq!(
        execute(&graph, &cache, Task::AddFriend { uid_a: s("1"), uid_b: s("2") }),
        Ok(Reply::Done)
    );
    assert_eq!(execute(&graph, &cache, Task::QueryFriends { uid: s("1") }), Ok(Reply::Friends(vec![s("2")])));
    assert_eq!(
        execute(&graph, &cache, Task::IsFriend { uid_a: s("2"), uid_b: s("1") }),
        Ok(Reply::Flag(true))
    );
}

#[test]
fn plan_goes_by_key_and_body() {
    let request = Request::AddNode { uid: 1 };
    assert_eq!(plan(None, Ok(request)), Plan::Dropped);
    assert_eq!(plan(None, Err(DecodeFailed)), Plan::Dropped);
    assert_eq!(plan(Some(s("k")), Err(DecodeFailed)), Plan::Refuse { key: s("k") });
    assert_eq!(plan(Some(s("k")), Ok(request)), Plan::Run { key: s("k"), request });
}

#[test]
fn task_of_names_people_in_decimal() {
    assert_eq!(
        task_of(Request::Add { uid_a: 1, uid_b: -2 }),
        Task::AddFriend { uid_a: s("1"), uid_b: s("-2") }
    );
    assert_eq!(
        task_of(Request::Delete { uid_a: 10, uid_b: 20 }),
        Task::DeleteFriend { uid_a: s("10"), uid_b: s("20") }
    );
    assert_eq!(task_of(Request::Friends { uid: 3 }), Task::QueryFriends { uid: s("3") });
    assert_eq!(task_of(Request::Recommendation { uid: 3 }), Task::Recommendation { uid: s("3") });
    assert_eq!(task_of(Request::AddNode { uid: 3 }), Task::AddUser { uid: s("3") });
    assert_eq!(task_of(Request::DeleteNode { uid: 3 }), Task::DeleteUser { uid: s("3") });
}

#[test]
fn respond_wraps_payload_and_fault() {
    assert_eq!(respond(Ok(Reply::Flag(true))), Response::Success { data: Reply::Flag(true) });
    assert_eq!(
        respond(Err(Fault::CacheRefreshFailed(Error::new_500(s("cache down"))))),
        Response::Failure { detail: s("cache down") }
    );
    assert_eq!(
        respond(Err(Fault::Store(Error::new_404(s("no such person"))))),
        Response::Failure { detail: s("no such person") }
    );
    assert_eq!(refuse(), Response::Failure { detail: s("malformed request") });
}

#[test]
fn a_request_is_run_and_answered_under_its_key() {
    let graph = Graph::new();
    let cache = Memory::new();
    let sink = Sink::new();
    people(&graph, &["1", "2"]);
    let body = Request::Add { uid_a: 1, uid_b: 2 }.encode();
    assert_eq!(
        dispatch(&graph, &cache, &sink, Some(s("1700000000-1")), &body),
        Dispatched::Replied { response: Response::Success { data: Reply::Done } }
    );
    assert_eq!(sink.take("1700000000-1"), Some(s("{\"status\":\"ok\",\"data\":\"ok\"}")));
    assert_eq!(sink.take("1700000000-1"), None);
    let body = Request::Friends { uid: 1 }.encode();
    assert_eq!(
        dispatch(&graph, &cache, &sink, Some(s("1700000000-2")), &body),
        Dispatched::Replied { response: Response::Success { data: Reply::Friends(vec![s("2")]) } }
    );
    assert_eq!(sink.take("1700000000-2"), Some(s("{\"status\":\"ok\",\"data\":[\"2\"]}")));
}

#[test]
fn a_fault_is_answered_as_a_failure() {
    let graph = Graph::new();
    let cache = Memory::new();
    let sink = Sink::new();
    graph.down.set(true);
    let body = Request::AddNode { uid: 1 }.encode();
    assert_eq!(
        dispatch(&graph, &cache, &sink, Some(s("k")), &body),
        Dispatched::Replied { response: Response::Failure { detail: s("store down") } }
    );
    assert_eq!(sink.take("k"), Some(s("{\"status\":\"error\",\"detail\":\"store down\"}")));
}

#[test]
fn a_malformed_body_with_a_key_is_answered_with_an_error() {
    let graph = Graph::new();
    let cache = Memory::new();
    let sink = Sink::new();
    assert_eq!(
        dispatch(&graph, &cache, &sink, Some(s("k")), "hello world"),
        Dispatched::Replied { response: Response::Failure { detail: s("malformed request") } }
    );
    assert_eq!(sink.take("k"), Some(s("{\"status\":\"error\",\"detail\":\"malformed request\"}")));
    assert!(graph.calls.borrow().is_empty());
    assert!(cache.calls.borrow().is_empty());
}

#[test]
fn a_malformed_body_without_a_key_is_dropped() {
    let graph = Graph::new();
    let cache = Memory::new();
    let sink = Sink::new();
    assert_eq!(dispatch(&graph, &cache, &sink, None, "hello world"), Dispatched::Dropped);
    assert_eq!(dispatch(&graph, &cache, &sink, None, ""), Dispatched::Dropped);
    assert_eq!(sink.len(), 0);
    assert!(graph.calls.borrow().is_empty());
}

#[test]
fn a_message_without_a_key_is_dropped_unrun() {
    let graph = Graph::new();
    let cache = Memory::new();
    let sink = Sink::new();
    let body = Request::AddNode { uid: 1 }.encode();
    assert_eq!(dispatch(&graph, &cache, &sink, None, &body), Dispatched::Dropped);
    assert_eq!(sink.len(), 0);
    assert!(graph.calls.borrow().is_empty());
}

#[test]
fn a_sink_that_fails_is_reported_and_not_tried_again() {
    let graph = Graph::new();
    let cache = Memory::new();
    let sink = Sink::new();
    sink.down.set(true);
    let body = Request::AddNode { uid: 1 }.encode();
    assert_eq!(
        dispatch(&graph, &cache, &sink, Some(s("k")), &body),
        Dispatched::Undelivered {
            response: Response::Success { data: Reply::Done },
            error: Error::new_500(s("sink down")),
        }
    );
    assert_eq!(*graph.calls.borrow(), vec![s("insert_node 1")]);
    assert_eq!(
        deliver(&sink, s("k"), refuse()),
        Dispatched::Undelivered { response: refuse(), error: Error::new_500(s("sink down")) }
    );
    sink.down.set(false);
    assert_eq!(sink.len(), 0);
    assert_eq!(deliver(&sink, s("k"), refuse()), Dispatched::Replied { response: refuse() });
    assert_eq!(sink.len(), 1);
}
