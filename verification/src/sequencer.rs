//! The counters that number the requests of each requester.
//!
//! A key is unique because its sequence number is: the counter of a requester
//! only ever goes up, by one per key, and refuses to go on rather than wrap
//! around. The counter is changed through `&mut`, so that no two callers can
//! read the same value and both increment it.

use vstd::prelude::*;
use crate::client::{correlation_key, gen_key, lemma_keys_differ};
use crate::error::BridgeError;

verus! {

/// One counter per requester, each at the number it issued last.
pub struct Sequencer {
    counters: Vec<(i64, i32)>,
}

impl Sequencer {
    closed spec fn holds(&self, uid: int, i: int) -> bool {
        0 <= i < self.counters.len() && self.counters[i].0 == uid
    }

    /// No requester has two counters, and no counter is below one. Every
    /// `Sequencer` that this module hands out is well formed.
    pub closed spec fn well_formed(&self) -> bool {
        &&& forall|i: int, j: int|
            0 <= i < j < self.counters.len() ==> self.counters[i].0 != self.counters[j].0
        &&& forall|i: int| 0 <= i < self.counters.len() ==> (#[trigger] self.counters[i]).1 >= 1
    }

    /// The number issued last to `uid`, zero where none was.
    pub closed spec fn last(&self, uid: int) -> int {
        if exists|i: int| self.holds(uid, i) {
            self.counters[choose|i: int| self.holds(uid, i)].1 as int
        } else {
            0
        }
    }

    proof fn lemma_last(&self, uid: int, i: int)
        requires
            self.well_formed(),
            self.holds(uid, i),
        ensures
            self.last(uid) == self.counters[i].1,
    {
        let j = choose|j: int| self.holds(uid, j);
        assert(i == j);
    }

    /// Counters for requesters that have not asked for anything yet.
    pub fn new() -> (sequencer: Self)
        ensures
            sequencer.well_formed(),
            forall|uid: int| sequencer.last(uid) == 0,
    {
        Sequencer { counters: Vec::new() }
    }

    fn position(&self, uid: i64) -> (found: Option<usize>)
        ensures
            match found {
                Some(i) => self.holds(uid as int, i as int),
                None => forall|i: int| !self.holds(uid as int, i),
            },
    {
        let mut i: usize = 0;
        while i < self.counters.len()
            invariant
                i <= self.counters.len(),
                forall|j: int| 0 <= j < i ==> !self.holds(uid as int, j),
            decreases self.counters.len() - i,
        {
            if self.counters[i].0 == uid {
                return Some(i);
            }
            i = i + 1;
        }
        None
    }

    fn store(&mut self, found: Option<usize>, uid: i64, number: i32)
        requires
            old(self).well_formed(),
            number >= 1,
            match found {
                Some(i) => old(self).holds(uid as int, i as int),
                None => forall|i: int| !old(self).holds(uid as int, i),
            },
        ensures
            final(self).well_formed(),
            final(self).last(uid as int) == number,
            forall|other: int| other != uid ==> final(self).last(other) == old(self).last(other),
    {
        let ghost before = *self;
        match found {
            Some(at) => {
                self.counters.set(at, (uid, number));
            },
            None => {
                self.counters.push((uid, number));
            },
        }
        proof {
            let after = *self;
            let at = match found {
                Some(at) => at as int,
                None => before.counters.len() as int,
            };
            assert(after.holds(uid as int, at));
            assert forall|i: int, j: int| 0 <= i < j < after.counters.len() implies after.counters[i].0
                != after.counters[j].0 by {
                if j < before.counters.len() {
                    assert(after.counters[i].0 == before.counters[i].0);
                    assert(after.counters[j].0 == before.counters[j].0);
                } else {
                    assert(!before.holds(uid as int, i));
                }
            }
            assert forall|i: int| 0 <= i < after.counters.len() implies (#[trigger] after.counters[i]).1
                >= 1 by {
                if i != at {
                    assert(after.counters[i] == before.counters[i]);
                }
            }
            after.lemma_last(uid as int, at);
            assert forall|other: int| other != uid implies after.last(other) == before.last(other) by {
                if exists|i: int| before.holds(other, i) {
                    let i = choose|i: int| before.holds(other, i);
                    assert(after.counters[i] == before.counters[i]);
                    assert(after.holds(other, i));
                    after.lemma_last(other, i);
                    before.lemma_last(other, i);
                } else if exists|i: int| after.holds(other, i) {
                    let i = choose|i: int| after.holds(other, i);
                    assert(i != at);
                    assert(after.counters[i] == before.counters[i]);
                    assert(before.holds(other, i));
                }
            }
        }
    }

    fn current(&self, found: Option<usize>, uid: i64) -> (last: i32)
        requires
            self.well_formed(),
            match found {
                Some(i) => self.holds(uid as int, i as int),
                None => forall|i: int| !self.holds(uid as int, i),
            },
        ensures
            last == self.last(uid as int),
            last >= 0,
    {
        match found {
            Some(at) => {
                proof {
                    self.lemma_last(uid as int, at as int);
                }
                self.counters[at].1
            },
            None => 0,
        }
    }

    /// Increments the counter of `uid` and hands out its new value: one more
    /// than the number issued last, starting at one. A counter that has run
    /// out is left as it is and reported. No other counter changes.
    pub fn next(&mut self, uid: i64) -> (issued: Result<i32, String>)
        requires
            old(self).well_formed(),
        ensures
            final(self).well_formed(),
            forall|other: int| other != uid ==> final(self).last(other) == old(self).last(other),
            issued is Ok <==> old(self).last(uid as int) < i32::MAX,
            match issued {
                Ok(number) => number == old(self).last(uid as int) + 1 && final(self).last(uid as int)
                    == number,
                Err(detail) => old(self).last(uid as int) == i32::MAX && final(self).last(uid as int)
                    == i32::MAX && detail@ == "sequence exhausted"@,
            },
    {
        let found = self.position(uid);
        let last = self.current(found, uid);
        if last == i32::MAX {
            return Err(String::from_str("sequence exhausted"));
        }
        self.store(found, uid, last + 1);
        Ok(last + 1)
    }

    /// Raises the counter of `uid` to `last` where it is below, for a
    /// requester whose numbers up to `last` are known to be spent. A counter
    /// is never lowered. No other counter changes.
    pub fn advance_to(&mut self, uid: i64, last: i32)
        requires
            old(self).well_formed(),
        ensures
            final(self).well_formed(),
            forall|other: int| other != uid ==> final(self).last(other) == old(self).last(other),
            final(self).last(uid as int) == if old(self).last(uid as int) < last {
                last as int
            } else {
                old(self).last(uid as int)
            },
    {
        let found = self.position(uid);
        let current = self.current(found, uid);
        if current < last {
            self.store(found, uid, last);
        }
    }

    /// Issues the next correlation key of `uid` at the time `now`. A key is
    /// issued whenever the counter can still go up; only a counter that has
    /// run out yields `Unavailable`, never a key that was handed out before.
    pub fn next_key(&mut self, uid: i64, now: i64) -> (key: Result<String, BridgeError>)
        requires
            old(self).well_formed(),
        ensures
            final(self).well_formed(),
            forall|other: int| other != uid ==> final(self).last(other) == old(self).last(other),
            key is Ok <==> old(self).last(uid as int) < i32::MAX,
            match key {
                Ok(key) => key@ == correlation_key(now as int, old(self).last(uid as int) + 1)
                    && final(self).last(uid as int) == old(self).last(uid as int) + 1,
                Err(error) => error matches BridgeError::Unavailable { detail } && detail@
                    == "sequence exhausted"@ && final(self).last(uid as int) == old(self).last(
                    uid as int,
                ),
            },
    {
        match self.next(uid) {
            Ok(number) => Ok(gen_key(now, number)),
            Err(detail) => Err(BridgeError::Unavailable { detail }),
        }
    }
}

/// Two keys issued to one requester differ, whenever they were issued: the
/// later one carries a number above the count reached when the earlier one
/// was made, and the count never falls.
pub proof fn lemma_requester_keys_differ(earlier: int, now1: int, later: int, now2: int)
    requires
        earlier + 1 <= later,
    ensures
        correlation_key(now1, earlier + 1) != correlation_key(now2, later + 1),
{
    lemma_keys_differ(now1, earlier + 1, now2, later + 1);
}

} // verus!
