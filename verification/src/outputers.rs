//! Reply delivery: one slot per correlation key, each a queue of envelopes
//! with a bounded lifetime.
//!
//! A reply is appended to the slot of its key; the waiting caller takes at
//! most one envelope from the slot of its own key. A slot lives for a fixed
//! time from its first envelope, whether or not anybody ever collects it, so
//! that the replies of abandoned calls do not pile up.

use vstd::prelude::*;
use crate::client::{correlation_key, lemma_keys_differ, waited_for};
use crate::error::BridgeError;
use crate::message::{same_text, Response};

verus! {

/// One reply slot as it is kept.
pub struct Slot {
    key: String,
    expires: u64,
    envelopes: Vec<String>,
}

/// The mathematical value of a slot: the moment it lapses and the envelopes
/// waiting in it, oldest first.
pub ghost struct SlotView {
    pub expires: int,
    pub envelopes: Seq<String>,
}

/// The reply slots of a bridge, by correlation key.
pub struct ReplySlots {
    ttl: u64,
    slots: Vec<Slot>,
}

/// The moment at which a slot opened at `now` lapses.
pub open spec fn lapse(now: int, ttl: int) -> int {
    if now + ttl > u64::MAX {
        u64::MAX as int
    } else {
        now + ttl
    }
}

/// Whether there is a slot for `key` that has not lapsed at `now`.
pub open spec fn live(slots: Map<Seq<char>, SlotView>, key: Seq<char>, now: int) -> bool {
    slots.contains_key(key) && now < slots[key].expires
}

/// The slots after `envelope` was delivered for `key` at `now`: appended to
/// the slot of the key if it is live, else alone in a slot of its own that
/// takes the place of whatever lapsed there.
pub open spec fn delivered(
    slots: Map<Seq<char>, SlotView>,
    key: Seq<char>,
    envelope: String,
    now: int,
    ttl: int,
) -> Map<Seq<char>, SlotView> {
    if live(slots, key, now) {
        slots.insert(
            key,
            SlotView { expires: slots[key].expires, envelopes: slots[key].envelopes.push(envelope) },
        )
    } else {
        slots.insert(key, SlotView { expires: lapse(now, ttl), envelopes: seq![envelope] })
    }
}

/// The envelope that a caller waiting on `key` collects at `now`: the oldest
/// of the live slot of the key, if there is one.
pub open spec fn collected(slots: Map<Seq<char>, SlotView>, key: Seq<char>, now: int) -> Option<String> {
    if live(slots, key, now) && slots[key].envelopes.len() > 0 {
        Some(slots[key].envelopes[0])
    } else {
        None
    }
}

/// The slots after a caller waiting on `key` collected at `now`: the slot of
/// the key is shorter by its oldest envelope, and gone once it is empty.
pub open spec fn after_collecting(slots: Map<Seq<char>, SlotView>, key: Seq<char>, now: int) -> Map<
    Seq<char>,
    SlotView,
> {
    if live(slots, key, now) && slots[key].envelopes.len() > 0 {
        if slots[key].envelopes.len() == 1 {
            slots.remove(key)
        } else {
            slots.insert(
                key,
                SlotView { expires: slots[key].expires, envelopes: slots[key].envelopes.skip(1) },
            )
        }
    } else {
        slots
    }
}

/// What one look at a reply slot yields.
#[derive(Debug, Clone, PartialEq, Eq)]
pub enum Polled {
    /// An envelope was waiting and is now consumed.
    Collected(String),
    /// Nothing yet, and the deadline has not passed: look again.
    Pending,
    /// Nothing, and the deadline has passed: the wait is over.
    TimedOut,
}

/// What a caller that waits on `key` until `deadline` finds at `now`.
pub open spec fn polled(slots: Map<Seq<char>, SlotView>, key: Seq<char>, now: int, deadline: int) -> Polled {
    match collected(slots, key, now) {
        Some(envelope) => Polled::Collected(envelope),
        None => if now < deadline {
            Polled::Pending
        } else {
            Polled::TimedOut
        },
    }
}

/// The slots that are left after those that lapsed by `now` were reclaimed.
pub open spec fn swept(slots: Map<Seq<char>, SlotView>, now: int) -> Map<Seq<char>, SlotView> {
    slots.restrict(Set::new(|key: Seq<char>| live(slots, key, now)))
}

impl Slot {
    pub closed spec fn view(&self) -> SlotView {
        SlotView { expires: self.expires as int, envelopes: self.envelopes@ }
    }
}

impl ReplySlots {
    /// No two slots share a key, and no slot is empty. Every `ReplySlots`
    /// that this module hands out is well formed.
    pub closed spec fn well_formed(&self) -> bool {
        &&& forall|i: int, j: int|
            0 <= i < j < self.slots.len() ==> self.slots[i].key@ != self.slots[j].key@
        &&& forall|i: int| 0 <= i < self.slots.len() ==> (#[trigger] self.slots[i]).envelopes.len() > 0
    }

    closed spec fn holds(&self, key: Seq<char>, i: int) -> bool {
        0 <= i < self.slots.len() && self.slots[i].key@ == key
    }

    /// The slots by key.
    pub closed spec fn view(&self) -> Map<Seq<char>, SlotView> {
        Map::new(
            |key: Seq<char>| exists|i: int| self.holds(key, i),
            |key: Seq<char>| self.slots[choose|i: int| self.holds(key, i)]@,
        )
    }

    /// The lifetime of a slot, counted from its first envelope.
    pub closed spec fn lifetime(&self) -> int {
        self.ttl as int
    }

    /// No slots, each to live for `ttl` once it is opened.
    pub fn new(ttl: u64) -> (slots: Self)
        ensures
            slots.well_formed(),
            slots@ == Map::<Seq<char>, SlotView>::empty(),
            slots.lifetime() == ttl,
    {
        let slots = ReplySlots { ttl, slots: Vec::new() };
        assert(slots@ =~= Map::<Seq<char>, SlotView>::empty());
        slots
    }

    /// How many slots are kept, lapsed ones included until they are swept.
    pub fn len(&self) -> (n: usize)
        requires
            self.well_formed(),
        ensures
            n == self@.dom().len(),
            self@.dom().finite(),
    {
        proof {
            self.lemma_domain(self.slots.len() as int);
            assert(self.domain_upto(self.slots.len() as int) =~= self@.dom());
        }
        self.slots.len()
    }

    closed spec fn domain_upto(&self, n: int) -> Set<Seq<char>> {
        Set::new(|key: Seq<char>| exists|i: int| 0 <= i < n && self.holds(key, i))
    }

    proof fn lemma_domain(&self, n: int)
        requires
            self.well_formed(),
            0 <= n <= self.slots.len(),
        ensures
            self.domain_upto(n).finite(),
            self.domain_upto(n).len() == n,
        decreases n,
    {
        if n == 0 {
            assert(self.domain_upto(0) =~= Set::<Seq<char>>::empty());
        } else {
            self.lemma_domain(n - 1);
            let key = self.slots[n - 1].key@;
            assert(self.holds(key, n - 1));
            assert(self.domain_upto(n) =~= self.domain_upto(n - 1).insert(key));
            assert(!self.domain_upto(n - 1).contains(key));
        }
    }

    fn position(&self, key: &str) -> (found: Option<usize>)
        ensures
            match found {
                Some(i) => self.holds(key@, i as int),
                None => forall|i: int| !self.holds(key@, i),
            },
    {
        let mut i: usize = 0;
        while i < self.slots.len()
            invariant
                i <= self.slots.len(),
                forall|j: int| 0 <= j < i ==> !self.holds(key@, j),
            decreases self.slots.len() - i,
        {
            if same_text(self.slots[i].key.as_str(), key) {
                return Some(i);
            }
            i = i + 1;
        }
        None
    }

    proof fn lemma_lookup(&self, key: Seq<char>, i: int)
        requires
            self.well_formed(),
            self.holds(key, i),
        ensures
            self@.contains_key(key),
            self@[key] == self.slots[i]@,
    {
        let j = choose|j: int| self.holds(key, j);
        assert(i == j);
    }

    /// Taking one slot out leaves the others as they were.
    proof fn lemma_without(before: Self, rest: Self, at: int)
        requires
            before.well_formed(),
            0 <= at < before.slots.len(),
            rest.slots@ == before.slots@.remove(at),
        ensures
            rest.well_formed(),
            forall|i: int| !rest.holds(before.slots[at].key@, i),
            rest@ == before@.remove(before.slots[at].key@),
    {
        let key = before.slots[at].key@;
        assert forall|i: int| 0 <= i < rest.slots.len() implies #[trigger] rest.slots[i]
            == before.slots[if i < at { i } else { i + 1 }] by {}
        assert forall|i: int, j: int| 0 <= i < j < rest.slots.len() implies rest.slots[i].key@
            != rest.slots[j].key@ by {
            let si = if i < at { i } else { i + 1 };
            let sj = if j < at { j } else { j + 1 };
            assert(rest.slots[i] == before.slots[si]);
            assert(rest.slots[j] == before.slots[sj]);
        }
        assert forall|i: int| 0 <= i < rest.slots.len() implies (#[trigger] rest.slots[i]).envelopes.len()
            > 0 by {
            assert(rest.slots[i] == before.slots[if i < at { i } else { i + 1 }]);
        }
        assert forall|i: int| !rest.holds(key, i) by {
            if rest.holds(key, i) {
                assert(rest.slots[i] == before.slots[if i < at { i } else { i + 1 }]);
            }
        }
        assert forall|k: Seq<char>|
            #![trigger before@.contains_key(k)]
            #![trigger rest@.contains_key(k)]
            k != key implies (before@.contains_key(k) == rest@.contains_key(k) && (
            before@.contains_key(k) ==> before@[k] == rest@[k])) by {
            if before@.contains_key(k) {
                let i = choose|i: int| before.holds(k, i);
                let target = if i < at { i } else { i - 1 };
                assert(rest.slots[target] == before.slots[i]);
                assert(rest.holds(k, target));
                rest.lemma_lookup(k, target);
                before.lemma_lookup(k, i);
            }
            if rest@.contains_key(k) {
                let i = choose|i: int| rest.holds(k, i);
                let source = if i < at { i } else { i + 1 };
                assert(rest.slots[i] == before.slots[source]);
                assert(before.holds(k, source));
                before.lemma_lookup(k, source);
                rest.lemma_lookup(k, i);
            }
        }
        assert(rest@ =~= before@.remove(key));
    }

    /// Putting a slot in under a key of its own leaves the others as they were.
    proof fn lemma_with(rest: Self, after: Self, slot: Slot)
        requires
            rest.well_formed(),
            after.slots@ == rest.slots@.push(slot),
            forall|i: int| !rest.holds(slot.key@, i),
            slot.envelopes.len() > 0,
        ensures
            after.well_formed(),
            after@ == rest@.insert(slot.key@, slot@),
    {
        let key = slot.key@;
        let n = rest.slots.len() as int;
        assert forall|i: int, j: int| 0 <= i < j < after.slots.len() implies after.slots[i].key@
            != after.slots[j].key@ by {
            assert(after.slots[i] == rest.slots[i]);
            if j < n {
                assert(after.slots[j] == rest.slots[j]);
            } else {
                assert(!rest.holds(key, i));
            }
        }
        assert forall|i: int| 0 <= i < after.slots.len() implies (#[trigger] after.slots[i]).envelopes.len()
            > 0 by {
            if i < n {
                assert(after.slots[i] == rest.slots[i]);
            }
        }
        assert(after.holds(key, n));
        after.lemma_lookup(key, n);
        assert forall|k: Seq<char>|
            #![trigger rest@.contains_key(k)]
            #![trigger after@.contains_key(k)]
            k != key implies (rest@.contains_key(k) == after@.contains_key(k) && (rest@.contains_key(k)
                ==> rest@[k] == after@[k])) by {
            if rest@.contains_key(k) {
                let i = choose|i: int| rest.holds(k, i);
                assert(after.slots[i] == rest.slots[i]);
                assert(after.holds(k, i));
                after.lemma_lookup(k, i);
                rest.lemma_lookup(k, i);
            }
            if after@.contains_key(k) {
                let i = choose|i: int| after.holds(k, i);
                assert(after.slots[i] == rest.slots[i]);
                assert(rest.holds(k, i));
                rest.lemma_lookup(k, i);
                after.lemma_lookup(k, i);
            }
        }
        assert(after@ =~= rest@.insert(key, slot@));
    }

    /// Appends `envelope` to the slot of `key`. A key without a live slot
    /// gets a fresh one that lapses one lifetime after `now`. No other slot
    /// is touched.
    pub fn deliver(&mut self, key: String, envelope: String, now: u64)
        requires
            old(self).well_formed(),
        ensures
            final(self).well_formed(),
            final(self)@ == delivered(old(self)@, key@, envelope, now as int, old(self).lifetime()),
            final(self).lifetime() == old(self).lifetime(),
    {
        let ghost before = *self;
        let found = self.position(key.as_str());
        let slot = match found {
            Some(at) => {
                proof {
                    before.lemma_lookup(key@, at as int);
                }
                let mut slot = self.slots.remove(at);
                proof {
                    Self::lemma_without(before, *self, at as int);
                }
                if now < slot.expires {
                    slot.envelopes.push(envelope);
                    slot
                } else {
                    let mut envelopes = Vec::new();
                    envelopes.push(envelope);
                    Slot { key, expires: self.expiry(now), envelopes }
                }
            },
            None => {
                let mut envelopes = Vec::new();
                envelopes.push(envelope);
                Slot { key, expires: self.expiry(now), envelopes }
            },
        };
        let ghost rest = *self;
        self.slots.push(slot);
        proof {
            Self::lemma_with(rest, *self, slot);
            assert(self@ =~= delivered(before@, key@, envelope, now as int, before.lifetime()));
        }
    }

    fn expiry(&self, now: u64) -> (expires: u64)
        ensures
            expires == lapse(now as int, self.lifetime()),
    {
        if now > u64::MAX - self.ttl {
            u64::MAX
        } else {
            now + self.ttl
        }
    }

    /// Takes the oldest envelope from the slot of `key`, if the slot is live.
    /// At most one envelope is consumed, and no other slot is touched.
    pub fn take(&mut self, key: &str, now: u64) -> (envelope: Option<String>)
        requires
            old(self).well_formed(),
        ensures
            final(self).well_formed(),
            envelope == collected(old(self)@, key@, now as int),
            final(self)@ == after_collecting(old(self)@, key@, now as int),
            final(self).lifetime() == old(self).lifetime(),
    {
        let ghost before = *self;
        let found = self.position(key);
        match found {
            None => None,
            Some(at) => {
                proof {
                    before.lemma_lookup(key@, at as int);
                }
                if now >= self.slots[at].expires {
                    return None;
                }
                let mut slot = self.slots.remove(at);
                proof {
                    Self::lemma_without(before, *self, at as int);
                }
                let envelope = slot.envelopes.remove(0);
                if slot.envelopes.len() > 0 {
                    let ghost rest = *self;
                    self.slots.push(slot);
                    proof {
                        Self::lemma_with(rest, *self, slot);
                        assert(slot@.envelopes =~= before@[key@].envelopes.skip(1));
                    }
                }
                proof {
                    assert(self@ =~= after_collecting(before@, key@, now as int));
                }
                Some(envelope)
            },
        }
    }

    /// Looks once at the slot of `key` for a caller that waits until
    /// `deadline`: an envelope that is there is consumed, at most one; without
    /// one the caller is told to look again, or that its time is up.
    pub fn await_reply(&mut self, key: &str, now: u64, deadline: u64) -> (found: Polled)
        requires
            old(self).well_formed(),
        ensures
            final(self).well_formed(),
            found == polled(old(self)@, key@, now as int, deadline as int),
            final(self)@ == after_collecting(old(self)@, key@, now as int),
            final(self).lifetime() == old(self).lifetime(),
    {
        match self.take(key, now) {
            Some(envelope) => Polled::Collected(envelope),
            None => if now < deadline {
                Polled::Pending
            } else {
                Polled::TimedOut
            },
        }
    }

    /// Reclaims every slot that lapsed by `now`, collected or not.
    pub fn sweep(&mut self, now: u64)
        requires
            old(self).well_formed(),
        ensures
            final(self).well_formed(),
            final(self)@ == swept(old(self)@, now as int),
            final(self).lifetime() == old(self).lifetime(),
    {
        let ghost before = *self;
        let mut i: usize = 0;
        while i < self.slots.len()
            invariant
                self.ttl == before.ttl,
                self.well_formed(),
                i <= self.slots.len(),
                forall|j: int| 0 <= j < i ==> now < (#[trigger] self.slots[j]).expires,
                forall|k: Seq<char>| #[trigger]
                    self@.contains_key(k) ==> before@.contains_key(k) && self@[k] == before@[k],
                forall|k: Seq<char>| live(before@, k, now as int) ==> #[trigger] self@.contains_key(k),
            decreases self.slots.len() - i,
        {
            if now < self.slots[i].expires {
                i = i + 1;
            } else {
                let ghost current = *self;
                let ghost gone = self.slots[i as int].key@;
                proof {
                    assert(current.holds(gone, i as int));
                    current.lemma_lookup(gone, i as int);
                }
                self.slots.remove(i);
                proof {
                    Self::lemma_without(current, *self, i as int);
                }
            }
        }
        proof {
            assert forall|k: Seq<char>| #[trigger] self@.contains_key(k) implies live(
                before@,
                k,
                now as int,
            ) by {
                let j = choose|j: int| self.holds(k, j);
                self.lemma_lookup(k, j);
            }
            assert(self@ =~= swept(before@, now as int));
        }
    }

    /// Delivers the envelope of `response` for `key`.
    pub fn post(&mut self, key: String, response: &Response, now: u64)
        requires
            old(self).well_formed(),
        ensures
            final(self).well_formed(),
            exists|envelope: String|
                envelope@ == crate::message::envelope_of(response@) && final(self)@ == #[trigger] delivered(
                    old(self)@,
                    key@,
                    envelope,
                    now as int,
                    old(self).lifetime(),
                ),
            final(self).lifetime() == old(self).lifetime(),
    {
        let envelope = response.encode();
        self.deliver(key, envelope, now);
    }
}

/// A reply that arrives late for one key is invisible to a caller that waits
/// on another: what that caller collects, and when, is the same as if the late
/// reply had never been delivered.
pub proof fn lemma_late_reply_stays_apart(
    slots: Map<Seq<char>, SlotView>,
    late_key: Seq<char>,
    envelope: String,
    arrived: int,
    ttl: int,
    key: Seq<char>,
    now: int,
)
    requires
        late_key != key,
    ensures
        collected(delivered(slots, late_key, envelope, arrived, ttl), key, now) == collected(
            slots,
            key,
            now,
        ),
{
}

/// A slot is gone one lifetime after it was opened, whether or not its
/// envelope was ever collected: nothing is collected from it then, and a
/// sweep reclaims it.
pub proof fn lemma_abandoned_reply_lapses(
    slots: Map<Seq<char>, SlotView>,
    key: Seq<char>,
    envelope: String,
    arrived: int,
    ttl: int,
    now: int,
)
    requires
        !live(slots, key, arrived),
        0 <= arrived,
        0 <= ttl,
        arrived + ttl <= now,
        arrived + ttl <= u64::MAX,
    ensures
        collected(delivered(slots, key, envelope, arrived, ttl), key, now) is None,
        !swept(delivered(slots, key, envelope, arrived, ttl), now).contains_key(key),
{
}

/// A call that times out leaves nothing behind for the next one. A wait that
/// pops nothing ends as `Timeout`; the reply that then arrives late lands in
/// the slot of the old key; and a later call of the same requester, which
/// carries another sequence number and so another key, collects from its own
/// slot exactly what it would have collected without the late reply.
pub proof fn lemma_timed_out_call_leaves_next_alone(
    popped: Vec<String>,
    slots: Map<Seq<char>, SlotView>,
    issued: int,
    seq: int,
    late: String,
    arrived: int,
    ttl: int,
    next_issued: int,
    next_seq: int,
    now: int,
)
    requires
        popped.len() == 0,
        seq != next_seq,
    ensures
        waited_for(Ok(popped)) == Err::<String, BridgeError>(BridgeError::Timeout),
        collected(
            delivered(slots, correlation_key(issued, seq), late, arrived, ttl),
            correlation_key(next_issued, next_seq),
            now,
        ) == collected(slots, correlation_key(next_issued, next_seq), now),
{
    lemma_keys_differ(issued, seq, next_issued, next_seq);
    lemma_late_reply_stays_apart(
        slots,
        correlation_key(issued, seq),
        late,
        arrived,
        ttl,
        correlation_key(next_issued, next_seq),
        now,
    );
}

} // verus!
