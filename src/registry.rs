//! The table of requests that wait for an answer, keyed by correlation id.

use tokio::sync::oneshot::Sender;
use vstd::prelude::*;

verus! {

/// One waiting request: its id and the sending half of its answer channel.
struct PendingSlot {
    id: String,
    sender: Sender<String>,
}

/// What delivering an answer did.
#[derive(Debug, Clone, Copy, PartialEq, Eq, Structural)]
pub enum Delivery {
    /// A slot waited under the id and the answer was handed to it.
    Fulfilled,
    /// A slot waited under the id, but its waiter had already given up.
    ReceiverGone,
    /// No slot waited under the id: the answer is dropped.
    UnknownId,
}

/// No two slots share an id.
spec fn unique_ids(s: Seq<PendingSlot>) -> bool {
    forall|i: int, j: int| 0 <= i < j < s.len() ==> s[i].id@ != s[j].id@
}

/// Whether some slot of `s` waits under `k`.
spec fn holds_id(s: Seq<PendingSlot>, k: Seq<char>) -> bool {
    exists|i: int| 0 <= i < s.len() && s[i].id@ == k
}

/// The slots of `s` as a map from id to sender.
spec fn slot_map(s: Seq<PendingSlot>) -> Map<Seq<char>, Sender<String>> {
    Map::new(
        |k: Seq<char>| holds_id(s, k),
        |k: Seq<char>| s[choose|i: int| 0 <= i < s.len() && s[i].id@ == k].sender,
    )
}

proof fn lemma_slot_map_at(s: Seq<PendingSlot>, i: int)
    requires
        unique_ids(s),
        0 <= i < s.len(),
    ensures
        slot_map(s).contains_key(s[i].id@),
        slot_map(s)[s[i].id@] == s[i].sender,
{
    let k = s[i].id@;
    assert(holds_id(s, k));
    let j = choose|j: int| 0 <= j < s.len() && s[j].id@ == k;
    assert(j == i);
}

proof fn lemma_slot_map_push(s: Seq<PendingSlot>, slot: PendingSlot)
    requires
        unique_ids(s),
        !holds_id(s, slot.id@),
    ensures
        unique_ids(s.push(slot)),
        slot_map(s.push(slot)) == slot_map(s).insert(slot.id@, slot.sender),
{
    let t = s.push(slot);
    assert forall|i: int, j: int| 0 <= i < j < t.len() implies t[i].id@ != t[j].id@ by {
        if j == s.len() {
            assert(s[i].id@ != slot.id@);
        }
    }
    assert forall|k: Seq<char>| holds_id(t, k) <==> holds_id(s, k) || k == slot.id@ by {
        if holds_id(t, k) && k != slot.id@ {
            let i = choose|i: int| 0 <= i < t.len() && t[i].id@ == k;
            assert(s[i].id@ == k);
        }
        if holds_id(s, k) {
            let i = choose|i: int| 0 <= i < s.len() && s[i].id@ == k;
            assert(t[i].id@ == k);
        }
        if k == slot.id@ {
            assert(t[s.len() as int].id@ == k);
        }
    }
    assert forall|k: Seq<char>| #[trigger] slot_map(t).contains_key(k) implies slot_map(t)[k]
        == slot_map(s).insert(slot.id@, slot.sender)[k] by {
        let i = choose|i: int| 0 <= i < t.len() && t[i].id@ == k;
        lemma_slot_map_at(t, i);
        if i < s.len() {
            lemma_slot_map_at(s, i);
        }
    }
    assert(slot_map(t) =~= slot_map(s).insert(slot.id@, slot.sender));
}

proof fn lemma_slot_map_update(s: Seq<PendingSlot>, i: int, slot: PendingSlot)
    requires
        unique_ids(s),
        0 <= i < s.len(),
        s[i].id@ == slot.id@,
    ensures
        unique_ids(s.update(i, slot)),
        slot_map(s.update(i, slot)) == slot_map(s).insert(slot.id@, slot.sender),
{
    let t = s.update(i, slot);
    assert forall|a: int, b: int| 0 <= a < b < t.len() implies t[a].id@ != t[b].id@ by {
        assert(s[a].id@ != s[b].id@);
    }
    assert forall|k: Seq<char>| holds_id(t, k) <==> holds_id(s, k) by {
        if holds_id(t, k) {
            let j = choose|j: int| 0 <= j < t.len() && t[j].id@ == k;
            assert(s[j].id@ == k);
        }
        if holds_id(s, k) {
            let j = choose|j: int| 0 <= j < s.len() && s[j].id@ == k;
            assert(t[j].id@ == k);
        }
    }
    assert(holds_id(s, slot.id@)) by {
        assert(s[i].id@ == slot.id@);
    }
    assert forall|k: Seq<char>| #[trigger] slot_map(t).contains_key(k) implies slot_map(t)[k]
        == slot_map(s).insert(slot.id@, slot.sender)[k] by {
        let j = choose|j: int| 0 <= j < t.len() && t[j].id@ == k;
        lemma_slot_map_at(t, j);
        lemma_slot_map_at(s, j);
    }
    assert(slot_map(t) =~= slot_map(s).insert(slot.id@, slot.sender));
}

proof fn lemma_slot_map_remove(s: Seq<PendingSlot>, i: int)
    requires
        unique_ids(s),
        0 <= i < s.len(),
    ensures
        unique_ids(s.remove(i)),
        slot_map(s.remove(i)) == slot_map(s).remove(s[i].id@),
{
    let t = s.remove(i);
    let gone = s[i].id@;
    assert forall|a: int, b: int| 0 <= a < b < t.len() implies t[a].id@ != t[b].id@ by {
        let a2 = if a < i { a } else { a + 1 };
        let b2 = if b < i { b } else { b + 1 };
        assert(t[a] == s[a2]);
        assert(t[b] == s[b2]);
    }
    assert forall|k: Seq<char>| holds_id(t, k) <==> holds_id(s, k) && k != gone by {
        if holds_id(t, k) {
            let j = choose|j: int| 0 <= j < t.len() && t[j].id@ == k;
            let j2 = if j < i { j } else { j + 1 };
            assert(s[j2].id@ == k);
            assert(j2 != i);
        }
        if holds_id(s, k) && k != gone {
            let j = choose|j: int| 0 <= j < s.len() && s[j].id@ == k;
            assert(j != i);
            let j2 = if j < i { j } else { j - 1 };
            assert(t[j2].id@ == k);
        }
    }
    assert forall|k: Seq<char>| #[trigger] slot_map(t).contains_key(k) implies slot_map(t)[k]
        == slot_map(s).remove(gone)[k] by {
        let j = choose|j: int| 0 <= j < t.len() && t[j].id@ == k;
        let j2 = if j < i { j } else { j + 1 };
        lemma_slot_map_at(t, j);
        lemma_slot_map_at(s, j2);
    }
    assert(slot_map(t) =~= slot_map(s).remove(gone));
}

/// The requests that await an answer. Each id has at most one slot.
pub struct PendingRequests {
    slots: Vec<PendingSlot>,
}

impl View for PendingRequests {
    type V = Map<Seq<char>, Sender<String>>;

    closed spec fn view(&self) -> Map<Seq<char>, Sender<String>> {
        slot_map(self.slots@)
    }
}

impl PendingRequests {
    #[verifier::type_invariant]
    spec fn ids_are_unique(&self) -> bool {
        unique_ids(self.slots@)
    }

    /// A table with nothing pending.
    pub fn new() -> (r: PendingRequests)
        ensures
            r@ == Map::<Seq<char>, Sender<String>>::empty(),
    {
        let r = PendingRequests { slots: Vec::new() };
        assert(r@ =~= Map::<Seq<char>, Sender<String>>::empty());
        r
    }

    fn position(&self, id: &str) -> (r: Option<usize>)
        ensures
            r matches Some(i) ==> i < self.slots@.len() && self.slots@[i as int].id@ == id@,
            r is None ==> !holds_id(self.slots@, id@),
    {
        let key = String::from_str(id);
        let mut i: usize = 0;
        while i < self.slots.len()
            invariant
                i <= self.slots@.len(),
                key@ == id@,
                forall|j: int| 0 <= j < i ==> self.slots@[j].id@ != id@,
            decreases self.slots@.len() - i,
        {
            if self.slots[i].id == key {
                return Some(i);
            }
            i = i + 1;
        }
        None
    }

    /// Whether a request waits under `id`.
    pub fn is_pending(&self, id: &str) -> (r: bool)
        ensures
            r == self@.contains_key(id@),
    {
        self.position(id).is_some()
    }

    /// An id that no request waits under: `candidate` itself when it is
    /// free, otherwise `candidate` followed by as many `-` as make it longer
    /// than every pending id.
    pub fn unused_id(&self, candidate: String) -> (r: String)
        ensures
            !self@.contains_key(r@),
            !self@.contains_key(candidate@) ==> r@ == candidate@,
            r@.len() >= candidate@.len(),
    {
        let ghost start = candidate@;
        if !self.is_pending(candidate.as_str()) {
            return candidate;
        }
        let mut longest: usize = 0;
        let mut i: usize = 0;
        while i < self.slots.len()
            invariant
                i <= self.slots@.len(),
                forall|j: int| 0 <= j < i ==> self.slots@[j].id@.len() <= longest,
            decreases self.slots@.len() - i,
        {
            let n = self.slots[i].id.as_str().unicode_len();
            if n > longest {
                longest = n;
            }
            i = i + 1;
        }
        let mut r = candidate;
        while r.as_str().unicode_len() <= longest
            invariant
                forall|j: int| 0 <= j < self.slots@.len() ==> self.slots@[j].id@.len() <= longest,
                r@.len() >= start.len(),
            decreases longest as int + 1 - r@.len(),
        {
            proof {
                reveal_strlit("-");
            }
            r.append("-");
        }
        proof {
            if holds_id(self.slots@, r@) {
                let j = choose|j: int| 0 <= j < self.slots@.len() && self.slots@[j].id@ == r@;
                assert(self.slots@[j].id@.len() <= longest);
            }
        }
        r
    }

    /// Stores `sender` as the answer slot of `id`. A slot that already waited
    /// under the same id is dropped, which cancels its waiter.
    pub fn register(&mut self, id: String, sender: Sender<String>)
        ensures
            final(self)@ == old(self)@.insert(id@, sender),
    {
        proof {
            use_type_invariant(&*self);
        }
        let slot = PendingSlot { id, sender };
        let found = self.position(slot.id.as_str());
        let mut slots: Vec<PendingSlot> = Vec::new();
        std::mem::swap(&mut slots, &mut self.slots);
        match found {
            Some(i) => {
                proof {
                    lemma_slot_map_update(slots@, i as int, slot);
                }
                slots.set(i, slot);
            },
            None => {
                proof {
                    lemma_slot_map_push(slots@, slot);
                }
                slots.push(slot);
            },
        }
        std::mem::swap(&mut slots, &mut self.slots);
    }

    fn take(&mut self, id: &str) -> (r: Option<Sender<String>>)
        ensures
            final(self)@ == old(self)@.remove(id@),
            old(self)@.contains_key(id@) ==> r == Some(old(self)@[id@]),
            !old(self)@.contains_key(id@) ==> r is None,
    {
        proof {
            use_type_invariant(&*self);
        }
        match self.position(id) {
            Some(i) => {
                let mut slots: Vec<PendingSlot> = Vec::new();
                std::mem::swap(&mut slots, &mut self.slots);
                proof {
                    lemma_slot_map_at(slots@, i as int);
                    lemma_slot_map_remove(slots@, i as int);
                }
                let slot = slots.remove(i);
                std::mem::swap(&mut slots, &mut self.slots);
                Some(slot.sender)
            },
            None => {
                assert(old(self)@.remove(id@) =~= old(self)@);
                None
            },
        }
    }

    /// Hands `value` to the request waiting under `id` and forgets the slot.
    /// An id with no slot (unknown, or answered already) changes nothing.
    pub fn deliver(&mut self, id: &str, value: String) -> (r: Delivery)
        ensures
            final(self)@ == old(self)@.remove(id@),
            (r == Delivery::UnknownId) <==> !old(self)@.contains_key(id@),
    {
        match self.take(id) {
            Some(sender) => match sender.send(value) {
                Ok(()) => Delivery::Fulfilled,
                Err(_) => Delivery::ReceiverGone,
            },
            None => Delivery::UnknownId,
        }
    }

    /// Forgets the slot of `id` without answering it, which cancels its
    /// waiter; returns whether there was one.
    pub fn abandon(&mut self, id: &str) -> (r: bool)
        ensures
            final(self)@ == old(self)@.remove(id@),
            r == old(self)@.contains_key(id@),
    {
        self.take(id).is_some()
    }
}

/// Slot isolation. Delivering an answer under `id` leaves the slot of every
/// other pending id in place with the same sender: an answer settles no slot
/// but the one registered under its own id.
pub proof fn lemma_delivery_isolates_slots(
    pending: Map<Seq<char>, Sender<String>>,
    id: Seq<char>,
    other: Seq<char>,
)
    requires
        other != id,
        pending.contains_key(other),
    ensures
        pending.remove(id).contains_key(other),
        pending.remove(id)[other] == pending[other],
{
}

/// Exactly-once settlement. A delivery under a pending id finds its slot and
/// takes it out; a second delivery under the same id finds no slot, so it is
/// reported as unknown and leaves the table as the first one left it.
pub proof fn lemma_delivery_settles_once(pending: Map<Seq<char>, Sender<String>>, id: Seq<char>)
    requires
        pending.contains_key(id),
    ensures
        !pending.remove(id).contains_key(id),
        pending.remove(id).remove(id) == pending.remove(id),
{
    assert(pending.remove(id).remove(id) =~= pending.remove(id));
}

} // verus!
