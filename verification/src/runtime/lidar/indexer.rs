//! Small dense indices for devices that come and go.
//!
//! A device gets the next free index when its identifier is first seen, and
//! keeps it for good: while the device is away its index waits for it, and no
//! other device is given it.

use vstd::prelude::*;

verus! {

/// One index of an indexer: whose it is, and whether that device is present.
pub struct Slot {
    pub key: Seq<char>,
    pub live: bool,
}

/// The index that belongs to `key`, if it has one.
pub open spec fn position(slots: Seq<Slot>, key: Seq<char>) -> Option<int>
    decreases slots.len(),
{
    if slots.len() == 0 {
        None
    } else {
        match position(slots.drop_last(), key) {
            Some(i) => Some(i),
            None => if slots.last().key == key {
                Some(slots.len() - 1)
            } else {
                None
            },
        }
    }
}

/// Whether no two indices belong to one identifier.
pub open spec fn distinct(slots: Seq<Slot>) -> bool {
    forall|i: int, j: int| 0 <= i < j < slots.len() ==> slots[i].key != slots[j].key
}

/// The number of devices present.
pub open spec fn live_count(slots: Seq<Slot>) -> nat
    decreases slots.len(),
{
    if slots.len() == 0 {
        0
    } else {
        live_count(slots.drop_last()) + if slots.last().live {
            1nat
        } else {
            0nat
        }
    }
}

/// The index of the device `key` if it is present.
pub open spec fn found(slots: Seq<Slot>, key: Seq<char>) -> Option<int> {
    match position(slots, key) {
        Some(i) => if slots[i].live {
            Some(i)
        } else {
            None
        },
        None => None,
    }
}

/// The index that the device `key` gets when it arrives: its own if it has
/// one, else the next free one, else none.
pub open spec fn index_added(slots: Seq<Slot>, capacity: nat, key: Seq<char>) -> Option<int> {
    match position(slots, key) {
        Some(i) => Some(i),
        None => if slots.len() < capacity {
            Some(slots.len() as int)
        } else {
            None
        },
    }
}

/// The indices after the device `key` has arrived.
pub open spec fn after_add(slots: Seq<Slot>, capacity: nat, key: Seq<char>) -> Seq<Slot> {
    match position(slots, key) {
        Some(i) => slots.update(i, Slot { key, live: true }),
        None => if slots.len() < capacity {
            slots.push(Slot { key, live: true })
        } else {
            slots
        },
    }
}

/// The indices after the device `key` has left.
pub open spec fn after_remove(slots: Seq<Slot>, key: Seq<char>) -> Seq<Slot> {
    match found(slots, key) {
        Some(i) => slots.update(i, Slot { key, live: false }),
        None => slots,
    }
}

/// Whether an index handed out by a function is the index that the model names.
pub open spec fn same_index(given: Option<usize>, named: Option<int>) -> bool {
    match given {
        Some(i) => named == Some(i as int),
        None => named is None,
    }
}

/// What `position` finds: the one index of the identifier, or that no index
/// has it.
pub proof fn lemma_position(slots: Seq<Slot>, key: Seq<char>)
    ensures
        match position(slots, key) {
            Some(i) => 0 <= i < slots.len() && slots[i].key == key && forall|j: int|
                0 <= j < i ==> slots[j].key != key,
            None => forall|j: int| 0 <= j < slots.len() ==> slots[j].key != key,
        },
    decreases slots.len(),
{
    if slots.len() > 0 {
        let rest = slots.drop_last();
        lemma_position(rest, key);
        match position(rest, key) {
            Some(i) => {
                assert forall|j: int| 0 <= j < i implies slots[j].key != key by {
                    assert(slots[j] == rest[j]);
                }
            },
            None => {
                assert forall|j: int| 0 <= j < slots.len() - 1 implies slots[j].key != key by {
                    assert(slots[j] == rest[j]);
                }
            },
        }
    }
}

/// An identifier found at an index, with none before it, has that position.
pub proof fn lemma_position_is(slots: Seq<Slot>, key: Seq<char>, i: int)
    requires
        0 <= i < slots.len(),
        slots[i].key == key,
        forall|j: int| 0 <= j < i ==> slots[j].key != key,
    ensures
        position(slots, key) == Some(i),
{
    lemma_position(slots, key);
}

struct Entry {
    key: String,
    live: bool,
}

/// Hands out indices below a fixed capacity, one per identifier.
pub struct Indexer {
    capacity: usize,
    entries: Vec<Entry>,
}

impl Indexer {
    /// The indices handed out so far, in order.
    pub closed spec fn view(&self) -> Seq<Slot> {
        Seq::new(
            self.entries.len() as nat,
            |i: int| Slot { key: self.entries[i].key@, live: self.entries[i].live },
        )
    }

    /// The number of indices that can be handed out.
    pub closed spec fn spec_capacity(&self) -> usize {
        self.capacity
    }

    /// Whether the state is one that an indexer can be in: no more indices
    /// are handed out than there are, and none twice.
    pub open spec fn wf(&self) -> bool {
        self@.len() <= self.spec_capacity() && distinct(self@)
    }

    /// An indexer that has seen no device.
    pub fn new(capacity: usize) -> (r: Self)
        ensures
            r@ == Seq::<Slot>::empty(),
            r.spec_capacity() == capacity,
            r.wf(),
    {
        let r = Indexer { capacity, entries: Vec::new() };
        r
    }

    /// The number of indices that can be handed out.
    #[verifier::when_used_as_spec(spec_capacity)]
    pub fn capacity(&self) -> (r: usize)
        ensures
            r == self.spec_capacity(),
    {
        self.capacity
    }

    fn position_of(&self, key: &String) -> (r: Option<usize>)
        ensures
            same_index(r, position(self@, key@)),
    {
        let mut k: usize = 0;
        while k < self.entries.len()
            invariant
                k <= self.entries.len(),
                forall|j: int| 0 <= j < k ==> self@[j].key != key@,
            decreases self.entries.len() - k,
        {
            if self.entries[k].key == *key {
                proof {
                    lemma_position_is(self@, key@, k as int);
                }
                return Some(k);
            }
            k += 1;
        }
        proof {
            lemma_position(self@, key@);
        }
        None
    }

    /// Notes that the device `key` has arrived. Returns its index: the one it
    /// had before if it was seen before, else the next free one. Returns
    /// none, and changes nothing, if the device is new and no index is free.
    pub fn add(&mut self, key: String) -> (r: Option<usize>)
        requires
            old(self).wf(),
        ensures
            final(self).spec_capacity() == old(self).spec_capacity(),
            final(self)@ == after_add(old(self)@, old(self).spec_capacity() as nat, key@),
            same_index(r, index_added(old(self)@, old(self).spec_capacity() as nat, key@)),
            final(self).wf(),
    {
        proof {
            lemma_position(self@, key@);
        }
        let ghost before = self@;
        let ghost name = key@;
        match self.position_of(&key) {
            Some(i) => {
                self.entries[i].live = true;
                assert(self@ =~= before.update(i as int, Slot { key: name, live: true }));
                Some(i)
            },
            None => {
                if self.entries.len() < self.capacity {
                    let i = self.entries.len();
                    self.entries.push(Entry { key, live: true });
                    assert(self@ =~= before.push(Slot { key: name, live: true }));
                    Some(i)
                } else {
                    None
                }
            },
        }
    }

    /// Notes that the device `key` has left. Returns the index it keeps, or
    /// none, with nothing changed, if it was not present.
    pub fn remove(&mut self, key: &String) -> (r: Option<usize>)
        requires
            old(self).wf(),
        ensures
            final(self).spec_capacity() == old(self).spec_capacity(),
            final(self)@ == after_remove(old(self)@, key@),
            same_index(r, found(old(self)@, key@)),
            final(self).wf(),
    {
        proof {
            lemma_position(self@, key@);
        }
        let ghost before = self@;
        match self.position_of(key) {
            Some(i) => {
                if self.entries[i].live {
                    self.entries[i].live = false;
                    assert(self@ =~= before.update(i as int, Slot { key: key@, live: false }));
                    Some(i)
                } else {
                    None
                }
            },
            None => None,
        }
    }

    /// The index of the device `key` if it is present.
    pub fn find(&self, key: &String) -> (r: Option<usize>)
        ensures
            same_index(r, found(self@, key@)),
    {
        proof {
            lemma_position(self@, key@);
        }
        match self.position_of(key) {
            Some(i) => {
                if self.entries[i].live {
                    Some(i)
                } else {
                    None
                }
            },
            None => None,
        }
    }

    /// The number of devices present.
    pub fn len(&self) -> (r: usize)
        ensures
            r == live_count(self@),
    {
        let mut n: usize = 0;
        let mut k: usize = 0;
        while k < self.entries.len()
            invariant
                k <= self.entries.len(),
                n == live_count(self@.take(k as int)),
                n <= k,
            decreases self.entries.len() - k,
        {
            assert(self@.take(k + 1).drop_last() =~= self@.take(k as int));
            if self.entries[k].live {
                n += 1;
            }
            k += 1;
        }
        assert(self@.take(k as int) =~= self@);
        n
    }

    /// Whether no device is present.
    pub fn is_empty(&self) -> (r: bool)
        ensures
            r == (live_count(self@) == 0),
    {
        self.len() == 0
    }

    /// Whether as many devices are present as there are indices.
    pub fn is_full(&self) -> (r: bool)
        ensures
            r == (live_count(self@) == self.spec_capacity()),
    {
        self.len() == self.capacity
    }
}

/// A device that has an index keeps it, whatever device arrives.
pub proof fn law_add_keeps_indices(slots: Seq<Slot>, capacity: nat, key: Seq<char>, other: Seq<char>)
    requires
        distinct(slots),
        position(slots, key) is Some,
    ensures
        position(after_add(slots, capacity, other), key) == position(slots, key),
{
    lemma_position(slots, key);
    lemma_position(slots, other);
    let i = position(slots, key).unwrap();
    let next = after_add(slots, capacity, other);
    lemma_position_is(next, key, i);
}

/// A device that has an index keeps it, whatever device leaves, itself
/// included.
pub proof fn law_remove_keeps_indices(slots: Seq<Slot>, key: Seq<char>, other: Seq<char>)
    requires
        distinct(slots),
        position(slots, key) is Some,
    ensures
        position(after_remove(slots, other), key) == position(slots, key),
{
    lemma_position(slots, key);
    lemma_position(slots, other);
    let i = position(slots, key).unwrap();
    let next = after_remove(slots, other);
    lemma_position_is(next, key, i);
}

/// A device that leaves and comes back is given the index it had.
pub proof fn law_index_survives_absence(slots: Seq<Slot>, capacity: nat, key: Seq<char>)
    requires
        distinct(slots),
        found(slots, key) is Some,
    ensures
        index_added(after_remove(slots, key), capacity, key) == found(slots, key),
{
    law_remove_keeps_indices(slots, key, key);
}

/// Arrivals and departures keep the indices distinct and within the capacity.
pub proof fn lemma_indices_stay_valid(slots: Seq<Slot>, capacity: nat, key: Seq<char>)
    requires
        distinct(slots),
        slots.len() <= capacity,
    ensures
        distinct(after_add(slots, capacity, key)),
        after_add(slots, capacity, key).len() <= capacity,
        distinct(after_remove(slots, key)),
        after_remove(slots, key).len() == slots.len(),
{
    lemma_position(slots, key);
}

} // verus!
