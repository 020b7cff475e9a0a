//! The memory tier: a bounded map from key text to a body and the moment it
//! was stored.
//!
//! Recency is the moment of the last write, never of a read. When a new key
//! arrives at a full tier, one entry with the oldest write leaves first.

use crate::clock::is_fresh;
use crate::clock::fresh;
use crate::clock::Clock;
use crate::clock::EXPIRY_NANOS;
use crate::payload::body_view;
use crate::payload::bytes_view;
use crate::payload::clone_bytes;
use crate::text::same_text;
use crate::text::text_view;
use bytes::Bytes;
use vstd::prelude::*;
use vstd::string::StringExecFns;

verus! {

/// The most entries that the memory tier holds.
pub const CAPACITY: usize = 25;

/// What the tier holds for one key.
pub struct Stored {
    /// The body.
    pub data: Seq<u8>,
    /// The moment of the write.
    pub stored_at: u128,
}

/// The tier's contents as a map from key text.
pub type Contents = Map<Seq<char>, Stored>;

/// What a lookup at `now` finds: the body, if the key is held and fresh.
pub open spec fn lookup(m: Contents, key: Seq<char>, now: u128) -> Option<Seq<u8>> {
    if m.contains_key(key) && is_fresh(m[key].stored_at, now) {
        Some(m[key].data)
    } else {
        None
    }
}

/// Whether `key` is held and no entry was written before it.
pub open spec fn is_oldest(m: Contents, key: Seq<char>) -> bool {
    &&& m.contains_key(key)
    &&& forall|other: Seq<char>| #[trigger]
        m.contains_key(other) ==> m[key].stored_at <= m[other].stored_at
}

/// Whether a write under `key` must first make room.
pub open spec fn must_evict(m: Contents, key: Seq<char>) -> bool {
    !m.contains_key(key) && m.len() >= CAPACITY
}

/// The contents after a write under `key`, given the key that left, if any.
pub open spec fn after_put(
    m: Contents,
    key: Seq<char>,
    entry: Stored,
    evicted: Option<Seq<char>>,
) -> Contents {
    match evicted {
        Some(victim) => m.remove(victim).insert(key, entry),
        None => m.insert(key, entry),
    }
}

/// One entry as it is held: the key, the body and the moment of the write.
struct Slot {
    key: String,
    data: Bytes,
    stored_at: u128,
}

/// The key texts of the slots, in order.
spec fn keys(slots: Seq<Slot>) -> Seq<Seq<char>> {
    Seq::new(slots.len(), |i: int| slots[i].key@)
}

/// What a slot holds for its key.
spec fn stored(slot: Slot) -> Stored {
    Stored { data: bytes_view(slot.data), stored_at: slot.stored_at }
}

/// The contents that the slots stand for.
spec fn model(slots: Seq<Slot>) -> Contents {
    Map::new(
        |k: Seq<char>| keys(slots).contains(k),
        |k: Seq<char>| stored(slots[keys(slots).index_of(k)]),
    )
}

/// Each slot is found in the contents under its own key.
proof fn lemma_model_at(slots: Seq<Slot>, i: int)
    requires
        keys(slots).no_duplicates(),
        0 <= i < slots.len(),
    ensures
        model(slots).contains_key(slots[i].key@),
        model(slots)[slots[i].key@] == stored(slots[i]),
{
    let ks = keys(slots);
    let j = ks.index_of(slots[i].key@);
    assert(ks[j] == ks[i]);
}

/// Slots with distinct keys stand for as many entries as there are slots.
proof fn lemma_model_len(slots: Seq<Slot>)
    requires
        keys(slots).no_duplicates(),
    ensures
        model(slots).dom().finite(),
        model(slots).len() == slots.len(),
{
    let ks = keys(slots);
    vstd::seq_lib::seq_to_set_is_finite(ks);
    ks.unique_seq_to_set();
}

/// A slot with a new key, added at the end, is an insertion.
proof fn lemma_model_push(slots: Seq<Slot>, slot: Slot)
    requires
        keys(slots).no_duplicates(),
        !keys(slots).contains(slot.key@),
    ensures
        keys(slots.push(slot)).no_duplicates(),
        model(slots.push(slot)) == model(slots).insert(slot.key@, stored(slot)),
{
    let ks = keys(slots);
    let next = slots.push(slot);
    let nks = keys(next);
    assert forall|i: int| 0 <= i < ks.len() implies nks[i] == ks[i] by {}
    assert(nks[ks.len() as int] == slot.key@);
    let a = model(next);
    let b = model(slots).insert(slot.key@, stored(slot));
    assert forall|k: Seq<char>| b.contains_key(k) implies a.contains_key(k) by {
        if k != slot.key@ {
            let i = ks.index_of(k);
            assert(nks[i] == k);
        }
    }
    assert forall|k: Seq<char>| a.contains_key(k) implies a[k] == b[k] by {
        let i = nks.index_of(k);
        lemma_model_at(next, i);
        if i < ks.len() {
            lemma_model_at(slots, i);
        }
    }
}

/// A slot replaced by one with the same key is an insertion under that key.
proof fn lemma_model_update(slots: Seq<Slot>, at: int, slot: Slot)
    requires
        keys(slots).no_duplicates(),
        0 <= at < slots.len(),
        slots[at].key@ == slot.key@,
    ensures
        keys(slots.update(at, slot)) == keys(slots),
        model(slots.update(at, slot)) == model(slots).insert(slot.key@, stored(slot)),
{
    let ks = keys(slots);
    let next = slots.update(at, slot);
    assert(keys(next) =~= ks);
    let a = model(next);
    let b = model(slots).insert(slot.key@, stored(slot));
    assert(ks[at] == slot.key@);
    assert forall|k: Seq<char>| a.contains_key(k) implies a[k] == b[k] by {
        let i = ks.index_of(k);
        lemma_model_at(next, i);
        lemma_model_at(slots, i);
    }
}

/// A slot taken out is a removal of its key.
proof fn lemma_model_remove(slots: Seq<Slot>, at: int)
    requires
        keys(slots).no_duplicates(),
        0 <= at < slots.len(),
    ensures
        keys(slots.remove(at)).no_duplicates(),
        forall|k: Seq<char>| keys(slots.remove(at)).contains(k) ==> keys(slots).contains(k),
        model(slots.remove(at)) == model(slots).remove(slots[at].key@),
{
    let ks = keys(slots);
    let next = slots.remove(at);
    let nks = keys(next);
    // Position `i` after the removal was position `i`, or `i + 1`, before it.
    assert forall|i: int| 0 <= i < nks.len() implies nks[i] == ks[if i < at {
        i
    } else {
        i + 1
    }] by {}
    assert(ks[at] == slots[at].key@);
    let a = model(next);
    let b = model(slots).remove(slots[at].key@);
    assert forall|k: Seq<char>| b.contains_key(k) implies a.contains_key(k) by {
        let p = ks.index_of(k);
        let i = if p < at { p } else { p - 1 };
        assert(nks[i] == k);
    }
    assert forall|k: Seq<char>| a.contains_key(k) implies a[k] == b[k] by {
        let i = nks.index_of(k);
        let p = if i < at { i } else { i + 1 };
        lemma_model_at(next, i);
        lemma_model_at(slots, p);
    }
}

/// A slot that no slot precedes in time holds an oldest entry.
proof fn lemma_model_oldest(slots: Seq<Slot>, at: int)
    requires
        keys(slots).no_duplicates(),
        0 <= at < slots.len(),
        forall|j: int| 0 <= j < slots.len() ==> slots[at].stored_at <= slots[j].stored_at,
    ensures
        is_oldest(model(slots), slots[at].key@),
{
    lemma_model_at(slots, at);
    assert forall|other: Seq<char>| #[trigger]
        model(slots).contains_key(other) implies model(slots)[slots[at].key@].stored_at <= model(
        slots,
    )[other].stored_at by {
        lemma_model_at(slots, keys(slots).index_of(other));
    }
}

/// The position of the first slot with the oldest write.
fn oldest(slots: &Vec<Slot>) -> (at: usize)
    requires
        slots@.len() > 0,
    ensures
        at < slots@.len(),
        forall|j: int| 0 <= j < slots@.len() ==> slots@[at as int].stored_at <= slots@[j].stored_at,
{
    let mut at: usize = 0;
    let mut i: usize = 1;
    while i < slots.len()
        invariant
            at < i <= slots@.len(),
            forall|j: int| 0 <= j < i ==> slots@[at as int].stored_at <= slots@[j].stored_at,
        decreases slots@.len() - i,
    {
        if slots[i].stored_at < slots[at].stored_at {
            at = i;
        }
        i += 1;
    }
    at
}

/// The memory tier.
pub struct MemoryTier {
    clock: Clock,
    slots: Vec<Slot>,
}

impl View for MemoryTier {
    type V = Contents;

    closed spec fn view(&self) -> Contents {
        model(self.slots@)
    }
}

impl MemoryTier {
    #[verifier::type_invariant]
    spec fn inv(self) -> bool {
        self.wf()
    }

    /// What holds of every tier: no key is held twice, and no more than
    /// [`CAPACITY`] entries are held.
    pub closed spec fn wf(&self) -> bool {
        &&& keys(self.slots@).no_duplicates()
        &&& self.slots@.len() <= CAPACITY
    }

    /// The tier is never over capacity: a well-formed tier holds finitely
    /// many entries, at most [`CAPACITY`].
    pub proof fn law_never_over_capacity(&self)
        requires
            self.wf(),
        ensures
            self@.dom().finite(),
            self@.len() <= CAPACITY,
    {
        lemma_model_len(self.slots@);
    }

    /// An empty tier with a clock of its own.
    pub fn new() -> (tier: MemoryTier)
        ensures
            tier.wf(),
            tier@ == Contents::empty(),
    {
        MemoryTier { clock: Clock::start(), slots: Vec::new() }
    }

    /// The number of entries held, stale ones included.
    pub fn len(&self) -> (n: usize)
        ensures
            n == self@.len(),
            n <= CAPACITY,
    {
        proof {
            use_type_invariant(self);
            lemma_model_len(self.slots@);
        }
        self.slots.len()
    }

    /// The present moment on the tier's clock.
    pub fn now(&self) -> u128 {
        self.clock.now()
    }

    /// The position of the slot that holds `key`, if there is one.
    fn find(&self, key: &str) -> (r: Option<usize>)
        ensures
            match r {
                Some(i) => i < self.slots@.len() && self.slots@[i as int].key@ == key@,
                None => !keys(self.slots@).contains(key@),
            },
    {
        let mut i: usize = 0;
        while i < self.slots.len()
            invariant
                i <= self.slots@.len(),
                forall|j: int| 0 <= j < i ==> self.slots@[j].key@ != key@,
            decreases self.slots@.len() - i,
        {
            if same_text(self.slots[i].key.as_str(), key) {
                return Some(i);
            }
            i += 1;
        }
        proof {
            let ks = keys(self.slots@);
            if ks.contains(key@) {
                assert(self.slots@[ks.index_of(key@)].key@ == key@);
            }
        }
        None
    }

    /// The body held under `key`, if it is fresh at `now`. A stale entry is
    /// a miss and stays where it is.
    pub fn get_at(&self, key: &str, now: u128) -> (r: Option<Bytes>)
        ensures
            body_view(r) == lookup(self@, key@, now),
    {
        proof {
            use_type_invariant(self);
        }
        match self.find(key) {
            Some(i) => {
                proof {
                    lemma_model_at(self.slots@, i as int);
                }
                if fresh(self.slots[i].stored_at, now) {
                    Some(clone_bytes(&self.slots[i].data))
                } else {
                    None
                }
            },
            None => None,
        }
    }

    /// The body held under `key`, if it is fresh at the present moment on
    /// the tier's clock.
    pub fn get(&self, key: &str) -> (r: Option<Bytes>)
        ensures
            exists|now: u128| body_view(r) == lookup(self@, key@, now),
            r matches Some(body) ==> self@.contains_key(key@) && bytes_view(body)
                == self@[key@].data,
    {
        let now = self.clock.now();
        self.get_at(key, now)
    }

    /// Stores `data` under `key` as written at `now`, replacing what the key
    /// held. A new key at a full tier first evicts one entry with the oldest
    /// write; the evicted key is returned.
    pub fn put_at(&mut self, key: &str, data: Bytes, now: u128) -> (evicted: Option<String>)
        ensures
            final(self).wf(),
            final(self)@.dom().finite(),
            final(self)@.len() <= CAPACITY,
            evicted is Some <==> must_evict(old(self)@, key@),
            evicted matches Some(victim) ==> is_oldest(old(self)@, victim@),
            final(self)@ == after_put(
                old(self)@,
                key@,
                Stored { data: bytes_view(data), stored_at: now },
                text_view(evicted),
            ),
    {
        proof {
            use_type_invariant(&*self);
            lemma_model_len(self.slots@);
        }
        let ghost before = self.slots@;
        let found = self.find(key);
        let slot = Slot { key: String::from_str(key), data, stored_at: now };
        let mut slots: Vec<Slot> = Vec::new();
        std::mem::swap(&mut self.slots, &mut slots);
        match found {
            Some(i) => {
                proof {
                    lemma_model_at(before, i as int);
                    lemma_model_update(before, i as int, slot);
                }
                slots.set(i, slot);
                proof {
                    lemma_model_len(slots@);
                }
                self.slots = slots;
                None
            },
            None => {
                if slots.len() >= CAPACITY {
                    let at = oldest(&slots);
                    proof {
                        lemma_model_oldest(before, at as int);
                        lemma_model_remove(before, at as int);
                        lemma_model_push(before.remove(at as int), slot);
                    }
                    let victim = slots.remove(at);
                    slots.push(slot);
                    proof {
                        lemma_model_len(slots@);
                    }
                    self.slots = slots;
                    Some(victim.key)
                } else {
                    proof {
                        lemma_model_push(before, slot);
                    }
                    slots.push(slot);
                    proof {
                        lemma_model_len(slots@);
                    }
                    self.slots = slots;
                    None
                }
            },
        }
    }

    /// Stores `data` under `key` as written at the present moment, and
    /// returns that moment with the evicted key, as [`MemoryTier::put_at`]
    /// does.
    pub fn put(&mut self, key: &str, data: Bytes) -> (r: (u128, Option<String>))
        ensures
            final(self).wf(),
            final(self)@.dom().finite(),
            final(self)@.len() <= CAPACITY,
            r.1 is Some <==> must_evict(old(self)@, key@),
            r.1 matches Some(victim) ==> is_oldest(old(self)@, victim@),
            final(self)@ == after_put(
                old(self)@,
                key@,
                Stored { data: bytes_view(data), stored_at: r.0 },
                text_view(r.1),
            ),
    {
        let now = self.clock.now();
        let evicted = self.put_at(key, data, now);
        (now, evicted)
    }
}

/// A write reads back: whatever was stored under a key is found there for
/// as long as it is fresh, byte for byte.
pub proof fn law_put_then_get(
    m: Contents,
    key: Seq<char>,
    entry: Stored,
    evicted: Option<Seq<char>>,
    now: u128,
)
    requires
        is_fresh(entry.stored_at, now),
    ensures
        lookup(after_put(m, key, entry, evicted), key, now) == Some(entry.data),
{
}

/// An entry at the end of the expiry window, or past it, is a miss.
pub proof fn law_stale_entry_is_a_miss(m: Contents, key: Seq<char>, now: u128)
    requires
        m.contains_key(key),
        now >= m[key].stored_at,
        now - m[key].stored_at >= EXPIRY_NANOS,
    ensures
        lookup(m, key, now) is None,
{
}

/// A new key at a full tier pushes out exactly one entry, one with the
/// oldest write, and the tier stays full: the victim is gone, the new entry
/// is there, and every other entry is as it was.
pub proof fn law_eviction_at_capacity(
    m: Contents,
    key: Seq<char>,
    entry: Stored,
    victim: Seq<char>,
)
    requires
        m.dom().finite(),
        m.len() == CAPACITY,
        !m.contains_key(key),
        is_oldest(m, victim),
    ensures
        must_evict(m, key),
        after_put(m, key, entry, Some(victim)).len() == CAPACITY,
        !after_put(m, key, entry, Some(victim)).contains_key(victim),
        after_put(m, key, entry, Some(victim))[key] == entry,
        after_put(m, key, entry, Some(victim)).dom() == m.dom().remove(victim).insert(key),
        forall|other: Seq<char>|
            other != victim && #[trigger] m.contains_key(other) ==> after_put(
                m,
                key,
                entry,
                Some(victim),
            )[other] == m[other],
{
}

/// A write under a key that is already held replaces that entry and touches
/// no other: nothing is evicted and the size stays the same.
pub proof fn law_overwrite_keeps_size(m: Contents, key: Seq<char>, entry: Stored)
    requires
        m.dom().finite(),
        m.contains_key(key),
    ensures
        !must_evict(m, key),
        after_put(m, key, entry, None).len() == m.len(),
        after_put(m, key, entry, None).dom() == m.dom(),
        forall|other: Seq<char>|
            other != key && #[trigger] m.contains_key(other) ==> after_put(m, key, entry, None)[other]
                == m[other],
{
}

} // verus!
