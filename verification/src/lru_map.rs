//! A bounded map from addresses to values that lets go of the least recently used entry.
//!
//! Recency and eviction come from `lru::LruCache`, which keeps a handle for each address.
//! The values live in an arena that the handles point into.
use vstd::prelude::*;
use crate::pubkey::Pubkey;

verus! {

/// `lru::LruCache` with its key, value and hasher types.
#[verifier::external_type_specification]
#[verifier::external_body]
#[verifier::reject_recursive_types(K)]
#[verifier::reject_recursive_types(V)]
#[verifier::reject_recursive_types(S)]
pub struct ExLruCache<K, V, S>(lru::LruCache<K, V, S>);

/// The hasher that `lru::LruCache` uses unless told otherwise.
#[verifier::external_type_specification]
#[verifier::external_body]
pub struct ExDefaultHasher(lru::DefaultHasher);

/// The entries of a cache of handles, the most recently used first.
pub uninterp spec fn cache_entries(cache: lru::LruCache<[u8; 32], u64>) -> Seq<([u8; 32], u64)>;

/// The number of entries that a cache of handles was made to hold.
pub uninterp spec fn cache_capacity(cache: lru::LruCache<[u8; 32], u64>) -> nat;

/// Where `key` stands among `entries`, or the number of entries if it is not there.
pub open spec fn position<T>(entries: Seq<([u8; 32], T)>, key: [u8; 32]) -> int
    decreases entries.len(),
{
    if entries.len() == 0 {
        0
    } else if entries[0].0 == key {
        0
    } else {
        1 + position(entries.drop_first(), key)
    }
}

/// Whether `entries` hold `key`.
pub open spec fn holds<T>(entries: Seq<([u8; 32], T)>, key: [u8; 32]) -> bool {
    position(entries, key) < entries.len()
}

/// The value that `entries` give for `key`.
pub open spec fn value_of<T>(entries: Seq<([u8; 32], T)>, key: [u8; 32]) -> Option<T> {
    if holds(entries, key) {
        Some(entries[position(entries, key)].1)
    } else {
        None
    }
}

/// `entries` without the one for `key`, if there is one.
pub open spec fn without<T>(entries: Seq<([u8; 32], T)>, key: [u8; 32]) -> Seq<([u8; 32], T)> {
    if holds(entries, key) {
        entries.remove(position(entries, key))
    } else {
        entries
    }
}

/// `entries` with the one for `key` moved to the front, if there is one.
pub open spec fn promoted<T>(entries: Seq<([u8; 32], T)>, key: [u8; 32]) -> Seq<([u8; 32], T)> {
    if holds(entries, key) {
        seq![entries[position(entries, key)]] + without(entries, key)
    } else {
        entries
    }
}

/// `entries` of a cache for `capacity` entries after `key` got `value`: the entry goes to
/// the front, and if a new one does not fit the least recently used one leaves.
pub open spec fn pushed<T>(
    entries: Seq<([u8; 32], T)>,
    capacity: nat,
    key: [u8; 32],
    value: T,
) -> Seq<([u8; 32], T)> {
    if holds(entries, key) {
        seq![(key, value)] + without(entries, key)
    } else if entries.len() == capacity {
        seq![(key, value)] + entries.drop_last()
    } else {
        seq![(key, value)] + entries
    }
}

/// What leaves `entries` when `key` gets a value: its former entry, or the least recently
/// used one if a new entry does not fit.
pub open spec fn displaced<T>(
    entries: Seq<([u8; 32], T)>,
    capacity: nat,
    key: [u8; 32],
) -> Option<([u8; 32], T)> {
    if holds(entries, key) {
        Some(entries[position(entries, key)])
    } else if entries.len() == capacity {
        Some(entries.last())
    } else {
        None
    }
}

/// No two entries have the same key.
pub open spec fn keys_distinct<T>(entries: Seq<([u8; 32], T)>) -> bool {
    forall|i: int, j: int|
        0 <= i < j < entries.len() ==> (#[trigger] entries[i]).0 != (#[trigger] entries[j]).0
}

/// The most entries that a cache is made for. A table of so many handles can still be laid out
/// in the address space, and the bytes of so many records be counted.
pub const MAX_CAPACITY: usize = usize::MAX / 256;

/// `lru::LruCache::new`: an empty cache for `capacity` entries. It reserves room for all of
/// them at once, which fails for numbers close to the size of the address space, and takes a
/// non-zero number.
#[verifier::external_body]
fn cache_new(capacity: usize) -> (r: lru::LruCache<[u8; 32], u64>)
    requires
        0 < capacity <= MAX_CAPACITY,
    ensures
        cache_entries(r) == Seq::<([u8; 32], u64)>::empty(),
        cache_capacity(r) == capacity,
{
    lru::LruCache::new(std::num::NonZeroUsize::new(capacity).unwrap())
}

/// `lru::LruCache::len`: the number of entries.
#[verifier::external_body]
fn cache_len(cache: &lru::LruCache<[u8; 32], u64>) -> (r: usize)
    ensures
        r == cache_entries(*cache).len(),
{
    cache.len()
}

/// `lru::LruCache::peek`: the value for `key`, without touching the order.
#[verifier::external_body]
fn cache_peek(cache: &lru::LruCache<[u8; 32], u64>, key: &[u8; 32]) -> (r: Option<u64>)
    ensures
        r == value_of(cache_entries(*cache), *key),
{
    cache.peek(key).copied()
}

/// `lru::LruCache::get`: the value for `key`, whose entry moves to the front.
#[verifier::external_body]
fn cache_get(cache: &mut lru::LruCache<[u8; 32], u64>, key: &[u8; 32]) -> (r: Option<u64>)
    ensures
        r == value_of(cache_entries(*old(cache)), *key),
        cache_entries(*final(cache)) == promoted(cache_entries(*old(cache)), *key),
        cache_capacity(*final(cache)) == cache_capacity(*old(cache)),
{
    cache.get(key).copied()
}

/// `lru::LruCache::push`: gives `key` a value, moves its entry to the front, and returns the
/// entry that left: the former one of `key`, or the least recently used one of a full cache.
#[verifier::external_body]
fn cache_push(cache: &mut lru::LruCache<[u8; 32], u64>, key: [u8; 32], value: u64) -> (r: Option<
    ([u8; 32], u64),
>)
    ensures
        r == displaced(cache_entries(*old(cache)), cache_capacity(*old(cache)), key),
        cache_entries(*final(cache)) == pushed(
            cache_entries(*old(cache)),
            cache_capacity(*old(cache)),
            key,
            value,
        ),
        cache_capacity(*final(cache)) == cache_capacity(*old(cache)),
{
    cache.push(key, value)
}

/// `lru::LruCache::pop`: removes the entry of `key` and returns its value.
#[verifier::external_body]
fn cache_pop(cache: &mut lru::LruCache<[u8; 32], u64>, key: &[u8; 32]) -> (r: Option<u64>)
    ensures
        r == value_of(cache_entries(*old(cache)), *key),
        cache_entries(*final(cache)) == without(cache_entries(*old(cache)), *key),
        cache_capacity(*final(cache)) == cache_capacity(*old(cache)),
{
    cache.pop(key)
}

/// `lru::LruCache::pop_lru`: removes and returns the least recently used entry.
#[verifier::external_body]
fn cache_pop_lru(cache: &mut lru::LruCache<[u8; 32], u64>) -> (r: Option<([u8; 32], u64)>)
    ensures
        r == if cache_entries(*old(cache)).len() == 0 {
            None
        } else {
            Some(cache_entries(*old(cache)).last())
        },
        cache_entries(*final(cache)) == if cache_entries(*old(cache)).len() == 0 {
            cache_entries(*old(cache))
        } else {
            cache_entries(*old(cache)).drop_last()
        },
        cache_capacity(*final(cache)) == cache_capacity(*old(cache)),
{
    cache.pop_lru()
}

/// `lru::LruCache::clear`: removes every entry.
#[verifier::external_body]
fn cache_clear(cache: &mut lru::LruCache<[u8; 32], u64>)
    ensures
        cache_entries(*final(cache)) == Seq::<([u8; 32], u64)>::empty(),
        cache_capacity(*final(cache)) == cache_capacity(*old(cache)),
{
    cache.clear()
}

/// What `position` finds: the first entry of `key`.
pub proof fn lemma_position<T>(entries: Seq<([u8; 32], T)>, key: [u8; 32])
    ensures
        0 <= position(entries, key) <= entries.len(),
        holds(entries, key) ==> entries[position(entries, key)].0 == key,
        forall|j: int| 0 <= j < position(entries, key) ==> (#[trigger] entries[j]).0 != key,
    decreases entries.len(),
{
    if entries.len() > 0 && entries[0].0 != key {
        let rest = entries.drop_first();
        lemma_position(rest, key);
        assert forall|j: int| 0 <= j < position(entries, key) implies (
        #[trigger] entries[j]).0 != key by {
            if j > 0 {
                assert(rest[j - 1] == entries[j]);
            }
        }
    }
}

/// With distinct keys, the entry at `i` is the one that is found for its key.
pub proof fn lemma_position_of<T>(entries: Seq<([u8; 32], T)>, i: int)
    requires
        keys_distinct(entries),
        0 <= i < entries.len(),
    ensures
        position(entries, entries[i].0) == i,
{
    lemma_position(entries, entries[i].0);
    let p = position(entries, entries[i].0);
    if p < i {
        assert(entries[p].0 != entries[i].0);
    }
}

/// Removing the entry of one key leaves the values of the others.
pub proof fn lemma_without_keeps<T>(entries: Seq<([u8; 32], T)>, key: [u8; 32], other: [u8; 32])
    requires
        keys_distinct(entries),
        key != other,
    ensures
        value_of(without(entries, key), other) == value_of(entries, other),
        keys_distinct(without(entries, key)),
{
    let rest = without(entries, key);
    lemma_position(entries, key);
    lemma_position(entries, other);
    lemma_position(rest, other);
    if holds(entries, key) {
        let p = position(entries, key);
        assert forall|i: int, j: int| 0 <= i < j < rest.len() implies (#[trigger] rest[i]).0 != (
        #[trigger] rest[j]).0 by {
            let a = if i < p {
                i
            } else {
                i + 1
            };
            let b = if j < p {
                j
            } else {
                j + 1
            };
            assert(rest[i] == entries[a]);
            assert(rest[j] == entries[b]);
        }
        if holds(entries, other) {
            let q = position(entries, other);
            let k = if q < p {
                q
            } else {
                q - 1
            };
            assert(rest[k] == entries[q]);
            lemma_position_of(rest, k);
        } else if holds(rest, other) {
            let k = position(rest, other);
            let q = if k < p {
                k
            } else {
                k + 1
            };
            assert(entries[q] == rest[k]);
        }
    }
}

/// A pushed value can be read back; if nothing had to leave, all other values can too.
pub proof fn lemma_pushed_value<T>(
    entries: Seq<([u8; 32], T)>,
    capacity: nat,
    key: [u8; 32],
    value: T,
    other: [u8; 32],
)
    requires
        keys_distinct(entries),
    ensures
        value_of(pushed(entries, capacity, key, value), key) == Some(value),
        key != other && (holds(entries, key) || entries.len() < capacity) ==> value_of(
            pushed(entries, capacity, key, value),
            other,
        ) == value_of(entries, other),
{
    let after = pushed(entries, capacity, key, value);
    assert(after[0] == (key, value));
    reveal_with_fuel(position, 2);
    if key != other && (holds(entries, key) || entries.len() < capacity) {
        lemma_without_keeps(entries, key, other);
        let rest = without(entries, key);
        assert(after.drop_first() =~= rest);
        lemma_position(rest, other);
        if holds(rest, other) {
            assert(after[1 + position(rest, other)] == rest[position(rest, other)]);
        }
    }
}

/// Entries with the same keys in the same order find each key at the same place.
proof fn lemma_position_same_keys<T, U>(
    a: Seq<([u8; 32], T)>,
    b: Seq<([u8; 32], U)>,
    key: [u8; 32],
)
    requires
        a.len() == b.len(),
        forall|i: int| 0 <= i < a.len() ==> (#[trigger] a[i]).0 == b[i].0,
    ensures
        position(a, key) == position(b, key),
    decreases a.len(),
{
    if a.len() > 0 {
        assert(a[0].0 == b[0].0);
        let ra = a.drop_first();
        let rb = b.drop_first();
        assert forall|i: int| 0 <= i < ra.len() implies (#[trigger] ra[i]).0 == rb[i].0 by {
            assert(a[i + 1].0 == b[i + 1].0);
        }
        lemma_position_same_keys(ra, rb, key);
    }
}

/// A map from addresses to values with room for a fixed number of entries.
pub struct LruMap<V> {
    index: lru::LruCache<[u8; 32], u64>,
    slots: Vec<Option<V>>,
    free: Vec<u64>,
}

impl<V> LruMap<V> {
    spec fn handles(&self) -> Seq<([u8; 32], u64)> {
        cache_entries(self.index)
    }

    /// The entries, the most recently used first.
    pub closed spec fn entries(&self) -> Seq<([u8; 32], V)> {
        Seq::new(
            self.handles().len(),
            |i: int| (self.handles()[i].0, self.slots@[self.handles()[i].1 as int]->0),
        )
    }

    /// The number of entries there is room for.
    pub closed spec fn capacity(&self) -> nat {
        cache_capacity(self.index)
    }

    /// The value for `key`.
    pub open spec fn value(&self, key: Pubkey) -> Option<V> {
        value_of(self.entries(), key.bytes)
    }

    /// Every handle points at a value of its own, and the free slots are none of these.
    pub closed spec fn wf(&self) -> bool {
        let handles = self.handles();
        let slots = self.slots@;
        let free = self.free@;
        &&& 0 < self.capacity()
        &&& handles.len() <= self.capacity()
        &&& keys_distinct(handles)
        &&& forall|i: int|
            0 <= i < handles.len() ==> (#[trigger] handles[i]).1 < self.slots.len()
                && slots[handles[i].1 as int] is Some
        &&& forall|i: int, j: int|
            0 <= i < j < handles.len() ==> (#[trigger] handles[i]).1 != (#[trigger] handles[j]).1
        &&& forall|i: int| 0 <= i < free.len() ==> #[trigger] free[i] < self.slots.len()
        &&& forall|i: int, j: int|
            0 <= i < j < free.len() ==> #[trigger] free[i] != #[trigger] free[j]
        &&& forall|i: int, j: int|
            0 <= i < free.len() && 0 <= j < handles.len() ==> #[trigger] free[i] != (
            #[trigger] handles[j]).1
    }

    /// What every well-formed map keeps: no more entries than there is room for, one for each
    /// address.
    pub proof fn lemma_wf(&self)
        requires
            self.wf(),
        ensures
            self.entries().len() <= self.capacity(),
            0 < self.capacity(),
            keys_distinct(self.entries()),
    {
        let e = self.entries();
        assert forall|i: int, j: int| 0 <= i < j < e.len() implies (#[trigger] e[i]).0 != (
        #[trigger] e[j]).0 by {
            assert(self.handles()[i].0 != self.handles()[j].0);
        }
    }

    proof fn lemma_position_in_handles(&self, key: [u8; 32])
        ensures
            position(self.entries(), key) == position(self.handles(), key),
    {
        lemma_position_same_keys(self.entries(), self.handles(), key);
    }

    /// An empty map with room for `capacity` entries.
    pub fn new(capacity: usize) -> (r: LruMap<V>)
        requires
            0 < capacity <= MAX_CAPACITY,
        ensures
            r.wf(),
            r.entries() == Seq::<([u8; 32], V)>::empty(),
            r.capacity() == capacity,
    {
        let r = LruMap { index: cache_new(capacity), slots: Vec::new(), free: Vec::new() };
        assert(r.entries() =~= Seq::<([u8; 32], V)>::empty());
        r
    }

    /// The number of entries.
    pub fn len(&self) -> (r: usize)
        ensures
            r == self.entries().len(),
    {
        cache_len(&self.index)
    }

    /// The value for `key`; the order stays as it is.
    pub fn peek(&self, key: &Pubkey) -> (r: Option<&V>)
        requires
            self.wf(),
        ensures
            r == match self.value(*key) {
                Some(v) => Some(&v),
                None => None,
            },
    {
        proof {
            self.lemma_position_in_handles(key.bytes);
            lemma_position(self.handles(), key.bytes);
        }
        match cache_peek(&self.index, &key.bytes) {
            Some(handle) => {
                let slot = handle as usize;
                self.slots[slot].as_ref()
            },
            None => None,
        }
    }

    /// Moves the entry of `key` to the front. Returns whether there is one.
    pub fn touch(&mut self, key: &Pubkey) -> (r: bool)
        requires
            old(self).wf(),
        ensures
            final(self).wf(),
            r == holds(old(self).entries(), key.bytes),
            final(self).entries() == promoted(old(self).entries(), key.bytes),
            final(self).capacity() == old(self).capacity(),
    {
        let ghost before = *self;
        proof {
            self.lemma_position_in_handles(key.bytes);
            lemma_position(self.handles(), key.bytes);
        }
        let r = cache_get(&mut self.index, &key.bytes).is_some();
        proof {
            assert(self.entries() =~= promoted(before.entries(), key.bytes));
        }
        r
    }

    /// Gives `key` a value and moves its entry to the front. Returns the entry that left: the
    /// former one of `key`, or the least recently used one if there was no room.
    pub fn push(&mut self, key: Pubkey, value: V) -> (r: Option<(Pubkey, V)>)
        requires
            old(self).wf(),
        ensures
            final(self).wf(),
            final(self).entries() == pushed(
                old(self).entries(),
                old(self).capacity(),
                key.bytes,
                value,
            ),
            final(self).capacity() == old(self).capacity(),
            r == match displaced(old(self).entries(), old(self).capacity(), key.bytes) {
                Some((k, v)) => Some((Pubkey { bytes: k }, v)),
                None => None,
            },
    {
        let ghost before = *self;
        proof {
            self.lemma_position_in_handles(key.bytes);
            lemma_position(self.handles(), key.bytes);
        }
        match cache_peek(&self.index, &key.bytes) {
            Some(handle) => {
                let slot = handle as usize;
                cache_push(&mut self.index, key.bytes, handle);
                let mut cell: Option<V> = Some(value);
                std::mem::swap(&mut self.slots[slot], &mut cell);
                proof {
                    assert(self.entries() =~= pushed(
                        before.entries(),
                        before.capacity(),
                        key.bytes,
                        value,
                    ));
                }
                match cell {
                    Some(former) => Some((key, former)),
                    None => None,
                }
            },
            None => {
                let handle: u64 = match self.free.pop() {
                    Some(handle) => handle,
                    None => {
                        let handle = self.slots.len() as u64;
                        self.slots.push(None);
                        handle
                    },
                };
                let slot = handle as usize;
                self.slots[slot] = Some(value);
                match cache_push(&mut self.index, key.bytes, handle) {
                    Some((left, left_handle)) => {
                        let left_slot = left_handle as usize;
                        let mut cell: Option<V> = None;
                        std::mem::swap(&mut self.slots[left_slot], &mut cell);
                        self.free.push(left_handle);
                        proof {
                            assert(before.entries().last().1 == before.slots@[left_slot as int]->0);
                            assert(self.entries() =~= pushed(
                                before.entries(),
                                before.capacity(),
                                key.bytes,
                                value,
                            ));
                        }
                        match cell {
                            Some(former) => Some((Pubkey { bytes: left }, former)),
                            None => None,
                        }
                    },
                    None => {
                        proof {
                            assert(self.entries() =~= pushed(
                                before.entries(),
                                before.capacity(),
                                key.bytes,
                                value,
                            ));
                        }
                        None
                    },
                }
            },
        }
    }

    /// Removes the entry of `key` and returns its value.
    pub fn pop(&mut self, key: &Pubkey) -> (r: Option<V>)
        requires
            old(self).wf(),
        ensures
            final(self).wf(),
            r == old(self).value(*key),
            final(self).entries() == without(old(self).entries(), key.bytes),
            final(self).capacity() == old(self).capacity(),
    {
        let ghost before = *self;
        proof {
            self.lemma_position_in_handles(key.bytes);
            lemma_position(self.handles(), key.bytes);
        }
        match cache_pop(&mut self.index, &key.bytes) {
            Some(handle) => {
                let slot = handle as usize;
                let mut cell: Option<V> = None;
                std::mem::swap(&mut self.slots[slot], &mut cell);
                self.free.push(handle);
                proof {
                    assert(self.entries() =~= without(before.entries(), key.bytes));
                }
                cell
            },
            None => {
                proof {
                    assert(self.entries() =~= before.entries());
                }
                None
            },
        }
    }

    /// Removes and returns the least recently used entry.
    pub fn pop_lru(&mut self) -> (r: Option<(Pubkey, V)>)
        requires
            old(self).wf(),
        ensures
            final(self).wf(),
            final(self).capacity() == old(self).capacity(),
            old(self).entries().len() == 0 ==> r is None && final(self).entries() == old(
                self,
            ).entries(),
            old(self).entries().len() > 0 ==> r == Some(
                (
                    Pubkey { bytes: old(self).entries().last().0 },
                    old(self).entries().last().1,
                ),
            ) && final(self).entries() == old(self).entries().drop_last(),
    {
        let ghost before = *self;
        match cache_pop_lru(&mut self.index) {
            Some((left, handle)) => {
                let slot = handle as usize;
                let mut cell: Option<V> = None;
                std::mem::swap(&mut self.slots[slot], &mut cell);
                self.free.push(handle);
                proof {
                    assert(before.entries().last().1 == before.slots@[slot as int]->0);
                    assert(self.entries() =~= before.entries().drop_last());
                }
                match cell {
                    Some(former) => Some((Pubkey { bytes: left }, former)),
                    None => None,
                }
            },
            None => {
                proof {
                    assert(self.entries() =~= before.entries());
                }
                None
            },
        }
    }

    /// Removes every entry.
    pub fn clear(&mut self)
        requires
            old(self).wf(),
        ensures
            final(self).wf(),
            final(self).entries() == Seq::<([u8; 32], V)>::empty(),
            final(self).capacity() == old(self).capacity(),
    {
        cache_clear(&mut self.index);
        self.slots.clear();
        self.free.clear();
        proof {
            assert(self.entries() =~= Seq::<([u8; 32], V)>::empty());
        }
    }
}

} // verus!
