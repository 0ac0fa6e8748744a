//! A bounded mirror of the delegation records on chain.
//!
//! A live watermark proves that an entry is current through that slot. A miss, a stale entry,
//! a tombstone or a break in the stream means that the chain has to be asked: that a record is
//! not here never means that an account is not delegated.
use vstd::prelude::*;
use crate::bytes::{copy_bytes, same_bytes};
use crate::chainlink::record_stream::RecordStreamUpdate;
use crate::delegation_record::{
    is_delegated_to_validator_or_confined, is_record, read_record, DELEGATION_RECORD_SIZE,
};
use crate::lru_map::{
    holds, keys_distinct, lemma_position, lemma_position_of, lemma_without_keeps, position,
    promoted, pushed, value_of, without, LruMap, MAX_CAPACITY,
};
use crate::pda::{delegation_record_address, delegation_record_pda};
use crate::pubkey::{address_at, lemma_pubkey_bytes_determine, zero_pubkey, Pubkey};

verus! {

/// `Vec::capacity`: how much room a byte string has, which is at least what it holds. How
/// much more than that is up to the allocator.
#[verifier::external_body]
fn room_of(bytes: &Vec<u8>) -> (r: usize)
    ensures
        r >= bytes@.len(),
{
    bytes.capacity()
}

/// What the mirror knows about a record since `slot`: its bytes, or that they have to be
/// asked for.
#[derive(Debug)]
pub struct RecordEntry {
    pub slot: u64,
    pub data: Option<Vec<u8>>,
    /// The memory that the bytes take.
    pub retained: usize,
}

/// The view of an optional byte string.
pub open spec fn data_view(data: Option<Vec<u8>>) -> Option<Seq<u8>> {
    match data {
        Some(data) => Some(data@),
        None => None,
    }
}

impl RecordEntry {
    /// The memory is at least what the bytes are, and nothing for no bytes.
    pub open spec fn sound(&self) -> bool {
        match self.data {
            Some(data) => data@.len() <= self.retained,
            None => self.retained == 0,
        }
    }

    /// An entry for `data`.
    pub fn new(slot: u64, data: Option<Vec<u8>>) -> (r: RecordEntry)
        ensures
            r.slot == slot,
            r.data == data,
            r.sound(),
    {
        let retained = match &data {
            Some(data) => room_of(data),
            None => 0,
        };
        RecordEntry { slot, data, retained }
    }

    /// The memory that the entry's bytes take.
    pub fn retained_data_bytes(&self) -> (r: usize)
        ensures
            r == self.retained,
    {
        self.retained
    }
}

/// The memory that the bytes of all entries take.
pub open spec fn retained_sum(entries: Seq<([u8; 32], RecordEntry)>) -> nat
    decreases entries.len(),
{
    if entries.len() == 0 {
        0
    } else {
        retained_sum(entries.drop_last()) + entries.last().1.retained as nat
    }
}

/// The longest front part of `entries` whose bytes take no more than `max`.
pub open spec fn trimmed(entries: Seq<([u8; 32], RecordEntry)>, max: nat) -> Seq<
    ([u8; 32], RecordEntry),
>
    decreases entries.len(),
{
    if retained_sum(entries) <= max || entries.len() == 0 {
        entries
    } else {
        trimmed(entries.drop_last(), max)
    }
}

/// `entries` after `key` got `entry`. An entry that takes more than `max` by itself is not
/// kept, and neither is what was there before.
pub open spec fn entry_put(
    entries: Seq<([u8; 32], RecordEntry)>,
    capacity: nat,
    max: nat,
    key: [u8; 32],
    entry: RecordEntry,
) -> Seq<([u8; 32], RecordEntry)> {
    if entry.retained > max {
        without(entries, key)
    } else {
        trimmed(pushed(entries, capacity, key, entry), max)
    }
}

/// `entries` after the stream told `entry` for `key`: nothing changes if something newer is
/// known; two different things at one slot leave a tombstone.
pub open spec fn entry_told(
    entries: Seq<([u8; 32], RecordEntry)>,
    capacity: nat,
    max: nat,
    key: [u8; 32],
    entry: RecordEntry,
) -> Seq<([u8; 32], RecordEntry)> {
    match value_of(entries, key) {
        Some(known) => if known.slot > entry.slot {
            entries
        } else if known.slot == entry.slot && data_view(known.data) != data_view(entry.data) {
            entry_put(
                entries,
                capacity,
                max,
                key,
                RecordEntry { slot: entry.slot, data: None, retained: 0 },
            )
        } else {
            entry_put(entries, capacity, max, key, entry)
        },
        None => entry_put(entries, capacity, max, key, entry),
    }
}

proof fn lemma_retained_sum_parts(entries: Seq<([u8; 32], RecordEntry)>, i: int)
    requires
        0 <= i < entries.len(),
    ensures
        retained_sum(entries) == retained_sum(entries.remove(i)) + entries[i].1.retained,
    decreases entries.len(),
{
    let last = entries.len() - 1;
    if i == last {
        assert(entries.remove(i) =~= entries.drop_last());
    } else {
        lemma_retained_sum_parts(entries.drop_last(), i);
        assert(entries.remove(i).drop_last() =~= entries.drop_last().remove(i));
        assert(entries.remove(i).last() == entries.last());
    }
}

proof fn lemma_retained_sum_front(
    entry: ([u8; 32], RecordEntry),
    entries: Seq<([u8; 32], RecordEntry)>,
)
    ensures
        retained_sum(seq![entry] + entries) == retained_sum(entries) + entry.1.retained,
    decreases entries.len(),
{
    let whole = seq![entry] + entries;
    reveal_with_fuel(retained_sum, 2);
    if entries.len() == 0 {
        assert(whole.drop_last() =~= Seq::<([u8; 32], RecordEntry)>::empty());
        assert(whole.last() == entry);
    } else {
        lemma_retained_sum_front(entry, entries.drop_last());
        assert(whole.drop_last() =~= seq![entry] + entries.drop_last());
        assert(whole.last() == entries.last());
    }
}

/// Trimming gives a front part that fits, and keeps a first entry that fits by itself.
pub proof fn lemma_trimmed(entries: Seq<([u8; 32], RecordEntry)>, max: nat)
    ensures
        retained_sum(trimmed(entries, max)) <= max || trimmed(entries, max).len() == 0,
        trimmed(entries, max).len() <= entries.len(),
        trimmed(entries, max) == entries.take(trimmed(entries, max).len() as int),
        entries.len() > 0 && entries[0].1.retained <= max ==> trimmed(entries, max).len() > 0,
    decreases entries.len(),
{
    if retained_sum(entries) <= max || entries.len() == 0 {
        assert(entries.take(entries.len() as int) =~= entries);
    } else {
        lemma_trimmed(entries.drop_last(), max);
        let short = trimmed(entries.drop_last(), max);
        assert(entries.drop_last().take(short.len() as int) =~= entries.take(short.len() as int));
        if entries.len() == 1 {
            assert(entries.drop_last() =~= Seq::<([u8; 32], RecordEntry)>::empty());
            assert(retained_sum(entries) == entries[0].1.retained);
        }
    }
}

/// One entry more than trimming leaves takes more than `max`.
proof fn lemma_trimmed_is_longest(entries: Seq<([u8; 32], RecordEntry)>, max: nat)
    ensures
        trimmed(entries, max).len() < entries.len() ==> retained_sum(
            entries.take(trimmed(entries, max).len() as int + 1),
        ) > max,
    decreases entries.len(),
{
    let kept = trimmed(entries, max).len() as int;
    lemma_trimmed(entries, max);
    if kept < entries.len() {
        let shorter = entries.drop_last();
        lemma_trimmed_is_longest(shorter, max);
        lemma_trimmed(shorter, max);
        if kept == shorter.len() {
            assert(entries.take(kept + 1) =~= entries);
        } else {
            assert(entries.take(kept + 1) =~= shorter.take(kept + 1));
        }
    }
}

/// What is left without a key has distinct keys, none of them this one.
proof fn lemma_others_distinct(entries: Seq<([u8; 32], RecordEntry)>, key: [u8; 32])
    requires
        keys_distinct(entries),
    ensures
        keys_distinct(without(entries, key)),
        forall|i: int|
            0 <= i < without(entries, key).len() ==> (#[trigger] without(entries, key)[i]).0
                != key,
{
    lemma_position(entries, key);
    let p = position(entries, key);
    let others = without(entries, key);
    if holds(entries, key) {
        assert forall|i: int| 0 <= i < others.len() implies (#[trigger] others[i]).0 != key by {
            let j = if i < p {
                i
            } else {
                i + 1
            };
            assert(others[i] == entries[j]);
            assert(entries[p].0 == key);
        }
        assert forall|i: int, j: int| 0 <= i < j < others.len() implies (#[trigger] others[i]).0
            != (#[trigger] others[j]).0 by {
            let a = if i < p {
                i
            } else {
                i + 1
            };
            let b = if j < p {
                j
            } else {
                j + 1
            };
            assert(others[i] == entries[a]);
            assert(others[j] == entries[b]);
        }
    }
}

/// An account that the stream saw being delegated.
#[derive(Clone, Copy, Debug, PartialEq, Eq)]
pub struct DiscoveredDelegation {
    pub delegated_account: Pubkey,
    pub record: Pubkey,
    pub slot: u64,
}

/// A request, seen on chain, to give an account back.
#[derive(Clone, Copy, Debug, PartialEq, Eq)]
pub struct ObservedUndelegationRequest {
    pub request_pda: Pubkey,
    pub delegated_account: Pubkey,
    pub expires_at_slot: u64,
    pub observed_slot: u64,
}

/// What the mirror says about a record.
#[derive(Debug)]
pub enum MirrorLookup {
    /// It holds these bytes.
    Hit { data: Vec<u8>, slot: u64 },
    /// It was given up or is in doubt since `slot`.
    Tombstone { slot: u64 },
    /// Nothing that is known to be current.
    Miss,
}

/// Why a lookup gave no record.
#[derive(Clone, Copy, Debug, PartialEq, Eq, Structural)]
pub enum RecordMirrorLookupOutcome {
    Miss,
    Stale,
    Tombstone,
}

/// What a stream update leads to beyond the mirror itself.
#[derive(Clone, Copy, Debug, PartialEq, Eq)]
pub enum MirrorEvent {
    Nothing,
    Discovered(DiscoveredDelegation),
    UndelegationRequested(ObservedUndelegationRequest),
}

/// Whether a record with these bytes names `validator` or nobody as its authority.
pub open spec fn names_validator_or_nobody(data: Seq<u8>, validator: Pubkey) -> bool {
    address_at(data, 8) == validator@ || address_at(data, 8) == zero_pubkey()
}

/// The mirror.
pub struct DelegationRecordMirror {
    entries: LruMap<RecordEntry>,
    retained_data_bytes: usize,
    max_retained_data_bytes: usize,
    watermark: u64,
    live: bool,
    validator_pubkey: Option<Pubkey>,
}

impl DelegationRecordMirror {
    /// What is known, the most recently used first.
    pub closed spec fn entries(&self) -> Seq<([u8; 32], RecordEntry)> {
        self.entries.entries()
    }

    /// The number of records there is room for.
    pub closed spec fn capacity(&self) -> nat {
        self.entries.capacity()
    }

    /// The bytes of records there is room for.
    pub closed spec fn max_bytes(&self) -> nat {
        self.max_retained_data_bytes as nat
    }

    /// The slot through which the entries are complete, while the mirror is live.
    pub closed spec fn watermark(&self) -> u64 {
        self.watermark
    }

    /// Whether the stream keeps the mirror complete.
    pub closed spec fn live(&self) -> bool {
        self.live
    }

    /// The validator whose requests are of interest, if only those are.
    pub closed spec fn validator(&self) -> Option<Pubkey> {
        self.validator_pubkey
    }

    /// What is known about `record`.
    pub open spec fn known(&self, record: Pubkey) -> Option<RecordEntry> {
        value_of(self.entries(), record.bytes)
    }

    /// Whether the entries are complete through `slot`.
    pub open spec fn complete_through(&self, slot: u64) -> bool {
        self.live() && self.watermark() >= slot
    }

    /// The bytes are counted right and bounded.
    pub closed spec fn wf(&self) -> bool {
        &&& self.entries.wf()
        &&& self.capacity() <= MAX_CAPACITY
        &&& self.max_bytes() == self.capacity() * DELEGATION_RECORD_SIZE
        &&& self.retained_data_bytes == retained_sum(self.entries())
        &&& retained_sum(self.entries()) <= self.max_bytes()
        &&& forall|i: int|
            0 <= i < self.entries().len() ==> (#[trigger] self.entries()[i]).1.sound()
    }

    /// What every mirror keeps: it knows one thing about a record at most, and its records and
    /// all their bytes fit into the room for them.
    pub proof fn law_retained_bytes_are_bounded(&self)
        requires
            self.wf(),
        ensures
            retained_sum(self.entries()) <= self.max_bytes(),
            self.entries().len() <= self.capacity(),
            0 < self.capacity(),
            keys_distinct(self.entries()),
            forall|i: int|
                0 <= i < self.entries().len() ==> (#[trigger] self.entries()[i]).1.sound(),
    {
        self.entries.lemma_wf();
    }

    /// A mirror for `capacity` records of ordinary size, or for one if that is none.
    pub fn with_capacity(capacity: usize, validator_pubkey: Option<Pubkey>) -> (r: Self)
        requires
            capacity <= MAX_CAPACITY,
        ensures
            r.wf(),
            r.entries().len() == 0,
            r.capacity() == if capacity == 0 {
                1
            } else {
                capacity as nat
            },
            r.max_bytes() == r.capacity() * DELEGATION_RECORD_SIZE,
            r.watermark() == 0,
            !r.live(),
            r.validator() == validator_pubkey,
    {
        let capacity = if capacity == 0 {
            1
        } else {
            capacity
        };
        DelegationRecordMirror {
            entries: LruMap::new(capacity),
            retained_data_bytes: 0,
            max_retained_data_bytes: capacity * DELEGATION_RECORD_SIZE,
            watermark: 0,
            live: false,
            validator_pubkey,
        }
    }

    /// Keeps an entry as what is known about `record`, unless its bytes take more room than there
    /// is; then nothing is known about it any longer. Other entries make room, the least recently
    /// used first.
    pub fn put_entry(&mut self, record: Pubkey, entry: RecordEntry)
        requires
            old(self).wf(),
            entry.sound(),
        ensures
            final(self).wf(),
            final(self).entries() == entry_put(
                old(self).entries(),
                old(self).capacity(),
                old(self).max_bytes(),
                record.bytes,
                entry,
            ),
            final(self).capacity() == old(self).capacity(),
            final(self).max_bytes() == old(self).max_bytes(),
            final(self).watermark() == old(self).watermark(),
            final(self).live() == old(self).live(),
            final(self).validator() == old(self).validator(),
    {
        let ghost before = self.entries();
        let ghost capacity = self.capacity();
        let ghost max = self.max_bytes();
        let ghost p = position(before, record.bytes);
        proof {
            lemma_position(before, record.bytes);
            self.entries.lemma_wf();
            if holds(before, record.bytes) {
                lemma_retained_sum_parts(before, p);
            }
        }
        let entry_bytes = entry.retained_data_bytes();
        if entry_bytes > self.max_retained_data_bytes {
            match self.entries.pop(&record) {
                Some(known) => {
                    self.retained_data_bytes = self.retained_data_bytes.saturating_sub(
                        known.retained_data_bytes(),
                    );
                },
                None => {},
            }
            return;
        }
        let ghost put = pushed(before, capacity, record.bytes, entry);
        proof {
            lemma_retained_sum_front((record.bytes, entry), without(before, record.bytes));
            lemma_retained_sum_front((record.bytes, entry), before);
            if before.len() > 0 {
                lemma_retained_sum_front((record.bytes, entry), before.drop_last());
            }
            assert forall|i: int| 0 <= i < put.len() implies (#[trigger] put[i]).1.sound() by {
                if i > 0 {
                    if holds(before, record.bytes) {
                        let j = if i - 1 < p {
                            i - 1
                        } else {
                            i
                        };
                        assert(put[i] == before[j]);
                    } else {
                        assert(put[i] == before[i - 1]);
                    }
                }
            }
        }
        match self.entries.push(record, entry) {
            Some((_, replaced)) => {
                self.retained_data_bytes = self.retained_data_bytes.saturating_sub(
                    replaced.retained_data_bytes(),
                );
            },
            None => {},
        }
        self.retained_data_bytes = self.retained_data_bytes.saturating_add(entry_bytes);
        assert(self.retained_data_bytes == retained_sum(self.entries()));
        while self.retained_data_bytes > self.max_retained_data_bytes
            invariant
                self.entries.wf(),
                self.capacity() == capacity,
                capacity <= MAX_CAPACITY,
                self.max_bytes() == max,
                max == capacity * DELEGATION_RECORD_SIZE,
                self.watermark() == old(self).watermark(),
                self.live() == old(self).live(),
                self.validator() == old(self).validator(),
                self.retained_data_bytes == retained_sum(self.entries()),
                trimmed(self.entries(), max) == trimmed(put, max),
                forall|i: int|
                    0 <= i < self.entries().len() ==> (#[trigger] self.entries()[i]).1.sound(),
            decreases self.entries().len(),
        {
            let ghost now = self.entries();
            assert(now.len() > 0);
            match self.entries.pop_lru() {
                Some((_, evicted)) => {
                    self.retained_data_bytes = self.retained_data_bytes.saturating_sub(
                        evicted.retained_data_bytes(),
                    );
                    assert forall|i: int| 0 <= i < self.entries().len() implies (
                    #[trigger] self.entries()[i]).1.sound() by {
                        assert(self.entries()[i] == now[i]);
                    }
                },
                None => {
                    self.retained_data_bytes = 0;
                },
            }
        }
    }

    /// Takes note that `record` holds `data` since `slot`, or that it was given up. An older
    /// update changes nothing, and one that contradicts another of the same slot leaves a
    /// tombstone. How much memory the bytes take is up to the allocator.
    pub fn insert(&mut self, record: Pubkey, slot: u64, data: Option<Vec<u8>>)
        requires
            old(self).wf(),
        ensures
            final(self).wf(),
            exists|retained: usize|
                {
                    let entry = RecordEntry { slot, data, retained };
                    &&& entry.sound()
                    &&& final(self).entries() == #[trigger] entry_told(
                        old(self).entries(),
                        old(self).capacity(),
                        old(self).max_bytes(),
                        record.bytes,
                        RecordEntry { slot, data, retained },
                    )
                },
            final(self).capacity() == old(self).capacity(),
            final(self).max_bytes() == old(self).max_bytes(),
            final(self).watermark() == old(self).watermark(),
            final(self).live() == old(self).live(),
            final(self).validator() == old(self).validator(),
    {
        let ghost before = *self;
        let entry = RecordEntry::new(slot, data);
        let ghost told = entry_told(
            before.entries(),
            before.capacity(),
            before.max_bytes(),
            record.bytes,
            RecordEntry { slot, data, retained: entry.retained },
        );
        match self.entries.peek(&record) {
            Some(known) => {
                if known.slot > slot {
                    assert(self.entries() == told);
                    return;
                }
                if known.slot == slot && !same_data(&known.data, &entry.data) {
                    self.put_entry(record, RecordEntry { slot, data: None, retained: 0 });
                    assert(self.entries() == told);
                    return;
                }
            },
            None => {},
        }
        self.put_entry(record, entry);
        assert(self.entries() == told);
    }
}

impl DelegationRecordMirror {
    /// Forgets everything; the stream has to prove its completeness anew.
    pub fn clear(&mut self)
        requires
            old(self).wf(),
        ensures
            final(self).wf(),
            final(self).entries().len() == 0,
            final(self).watermark() == 0,
            !final(self).live(),
            final(self).capacity() == old(self).capacity(),
            final(self).max_bytes() == old(self).max_bytes(),
            final(self).validator() == old(self).validator(),
    {
        self.entries.clear();
        self.retained_data_bytes = 0;
        self.watermark = 0;
        self.live = false;
    }

    /// Whether the entries are complete through `slot`.
    pub fn is_complete_through(&self, slot: u64) -> (r: bool)
        ensures
            r == self.complete_through(slot),
    {
        self.live && self.watermark >= slot
    }

    /// Whether `update` is one that changes the mirror itself.
    pub open spec fn applies(update: RecordStreamUpdate) -> bool {
        !(update is DelegationObserved) && !(update is UndelegationRequested)
    }

    /// Whether `after` is this mirror after `update`.
    pub open spec fn applied(&self, update: RecordStreamUpdate, after: Self) -> bool {
        &&& after.capacity() == self.capacity()
        &&& after.max_bytes() == self.max_bytes()
        &&& after.validator() == self.validator()
        &&& match update {
            RecordStreamUpdate::Record { record, data, slot } => {
                &&& after.watermark() == self.watermark()
                &&& after.live() == self.live()
                &&& exists|retained: usize|
                    {
                        &&& data@.len() <= retained
                        &&& after.entries() == #[trigger] entry_told(
                            self.entries(),
                            self.capacity(),
                            self.max_bytes(),
                            record,
                            RecordEntry { slot, data: Some(data), retained },
                        )
                    }
            },
            RecordStreamUpdate::RecordUndelegated { record, slot } => {
                &&& after.watermark() == self.watermark()
                &&& after.live() == self.live()
                &&& after.entries() == entry_told(
                    self.entries(),
                    self.capacity(),
                    self.max_bytes(),
                    record,
                    RecordEntry { slot, data: None, retained: 0 },
                )
            },
            RecordStreamUpdate::SlotAdvanced(slot) => {
                &&& after.entries() == self.entries()
                &&& after.live()
                &&& after.watermark() == if slot > self.watermark() {
                    slot
                } else {
                    self.watermark()
                }
            },
            RecordStreamUpdate::SyncInterrupted | RecordStreamUpdate::SyncTerminated => {
                &&& after.entries().len() == 0
                &&& after.watermark() == 0
                &&& !after.live()
            },
            _ => false,
        }
    }

    /// Takes an update that changes the mirror itself.
    pub fn apply(&mut self, update: RecordStreamUpdate)
        requires
            old(self).wf(),
            Self::applies(update),
        ensures
            final(self).wf(),
            old(self).applied(update, *final(self)),
    {
        match update {
            RecordStreamUpdate::Record { record, data, slot } => {
                self.insert(Pubkey { bytes: record }, slot, Some(data));
            },
            RecordStreamUpdate::RecordUndelegated { record, slot } => {
                self.insert(Pubkey { bytes: record }, slot, None);
            },
            RecordStreamUpdate::SlotAdvanced(slot) => {
                if slot > self.watermark {
                    self.watermark = slot;
                }
                self.live = true;
            },
            RecordStreamUpdate::SyncInterrupted => {
                self.clear();
            },
            RecordStreamUpdate::SyncTerminated => {
                self.clear();
            },
            _ => {},
        }
    }

    /// Whether a request to undelegate, observed at `observed_slot`, is handed on when the
    /// account's record is kept at `record`: unless the record is known to be current and to
    /// name another validator.
    pub open spec fn forwards_request(&self, record: Pubkey, observed_slot: u64) -> bool {
        match self.validator() {
            None => true,
            Some(validator) => match self.known(record) {
                None => true,
                Some(entry) => {
                    ||| entry.slot < observed_slot && !self.complete_through(observed_slot)
                    ||| match entry.data {
                        None => true,
                        Some(data) => !is_record(data@) || names_validator_or_nobody(
                            data@,
                            validator,
                        ),
                    }
                },
            },
        }
    }

    /// Whether a request is handed on, by the record kept at `record`.
    pub fn forwards_request_of(&self, record: &Pubkey, observed_slot: u64) -> (r: bool)
        requires
            self.wf(),
        ensures
            r == self.forwards_request(*record, observed_slot),
    {
        let validator = match self.validator_pubkey {
            Some(validator) => validator,
            None => {
                return true;
            },
        };
        let entry = match self.entries.peek(record) {
            Some(entry) => entry,
            None => {
                return true;
            },
        };
        let authority_is_current = entry.slot >= observed_slot || (self.live && self.watermark
            >= observed_slot);
        if !authority_is_current {
            return true;
        }
        match &entry.data {
            None => true,
            Some(data) => match read_record(data.as_slice()) {
                Err(_) => true,
                Ok(known) => {
                    proof {
                        if known.authority@ == validator@ {
                            lemma_pubkey_bytes_determine(known.authority, validator);
                        }
                    }
                    is_delegated_to_validator_or_confined(&known.authority, &validator)
                },
            },
        }
    }

    /// Whether `forwards` says if a request to undelegate `delegated_account` is handed on, by
    /// the record of that account.
    pub open spec fn forwards_request_for(
        &self,
        delegated_account: Pubkey,
        observed_slot: u64,
        forwards: bool,
    ) -> bool {
        forall|record: Pubkey|
            record@ == delegation_record_address(delegated_account@) ==> forwards
                == #[trigger] self.forwards_request(record, observed_slot)
    }

    /// Whether a request to undelegate `delegated_account` is handed on.
    pub fn should_forward_undelegation_request(
        &self,
        delegated_account: &Pubkey,
        observed_slot: u64,
    ) -> (r: bool)
        requires
            self.wf(),
        ensures
            self.forwards_request_for(*delegated_account, observed_slot, r),
    {
        let record = delegation_record_pda(delegated_account);
        let r = self.forwards_request_of(&record, observed_slot);
        proof {
            assert forall|other: Pubkey|
                other@ == delegation_record_address(delegated_account@) implies r
                == #[trigger] self.forwards_request(other, observed_slot) by {
                lemma_pubkey_bytes_determine(other, record);
            }
        }
        r
    }

    /// Whether `event` is what a request to undelegate leads to: the request, if the record of
    /// its account lets it be handed on, and nothing otherwise.
    pub open spec fn hands_on_request(
        &self,
        request: ObservedUndelegationRequest,
        event: MirrorEvent,
    ) -> bool {
        forall|record: Pubkey|
            record@ == delegation_record_address(request.delegated_account@) ==> event == if (
            #[trigger] self.forwards_request(record, request.observed_slot)) {
                MirrorEvent::UndelegationRequested(request)
            } else {
                MirrorEvent::Nothing
            }
    }

    /// Takes one update of the stream. Delegations and requests are handed on, the latter only
    /// if they can concern the validator; everything else goes into the mirror.
    pub fn consume(&mut self, update: RecordStreamUpdate) -> (r: MirrorEvent)
        requires
            old(self).wf(),
        ensures
            final(self).wf(),
            Self::applies(update) ==> r is Nothing && old(self).applied(update, *final(self)),
            !Self::applies(update) ==> *final(self) == *old(self),
            update matches RecordStreamUpdate::DelegationObserved {
                delegated_account,
                record,
                slot,
            } ==> r == MirrorEvent::Discovered(
                DiscoveredDelegation {
                    delegated_account: Pubkey { bytes: delegated_account },
                    record: Pubkey { bytes: record },
                    slot,
                },
            ),
            update matches RecordStreamUpdate::UndelegationRequested {
                request_pda,
                delegated_account,
                expires_at_slot,
                slot,
            } ==> old(self).hands_on_request(
                ObservedUndelegationRequest {
                    request_pda: Pubkey { bytes: request_pda },
                    delegated_account: Pubkey { bytes: delegated_account },
                    expires_at_slot,
                    observed_slot: slot,
                },
                r,
            ),
    {
        match update {
            RecordStreamUpdate::DelegationObserved { delegated_account, record, slot } => {
                MirrorEvent::Discovered(
                    DiscoveredDelegation {
                        delegated_account: Pubkey { bytes: delegated_account },
                        record: Pubkey { bytes: record },
                        slot,
                    },
                )
            },
            RecordStreamUpdate::UndelegationRequested {
                request_pda,
                delegated_account,
                expires_at_slot,
                slot,
            } => {
                let delegated_account = Pubkey { bytes: delegated_account };
                if !self.should_forward_undelegation_request(&delegated_account, slot) {
                    return MirrorEvent::Nothing;
                }
                MirrorEvent::UndelegationRequested(
                    ObservedUndelegationRequest {
                        request_pda: Pubkey { bytes: request_pda },
                        delegated_account,
                        expires_at_slot,
                        observed_slot: slot,
                    },
                )
            },
            update => {
                self.apply(update);
                MirrorEvent::Nothing
            },
        }
    }

    /// Whether `lookup` is what the mirror says about `record` to somebody who needs it to be
    /// current at `min_context_slot`.
    pub open spec fn answers(
        &self,
        record: Pubkey,
        min_context_slot: u64,
        lookup: MirrorLookup,
    ) -> bool {
        match self.known(record) {
            None => lookup is Miss,
            Some(entry) => if entry.slot < min_context_slot && !self.complete_through(
                min_context_slot,
            ) {
                lookup is Miss
            } else {
                match entry.data {
                    Some(known) => lookup matches MirrorLookup::Hit { data, slot } && data@
                        == known@ && slot == entry.slot,
                    None => lookup matches MirrorLookup::Tombstone { slot } && slot
                        == entry.slot,
                }
            },
        }
    }

    /// Looks `record` up, which makes it the most recently used one. Says too why there was no
    /// record to be had.
    pub fn lookup(&mut self, record: &Pubkey, min_context_slot: u64) -> (r: (
        MirrorLookup,
        Option<RecordMirrorLookupOutcome>,
    ))
        requires
            old(self).wf(),
        ensures
            final(self).wf(),
            old(self).answers(*record, min_context_slot, r.0),
            r.1 == match r.0 {
                MirrorLookup::Hit { .. } => None,
                MirrorLookup::Tombstone { .. } => Some(RecordMirrorLookupOutcome::Tombstone),
                MirrorLookup::Miss => Some(
                    if old(self).known(*record) is None {
                        RecordMirrorLookupOutcome::Miss
                    } else {
                        RecordMirrorLookupOutcome::Stale
                    },
                ),
            },
            final(self).entries() == promoted(old(self).entries(), record.bytes),
            final(self).capacity() == old(self).capacity(),
            final(self).max_bytes() == old(self).max_bytes(),
            final(self).watermark() == old(self).watermark(),
            final(self).live() == old(self).live(),
            final(self).validator() == old(self).validator(),
    {
        let ghost before = self.entries();
        proof {
            lemma_position(before, record.bytes);
            let p = position(before, record.bytes);
            if holds(before, record.bytes) {
                lemma_retained_sum_parts(before, p);
                lemma_retained_sum_front(before[p], before.remove(p));
                let after = promoted(before, record.bytes);
                assert forall|i: int| 0 <= i < after.len() implies (
                #[trigger] after[i]).1.sound() by {
                    let j = if i == 0 {
                        p
                    } else if i - 1 < p {
                        i - 1
                    } else {
                        i
                    };
                    assert(after[i] == before[j]);
                }
            }
        }
        let watermark_is_fresh = self.live && self.watermark >= min_context_slot;
        self.entries.touch(record);
        proof {
            lemma_promoted_value(before, record.bytes);
        }
        let entry = match self.entries.peek(record) {
            Some(entry) => entry,
            None => {
                return (MirrorLookup::Miss, Some(RecordMirrorLookupOutcome::Miss));
            },
        };
        if entry.slot < min_context_slot && !watermark_is_fresh {
            return (MirrorLookup::Miss, Some(RecordMirrorLookupOutcome::Stale));
        }
        match &entry.data {
            Some(data) => (
                MirrorLookup::Hit { data: copy_bytes(data.as_slice()), slot: entry.slot },
                None,
            ),
            None => (
                MirrorLookup::Tombstone { slot: entry.slot },
                Some(RecordMirrorLookupOutcome::Tombstone),
            ),
        }
    }

    /// What the mirror says about `record`; the record becomes the most recently used one.
    pub fn get(&mut self, record: &Pubkey, min_context_slot: u64) -> (r: MirrorLookup)
        requires
            old(self).wf(),
        ensures
            final(self).wf(),
            old(self).answers(*record, min_context_slot, r),
            final(self).entries() == promoted(old(self).entries(), record.bytes),
            final(self).capacity() == old(self).capacity(),
            final(self).max_bytes() == old(self).max_bytes(),
            final(self).watermark() == old(self).watermark(),
            final(self).live() == old(self).live(),
            final(self).validator() == old(self).validator(),
    {
        self.lookup(record, min_context_slot).0
    }

    /// As `get`, for somebody who only wants to know whether something can be done.
    pub fn probe(&mut self, record: &Pubkey, min_context_slot: u64) -> (r: MirrorLookup)
        requires
            old(self).wf(),
        ensures
            final(self).wf(),
            old(self).answers(*record, min_context_slot, r),
            final(self).entries() == promoted(old(self).entries(), record.bytes),
            final(self).capacity() == old(self).capacity(),
            final(self).max_bytes() == old(self).max_bytes(),
            final(self).watermark() == old(self).watermark(),
            final(self).live() == old(self).live(),
            final(self).validator() == old(self).validator(),
    {
        self.lookup(record, min_context_slot).0
    }

    /// Forgets what is known about `record`.
    pub fn invalidate(&mut self, record: &Pubkey)
        requires
            old(self).wf(),
        ensures
            final(self).wf(),
            final(self).entries() == without(old(self).entries(), record.bytes),
            final(self).capacity() == old(self).capacity(),
            final(self).max_bytes() == old(self).max_bytes(),
            final(self).watermark() == old(self).watermark(),
            final(self).live() == old(self).live(),
            final(self).validator() == old(self).validator(),
    {
        let ghost before = self.entries();
        proof {
            lemma_position(before, record.bytes);
            let p = position(before, record.bytes);
            if holds(before, record.bytes) {
                lemma_retained_sum_parts(before, p);
                let after = without(before, record.bytes);
                assert forall|i: int| 0 <= i < after.len() implies (
                #[trigger] after[i]).1.sound() by {
                    let j = if i < p {
                        i
                    } else {
                        i + 1
                    };
                    assert(after[i] == before[j]);
                }
            }
        }
        match self.entries.pop(record) {
            Some(entry) => {
                self.retained_data_bytes = self.retained_data_bytes.saturating_sub(
                    entry.retained_data_bytes(),
                );
            },
            None => {},
        }
    }

    /// Whether something is known about `record`.
    pub fn contains(&self, record: &Pubkey) -> (r: bool)
        requires
            self.wf(),
        ensures
            r == (self.known(*record) is Some),
    {
        self.entries.peek(record).is_some()
    }

    /// The memory that the bytes of all records take.
    pub fn retained_data_bytes(&self) -> (r: usize)
        requires
            self.wf(),
        ensures
            r == retained_sum(self.entries()),
    {
        self.retained_data_bytes
    }

    /// The memory that the bytes of all records may take.
    pub fn max_retained_data_bytes(&self) -> (r: usize)
        ensures
            r == self.max_bytes(),
    {
        self.max_retained_data_bytes
    }
}

/// Moving an entry to the front changes no value.
pub proof fn lemma_promoted_value<T>(entries: Seq<([u8; 32], T)>, key: [u8; 32])
    ensures
        value_of(promoted(entries, key), key) == value_of(entries, key),
{
    lemma_position(entries, key);
    if holds(entries, key) {
        let after = promoted(entries, key);
        assert(after[0] == entries[position(entries, key)]);
        assert(position(after, key) == 0);
    }
}

/// Every entry of `after` but the one of `key` was there `before`.
spec fn others_kept(
    before: Seq<([u8; 32], RecordEntry)>,
    after: Seq<([u8; 32], RecordEntry)>,
    key: [u8; 32],
) -> bool {
    forall|i: int|
        0 <= i < after.len() && (#[trigger] after[i]).0 != key ==> before.contains(after[i])
}

proof fn lemma_put_keeps_others(
    entries: Seq<([u8; 32], RecordEntry)>,
    capacity: nat,
    max: nat,
    key: [u8; 32],
    entry: RecordEntry,
)
    requires
        0 < capacity,
    ensures
        others_kept(entries, entry_put(entries, capacity, max, key, entry), key),
        entry.retained <= max ==> value_of(entry_put(entries, capacity, max, key, entry), key)
            == Some(entry),
        entry.retained > max && keys_distinct(entries) ==> value_of(
            entry_put(entries, capacity, max, key, entry),
            key,
        ) is None,
{
    lemma_position(entries, key);
    let p = position(entries, key);
    let gone = without(entries, key);
    assert forall|i: int| 0 <= i < gone.len() implies entries.contains(#[trigger] gone[i]) by {
        let j = if holds(entries, key) && i >= p {
            i + 1
        } else {
            i
        };
        assert(gone[i] == entries[j]);
    }
    let after = entry_put(entries, capacity, max, key, entry);
    if entry.retained <= max {
        let put = pushed(entries, capacity, key, entry);
        lemma_trimmed(put, max);
        assert(put[0] == (key, entry));
        assert forall|i: int| 0 < i < put.len() implies entries.contains(#[trigger] put[i]) by {
            if holds(entries, key) {
                assert(put[i] == gone[i - 1]);
            } else {
                assert(put[i] == entries[i - 1]);
            }
        }
        assert(after[0] == put[0]);
        assert(position(after, key) == 0);
        assert forall|i: int|
            0 <= i < after.len() && (#[trigger] after[i]).0 != key implies entries.contains(
            after[i],
        ) by {
            assert(after[i] == put[i]);
        }
    } else if keys_distinct(entries) {
        lemma_position(after, key);
        if holds(after, key) {
            let q = position(after, key);
            let j = if holds(entries, key) && q >= p {
                q + 1
            } else {
                q
            };
            assert(after[q] == entries[j]);
            if holds(entries, key) {
                lemma_position_of(entries, j);
            } else {
                assert(entries[j].0 != key);
            }
        }
    }
}

/// Putting an entry keeps the bounds of a mirror: no more records than there is room for, and no
/// more bytes. An entry whose bytes take more than there is room for is not kept, neither is what
/// was known about its record, and all other entries stay as they are. Any other entry is kept
/// as the most recently used one. The entries that stay besides it are those used most recently,
/// in their order, and one more of them would have been too many or taken too much.
pub proof fn law_put_lets_go_of_the_least_recently_used(
    entries: Seq<([u8; 32], RecordEntry)>,
    capacity: nat,
    max: nat,
    key: [u8; 32],
    entry: RecordEntry,
)
    requires
        0 < capacity,
        entries.len() <= capacity,
        retained_sum(entries) <= max,
        keys_distinct(entries),
    ensures
        ({
            let after = entry_put(entries, capacity, max, key, entry);
            let others = without(entries, key);
            &&& after.len() <= capacity
            &&& retained_sum(after) <= max
            &&& keys_distinct(after)
            &&& if entry.retained > max {
                &&& after == others
                &&& value_of(after, key) is None
                &&& forall|other: [u8; 32]|
                    other != key ==> #[trigger] value_of(after, other) == value_of(entries, other)
            } else {
                &&& value_of(after, key) == Some(entry)
                &&& after.len() >= 1
                &&& after == seq![(key, entry)] + others.take(after.len() - 1)
                &&& after.len() - 1 < others.len() ==> {
                    ||| after.len() == capacity
                    ||| retained_sum(seq![(key, entry)] + others.take(after.len() as int)) > max
                }
            }
        }),
{
    let after = entry_put(entries, capacity, max, key, entry);
    let others = without(entries, key);
    lemma_put_keeps_others(entries, capacity, max, key, entry);
    lemma_position(entries, key);
    let p = position(entries, key);
    if holds(entries, key) {
        lemma_retained_sum_parts(entries, p);
    }
    lemma_others_distinct(entries, key);
    if entry.retained > max {
        assert forall|other: [u8; 32]| other != key implies #[trigger] value_of(after, other)
            == value_of(entries, other) by {
            lemma_without_keeps(entries, key, other);
        }
    } else {
        let put = pushed(entries, capacity, key, entry);
        lemma_trimmed(put, max);
        lemma_trimmed_is_longest(put, max);
        let n = after.len() as int;
        let fitting = put.len() - 1;
        assert(put =~= seq![(key, entry)] + others.take(fitting));
        assert(after =~= seq![(key, entry)] + others.take(n - 1));
        if n < put.len() {
            assert(put.take(n + 1) =~= seq![(key, entry)] + others.take(n));
        }
        assert forall|i: int, j: int| 0 <= i < j < after.len() implies (#[trigger] after[i]).0
            != (#[trigger] after[j]).0 by {
            assert(after[j] == others[j - 1]);
            if i > 0 {
                assert(after[i] == others[i - 1]);
            }
        }
    }
}

/// What is told about a record is what a lookup gives back, unless something newer is known,
/// something else is known from the same slot, or the bytes take more room than there is.
pub proof fn law_read_gives_back_what_was_told(
    entries: Seq<([u8; 32], RecordEntry)>,
    capacity: nat,
    max: nat,
    key: [u8; 32],
    entry: RecordEntry,
)
    requires
        0 < capacity,
        entry.retained <= max,
        value_of(entries, key) matches Some(known) ==> known.slot < entry.slot || known.slot
            == entry.slot && data_view(known.data) == data_view(entry.data),
    ensures
        value_of(entry_told(entries, capacity, max, key, entry), key) == Some(entry),
{
    lemma_put_keeps_others(entries, capacity, max, key, entry);
}

/// Two updates of one slot that say different things leave a tombstone, so that the chain is
/// asked.
pub proof fn law_conflict_leaves_tombstone(
    entries: Seq<([u8; 32], RecordEntry)>,
    capacity: nat,
    max: nat,
    key: [u8; 32],
    entry: RecordEntry,
)
    requires
        0 < capacity,
        value_of(entries, key) matches Some(known) && known.slot == entry.slot && data_view(
            known.data,
        ) != data_view(entry.data),
    ensures
        value_of(entry_told(entries, capacity, max, key, entry), key) == Some(
            RecordEntry { slot: entry.slot, data: None, retained: 0 },
        ),
{
    lemma_put_keeps_others(
        entries,
        capacity,
        max,
        key,
        RecordEntry { slot: entry.slot, data: None, retained: 0 },
    );
}

/// What is known never gets older, and an update changes what is known about its own record
/// only: about any other the mirror then knows the same or nothing.
pub proof fn law_knowledge_never_gets_older(
    entries: Seq<([u8; 32], RecordEntry)>,
    capacity: nat,
    max: nat,
    key: [u8; 32],
    entry: RecordEntry,
    other: [u8; 32],
)
    requires
        0 < capacity,
        keys_distinct(entries),
    ensures
        value_of(entry_told(entries, capacity, max, key, entry), key) matches Some(now) ==> (
        value_of(entries, key) matches Some(known) ==> known.slot <= now.slot),
        other != key ==> {
            let now = value_of(entry_told(entries, capacity, max, key, entry), other);
            now is None || now == value_of(entries, other)
        },
{
    let tombstone = RecordEntry { slot: entry.slot, data: None, retained: 0 };
    lemma_put_keeps_others(entries, capacity, max, key, entry);
    lemma_put_keeps_others(entries, capacity, max, key, tombstone);
    let after = entry_told(entries, capacity, max, key, entry);
    if other != key && after != entries && holds(after, other) {
        lemma_position(after, other);
        let q = position(after, other);
        assert(entries.contains(after[q]));
        let j = choose|j: int| 0 <= j < entries.len() && entries[j] == after[q];
        lemma_position_of(entries, j);
    }
}

impl DelegationRecordMirror {
    /// A hit is current: it was told at or after the slot that is asked for, or the stream has
    /// proved that nothing changed up to there. A mirror that was cleared has no answer.
    pub proof fn law_hits_are_current(
        &self,
        record: Pubkey,
        min_context_slot: u64,
        lookup: MirrorLookup,
    )
        requires
            self.answers(record, min_context_slot, lookup),
        ensures
            lookup matches MirrorLookup::Hit { data, slot } ==> slot >= min_context_slot
                || self.complete_through(min_context_slot),
            lookup matches MirrorLookup::Tombstone { slot } ==> slot >= min_context_slot
                || self.complete_through(min_context_slot),
            self.entries().len() == 0 ==> lookup is Miss,
    {
        lemma_position(self.entries(), record.bytes);
    }
}

/// Where a source of records can be reached.
#[derive(Debug)]
pub enum Endpoint {
    Rpc { url: String, label: String },
    WebSocket { url: String, label: String },
    Grpc { url: String, label: String, api_key: String },
}

/// What a configuration says about the record stream.
#[derive(Debug)]
pub struct RecordSyncConfig {
    pub enabled: bool,
    /// An address for the stream in place of the remote's.
    pub endpoint: Option<String>,
    /// A key for the stream in place of the remote's.
    pub api_key: Option<String>,
    pub capacity: usize,
}

/// The address and the key of the first stream source among `endpoints`.
pub open spec fn first_grpc(endpoints: Seq<Endpoint>) -> Option<(Seq<char>, Seq<char>)>
    decreases endpoints.len(),
{
    if endpoints.len() == 0 {
        None
    } else {
        match endpoints[0] {
            Endpoint::Grpc { url, api_key, .. } => Some((url@, api_key@)),
            _ => first_grpc(endpoints.drop_first()),
        }
    }
}

/// A setting of one's own, or else what the remote gives.
pub open spec fn setting_or(setting: Option<String>, remote: Option<Seq<char>>) -> Option<
    Seq<char>,
> {
    match setting {
        Some(setting) => Some(setting@),
        None => remote,
    }
}

/// Where to reach the record stream and with which key. Each can be set by itself; what is not
/// set comes from the first stream source among the remotes.
pub fn resolve_endpoint(config: &RecordSyncConfig, endpoints: &Vec<Endpoint>) -> (r: Option<
    (String, String),
>)
    ensures
        ({
            let remote = first_grpc(endpoints@);
            let url = setting_or(
                config.endpoint,
                match remote {
                    Some((url, _)) => Some(url),
                    None => None,
                },
            );
            let api_key = setting_or(
                config.api_key,
                match remote {
                    Some((_, api_key)) => Some(api_key),
                    None => None,
                },
            );
            match r {
                Some((u, k)) => url == Some(u@) && api_key == Some(k@),
                None => url is None || api_key is None,
            }
        }),
{
    let mut remote: Option<(String, String)> = None;
    let mut i: usize = 0;
    assert(endpoints@.skip(0) =~= endpoints@);
    while i < endpoints.len() && remote.is_none()
        invariant
            i <= endpoints.len(),
            match remote {
                Some((url, api_key)) => first_grpc(endpoints@) == Some((url@, api_key@)),
                None => first_grpc(endpoints@) == first_grpc(endpoints@.skip(i as int)),
            },
        decreases endpoints.len() - i,
    {
        assert(endpoints@.skip(i as int).drop_first() =~= endpoints@.skip(i + 1));
        match &endpoints[i] {
            Endpoint::Grpc { url, api_key, .. } => {
                remote = Some((url.clone(), api_key.clone()));
            },
            _ => {},
        }
        i = i + 1;
    }
    let url = match (&config.endpoint, &remote) {
        (Some(url), _) => url.clone(),
        (None, Some((url, _))) => url.clone(),
        (None, None) => {
            return None;
        },
    };
    let api_key = match (&config.api_key, &remote) {
        (Some(api_key), _) => api_key.clone(),
        (None, Some((_, api_key))) => api_key.clone(),
        (None, None) => {
            return None;
        },
    };
    Some((url, api_key))
}

fn same_data(a: &Option<Vec<u8>>, b: &Option<Vec<u8>>) -> (r: bool)
    ensures
        r == (data_view(*a) == data_view(*b)),
{
    match (a, b) {
        (Some(a), Some(b)) => same_bytes(a.as_slice(), b.as_slice()),
        (None, None) => true,
        _ => false,
    }
}

} // verus!
