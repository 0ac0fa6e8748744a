//! What holds of the mirror of delegation records, and of maps that let go of what is old.
use vstd::prelude::*;
use crate::chainlink::record_mirror::{
    data_view, entry_told, lemma_promoted_value, resolve_endpoint, DelegationRecordMirror,
    DiscoveredDelegation, Endpoint, MirrorEvent, MirrorLookup, ObservedUndelegationRequest,
    RecordEntry, RecordMirrorLookupOutcome, RecordSyncConfig,
};
use crate::chainlink::record_stream::RecordStreamUpdate;
use crate::laws::delegation::{is_marked, lemma_marked};
use crate::lru_map::{
    holds, keys_distinct, lemma_position, lemma_position_of, lemma_pushed_value,
    lemma_without_keeps, position, promoted, value_of, without, LruMap,
};
use crate::pda::delegation_record_address;
use crate::pubkey::Pubkey;

verus! {

/// The value of a key is the one that its entry has, and there is none without an entry.
pub proof fn law_values_are_those_of_entries<T>(
    entries: Seq<([u8; 32], T)>,
    key: [u8; 32],
    value: T,
)
    requires
        keys_distinct(entries),
    ensures
        value_of(entries, key) == Some(value) <==> entries.contains((key, value)),
        value_of(entries, key) is None <==> forall|i: int|
            0 <= i < entries.len() ==> (#[trigger] entries[i]).0 != key,
{
    lemma_position(entries, key);
    if entries.contains((key, value)) {
        let i = choose|i: int| 0 <= i < entries.len() && entries[i] == (key, value);
        lemma_position_of(entries, i);
    }
    if value_of(entries, key) == Some(value) {
        assert(entries[position(entries, key)] == (key, value));
    }
    if !holds(entries, key) {
        assert forall|i: int| 0 <= i < entries.len() implies (#[trigger] entries[i]).0 != key by {
            assert(i < position(entries, key));
        }
    } else {
        assert(entries[position(entries, key)].0 == key);
    }
}

/// What is put into a map can be had from it, and nobody else's value changes unless it leaves:
/// that is only the least recently used one, and only if the map is full.
pub proof fn law_maps_keep_what_is_put<V>(
    map: &mut LruMap<V>,
    key: Pubkey,
    value: V,
    r: Option<(Pubkey, V)>,
    other: Pubkey,
)
    requires
        old(map).wf(),
        call_ensures(LruMap::<V>::push, (map, key, value), r),
    ensures
        final(map).value(key) == Some(value),
        final(map).entries().len() <= final(map).capacity(),
        final(map).capacity() == old(map).capacity(),
        final(map).entries().len() > 0 && final(map).entries()[0] == (key.bytes, value),
        other != key && final(map).value(other) != old(map).value(other) ==> {
            &&& old(map).value(key) is None
            &&& old(map).entries().len() == old(map).capacity()
            &&& old(map).entries().last().0 == other.bytes
            &&& final(map).value(other) is None
        },
        old(map).value(key) is Some ==> r == Some((key, old(map).value(key)->0)),
        old(map).value(key) is None ==> (r is Some <==> old(map).entries().len()
            == old(map).capacity()),
{
    old(map).lemma_wf();
    final(map).lemma_wf();
    let before = old(map).entries();
    let after = final(map).entries();
    lemma_position(before, key.bytes);
    assert(after[0] == (key.bytes, value));
    lemma_position_of(after, 0);
    lemma_pushed_value(before, old(map).capacity(), key.bytes, value, other.bytes);
    if other != key {
        assert(other.bytes != key.bytes);
        if !holds(before, key.bytes) && before.len() == old(map).capacity() {
            lemma_position(before, other.bytes);
            lemma_position(after, other.bytes);
            if holds(before, other.bytes) && position(before, other.bytes) < before.len() - 1 {
                let i = position(before, other.bytes);
                assert(after[i + 1] == before[i]);
                lemma_position_of(after, i + 1);
            } else if holds(before, other.bytes) {
                assert(before.last().0 == other.bytes);
                if holds(after, other.bytes) {
                    let j = position(after, other.bytes);
                    assert(j > 0);
                    assert(after[j] == before[j - 1]);
                    assert(before[before.len() - 1].0 == before[j - 1].0);
                }
            } else {
                if holds(after, other.bytes) {
                    let j = position(after, other.bytes);
                    assert(after[j] == before[j - 1]);
                    lemma_position_of(before, j - 1);
                }
            }
        }
    }
}

/// Looking for a value makes its entry the most recently used one and changes no value.
pub proof fn law_touching_changes_no_value<V>(
    map: &mut LruMap<V>,
    key: Pubkey,
    r: bool,
    other: Pubkey,
)
    requires
        old(map).wf(),
        call_ensures(LruMap::<V>::touch, (map, &key), r),
    ensures
        r <==> old(map).value(key) is Some,
        final(map).value(other) == old(map).value(other),
        final(map).entries().len() == old(map).entries().len(),
        r ==> final(map).entries()[0].0 == key.bytes,
{
    old(map).lemma_wf();
    final(map).lemma_wf();
    lemma_kept_by_promotion(old(map).entries(), key.bytes, other.bytes);
}

proof fn lemma_kept_by_promotion<T>(
    entries: Seq<([u8; 32], T)>,
    key: [u8; 32],
    other: [u8; 32],
)
    requires
        keys_distinct(entries),
    ensures
        value_of(promoted(entries, key), other) == value_of(entries, other),
        promoted(entries, key).len() == entries.len(),
        holds(entries, key) ==> promoted(entries, key)[0].0 == key,
{
    lemma_position(entries, key);
    lemma_promoted_value(entries, key);
    if key != other && holds(entries, key) {
        lemma_without_keeps(entries, key, other);
        let after = promoted(entries, key);
        let rest = without(entries, key);
        assert(after[0].0 == key);
        lemma_position(rest, other);
        lemma_position(after, other);
        assert(after.drop_first() =~= rest);
    }
}

/// What is taken out of a map is gone from it, and nothing else is.
pub proof fn law_popped_values_are_gone<V>(
    map: &mut LruMap<V>,
    key: Pubkey,
    r: Option<V>,
    other: Pubkey,
)
    requires
        old(map).wf(),
        call_ensures(LruMap::<V>::pop, (map, &key), r),
    ensures
        r == old(map).value(key),
        final(map).value(key) is None,
        other != key ==> final(map).value(other) == old(map).value(other),
{
    old(map).lemma_wf();
    final(map).lemma_wf();
    let before = old(map).entries();
    let after = final(map).entries();
    lemma_position(before, key.bytes);
    lemma_position(after, key.bytes);
    if holds(after, key.bytes) {
        let j = position(after, key.bytes);
        if holds(before, key.bytes) {
            let p = position(before, key.bytes);
            if j < p {
                assert(after[j] == before[j]);
            } else {
                assert(after[j] == before[j + 1]);
                assert(before[p].0 == before[j + 1].0);
            }
        }
        assert(false);
    }
    if other != key {
        assert(other.bytes != key.bytes);
        lemma_without_keeps(before, key.bytes, other.bytes);
    }
}

/// Whether the mirror knows something about a record that still counts at a slot.
pub open spec fn counts_at(mirror: DelegationRecordMirror, entry: RecordEntry, slot: u64) -> bool {
    entry.slot >= slot || (mirror.live() && mirror.watermark() >= slot)
}

/// A lookup gives the bytes that are known, if they are current enough; says that the record
/// was given up, if that is what is known; and gives nothing otherwise. No lookup changes what
/// is known.
pub proof fn law_lookups_give_what_is_known(
    mirror: &mut DelegationRecordMirror,
    record: Pubkey,
    min_context_slot: u64,
    r: MirrorLookup,
    other: Pubkey,
)
    requires
        old(mirror).wf(),
        call_ensures(DelegationRecordMirror::get, (mirror, &record, min_context_slot), r)
            || call_ensures(DelegationRecordMirror::probe, (mirror, &record, min_context_slot), r),
    ensures
        match old(mirror).known(record) {
            None => r is Miss,
            Some(entry) => if !counts_at(*old(mirror), entry, min_context_slot) {
                r is Miss
            } else {
                match entry.data {
                    Some(known) => r matches MirrorLookup::Hit { data, slot } && data@ == known@
                        && slot == entry.slot,
                    None => r matches MirrorLookup::Tombstone { slot } && slot == entry.slot,
                }
            },
        },
        final(mirror).known(other) == old(mirror).known(other),
        final(mirror).live() == old(mirror).live(),
        final(mirror).watermark() == old(mirror).watermark(),
{
    old(mirror).law_retained_bytes_are_bounded();
    lemma_kept_by_promotion(old(mirror).entries(), record.bytes, other.bytes);
}

/// A lookup says why it gave no bytes: there are none to be had, they may be outdated, or the
/// record was given up.
pub proof fn law_lookups_say_why(
    mirror: &mut DelegationRecordMirror,
    record: Pubkey,
    min_context_slot: u64,
    r: (MirrorLookup, Option<RecordMirrorLookupOutcome>),
)
    requires
        old(mirror).wf(),
        call_ensures(DelegationRecordMirror::lookup, (mirror, &record, min_context_slot), r),
    ensures
        r.0 is Hit <==> r.1 is None,
        r.0 is Tombstone <==> r.1 == Some(RecordMirrorLookupOutcome::Tombstone),
        r.1 == Some(RecordMirrorLookupOutcome::Miss) <==> old(mirror).known(record) is None,
        r.1 == Some(RecordMirrorLookupOutcome::Stale) <==> (old(mirror).known(record) is Some
            && !counts_at(*old(mirror), old(mirror).known(record)->0, min_context_slot)),
{
}

/// What the stream tells of a record is what is known of it afterwards, unless something newer
/// or something else of the same slot was known before, or there is no room for the bytes.
pub proof fn law_told_records_are_known(
    mirror: &mut DelegationRecordMirror,
    record: [u8; 32],
    data: Vec<u8>,
    slot: u64,
    r: MirrorEvent,
)
    requires
        old(mirror).wf(),
        call_ensures(
            DelegationRecordMirror::consume,
            (mirror, RecordStreamUpdate::Record { record, data, slot }),
            r,
        ),
    ensures
        r is Nothing,
        final(mirror).watermark() == old(mirror).watermark(),
        final(mirror).live() == old(mirror).live(),
        ({
            let before = old(mirror).known(Pubkey { bytes: record });
            let after = final(mirror).known(Pubkey { bytes: record });
            &&& before is Some && (before->0).slot > slot ==> final(mirror).entries()
                == old(mirror).entries()
            &&& before is Some && (before->0).slot == slot && data_view((before->0).data) != Some(
                data@,
            ) ==> after is Some && (after->0).slot == slot && (after->0).data is None
            &&& before is None || (before->0).slot < slot || ((before->0).slot == slot
                && data_view((before->0).data) == Some(data@)) ==> after is None || ((
            after->0).slot == slot && data_view((after->0).data) == Some(data@))
        }),
{
    old(mirror).law_retained_bytes_are_bounded();
    let before = old(mirror).entries();
    let retained = choose|retained: usize|
        {
            &&& data@.len() <= retained
            &&& final(mirror).entries() == #[trigger] entry_told(
                before,
                old(mirror).capacity(),
                old(mirror).max_bytes(),
                record,
                RecordEntry { slot, data: Some(data), retained },
            )
        };
    let entry = RecordEntry { slot, data: Some(data), retained };
    lemma_told_value(*old(mirror), record, entry);
}

proof fn lemma_told_value(mirror: DelegationRecordMirror, record: [u8; 32], entry: RecordEntry)
    requires
        mirror.wf(),
    ensures
        ({
            let before = value_of(mirror.entries(), record);
            let after = value_of(
                entry_told(
                    mirror.entries(),
                    mirror.capacity(),
                    mirror.max_bytes(),
                    record,
                    entry,
                ),
                record,
            );
            &&& before is Some && (before->0).slot == entry.slot && data_view((before->0).data)
                != data_view(entry.data) ==> after == Some(
                RecordEntry { slot: entry.slot, data: None, retained: 0 },
            )
            &&& before is None || (before->0).slot < entry.slot || ((before->0).slot == entry.slot
                && data_view((before->0).data) == data_view(entry.data)) ==> after == (
            if entry.retained <= mirror.max_bytes() {
                Some(entry)
            } else {
                None
            })
        }),
{
    mirror.law_retained_bytes_are_bounded();
    let none = RecordEntry { slot: entry.slot, data: None, retained: 0 };
    crate::chainlink::record_mirror::law_put_lets_go_of_the_least_recently_used(
        mirror.entries(),
        mirror.capacity(),
        mirror.max_bytes(),
        record,
        entry,
    );
    crate::chainlink::record_mirror::law_put_lets_go_of_the_least_recently_used(
        mirror.entries(),
        mirror.capacity(),
        mirror.max_bytes(),
        record,
        none,
    );
}

/// A record that was given up is known as such, unless something newer is known.
pub proof fn law_given_up_records_are_known(
    mirror: &mut DelegationRecordMirror,
    record: [u8; 32],
    slot: u64,
    r: MirrorEvent,
)
    requires
        old(mirror).wf(),
        call_ensures(
            DelegationRecordMirror::consume,
            (mirror, RecordStreamUpdate::RecordUndelegated { record, slot }),
            r,
        ),
    ensures
        r is Nothing,
        ({
            let before = old(mirror).known(Pubkey { bytes: record });
            let after = final(mirror).known(Pubkey { bytes: record });
            if before is Some && (before->0).slot > slot {
                final(mirror).entries() == old(mirror).entries()
            } else {
                after is Some && (after->0).slot == slot && (after->0).data is None
            }
        }),
        final(mirror).watermark() == old(mirror).watermark(),
        final(mirror).live() == old(mirror).live(),
{
    lemma_told_value(*old(mirror), record, RecordEntry { slot, data: None, retained: 0 });
}

/// Taking note of bytes by hand is the same as being told them.
pub proof fn law_inserted_records_are_known(
    mirror: &mut DelegationRecordMirror,
    record: Pubkey,
    slot: u64,
    data: Option<Vec<u8>>,
)
    requires
        old(mirror).wf(),
        call_ensures(DelegationRecordMirror::insert, (mirror, record, slot, data), ()),
    ensures
        ({
            let before = old(mirror).known(record);
            let after = final(mirror).known(record);
            &&& before is Some && (before->0).slot > slot ==> final(mirror).entries()
                == old(mirror).entries()
            &&& before is Some && (before->0).slot == slot && data_view((before->0).data)
                != data_view(data) ==> after is Some && (after->0).slot == slot && (
            after->0).data is None
            &&& before is None || (before->0).slot < slot || ((before->0).slot == slot
                && data_view((before->0).data) == data_view(data)) ==> after is None || ((
            after->0).slot == slot && data_view((after->0).data) == data_view(data))
            &&& (before is None || (before->0).slot < slot) && data is None ==> after is Some
        }),
        final(mirror).watermark() == old(mirror).watermark(),
        final(mirror).live() == old(mirror).live(),
{
    let retained = choose|retained: usize|
        {
            let entry = RecordEntry { slot, data, retained };
            &&& entry.sound()
            &&& final(mirror).entries() == #[trigger] entry_told(
                old(mirror).entries(),
                old(mirror).capacity(),
                old(mirror).max_bytes(),
                record.bytes,
                RecordEntry { slot, data, retained },
            )
        };
    lemma_told_value(*old(mirror), record.bytes, RecordEntry { slot, data, retained });
}

/// A slot that is told makes the mirror live and complete through it, never through less than
/// before, and changes nothing of what is known.
pub proof fn law_told_slots_complete_the_mirror(
    mirror: &mut DelegationRecordMirror,
    slot: u64,
    r: MirrorEvent,
    other: Pubkey,
)
    requires
        old(mirror).wf(),
        call_ensures(
            DelegationRecordMirror::consume,
            (mirror, RecordStreamUpdate::SlotAdvanced(slot)),
            r,
        ),
    ensures
        r is Nothing,
        final(mirror).live(),
        final(mirror).watermark() >= slot && final(mirror).watermark() >= old(mirror).watermark(),
        final(mirror).watermark() == slot || final(mirror).watermark() == old(mirror).watermark(),
        final(mirror).known(other) == old(mirror).known(other),
{
}

/// An interruption makes the mirror forget all that it knew and be complete through nothing.
pub proof fn law_interruptions_forget_everything(
    mirror: &mut DelegationRecordMirror,
    terminated: bool,
    r: MirrorEvent,
    record: Pubkey,
)
    requires
        old(mirror).wf(),
        call_ensures(
            DelegationRecordMirror::consume,
            (
                mirror,
                if terminated {
                    RecordStreamUpdate::SyncTerminated
                } else {
                    RecordStreamUpdate::SyncInterrupted
                },
            ),
            r,
        ),
    ensures
        r is Nothing,
        final(mirror).known(record) is None,
        !final(mirror).live(),
        final(mirror).watermark() == 0,
{
    lemma_position(final(mirror).entries(), record.bytes);
}

/// So does clearing it.
pub proof fn law_cleared_mirrors_know_nothing(mirror: &mut DelegationRecordMirror, record: Pubkey)
    requires
        old(mirror).wf(),
        call_ensures(DelegationRecordMirror::clear, (mirror,), ()),
    ensures
        final(mirror).known(record) is None,
        !final(mirror).live(),
        final(mirror).watermark() == 0,
{
    lemma_position(final(mirror).entries(), record.bytes);
}

/// A mirror is complete through a slot exactly if the stream keeps it and told that slot or a
/// later one.
pub proof fn law_mirrors_are_complete_while_live(
    mirror: DelegationRecordMirror,
    slot: u64,
    r: bool,
)
    requires
        call_ensures(DelegationRecordMirror::is_complete_through, (&mirror, slot), r),
    ensures
        !mirror.live() ==> !r,
        mirror.live() ==> (r <==> slot <= mirror.watermark()),
{
}

/// What is invalidated is unknown afterwards, and all else is as it was.
pub proof fn law_invalidated_records_are_unknown(
    mirror: &mut DelegationRecordMirror,
    record: Pubkey,
    other: Pubkey,
)
    requires
        old(mirror).wf(),
        call_ensures(DelegationRecordMirror::invalidate, (mirror, &record), ()),
    ensures
        final(mirror).known(record) is None,
        other != record ==> final(mirror).known(other) == old(mirror).known(other),
        final(mirror).watermark() == old(mirror).watermark(),
        final(mirror).live() == old(mirror).live(),
{
    old(mirror).law_retained_bytes_are_bounded();
    let before = old(mirror).entries();
    let after = final(mirror).entries();
    lemma_position(before, record.bytes);
    lemma_position(after, record.bytes);
    if holds(after, record.bytes) {
        let j = position(after, record.bytes);
        if holds(before, record.bytes) {
            let p = position(before, record.bytes);
            if j < p {
                assert(after[j] == before[j]);
            } else {
                assert(after[j] == before[j + 1]);
                assert(before[p].0 == before[j + 1].0);
            }
        }
        assert(false);
    }
    if other != record {
        assert(other.bytes != record.bytes);
        lemma_without_keeps(before, record.bytes, other.bytes);
    }
}

/// The mirror knows something about a record exactly if it says so.
pub proof fn law_known_records_are_contained(
    mirror: DelegationRecordMirror,
    record: Pubkey,
    r: bool,
)
    requires
        mirror.wf(),
        call_ensures(DelegationRecordMirror::contains, (&mirror, &record), r),
    ensures
        r <==> exists|i: int|
            0 <= i < mirror.entries().len() && (#[trigger] mirror.entries()[i]).0 == record.bytes,
{
    mirror.law_retained_bytes_are_bounded();
    lemma_position(mirror.entries(), record.bytes);
    if r {
        assert(mirror.entries()[position(mirror.entries(), record.bytes)].0 == record.bytes);
    }
    if exists|i: int|
        0 <= i < mirror.entries().len() && (#[trigger] mirror.entries()[i]).0 == record.bytes {
        let i = choose|i: int|
            0 <= i < mirror.entries().len() && (#[trigger] mirror.entries()[i]).0 == record.bytes;
        lemma_position_of(mirror.entries(), i);
    }
}

/// A new mirror knows nothing, and has room for as many records of ordinary size as it was made
/// for.
pub proof fn law_new_mirrors_know_nothing(
    capacity: usize,
    validator: Option<Pubkey>,
    r: DelegationRecordMirror,
    record: Pubkey,
)
    requires
        capacity <= crate::lru_map::MAX_CAPACITY,
        call_ensures(DelegationRecordMirror::with_capacity, (capacity, validator), r),
    ensures
        r.known(record) is None,
        !r.live(),
        r.validator() == validator,
        capacity > 0 ==> r.capacity() == capacity && r.max_bytes() == 96 * capacity,
        r.capacity() > 0,
{
    lemma_position(r.entries(), record.bytes);
}

/// A delegation that the stream saw is handed on as it is; the mirror stays as it is.
pub proof fn law_observed_delegations_are_handed_on(
    mirror: &mut DelegationRecordMirror,
    delegated_account: [u8; 32],
    record: [u8; 32],
    slot: u64,
    r: MirrorEvent,
)
    requires
        old(mirror).wf(),
        call_ensures(
            DelegationRecordMirror::consume,
            (mirror, RecordStreamUpdate::DelegationObserved { delegated_account, record, slot }),
            r,
        ),
    ensures
        r == MirrorEvent::Discovered(
            DiscoveredDelegation {
                delegated_account: Pubkey { bytes: delegated_account },
                record: Pubkey { bytes: record },
                slot,
            },
        ),
        *final(mirror) == *old(mirror),
{
}

/// A request to undelegate is held back only if the mirror knows for certain that the account
/// is delegated to somebody else: it follows one validator, and the record that it knows is
/// whole, current, and names another validator.
pub proof fn law_requests_are_forwarded(
    mirror: DelegationRecordMirror,
    record: Pubkey,
    observed_slot: u64,
    r: bool,
)
    requires
        mirror.wf(),
        call_ensures(
            DelegationRecordMirror::forwards_request_of,
            (&mirror, &record, observed_slot),
            r,
        ),
    ensures
        !r <==> {
            &&& mirror.validator() matches Some(validator)
            &&& mirror.known(record) matches Some(entry)
            &&& counts_at(mirror, entry, observed_slot)
            &&& entry.data matches Some(data)
            &&& data@.len() >= 96
            &&& is_marked(data@, 100)
            &&& data@.subrange(8, 40) != validator@
            &&& exists|i: int| 8 <= i < 40 && #[trigger] data@[i] != 0
        },
{
    if mirror.known(record) is Some && (mirror.known(record)->0).data is Some {
        let data = ((mirror.known(record)->0).data->0)@;
        lemma_marked(data, 100);
        if data.len() >= 96 {
            let address = data.subrange(8, 40);
            let zero = crate::pubkey::zero_pubkey();
            if address == zero {
                assert forall|i: int| 8 <= i < 40 implies #[trigger] data[i] == 0 by {
                    assert(address[i - 8] == zero[i - 8]);
                }
            }
            if forall|i: int| 8 <= i < 40 ==> #[trigger] data[i] == 0 {
                assert forall|i: int| 0 <= i < 32 implies address[i] == zero[i] by {
                    assert(address[i] == data[8 + i]);
                }
                assert(address =~= zero);
            }
        }
    }
}

proof fn lemma_handed_on(
    mirror: DelegationRecordMirror,
    request: ObservedUndelegationRequest,
    record: Pubkey,
    r: MirrorEvent,
)
    requires
        mirror.hands_on_request(request, r),
        record@ == delegation_record_address(request.delegated_account@),
    ensures
        r == if mirror.forwards_request(record, request.observed_slot) {
            MirrorEvent::UndelegationRequested(request)
        } else {
            MirrorEvent::Nothing
        },
{
}

/// A request that the stream saw is handed on as it is, or not at all, by what the mirror knows
/// of the record of its account.
pub proof fn law_observed_requests_are_handed_on(
    mirror: &mut DelegationRecordMirror,
    request_pda: [u8; 32],
    delegated_account: [u8; 32],
    expires_at_slot: u64,
    slot: u64,
    record: Pubkey,
    forwards: bool,
    r: MirrorEvent,
)
    requires
        old(mirror).wf(),
        record@ == delegation_record_address(delegated_account@),
        call_ensures(
            DelegationRecordMirror::forwards_request_of,
            (&*old(mirror), &record, slot),
            forwards,
        ),
        call_ensures(
            DelegationRecordMirror::consume,
            (
                mirror,
                RecordStreamUpdate::UndelegationRequested {
                    request_pda,
                    delegated_account,
                    expires_at_slot,
                    slot,
                },
            ),
            r,
        ),
    ensures
        *final(mirror) == *old(mirror),
        !forwards ==> r is Nothing,
        forwards ==> r == MirrorEvent::UndelegationRequested(
            ObservedUndelegationRequest {
                request_pda: Pubkey { bytes: request_pda },
                delegated_account: Pubkey { bytes: delegated_account },
                expires_at_slot,
                observed_slot: slot,
            },
        ),
{
    let request = ObservedUndelegationRequest {
        request_pda: Pubkey { bytes: request_pda },
        delegated_account: Pubkey { bytes: delegated_account },
        expires_at_slot,
        observed_slot: slot,
    };
    assert(old(mirror).hands_on_request(request, r));
    assert(request.delegated_account@ == delegated_account@);
    lemma_handed_on(*old(mirror), request, record, r);
}

/// Whether a request is handed on is judged by the record of its account.
pub proof fn law_requests_are_judged_by_their_record(
    mirror: DelegationRecordMirror,
    delegated_account: Pubkey,
    observed_slot: u64,
    record: Pubkey,
    r: bool,
    s: bool,
)
    requires
        mirror.wf(),
        record@ == delegation_record_address(delegated_account@),
        call_ensures(
            DelegationRecordMirror::should_forward_undelegation_request,
            (&mirror, &delegated_account, observed_slot),
            r,
        ),
        call_ensures(
            DelegationRecordMirror::forwards_request_of,
            (&mirror, &record, observed_slot),
            s,
        ),
    ensures
        r == s,
{
    assert(mirror.forwards_request_for(delegated_account, observed_slot, r));
    assert(mirror.forwards_request(record, observed_slot) == s);
}

/// The stream is reached at the address and with the key that are set; what is not set is that
/// of the first stream source among the remotes, and without one the stream cannot be reached.
pub proof fn law_settings_come_first(
    config: RecordSyncConfig,
    endpoints: Vec<Endpoint>,
    i: int,
    r: Option<(String, String)>,
)
    requires
        call_ensures(resolve_endpoint, (&config, &endpoints), r),
        0 <= i <= endpoints@.len(),
        i < endpoints@.len() ==> endpoints@[i] is Grpc,
        forall|j: int| 0 <= j < i ==> !((#[trigger] endpoints@[j]) is Grpc),
    ensures
        r is Some <==> (config.endpoint is Some && config.api_key is Some) || i
            < endpoints@.len(),
        r matches Some((url, api_key)) ==> {
            &&& config.endpoint matches Some(set) ==> url@ == set@
            &&& config.api_key matches Some(set) ==> api_key@ == set@
            &&& i < endpoints@.len() ==> (endpoints@[i] matches Endpoint::Grpc {
                url: u,
                api_key: k,
                ..
            } && (config.endpoint is None ==> url@ == u@) && (config.api_key is None ==> api_key@
                == k@))
        },
{
    lemma_first_grpc(endpoints@, i);
}

proof fn lemma_first_grpc(endpoints: Seq<Endpoint>, i: int)
    requires
        0 <= i <= endpoints.len(),
        i < endpoints.len() ==> endpoints[i] is Grpc,
        forall|j: int| 0 <= j < i ==> !((#[trigger] endpoints[j]) is Grpc),
    ensures
        i == endpoints.len() ==> crate::chainlink::record_mirror::first_grpc(endpoints) is None,
        i < endpoints.len() ==> (endpoints[i] matches Endpoint::Grpc { url, api_key, .. }
            && crate::chainlink::record_mirror::first_grpc(endpoints) == Some((url@, api_key@))),
    decreases endpoints.len(),
{
    if endpoints.len() > 0 && i > 0 {
        let rest = endpoints.drop_first();
        assert(forall|j: int| 0 <= j < rest.len() ==> #[trigger] rest[j] == endpoints[j + 1]);
        assert(!(endpoints[0] is Grpc));
        lemma_first_grpc(rest, i - 1);
    }
}

/// Looking at a value gives the one that was kept, and only if one was.
pub proof fn law_peeked_values_are_kept_ones<V>(
    map: LruMap<V>,
    key: Pubkey,
    i: int,
    r: Option<&V>,
)
    requires
        map.wf(),
        call_ensures(LruMap::<V>::peek, (&map, &key), r),
    ensures
        0 <= i < map.entries().len() && map.entries()[i].0 == key.bytes ==> r == Some(
            &map.entries()[i].1,
        ),
        (forall|k: int| 0 <= k < map.entries().len() ==> (#[trigger] map.entries()[k]).0
            != key.bytes) ==> r is None,
{
    map.lemma_wf();
    lemma_position(map.entries(), key.bytes);
    if 0 <= i < map.entries().len() && map.entries()[i].0 == key.bytes {
        lemma_position_of(map.entries(), i);
    }
}

/// The least recently used entry leaves, and no other does.
pub proof fn law_least_recently_used_entries_leave<V>(
    map: &mut LruMap<V>,
    i: int,
    r: Option<(Pubkey, V)>,
)
    requires
        old(map).wf(),
        call_ensures(LruMap::<V>::pop_lru, (map,), r),
    ensures
        r is None <==> old(map).entries().len() == 0,
        r matches Some((key, value)) ==> {
            &&& old(map).entries()[old(map).entries().len() - 1] == (key.bytes, value)
            &&& final(map).entries().len() + 1 == old(map).entries().len()
            &&& 0 <= i < final(map).entries().len() ==> final(map).entries()[i]
                == old(map).entries()[i]
        },
{
}

} // verus!
