//! Updates that look like internal accounts of the delegation program and may be delegated
//! accounts all the same.
use vstd::prelude::*;
use crate::account::{later, AccountMode, RemoteAccount, ResolvedAccount};
use crate::chainlink::account_still_undelegating_on_chain::{
    account_still_undelegating_on_chain, still_undelegating,
};
use crate::chainlink::errors::ChainlinkError;
use crate::chainlink::fetch_cloner::delegation::{
    actions_error, has_actions_for, read_fetched_record,
};
use crate::chainlink::fetch_cloner::types::FetchAndCloneResult;
use crate::chainlink::record_mirror::MirrorLookup;
use crate::delegation_record::{
    delegated_to_validator_or_confined, is_delegated_to_validator_or_confined, is_record,
    record_reads, DelegationRecord,
};
use crate::lru_map::{holds, lemma_pushed_value, pushed, value_of, without, LruMap};
use crate::pubkey::Pubkey;

verus! {

/// The seconds before the first, the second and each further look.
pub const COLLISION_RECHECK_DELAYS_SECS: [u64; 3] = [2, 8, 30];

/// How often a clone is tried before newer evidence is waited for.
pub const MAX_CLONE_ATTEMPTS: usize = 3;

/// What became of a candidate for another look.
#[derive(Clone, Copy, Debug, PartialEq, Eq, Structural)]
pub enum CollisionRecheckEnqueue {
    Inserted,
    /// It was waiting already.
    Updated,
    /// There is no room.
    Full,
}

/// What another look says.
#[derive(Clone, Copy, Debug, PartialEq, Eq, Structural)]
pub enum CollisionRecheckAction {
    Wait,
    Resolve,
    Discard,
}

/// What came of a clone.
#[derive(Clone, Copy, Debug, PartialEq, Eq, Structural)]
pub enum CollisionCloneOutcome {
    /// The account is as it should be.
    Settled,
    /// There is nothing to clone.
    Terminal,
    Retry,
}

/// Another look at a candidate: a record that the mirror holds, or does not hold though it is
/// complete, leads to a clone; one that was given up ends it.
pub fn collision_recheck_action(lookup: &MirrorLookup, complete_through_slot: bool) -> (r:
    CollisionRecheckAction)
    ensures
        r == match *lookup {
            MirrorLookup::Hit { .. } => CollisionRecheckAction::Resolve,
            MirrorLookup::Tombstone { .. } => CollisionRecheckAction::Discard,
            MirrorLookup::Miss => if complete_through_slot {
                CollisionRecheckAction::Resolve
            } else {
                CollisionRecheckAction::Wait
            },
        },
{
    match lookup {
        MirrorLookup::Hit { .. } => CollisionRecheckAction::Resolve,
        MirrorLookup::Tombstone { .. } => CollisionRecheckAction::Discard,
        MirrorLookup::Miss => if complete_through_slot {
            CollisionRecheckAction::Resolve
        } else {
            CollisionRecheckAction::Wait
        },
    }
}

/// A look at a candidate that found no room to wait: it is cloned unless the mirror knows that
/// there is no record.
pub fn collision_overflow_action(lookup: &MirrorLookup, complete_through_slot: bool) -> (r:
    CollisionRecheckAction)
    ensures
        r == match *lookup {
            MirrorLookup::Hit { .. } => CollisionRecheckAction::Resolve,
            MirrorLookup::Tombstone { .. } => CollisionRecheckAction::Discard,
            MirrorLookup::Miss => if complete_through_slot {
                CollisionRecheckAction::Discard
            } else {
                CollisionRecheckAction::Resolve
            },
        },
{
    match lookup {
        MirrorLookup::Hit { .. } => CollisionRecheckAction::Resolve,
        MirrorLookup::Tombstone { .. } => CollisionRecheckAction::Discard,
        MirrorLookup::Miss => if complete_through_slot {
            CollisionRecheckAction::Discard
        } else {
            CollisionRecheckAction::Resolve
        },
    }
}

/// The later of two slots.
pub open spec fn later_slot(a: u64, b: u64) -> u64 {
    if a >= b {
        a
    } else {
        b
    }
}

/// The candidates after one more was added: one that waits already waits for the later slot,
/// and a new one is added if there is room.
pub open spec fn enqueued(
    entries: Seq<([u8; 32], (Pubkey, u64))>,
    map_capacity: nat,
    record: [u8; 32],
    pubkey: Pubkey,
    slot: u64,
    capacity: nat,
) -> Seq<([u8; 32], (Pubkey, u64))> {
    match value_of(entries, record) {
        Some((known, waiting)) => pushed(
            entries,
            map_capacity,
            record,
            (known, later_slot(waiting, slot)),
        ),
        None => if entries.len() >= capacity {
            entries
        } else {
            pushed(entries, map_capacity, record, (pubkey, slot))
        },
    }
}

/// Adds a candidate for another look, by the address of its delegation record.
pub fn try_enqueue_collision_recheck(
    rechecks: &mut LruMap<(Pubkey, u64)>,
    record_pda: Pubkey,
    pubkey: Pubkey,
    slot: u64,
    capacity: usize,
) -> (r: CollisionRecheckEnqueue)
    requires
        old(rechecks).wf(),
    ensures
        final(rechecks).wf(),
        final(rechecks).capacity() == old(rechecks).capacity(),
        final(rechecks).entries() == enqueued(
            old(rechecks).entries(),
            old(rechecks).capacity(),
            record_pda.bytes,
            pubkey,
            slot,
            capacity as nat,
        ),
        r == if holds(old(rechecks).entries(), record_pda.bytes) {
            CollisionRecheckEnqueue::Updated
        } else if old(rechecks).entries().len() >= capacity {
            CollisionRecheckEnqueue::Full
        } else {
            CollisionRecheckEnqueue::Inserted
        },
{
    let waiting = match rechecks.peek(&record_pda) {
        Some(pending) => Some(*pending),
        None => None,
    };
    if let Some((known, pending_slot)) = waiting {
        rechecks.push(record_pda, (known, later(pending_slot, slot)));
        return CollisionRecheckEnqueue::Updated;
    }
    if rechecks.len() >= capacity {
        return CollisionRecheckEnqueue::Full;
    }
    rechecks.push(record_pda, (pubkey, slot));
    CollisionRecheckEnqueue::Inserted
}

/// Adding a candidate lets go of none that waits, and none waits for an earlier slot
/// afterwards.
pub proof fn law_candidates_are_never_evicted(
    rechecks: LruMap<(Pubkey, u64)>,
    record: [u8; 32],
    pubkey: Pubkey,
    slot: u64,
    capacity: nat,
    other: [u8; 32],
)
    requires
        rechecks.wf(),
        capacity <= rechecks.capacity(),
        holds(rechecks.entries(), other),
    ensures
        ({
            let before = value_of(rechecks.entries(), other)->0;
            let after = value_of(
                enqueued(
                    rechecks.entries(),
                    rechecks.capacity(),
                    record,
                    pubkey,
                    slot,
                    capacity,
                ),
                other,
            );
            &&& after matches Some((account, waiting))
            &&& account == before.0
            &&& waiting >= before.1
            &&& other == record ==> waiting >= slot
            &&& other != record ==> waiting == before.1
        }),
{
    rechecks.lemma_wf();
    let entries = rechecks.entries();
    match value_of(entries, record) {
        Some((known, waiting)) => {
            lemma_pushed_value(
                entries,
                rechecks.capacity(),
                record,
                (known, later_slot(waiting, slot)),
                other,
            );
        },
        None => {
            if entries.len() < capacity {
                lemma_pushed_value(entries, rechecks.capacity(), record, (pubkey, slot), other);
            }
        },
    }
}

/// The seconds before the next look, after so many.
pub fn recheck_delay_secs(count: usize) -> (r: u64)
    ensures
        r == COLLISION_RECHECK_DELAYS_SECS[if count < 2 {
            count as int
        } else {
            2
        }],
{
    let at: usize = if count < 2 {
        count
    } else {
        2
    };
    COLLISION_RECHECK_DELAYS_SECS[at]
}

/// Takes a candidate out if it still waits for the slot that was looked at. Returns whether it
/// did.
pub fn take_candidate(rechecks: &mut LruMap<(Pubkey, u64)>, record_pda: &Pubkey, slot: u64) -> (r:
    bool)
    requires
        old(rechecks).wf(),
    ensures
        final(rechecks).wf(),
        final(rechecks).capacity() == old(rechecks).capacity(),
        r == (old(rechecks).value(*record_pda) matches Some((_, waiting)) && waiting == slot),
        final(rechecks).entries() == if r {
            without(old(rechecks).entries(), record_pda.bytes)
        } else {
            old(rechecks).entries()
        },
{
    let owned = match rechecks.peek(record_pda) {
        Some(pending) => pending.1 == slot,
        None => false,
    };
    if owned {
        rechecks.pop(record_pda);
    }
    owned
}

/// How looking at a candidate goes on.
#[derive(Clone, Copy, Debug, PartialEq, Eq, Structural)]
pub enum RecheckNext {
    /// Look again after the delay for this count.
    Again { probe_count: usize },
    Resolve,
    Done,
}

/// How looking at a candidate goes on. `owned` says, unless the look says to wait, whether the
/// candidate was taken out for the slot that was looked at; if not, a later slot has come up
/// and looking starts over.
pub fn recheck_next(action: CollisionRecheckAction, owned: bool, probe_count: usize) -> (r:
    RecheckNext)
    ensures
        r == match action {
            CollisionRecheckAction::Wait => RecheckNext::Again {
                probe_count: if probe_count < usize::MAX {
                    (probe_count + 1) as usize
                } else {
                    usize::MAX
                },
            },
            CollisionRecheckAction::Resolve => if owned {
                RecheckNext::Resolve
            } else {
                RecheckNext::Again { probe_count: 0 }
            },
            CollisionRecheckAction::Discard => if owned {
                RecheckNext::Done
            } else {
                RecheckNext::Again { probe_count: 0 }
            },
        },
{
    match action {
        CollisionRecheckAction::Wait => RecheckNext::Again {
            probe_count: if probe_count < usize::MAX {
                probe_count + 1
            } else {
                usize::MAX
            },
        },
        CollisionRecheckAction::Resolve => if owned {
            RecheckNext::Resolve
        } else {
            RecheckNext::Again { probe_count: 0 }
        },
        CollisionRecheckAction::Discard => if owned {
            RecheckNext::Done
        } else {
            RecheckNext::Again { probe_count: 0 }
        },
    }
}

/// Whether the account is already as the update says: run here, from that slot or a later one.
pub fn settled_locally(local: Option<(u64, AccountMode)>, slot: u64) -> (r: bool)
    ensures
        r == (local matches Some((local_slot, mode)) && mode == AccountMode::Delegated
            && local_slot >= slot),
{
    match local {
        Some((local_slot, mode)) => mode == AccountMode::Delegated && local_slot >= slot,
        None => false,
    }
}

/// What is known of an account's delegation record.
#[derive(Clone, Copy, Debug)]
pub enum DelegationRecordResolution {
    Found(DelegationRecord),
    Missing,
    Invalid,
    /// The chain could not be asked.
    Uncertain,
}

/// What a fetch of an account's delegation record says of it. A record whose actions cannot be
/// read is invalid, and so is one whose actions cannot be decrypted; when that is so is left
/// open.
pub fn record_resolution(
    fetched: &Result<Option<RemoteAccount>, String>,
    delegation_record_pubkey: Pubkey,
    validator_pubkey: &Pubkey,
    secret: &[u8; 32],
) -> (r: DelegationRecordResolution)
    ensures
        match *fetched {
            Err(_) => r is Uncertain,
            Ok(Some(RemoteAccount::Found(ResolvedAccount::Fresh(account)))) => match r {
                DelegationRecordResolution::Found(record) => is_record(account.data@)
                    && record_reads(account.data@, record) && actions_error(
                    account.data@,
                    validator_pubkey@,
                ) is None,
                DelegationRecordResolution::Invalid => !is_record(account.data@)
                    || has_actions_for(account.data@, validator_pubkey@),
                _ => false,
            },
            Ok(_) => r is Missing,
        },
{
    match fetched {
        Err(_) => DelegationRecordResolution::Uncertain,
        Ok(account) => match read_fetched_record(
            account,
            delegation_record_pubkey,
            validator_pubkey,
            secret,
        ) {
            Some((record, _)) => DelegationRecordResolution::Found(record),
            None => match account {
                Some(RemoteAccount::Found(ResolvedAccount::Fresh(_))) => {
                    DelegationRecordResolution::Invalid
                },
                _ => DelegationRecordResolution::Missing,
            },
        },
    }
}

/// The record to clone by, or what comes of the clone without one.
pub fn collision_record(
    resolution: DelegationRecordResolution,
    validator_pubkey: &Pubkey,
) -> (r: Result<DelegationRecord, CollisionCloneOutcome>)
    ensures
        r == match resolution {
            DelegationRecordResolution::Found(record) => if delegated_to_validator_or_confined(
                record.authority,
                *validator_pubkey,
            ) {
                Ok(record)
            } else {
                Err(CollisionCloneOutcome::Settled)
            },
            DelegationRecordResolution::Missing => Err(CollisionCloneOutcome::Terminal),
            DelegationRecordResolution::Invalid => Err(CollisionCloneOutcome::Terminal),
            DelegationRecordResolution::Uncertain => Err(CollisionCloneOutcome::Retry),
        },
{
    match resolution {
        DelegationRecordResolution::Found(record) => if is_delegated_to_validator_or_confined(
            &record.authority,
            validator_pubkey,
        ) {
            Ok(record)
        } else {
            Err(CollisionCloneOutcome::Settled)
        },
        DelegationRecordResolution::Missing => Err(CollisionCloneOutcome::Terminal),
        DelegationRecordResolution::Invalid => Err(CollisionCloneOutcome::Terminal),
        DelegationRecordResolution::Uncertain => Err(CollisionCloneOutcome::Retry),
    }
}

/// Whether the account is undelegating here and still doing so on chain: then it must not be
/// replaced.
pub fn keeps_undelegating(local: Option<(u64, AccountMode)>, record: &DelegationRecord) -> (r: bool)
    ensures
        r == (local matches Some((local_slot, mode)) && mode == AccountMode::Transient
            && still_undelegating(true, local_slot, Some(*record))),
{
    match local {
        Some((local_slot, mode)) => mode == AccountMode::Transient
            && account_still_undelegating_on_chain(true, local_slot, &Some(*record)),
        None => false,
    }
}

/// Whether a fetch could not find an account or its record.
pub open spec fn is_missing(result: FetchAndCloneResult, pubkey: Pubkey) -> bool {
    ||| exists|i: int|
        0 <= i < result.not_found_on_chain@.len() && (#[trigger] result.not_found_on_chain@[i]).0
            == pubkey
    ||| exists|i: int|
        0 <= i < result.missing_delegation_record@.len() && (
        #[trigger] result.missing_delegation_record@[i]).0 == pubkey
}

fn lists(entries: &Vec<(Pubkey, u64)>, pubkey: &Pubkey) -> (r: bool)
    ensures
        r == exists|i: int| 0 <= i < entries@.len() && (#[trigger] entries@[i]).0 == *pubkey,
{
    let mut i: usize = 0;
    while i < entries.len()
        invariant
            i <= entries.len(),
            forall|j: int| 0 <= j < i ==> (#[trigger] entries@[j]).0 != *pubkey,
        decreases entries.len() - i,
    {
        if entries[i].0 == *pubkey {
            return true;
        }
        i = i + 1;
    }
    false
}

/// Tests whether a fetch could not find an account or its record.
pub fn misses(result: &FetchAndCloneResult, pubkey: &Pubkey) -> (r: bool)
    ensures
        r == is_missing(*result, *pubkey),
{
    lists(&result.not_found_on_chain, pubkey) || lists(&result.missing_delegation_record, pubkey)
}

/// Whether the bank now holds the account as the update says, or newer.
pub open spec fn settles(local: Option<(u64, AccountMode)>, slot: u64) -> bool {
    local matches Some((local_slot, mode)) && (local_slot > slot || (local_slot == slot && mode
        == AccountMode::Delegated))
}

/// Whether the bank holds the account undelegating, from after the delegation: trying again
/// would not help.
pub open spec fn stale_transient(local: Option<(u64, AccountMode)>, record: DelegationRecord) -> bool {
    local matches Some((local_slot, mode)) && mode == AccountMode::Transient
        && record.delegation_slot <= local_slot
}

/// What a try to clone, the `attempt`th from zero, leads to: an outcome, or nothing if it is
/// tried again. `local` is what the bank holds after the try.
pub fn attempt_outcome(
    attempt: usize,
    result: &Result<FetchAndCloneResult, ChainlinkError>,
    pubkey: &Pubkey,
    local: Option<(u64, AccountMode)>,
    slot: u64,
    record: &DelegationRecord,
) -> (r: Option<CollisionCloneOutcome>)
    ensures
        r == match *result {
            Err(_) => Some(CollisionCloneOutcome::Retry),
            Ok(result) => if is_missing(result, *pubkey) {
                Some(CollisionCloneOutcome::Terminal)
            } else if settles(local, slot) {
                Some(CollisionCloneOutcome::Settled)
            } else if stale_transient(local, *record) || attempt + 1 >= MAX_CLONE_ATTEMPTS {
                Some(CollisionCloneOutcome::Retry)
            } else {
                None
            },
        },
{
    match result {
        Err(_) => Some(CollisionCloneOutcome::Retry),
        Ok(result) => {
            if misses(result, pubkey) {
                return Some(CollisionCloneOutcome::Terminal);
            }
            if let Some((local_slot, mode)) = local {
                if local_slot > slot || (local_slot == slot && mode == AccountMode::Delegated) {
                    return Some(CollisionCloneOutcome::Settled);
                }
                if mode == AccountMode::Transient && record.delegation_slot <= local_slot {
                    return Some(CollisionCloneOutcome::Retry);
                }
            }
            if attempt >= MAX_CLONE_ATTEMPTS - 1 {
                Some(CollisionCloneOutcome::Retry)
            } else {
                None
            }
        },
    }
}

/// What to do with an update that looks internal.
#[derive(Clone, Copy, Debug, PartialEq, Eq, Structural)]
pub enum CollisionStep {
    /// There is no mirror to ask, or it knows that the record was given up.
    Drop,
    Clone,
    /// Look again later.
    Recheck,
}

/// Tells what to do with an update that looks internal, by what the mirror says of the record
/// that it would have if it were a delegated account.
pub fn resolve_internal_dlp_collision(lookup: &Option<MirrorLookup>) -> (r: CollisionStep)
    ensures
        r == match *lookup {
            None => CollisionStep::Drop,
            Some(MirrorLookup::Tombstone { .. }) => CollisionStep::Drop,
            Some(MirrorLookup::Hit { .. }) => CollisionStep::Clone,
            Some(MirrorLookup::Miss) => CollisionStep::Recheck,
        },
{
    match lookup {
        None => CollisionStep::Drop,
        Some(MirrorLookup::Tombstone { .. }) => CollisionStep::Drop,
        Some(MirrorLookup::Hit { .. }) => CollisionStep::Clone,
        Some(MirrorLookup::Miss) => CollisionStep::Recheck,
    }
}

/// Whether another look is scheduled after a clone.
pub fn rechecks_after(outcome: CollisionCloneOutcome) -> (r: bool)
    ensures
        r == (outcome == CollisionCloneOutcome::Retry),
{
    outcome == CollisionCloneOutcome::Retry
}

} // verus!
