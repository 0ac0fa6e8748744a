//! What holds of updates that look internal, and of accounts that are asked for at once.
use vstd::prelude::*;
use crate::account::{Account, AccountMode, RemoteAccount, ResolvedAccount};
use crate::chainlink::errors::ChainlinkError;
use crate::chainlink::fetch_cloner::collision::{
    attempt_outcome, collision_overflow_action, collision_recheck_action, collision_record,
    keeps_undelegating, misses, recheck_delay_secs, recheck_next, rechecks_after,
    record_resolution, resolve_internal_dlp_collision, settled_locally, take_candidate,
    try_enqueue_collision_recheck, CollisionCloneOutcome, CollisionRecheckAction,
    CollisionRecheckEnqueue, CollisionStep, DelegationRecordResolution, RecheckNext,
};
use crate::chainlink::fetch_cloner::pending_ops::{
    check_waiters, complete_loads, completed_loads, materialized_mode, pick_emptied, pick_fetched,
    pick_kept, pick_of_class, pick_refreshed, pick_to_check, plan_refresh, precheck_account,
    precheck_accounts, waited_for, Checked, FetchPlan, Precheck, PrecheckClass, PrecheckedAccount,
};
use crate::chainlink::fetch_cloner::types::{FetchAndCloneResult, RefreshDecision};
use crate::chainlink::record_mirror::MirrorLookup;
use crate::delegation_record::{read_record, DelegationRecord, RecordError};
use crate::laws::delegation::{is_nobody, lemma_nobody};
use crate::lists::{lemma_picked_contains, picked};
use crate::lru_map::{lemma_position, lemma_position_of, lemma_pushed_value, LruMap};
use crate::pubkey::{lemma_distinct_keys, lemma_pubkey_bytes_determine, Pubkey};

verus! {

/// A record that the mirror holds leads to a clone, whether or not the candidate could wait;
/// one that was given up never does. What is unknown waits for a complete mirror if it can, and
/// is cloned once the mirror is complete; a candidate that cannot wait is cloned unless the
/// mirror is complete.
pub proof fn law_candidates_are_looked_at(
    lookup: MirrorLookup,
    complete: bool,
    r: CollisionRecheckAction,
    full: CollisionRecheckAction,
)
    requires
        call_ensures(collision_recheck_action, (&lookup, complete), r),
        call_ensures(collision_overflow_action, (&lookup, complete), full),
    ensures
        lookup is Hit ==> r == CollisionRecheckAction::Resolve && full
            == CollisionRecheckAction::Resolve,
        lookup is Tombstone ==> r == CollisionRecheckAction::Discard && full
            == CollisionRecheckAction::Discard,
        lookup is Miss && complete ==> r == CollisionRecheckAction::Resolve && full
            == CollisionRecheckAction::Discard,
        lookup is Miss && !complete ==> r == CollisionRecheckAction::Wait && full
            == CollisionRecheckAction::Resolve,
{
}

/// A candidate waits for the latest slot that it was seen at; a new one is taken in as long as
/// there is room, and none leaves for it.
pub proof fn law_candidates_wait(
    rechecks: &mut LruMap<(Pubkey, u64)>,
    record: Pubkey,
    pubkey: Pubkey,
    slot: u64,
    capacity: usize,
    other: Pubkey,
    r: CollisionRecheckEnqueue,
)
    requires
        old(rechecks).wf(),
        capacity <= old(rechecks).capacity(),
        call_ensures(
            try_enqueue_collision_recheck,
            (rechecks, record, pubkey, slot, capacity),
            r,
        ),
    ensures
        r == CollisionRecheckEnqueue::Updated <==> old(rechecks).value(record) is Some,
        r == CollisionRecheckEnqueue::Full <==> old(rechecks).value(record) is None
            && old(rechecks).entries().len() >= capacity,
        r == CollisionRecheckEnqueue::Inserted ==> final(rechecks).value(record) == Some(
            (pubkey, slot),
        ),
        r == CollisionRecheckEnqueue::Updated ==> {
            let before = old(rechecks).value(record)->0;
            &&& final(rechecks).value(record) matches Some((account, waiting))
            &&& account == before.0
            &&& waiting >= before.1 && waiting >= slot
            &&& waiting == before.1 || waiting == slot
        },
        r == CollisionRecheckEnqueue::Full ==> final(rechecks).entries()
            == old(rechecks).entries(),
        other != record && old(rechecks).value(other) is Some ==> final(rechecks).value(other)
            == old(rechecks).value(other),
{
    old(rechecks).lemma_wf();
    final(rechecks).lemma_wf();
    let before = old(rechecks).entries();
    lemma_position(before, record.bytes);
    if r != CollisionRecheckEnqueue::Full {
        let value = final(rechecks).entries()[0].1;
        lemma_position_of(final(rechecks).entries(), 0);
        lemma_pushed_value(
            before,
            old(rechecks).capacity(),
            record.bytes,
            value,
            other.bytes,
        );
        if other != record {
            assert(other.bytes != record.bytes);
        }
    }
}

/// A candidate is taken out only for the slot that it waits for, and no other candidate with
/// it.
pub proof fn law_candidates_are_taken_for_their_slot(
    rechecks: &mut LruMap<(Pubkey, u64)>,
    record: Pubkey,
    slot: u64,
    other: Pubkey,
    r: bool,
)
    requires
        old(rechecks).wf(),
        call_ensures(take_candidate, (rechecks, &record, slot), r),
    ensures
        r <==> (old(rechecks).value(record) matches Some((_, waiting)) && waiting == slot),
        !r ==> final(rechecks).entries() == old(rechecks).entries(),
        other != record ==> final(rechecks).value(other) == old(rechecks).value(other),
        r ==> final(rechecks).entries().len() == old(rechecks).entries().len() - 1,
{
    old(rechecks).lemma_wf();
    if other != record {
        assert(other.bytes != record.bytes);
        crate::lru_map::lemma_without_keeps(
            old(rechecks).entries(),
            record.bytes,
            other.bytes,
        );
    }
    lemma_position(old(rechecks).entries(), record.bytes);
}

/// The pauses between looks grow: two seconds, eight, then half a minute each time.
pub proof fn law_looks_become_rarer(count: usize, r: u64)
    requires
        call_ensures(recheck_delay_secs, (count,), r),
    ensures
        count == 0 ==> r == 2,
        count == 1 ==> r == 8,
        count >= 2 ==> r == 30,
{
}

/// Looking goes on until the candidate is resolved or discarded for the slot that was looked
/// at; if a later slot came up it starts over.
pub proof fn law_looks_go_on(
    owned: bool,
    count: usize,
    wait: RecheckNext,
    resolve: RecheckNext,
    discard: RecheckNext,
)
    requires
        call_ensures(recheck_next, (CollisionRecheckAction::Wait, owned, count), wait),
        call_ensures(recheck_next, (CollisionRecheckAction::Resolve, owned, count), resolve),
        call_ensures(recheck_next, (CollisionRecheckAction::Discard, owned, count), discard),
    ensures
        count < usize::MAX ==> wait == (RecheckNext::Again { probe_count: (count + 1) as usize }),
        owned ==> resolve == RecheckNext::Resolve && discard == RecheckNext::Done,
        !owned ==> resolve == (RecheckNext::Again { probe_count: 0 }) && discard == (
        RecheckNext::Again { probe_count: 0 }),
{
}

/// An update is settled already exactly if the rollup runs the account from its slot or later.
pub proof fn law_run_accounts_are_settled(
    local: Option<(u64, AccountMode)>,
    slot: u64,
    r: bool,
)
    requires
        call_ensures(settled_locally, (local, slot), r),
    ensures
        local is None ==> !r,
        local matches Some((at, mode)) ==> (r <==> mode == AccountMode::Delegated && slot <= at),
{
}

/// A fetch that failed says nothing; one that found nothing says that there is no record; what
/// was found is the record, if it is one.
pub proof fn law_records_are_resolved(
    account: Account,
    message: String,
    slot: u64,
    record_pubkey: Pubkey,
    validator: Pubkey,
    secret: &[u8; 32],
    bytes: &[u8],
    record: Result<DelegationRecord, RecordError>,
    found: DelegationRecordResolution,
    failed: DelegationRecordResolution,
    missing: DelegationRecordResolution,
    gone: DelegationRecordResolution,
)
    requires
        bytes@ == account.data@,
        call_ensures(read_record, (bytes,), record),
        call_ensures(
            record_resolution,
            (
                &Ok(Some(RemoteAccount::Found(ResolvedAccount::Fresh(account)))),
                record_pubkey,
                &validator,
                secret,
            ),
            found,
        ),
        call_ensures(
            record_resolution,
            (&Err(message), record_pubkey, &validator, secret),
            failed,
        ),
        call_ensures(
            record_resolution,
            (&Ok(None), record_pubkey, &validator, secret),
            missing,
        ),
        call_ensures(
            record_resolution,
            (&Ok(Some(RemoteAccount::NotFound(slot))), record_pubkey, &validator, secret),
            gone,
        ),
    ensures
        failed is Uncertain,
        missing is Missing,
        gone is Missing,
        record is Err ==> found is Invalid,
        found matches DelegationRecordResolution::Found(read) ==> record == Ok::<_, RecordError>(
            read,
        ),
        record is Ok && (account.data@.len() == 96 || record->Ok_0.authority != validator)
            ==> found == DelegationRecordResolution::Found(record->Ok_0),
{
    if record is Ok {
        if found is Found {
            lemma_pubkey_bytes_determine(found->Found_0.authority, record->Ok_0.authority);
            lemma_pubkey_bytes_determine(found->Found_0.owner, record->Ok_0.owner);
        }
        if record->Ok_0.authority@ == validator@ {
            lemma_pubkey_bytes_determine(record->Ok_0.authority, validator);
        }
    }
}

/// An account is cloned by its record exactly if that names this validator or nobody. One that
/// is delegated elsewhere is settled, one without a record is done with, and one whose record
/// could not be asked for is tried again.
pub proof fn law_own_candidates_are_cloned(
    record: DelegationRecord,
    validator: Pubkey,
    found: Result<DelegationRecord, CollisionCloneOutcome>,
    missing: Result<DelegationRecord, CollisionCloneOutcome>,
    invalid: Result<DelegationRecord, CollisionCloneOutcome>,
    uncertain: Result<DelegationRecord, CollisionCloneOutcome>,
)
    requires
        call_ensures(
            collision_record,
            (DelegationRecordResolution::Found(record), &validator),
            found,
        ),
        call_ensures(collision_record, (DelegationRecordResolution::Missing, &validator), missing),
        call_ensures(collision_record, (DelegationRecordResolution::Invalid, &validator), invalid),
        call_ensures(
            collision_record,
            (DelegationRecordResolution::Uncertain, &validator),
            uncertain,
        ),
    ensures
        record.authority == validator || is_nobody(record.authority) ==> found == Ok::<
            _,
            CollisionCloneOutcome,
        >(record),
        record.authority != validator && !is_nobody(record.authority) ==> found == Err::<
            DelegationRecord,
            _,
        >(CollisionCloneOutcome::Settled),
        missing == Err::<DelegationRecord, _>(CollisionCloneOutcome::Terminal),
        invalid == Err::<DelegationRecord, _>(CollisionCloneOutcome::Terminal),
        uncertain == Err::<DelegationRecord, _>(CollisionCloneOutcome::Retry),
{
    lemma_nobody(record.authority);
}

/// An account on its way back is not replaced as long as its delegation is not newer than what
/// the bank holds.
pub proof fn law_returning_candidates_are_spared(
    local: Option<(u64, AccountMode)>,
    record: DelegationRecord,
    r: bool,
)
    requires
        call_ensures(keeps_undelegating, (local, &record), r),
    ensures
        r <==> (local matches Some((slot, mode)) && mode == AccountMode::Transient
            && record.delegation_slot <= slot),
{
}

/// A fetch misses an account exactly if it found neither it nor its record.
pub proof fn law_missing_accounts_are_missed(
    result: FetchAndCloneResult,
    pubkey: Pubkey,
    r: bool,
)
    requires
        call_ensures(misses, (&result, &pubkey), r),
    ensures
        (exists|i: int|
            0 <= i < result.not_found_on_chain@.len() && (
            #[trigger] result.not_found_on_chain@[i]).0 == pubkey) ==> r,
        (exists|i: int|
            0 <= i < result.missing_delegation_record@.len() && (
            #[trigger] result.missing_delegation_record@[i]).0 == pubkey) ==> r,
        result.not_found_on_chain@.len() == 0 && result.missing_delegation_record@.len() == 0
            ==> !r,
{
}

/// A clone that failed is tried again later, one that found nothing is done with, and one after
/// which the bank holds what the update says, or newer, is settled. Any other is tried at once
/// for a few times, unless the account is on its way back from that very delegation.
pub proof fn law_clones_are_tried_until_settled(
    attempt: usize,
    result: FetchAndCloneResult,
    error: ChainlinkError,
    pubkey: Pubkey,
    local: Option<(u64, AccountMode)>,
    slot: u64,
    record: DelegationRecord,
    r: Option<CollisionCloneOutcome>,
    failed: Option<CollisionCloneOutcome>,
    missed: bool,
)
    requires
        attempt < usize::MAX,
        call_ensures(attempt_outcome, (attempt, &Ok(result), &pubkey, local, slot, &record), r),
        call_ensures(
            attempt_outcome,
            (attempt, &Err(error), &pubkey, local, slot, &record),
            failed,
        ),
        call_ensures(misses, (&result, &pubkey), missed),
    ensures
        failed == Some(CollisionCloneOutcome::Retry),
        missed ==> r == Some(CollisionCloneOutcome::Terminal),
        !missed && (local matches Some((at, mode)) && (at > slot || (at == slot && mode
            == AccountMode::Delegated))) ==> r == Some(CollisionCloneOutcome::Settled),
        !missed && local is None && attempt < 2 ==> r is None,
        !missed && local is None && attempt >= 2 ==> r == Some(CollisionCloneOutcome::Retry),
        !missed && (local matches Some((at, mode)) && at < slot && mode
            != AccountMode::Transient) && attempt < 2 ==> r is None,
        !missed && (local matches Some((at, mode)) && at <= slot && mode == AccountMode::Transient
            && record.delegation_slot <= at) ==> r == Some(CollisionCloneOutcome::Retry),
        r == Some(CollisionCloneOutcome::Settled) ==> (local matches Some((at, _)) && at >= slot),
{
}

/// An update that looks internal is cloned if the mirror has its record, looked at again if the
/// mirror does not know, and dropped otherwise.
pub proof fn law_internal_looking_updates_are_resolved(
    lookup: Option<MirrorLookup>,
    r: CollisionStep,
)
    requires
        call_ensures(resolve_internal_dlp_collision, (&lookup,), r),
    ensures
        r == CollisionStep::Clone <==> (lookup matches Some(found) && found is Hit),
        r == CollisionStep::Recheck <==> (lookup matches Some(found) && found is Miss),
        r == CollisionStep::Drop <==> (lookup matches Some(found) ==> found is Tombstone),
{
}

/// Only a clone that has to be tried again is looked at again.
pub proof fn law_unsettled_clones_are_looked_at_again(outcome: CollisionCloneOutcome, r: bool)
    requires
        call_ensures(rechecks_after, (outcome,), r),
    ensures
        r <==> outcome == CollisionCloneOutcome::Retry,
{
}

/// An account that the bank has is used, unless it is on its way back, which has to be checked,
/// or a refresh is forced; one that the bank does not have is absent. A forced refresh spares
/// an account on its way back unless a later delegation of it is confirmed.
pub proof fn law_accounts_are_prechecked(
    account: PrecheckedAccount,
    forced: Vec<Pubkey>,
    confirmed: Option<(Pubkey, u64)>,
    r: PrecheckClass,
)
    requires
        call_ensures(precheck_account, (&account, &forced, confirmed), r),
    ensures
        !forced@.contains(account.pubkey) ==> match account.local {
            None => r == PrecheckClass::Absent,
            Some((_, mode)) => if mode == AccountMode::Transient {
                r == PrecheckClass::CheckUndelegating
            } else {
                r == PrecheckClass::Present
            },
        },
        forced@.contains(account.pubkey) && !(account.local matches Some((_, mode)) && mode
            == AccountMode::Transient) ==> r == PrecheckClass::ForcedRefresh,
        forced@.contains(account.pubkey) && (account.local matches Some((_, mode)) && mode
            == AccountMode::Transient) ==> (if confirmed matches Some((key, delegation_slot))
            && key == account.pubkey && delegation_slot > (account.local->0).0 {
            r == PrecheckClass::ForcedRefresh
        } else {
            r == PrecheckClass::StillUndelegating
        }),
{
}

/// Every account that is asked for is in the list of its class.
pub proof fn law_prechecked_accounts_are_listed(
    accounts: Vec<PrecheckedAccount>,
    forced: Vec<Pubkey>,
    confirmed: Option<(Pubkey, u64)>,
    i: int,
    class: PrecheckClass,
    r: Precheck,
)
    requires
        call_ensures(precheck_accounts, (&accounts, &forced, confirmed), r),
        0 <= i < accounts@.len(),
        call_ensures(precheck_account, (&accounts@[i], &forced, confirmed), class),
    ensures
        class == PrecheckClass::Present ==> r.present@.contains(accounts@[i].pubkey),
        class == PrecheckClass::StillUndelegating ==> r.still_undelegating@.contains(
            accounts@[i].pubkey,
        ),
        class == PrecheckClass::ForcedRefresh ==> r.forced_refresh@.contains(accounts@[i].pubkey),
        class == PrecheckClass::Absent ==> r.absent@.contains(accounts@[i].pubkey),
        class == PrecheckClass::CheckUndelegating ==> r.check_undelegating@.contains(
            (accounts@[i].pubkey, (accounts@[i].local->0).0),
        ),
{
    let list = accounts@;
    let key = list[i].pubkey;
    if class == PrecheckClass::CheckUndelegating {
        let pick = pick_to_check(forced@, confirmed);
        assert(pick(list[i]) == Some((key, (list[i].local->0).0)));
        lemma_picked_contains(list, pick, (key, (list[i].local->0).0));
    } else {
        let pick = pick_of_class(class, forced@, confirmed);
        assert(pick(list[i]) == Some(key));
        lemma_picked_contains(list, pick, key);
    }
}

proof fn lemma_checked(
    checked: Seq<(Pubkey, Option<RefreshDecision>)>,
    pick: spec_fn((Pubkey, Option<RefreshDecision>)) -> Option<Pubkey>,
    key: Pubkey,
    i: int,
)
    requires
        0 <= i < checked.len(),
        pick(checked[i]) == Some(key),
    ensures
        picked(checked, pick).contains(key),
{
    lemma_picked_contains(checked, pick, key);
}

/// What this caller has to load is fetched, and so is what has to be refreshed; what the bank
/// has and nobody has refreshed is not, and neither is what another caller loads.
pub proof fn law_missing_accounts_are_fetched(
    pubkeys: Vec<Pubkey>,
    precheck: Precheck,
    checked: Checked,
    loads: Vec<Pubkey>,
    mark_empty: Option<&Vec<Pubkey>>,
    key: Pubkey,
    r: FetchPlan,
)
    requires
        call_ensures(plan_refresh, (&pubkeys, &precheck, &checked, &loads, mark_empty), r),
    ensures
        ({
            let kept = precheck.present@.contains(key) || precheck.still_undelegating@.contains(
                key,
            ) || exists|i: int|
                0 <= i < checked@.len() && (#[trigger] checked@[i]).0 == key && (checked@[i].1
                    is None || checked@[i].1 == Some(RefreshDecision::No));
            let refresh = precheck.forced_refresh@.contains(key) || exists|i: int|
                0 <= i < checked@.len() && (#[trigger] checked@[i]).0 == key && (checked@[i].1
                    == Some(RefreshDecision::Yes) || checked@[i].1 == Some(
                    RefreshDecision::YesAndMarkEmptyIfNotFound,
                ));
            r.fetch@.contains(key) <==> pubkeys@.contains(key) && !kept && (refresh
                || loads@.contains(key))
        }),
{
    let kept = crate::chainlink::fetch_cloner::pending_ops::kept_in_bank(precheck, checked@);
    let refresh = crate::chainlink::fetch_cloner::pending_ops::refreshed(precheck, checked@);
    let pick = pick_fetched(kept, refresh, loads@);
    lemma_picked_contains(pubkeys@, pick, key);
    lemma_picked_contains(checked@, pick_kept(), key);
    lemma_picked_contains(checked@, pick_refreshed(), key);
    lemma_in_parts(
        precheck.present@ + precheck.still_undelegating@,
        picked(checked@, pick_kept()),
        key,
    );
    lemma_in_parts(precheck.present@, precheck.still_undelegating@, key);
    lemma_in_parts(precheck.forced_refresh@, picked(checked@, pick_refreshed()), key);
    assert forall|i: int|
        0 <= i < checked@.len() && (#[trigger] checked@[i]).0 == key && (checked@[i].1 is None
            || checked@[i].1 == Some(RefreshDecision::No)) implies kept.contains(key) by {
        lemma_checked(checked@, pick_kept(), key, i);
    }
    assert forall|i: int|
        0 <= i < checked@.len() && (#[trigger] checked@[i]).0 == key && (checked@[i].1 == Some(
            RefreshDecision::Yes,
        ) || checked@[i].1 == Some(
            RefreshDecision::YesAndMarkEmptyIfNotFound,
        )) implies refresh.contains(key) by {
        lemma_checked(checked@, pick_refreshed(), key, i);
    }
    if picked(checked@, pick_kept()).contains(key) {
        let i = choose|i: int|
            0 <= i < checked@.len() && pick_kept()(#[trigger] checked@[i]) == Some(key);
        assert(checked@[i].0 == key);
    }
    if picked(checked@, pick_refreshed()).contains(key) {
        let i = choose|i: int|
            0 <= i < checked@.len() && pick_refreshed()(#[trigger] checked@[i]) == Some(key);
        assert(checked@[i].0 == key);
    }
    if r.fetch@.contains(key) {
        let i = choose|i: int| 0 <= i < pubkeys@.len() && pick(#[trigger] pubkeys@[i]) == Some(key);
        assert(pubkeys@[i] == key);
    }
    if pubkeys@.contains(key) && pick(key) == Some(key) {
        let i = choose|i: int| 0 <= i < pubkeys@.len() && pubkeys@[i] == key;
        assert(pick(pubkeys@[i]) == Some(key));
    }
}

proof fn lemma_in_parts(a: Seq<Pubkey>, b: Seq<Pubkey>, key: Pubkey)
    ensures
        (a + b).contains(key) <==> a.contains(key) || b.contains(key),
{
    crate::chainlink::fetch_cloner::cancel::lemma_concat_contains(a, b, key);
}

/// An account is stood in for exactly if the caller says so, or the check of its undelegation
/// did.
pub proof fn law_stood_in_accounts_are_marked(
    pubkeys: Vec<Pubkey>,
    precheck: Precheck,
    checked: Checked,
    loads: Vec<Pubkey>,
    mark_empty: Option<&Vec<Pubkey>>,
    key: Pubkey,
    r: FetchPlan,
)
    requires
        call_ensures(plan_refresh, (&pubkeys, &precheck, &checked, &loads, mark_empty), r),
    ensures
        (r.mark_empty matches Some(keys) && keys@.contains(key)) <==> (mark_empty matches Some(keys)
            && keys@.contains(key)) || exists|i: int|
            0 <= i < checked@.len() && (#[trigger] checked@[i]).0 == key && checked@[i].1 == Some(
                RefreshDecision::YesAndMarkEmptyIfNotFound,
            ),
        r.mark_empty matches Some(keys) ==> keys@.len() > 0 && keys@.no_duplicates(),
{
    let asked = match mark_empty {
        Some(keys) => keys@,
        None => Seq::empty(),
    };
    let emptied = picked(checked@, pick_emptied());
    lemma_distinct_keys(asked + emptied);
    lemma_in_parts(asked, emptied, key);
    lemma_picked_contains(checked@, pick_emptied(), key);
    assert forall|i: int|
        0 <= i < checked@.len() && (#[trigger] checked@[i]).0 == key && checked@[i].1 == Some(
            RefreshDecision::YesAndMarkEmptyIfNotFound,
        ) implies emptied.contains(key) by {
        lemma_checked(checked@, pick_emptied(), key, i);
    }
    if emptied.contains(key) {
        let i = choose|i: int|
            0 <= i < checked@.len() && pick_emptied()(#[trigger] checked@[i]) == Some(key);
        assert(checked@[i].0 == key);
    }
    let marked = crate::pubkey::distinct_keys(asked + emptied);
    if marked.len() == 0 {
        assert(!marked.contains(key));
    }
}

proof fn lemma_materialized(materialized: Seq<(Pubkey, AccountMode)>, key: Pubkey, i: int)
    requires
        0 <= i < materialized.len(),
        materialized[i].0 == key,
        forall|j: int| i < j < materialized.len() ==> (#[trigger] materialized[j]).0 != key,
    ensures
        materialized_mode(materialized, key) == Some(materialized[i].1),
    decreases materialized.len(),
{
    if i < materialized.len() - 1 {
        let short = materialized.drop_last();
        assert(materialized[materialized.len() - 1].0 != key);
        assert forall|j: int| i < j < short.len() implies (#[trigger] short[j]).0 != key by {
            assert(short[j] == materialized[j]);
        }
        assert(short[i] == materialized[i]);
        lemma_materialized(short, key, i);
    }
}

proof fn lemma_completed(
    loads: Seq<Pubkey>,
    materialized: Seq<(Pubkey, AccountMode)>,
    key: Pubkey,
    mode: AccountMode,
)
    ensures
        completed_loads(loads, materialized).contains((key, mode)) <==> loads.contains(key)
            && materialized_mode(materialized, key) == Some(mode),
    decreases loads.len(),
{
    if loads.len() > 0 {
        let short = loads.drop_last();
        let front = completed_loads(short, materialized);
        let all = completed_loads(loads, materialized);
        lemma_completed(short, materialized, key, mode);
        assert(loads =~= short.push(loads.last()));
        if front.contains((key, mode)) {
            let n = choose|n: int| 0 <= n < front.len() && front[n] == (key, mode);
            assert(all[n] == (key, mode));
        }
        if all.contains((key, mode)) && !front.contains((key, mode)) {
            let n = choose|n: int| 0 <= n < all.len() && all[n] == (key, mode);
            assert(n == front.len() || front[n] == (key, mode));
            assert(loads[loads.len() - 1] == key);
        }
        if loads.contains(key) && materialized_mode(materialized, key) == Some(mode)
            && !short.contains(key) {
            let n = choose|n: int| 0 <= n < loads.len() && loads[n] == key;
            assert(n == loads.len() - 1 || short[n] == key);
            assert(all.last() == (key, mode));
            assert(all[all.len() - 1] == (key, mode));
        }
        if short.contains(key) {
            let n = choose|n: int| 0 <= n < short.len() && short[n] == key;
            assert(loads[n] == key);
        }
    }
}

/// A load is complete once its account was brought in, in the mode in which that was done last.
pub proof fn law_loads_are_completed(
    loads: Vec<Pubkey>,
    materialized: Vec<(Pubkey, AccountMode)>,
    key: Pubkey,
    i: int,
    r: Vec<(Pubkey, AccountMode)>,
)
    requires
        call_ensures(complete_loads, (&loads, &materialized), r),
        0 <= i < materialized@.len(),
        materialized@[i].0 == key,
        forall|j: int| i < j < materialized@.len() ==> (#[trigger] materialized@[j]).0 != key,
    ensures
        r@.contains((key, materialized@[i].1)) <==> loads@.contains(key),
{
    lemma_materialized(materialized@, key, i);
    lemma_completed(loads@, materialized@, key, materialized@[i].1);
}

/// Waiting succeeds exactly if every load that was waited for was completed; otherwise the first
/// that was not is named.
pub proof fn law_waiters_learn_of_failures(
    waited: Vec<(Pubkey, bool)>,
    r: Result<(), ChainlinkError>,
    i: int,
)
    requires
        call_ensures(check_waiters, (&waited,), r),
        0 <= i < waited@.len(),
        !waited@[i].1,
        forall|j: int| 0 <= j < i ==> (#[trigger] waited@[j]).1,
    ensures
        r == Err::<(), _>(ChainlinkError::AccountLoadFailed(waited@[i].0)),
{
    assert(waited_for(waited@, r));
}

/// Nobody waits in vain: with all loads complete there is no error.
pub proof fn law_waiters_are_content(waited: Vec<(Pubkey, bool)>, r: Result<(), ChainlinkError>)
    requires
        call_ensures(check_waiters, (&waited,), r),
        forall|j: int| 0 <= j < waited@.len() ==> (#[trigger] waited@[j]).1,
    ensures
        r is Ok,
{
    assert(waited_for(waited@, r));
}

} // verus!
