//! What holds of batches and of the stages of a fetch.
use vstd::prelude::*;
use crate::account::{
    Account, AccountMode, BankAccount, RemoteAccount, ResolvedAccount, SubscriptionReason,
};
use crate::chainlink::errors::ChainlinkError;
use crate::chainlink::fetch_cloner::batch::{
    airdrop_account_if_empty, batch_cancellation, derived_subscriptions, forwarded_step,
    law_batch_keeps_watches, pick_in_bank, pick_without_record, resolve_batch_delegated,
    resolve_batch_programs, resolve_forwarded_account, should_refetch, sort_refetched,
    update_action, BatchDelegated, ForwardedAccount, ForwardedStep, UpdateAction,
};
use crate::chainlink::fetch_cloner::batch_stages::{
    accounts_to_refetch, batch_subscriptions, pick_refetched, pick_refetched_delegated,
    pick_refetched_plain, zipped, BankCheck, BatchCloneStage, BatchDelegatedStage, BatchFetch,
    BatchSorted,
};
use crate::chainlink::fetch_cloner::cancel::CancelStrategy;
use crate::chainlink::fetch_cloner::clone_stages::{
    start_clone, AtasStage, BankStage, CloneFailure, CloneStage, DelegatedStage, DelegatedWork,
    DependencyAtasStage, DependencyDelegatedStage, DependencyProgramsStage, DependencyStep,
    FetchStage, Gathered, ProgramsStage,
};
use crate::chainlink::fetch_cloner::fetching::pick_absent;
use crate::chainlink::fetch_cloner::pipeline::{
    classify_remote_accounts, named_by_actions, pick_class, pick_error, pick_failed, pick_loaded,
    pick_missing, pick_plain, pick_success, pick_unreadable, pick_with_actions, pick_without_code,
    AccountClass, CloneBatches, FetchedAccount, ProgramLoad,
};
use crate::chainlink::fetch_cloner::subscription::SubscriptionRelease;
use crate::chainlink::fetch_cloner::types::{
    AccountWithCompanion, AtaAccount, ClassifiedAccounts, FetchAndCloneResult,
    ResolvedDelegatedAccounts, ResolvedPrograms,
};
use crate::cloner::{AccountCloneRequest, LoadedProgram};
use crate::delegation_record::{read_record, DelegationRecord, RecordError};
use crate::laws::delegation::{is_nobody, lemma_nobody};
use crate::lists::{lemma_picked_contains, lemma_picked_len, lemma_picked_parts, picked};
use crate::pda::{delegation_record_address, program_data_address};
use crate::program_ids::{DLP_PROGRAM_ID, NATIVE_LOADER_ID, SYSTEM_PROGRAM_ID};
use crate::pubkey::{lemma_distinct_keys, lemma_pubkey_bytes_determine, Pubkey};

verus! {

proof fn lemma_pick<A, B>(list: Seq<A>, pick: spec_fn(A) -> Option<B>, i: int, item: B)
    requires
        0 <= i < list.len(),
        pick(list[i]) == Some(item),
    ensures
        picked(list, pick).contains(item),
        picked(list, pick).len() > 0,
{
    lemma_picked_contains(list, pick, item);
}

/// A fetch of accounts may subscribe to each of them, to its record, and to its code.
pub proof fn law_batches_may_subscribe(
    pubkeys: Vec<Pubkey>,
    i: int,
    derived: Vec<Pubkey>,
    all: Vec<Pubkey>,
)
    requires
        call_ensures(derived_subscriptions, (&pubkeys,), derived),
        call_ensures(batch_subscriptions, (&pubkeys,), all),
        0 <= i < pubkeys@.len(),
    ensures
        derived@.len() == 2 * pubkeys@.len(),
        derived@[i]@ == delegation_record_address(pubkeys@[i]@),
        derived@[pubkeys@.len() + i]@ == program_data_address(pubkeys@[i]@),
        all@.len() == 3 * pubkeys@.len(),
        all@[i] == pubkeys@[i],
{
    let n = pubkeys@.len() as int;
    assert(all@.take(n)[i] == all@[i]);
}

/// An account of the bank is fetched after all exactly if it is undelegating there and that is
/// over on chain: it is not delegated any longer, or by a newer delegation.
pub proof fn law_returned_accounts_are_refetched(
    in_bank: Option<BankAccount>,
    slot: u64,
    record: Option<DelegationRecord>,
    r: bool,
)
    requires
        call_ensures(should_refetch, (&in_bank, slot, &record), r),
    ensures
        in_bank is None ==> !r,
        in_bank matches Some(held) ==> {
            &&& !held.undelegating ==> !r
            &&& held.undelegating && !held.delegated ==> r
            &&& held.undelegating && held.delegated ==> (r <==> (record matches Some(record)
                && record.delegation_slot > slot))
        },
{
}

/// All accounts that are to be fetched after all are, and no others.
pub proof fn law_refetches_are_collected(checks: Vec<BankCheck>, i: int, one: bool, r: Vec<Pubkey>)
    requires
        call_ensures(accounts_to_refetch, (&checks,), r),
        0 <= i < checks@.len(),
        call_ensures(
            should_refetch,
            (&checks@[i].in_bank, checks@[i].slot, &checks@[i].record),
            one,
        ),
        forall|j: int|
            0 <= j < checks@.len() && j != i ==> (#[trigger] checks@[j]).pubkey
                != checks@[i].pubkey,
    ensures
        r@.contains(checks@[i].pubkey) <==> one,
{
    lemma_picked_contains(checks@, pick_refetched(), checks@[i].pubkey);
    if one {
        assert(pick_refetched()(checks@[i]) == Some(checks@[i].pubkey));
    }
    if r@.contains(checks@[i].pubkey) {
        let j = choose|j: int|
            0 <= j < checks@.len() && pick_refetched()(#[trigger] checks@[j]) == Some(
                checks@[i].pubkey,
            );
        assert(checks@[j].pubkey == checks@[i].pubkey);
        assert(j == i);
    }
}

/// What was fetched after all goes where its owner says, with its state.
pub proof fn law_refetched_accounts_are_sorted(
    pubkey: Pubkey,
    account: Account,
    owned: &mut Vec<(Pubkey, Account, u64)>,
    plain: &mut Vec<AccountCloneRequest>,
)
    requires
        call_ensures(sort_refetched, (pubkey, account, owned, plain), ()),
    ensures
        account.owner.bytes == DLP_PROGRAM_ID ==> final(owned)@.len() == old(owned)@.len() + 1
            && final(owned)@.last() == (pubkey, account, account.slot) && final(plain)@
            == old(plain)@,
        account.owner.bytes != DLP_PROGRAM_ID ==> final(plain)@.len() == old(plain)@.len() + 1
            && final(plain)@.last().pubkey == pubkey && final(plain)@.last().account == account
            && final(plain)@.last().post_delegation_mode is Plain && final(owned)@
            == old(owned)@,
{
}

/// An account that a subscription brought is cloned exactly if it is newer than the bank's and
/// not still undelegating; one that the bank does not have always is.
pub proof fn law_newer_accounts_are_cloned(
    account: Account,
    in_bank: Option<BankAccount>,
    record: Option<DelegationRecord>,
    r: UpdateAction,
)
    requires
        call_ensures(update_action, (&account, &in_bank, &record), r),
    ensures
        in_bank is None ==> r is Clone,
        in_bank matches Some(held) ==> {
            &&& held.slot >= account.slot ==> r == UpdateAction::OutOfOrder
            &&& held.slot < account.slot && !held.undelegating ==> r is Clone
            &&& held.slot < account.slot && held.undelegating && !held.delegated ==> r is Clone
            &&& held.slot < account.slot && held.undelegating && held.delegated ==> (r is Clone
                <==> (record matches Some(record) && record.delegation_slot > held.slot))
        },
        r matches UpdateAction::Clone { unsubscribe, executable } ==> (unsubscribe
            <==> account.mode == AccountMode::Delegated) && (executable <==> account.executable),
{
}

/// A balance is given exactly to an account that has none, and all of it.
pub proof fn law_empty_accounts_are_given_a_balance(
    lamports: u64,
    in_bank: Option<BankAccount>,
    r: Option<Account>,
)
    requires
        call_ensures(airdrop_account_if_empty, (lamports, &in_bank), r),
    ensures
        lamports == 0 ==> r is None,
        (in_bank matches Some(held) && held.lamports > 0) ==> r is None,
        lamports > 0 && (in_bank matches Some(held) ==> held.lamports == 0) ==> (
        r matches Some(account) && account.lamports == lamports && account.owner.bytes
            == SYSTEM_PROGRAM_ID && account.data@.len() == 0 && !account.executable
            && account.slot == 0 && account.mode == AccountMode::ReadOnly),
{
}

/// A forwarded account of the delegation program needs its own record, of its own slot; any
/// other is cloned as it is.
pub proof fn law_forwarded_accounts_need_their_record(
    pubkey: Pubkey,
    account: Account,
    slot: u64,
    r: ForwardedStep,
    missing: ForwardedStep,
)
    requires
        call_ensures(
            forwarded_step,
            (&pubkey, RemoteAccount::Found(ResolvedAccount::Fresh(account))),
            r,
        ),
        call_ensures(forwarded_step, (&pubkey, RemoteAccount::NotFound(slot)), missing),
    ensures
        missing is Nothing,
        account.owner.bytes != DLP_PROGRAM_ID ==> r == ForwardedStep::CloneAsIs(account),
        account.owner.bytes == DLP_PROGRAM_ID ==> (r matches ForwardedStep::FetchRecord {
            delegation_record_pubkey,
            slot: at,
        } && delegation_record_pubkey@ == delegation_record_address(pubkey@) && at
            == account.slot),
{
}

/// A forwarded account with a record keeps its state on chain and becomes what the record says;
/// one without a record is cloned as it is; one whose record cannot be read is not cloned.
pub proof fn law_forwarded_accounts_are_resolved(
    pair: AccountWithCompanion,
    was_subscribed: bool,
    validator: Pubkey,
    bytes: &[u8],
    record: Result<DelegationRecord, RecordError>,
    r: ForwardedAccount,
)
    requires
        call_ensures(resolve_forwarded_account, (pair, was_subscribed, &validator), r),
        pair.companion_account matches Some(companion) ==> bytes@ == companion.data@,
        call_ensures(read_record, (bytes,), record),
    ensures
        pair.companion_account is None ==> r.account == Some(pair.account) && r.record is None,
        pair.companion_account is Some && record is Err ==> r.account is None && r.record is None,
        pair.companion_account is Some && record is Ok ==> {
            let found = record->Ok_0;
            &&& r.record == Some(found)
            &&& r.account matches Some(account)
            &&& account.lamports == pair.account.lamports
            &&& account.data == pair.account.data
            &&& account.executable == pair.account.executable
            &&& account.slot == pair.account.slot
            &&& account.owner == found.owner
            &&& account.mode == AccountMode::Delegated <==> found.authority == validator
                || is_nobody(found.authority)
            &&& r.subs_to_remove@.contains(pair.pubkey) || account.mode != AccountMode::Delegated
        },
        !was_subscribed ==> r.subs_to_remove@.contains(pair.companion_pubkey),
{
    if record is Ok {
        lemma_nobody(record->Ok_0.authority);
        if r.record is Some {
            lemma_pubkey_bytes_determine((r.record->0).authority, record->Ok_0.authority);
            lemma_pubkey_bytes_determine((r.record->0).owner, record->Ok_0.owner);
        }
    }
    let subs = r.subs_to_remove@;
    if subs.len() > 0 {
        assert(subs.contains(subs[0]));
        assert(subs.contains(subs[subs.len() - 1]));
    }
}

/// The delegated accounts of a batch are brought in after the plain ones, each with its state on
/// chain; those without a record are told.
pub proof fn law_delegated_accounts_of_a_batch(
    pubkeys: Vec<Pubkey>,
    existing: Vec<Pubkey>,
    plain: Vec<AccountCloneRequest>,
    pairs: Vec<AccountWithCompanion>,
    fetched: Vec<Result<AccountWithCompanion, ChainlinkError>>,
    validator: Pubkey,
    i: int,
    r: BatchDelegated,
)
    requires
        call_ensures(
            resolve_batch_delegated,
            (&pubkeys, &existing, plain, fetched, &validator),
            Ok(r),
        ),
        fetched@.len() == pairs@.len(),
        forall|k: int|
            0 <= k < fetched@.len() ==> #[trigger] fetched@[k] == Ok::<_, ChainlinkError>(pairs@[k]),
        0 <= i < pairs@.len(),
    ensures
        r.accounts_to_clone@.len() == plain@.len() + pairs@.len(),
        ({
            let request = r.accounts_to_clone@[plain@.len() + i];
            &&& request.pubkey == pairs@[i].pubkey
            &&& request.account.lamports == pairs@[i].account.lamports
            &&& request.account.data == pairs@[i].account.data
            &&& request.account.slot == pairs@[i].account.slot
            &&& request.account.executable == pairs@[i].account.executable
            &&& pairs@[i].companion_account is None ==> request.account == pairs@[i].account
            &&& request.commit_frequency_ms is None
            &&& request.post_delegation_mode is Plain
        }),
        pairs@[i].companion_account is None ==> r.missing_delegation_record@.contains(
            (pairs@[i].pubkey, pairs@[i].account.slot),
        ),
        r.record_subs@.len() == pairs@.len(),
        r.record_subs@[i] == pairs@[i].companion_pubkey,
{
    lemma_all_ok(fetched@, pairs@);
    let all = picked(fetched@, pick_success::<AccountWithCompanion>());
    assert(all == pairs@);
    assert(picked(fetched@, pick_error::<AccountWithCompanion>()).len() == 0);
    assert(crate::chainlink::fetch_cloner::batch::is_recorded_request(
        all[i],
        validator,
        r.accounts_to_clone@[plain@.len() + i],
    ));
    if pairs@[i].companion_account is None {
        lemma_pick(
            pairs@,
            pick_without_record(),
            i,
            (pairs@[i].pubkey, pairs@[i].account.slot),
        );
    }
}

proof fn lemma_all_ok(
    fetched: Seq<Result<AccountWithCompanion, ChainlinkError>>,
    pairs: Seq<AccountWithCompanion>,
)
    requires
        fetched.len() == pairs.len(),
        forall|k: int|
            0 <= k < fetched.len() ==> #[trigger] fetched[k] == Ok::<_, ChainlinkError>(pairs[k]),
    ensures
        picked(fetched, pick_success::<AccountWithCompanion>()) == pairs,
        picked(fetched, pick_error::<AccountWithCompanion>()).len() == 0,
    decreases fetched.len(),
{
    if fetched.len() > 0 {
        let short = fetched.drop_last();
        assert forall|k: int| 0 <= k < short.len() implies #[trigger] short[k] == Ok::<
            _,
            ChainlinkError,
        >(pairs.drop_last()[k]) by {
            assert(short[k] == fetched[k]);
        }
        lemma_all_ok(short, pairs.drop_last());
        assert(fetched[fetched.len() - 1] == Ok::<_, ChainlinkError>(pairs[pairs.len() - 1]));
        assert(pairs.drop_last().push(pairs.last()) =~= pairs);
    } else {
        assert(pairs =~= Seq::empty());
    }
}

/// One fetch that failed ends a batch, and the subscriptions that it made are given up, but not
/// those that existed before.
pub proof fn law_failed_fetches_end_a_batch(
    pubkeys: Vec<Pubkey>,
    existing: Vec<Pubkey>,
    plain: Vec<AccountCloneRequest>,
    fetched: Vec<Result<AccountWithCompanion, ChainlinkError>>,
    validator: Pubkey,
    i: int,
    r: Result<BatchDelegated, (ChainlinkError, CancelStrategy)>,
)
    requires
        call_ensures(
            resolve_batch_delegated,
            (&pubkeys, &existing, plain, fetched, &validator),
            r,
        ),
        0 <= i < fetched@.len(),
        fetched@[i] is Err,
    ensures
        r matches Err((_, cancel)) && (cancel matches CancelStrategy::New { new_subs, existing_subs }
            && new_subs@ == pubkeys@ && existing_subs@ == existing@),
{
    lemma_pick(fetched@, pick_error::<AccountWithCompanion>(), i, fetched@[i]->Err_0);
}

/// The programs of a batch are loaded exactly if all of them can be; then all of them are.
pub proof fn law_programs_of_a_batch(
    pubkeys: Vec<Pubkey>,
    existing: Vec<Pubkey>,
    subs: Vec<Pubkey>,
    loads: Vec<ProgramLoad>,
    i: int,
    r: Result<Vec<LoadedProgram>, (ChainlinkError, Option<CancelStrategy>)>,
)
    requires
        call_ensures(resolve_batch_programs, (&pubkeys, &existing, &subs, loads), r),
        0 <= i < loads@.len(),
    ensures
        r is Ok ==> (loads@[i] matches ProgramLoad::Read(Ok(program)) && r->Ok_0@.contains(program)),
        (forall|k: int|
            0 <= k < loads@.len() ==> ((#[trigger] loads@[k]) matches ProgramLoad::Read(read)
                && read is Ok)) ==> r is Ok,
        loads@[i] matches ProgramLoad::Read(Err(_)) ==> (r matches Err((_, cancel)) && cancel
            is None),
        r matches Err((_, cancel)) ==> (cancel matches Some(strategy) ==> (strategy
            matches CancelStrategy::New { new_subs, existing_subs } && new_subs@ == pubkeys@
            + subs@ && existing_subs@ == existing@)),
        (forall|k: int|
            0 <= k < loads@.len() ==> !((#[trigger] loads@[k]) matches ProgramLoad::Read(read)
                && read is Err)) && r is Err ==> ((r->Err_0).1) is Some,
{
    let unreadable = picked(loads@, pick_unreadable());
    let failed = picked(loads@, pick_failed());
    let without = picked(loads@, pick_without_code());
    match loads@[i] {
        ProgramLoad::Failed(error) => {
            lemma_pick(loads@, pick_failed(), i, error);
        },
        ProgramLoad::WithoutCode { program_id, program_data } => {
            lemma_pick(
                loads@,
                pick_without_code(),
                i,
                ChainlinkError::FailedToResolveProgramDataAccount(program_data, program_id),
            );
        },
        ProgramLoad::Read(Err(error)) => {
            lemma_pick(loads@, pick_unreadable(), i, error);
        },
        ProgramLoad::Read(Ok(program)) => {
            lemma_pick(loads@, pick_loaded(), i, program);
        },
    }
    if unreadable.len() > 0 {
        lemma_picked_contains(loads@, pick_unreadable(), unreadable[0]);
        assert(unreadable.contains(unreadable[0]));
    }
    if failed.len() > 0 {
        lemma_picked_contains(loads@, pick_failed(), failed[0]);
        assert(failed.contains(failed[0]));
    }
    if without.len() > 0 {
        lemma_picked_contains(loads@, pick_without_code(), without[0]);
        assert(without.contains(without[0]));
    }
}

/// After a batch, an account that was asked for stays watched exactly if the rollup does not run
/// it and it was cloned, loaded, or watched before.
pub proof fn law_batches_keep_their_watches(
    pubkeys: Vec<Pubkey>,
    existing: Vec<Pubkey>,
    accounts: Vec<AccountCloneRequest>,
    programs: Vec<LoadedProgram>,
    record_subs: Vec<Pubkey>,
    program_data_subs: Vec<Pubkey>,
    key: Pubkey,
    r: CancelStrategy,
    cancelled: Vec<Pubkey>,
)
    requires
        call_ensures(
            batch_cancellation,
            (&pubkeys, &existing, &accounts, &programs, &record_subs, &program_data_subs),
            r,
        ),
        call_ensures(CancelStrategy::subs_to_cancel, (&r,), cancelled),
        pubkeys@.contains(key),
        !record_subs@.contains(key),
        !program_data_subs@.contains(key),
    ensures
        cancelled@.contains(key) <==> {
            ||| exists|i: int|
                0 <= i < accounts@.len() && (#[trigger] accounts@[i]).pubkey == key
                    && accounts@[i].account.mode == AccountMode::Delegated
            ||| !existing@.contains(key) && !(exists|i: int|
                0 <= i < accounts@.len() && (#[trigger] accounts@[i]).pubkey == key) && !(
            exists|i: int|
                0 <= i < programs@.len() && (#[trigger] programs@[i]).program_id == key)
        },
{
    law_batch_keeps_watches(
        pubkeys@,
        accounts@,
        programs@,
        record_subs@,
        program_data_subs@,
        r,
        key,
    );
}

/// A batch sorts what was fetched under the addresses that were asked for, as every fetch does.
pub proof fn law_batches_are_sorted(
    batch: BatchFetch,
    accounts: Vec<RemoteAccount>,
    mark_empty: Option<&Vec<Pubkey>>,
    i: int,
    r: (BatchSorted, Vec<(Pubkey, u64)>),
)
    requires
        call_ensures(BatchFetch::fetched, (batch, accounts, mark_empty), r),
        accounts@.len() == batch.pubkeys@.len(),
        0 <= i < accounts@.len(),
    ensures
        r.0.pubkeys == batch.pubkeys,
        r.0.existing_subs == batch.existing_subs,
        accounts@[i] matches RemoteAccount::Found(ResolvedAccount::Fresh(account)) ==> {
            let entry = (batch.pubkeys@[i], account, account.slot);
            &&& account.owner.bytes == DLP_PROGRAM_ID ==> r.0.owned_by_deleg@.contains(entry)
            &&& account.owner.bytes != DLP_PROGRAM_ID && account.executable && account.owner.bytes
                != NATIVE_LOADER_ID ==> r.0.programs@.contains(entry)
            &&& account.owner.bytes != DLP_PROGRAM_ID && !account.executable ==> exists|k: int|
                0 <= k < r.0.plain@.len() && (#[trigger] r.0.plain@[k]).pubkey
                    == batch.pubkeys@[i] && r.0.plain@[k].account == account
        },
        accounts@[i] matches RemoteAccount::Found(ResolvedAccount::Bank(key, slot))
            ==> r.1@.contains((key, slot)),
        accounts@[i] matches RemoteAccount::NotFound(slot) ==> (mark_empty is None
            ==> r.0.not_found@.contains((batch.pubkeys@[i], slot))),
{
    let fetched = zipped(batch.pubkeys@, accounts@);
    let one = fetched[i];
    assert(one == (FetchedAccount {
        pubkey: batch.pubkeys@[i],
        account: accounts@[i],
        ata: None,
    }));
    match accounts@[i] {
        RemoteAccount::Found(ResolvedAccount::Fresh(account)) => {
            let entry = (one.pubkey, account, account.slot);
            if account.owner.bytes == DLP_PROGRAM_ID {
                lemma_pick(fetched, pick_class(AccountClass::OwnedByDlp), i, entry);
            } else if account.executable {
                if account.owner.bytes != NATIVE_LOADER_ID {
                    lemma_pick(fetched, pick_class(AccountClass::Program), i, entry);
                }
            } else {
                let request = pick_plain()(one)->0;
                lemma_pick(fetched, pick_plain(), i, request);
                let k = choose|k: int| 0 <= k < r.0.plain@.len() && r.0.plain@[k] == request;
                assert(r.0.plain@[k].pubkey == one.pubkey);
            }
        },
        RemoteAccount::Found(ResolvedAccount::Bank(key, slot)) => {
            lemma_pick(fetched, pick_in_bank(), i, (key, slot));
        },
        RemoteAccount::NotFound(slot) => {
            lemma_pick(fetched, pick_missing(), i, (one.pubkey, slot));
            let missing = picked(fetched, pick_missing());
            let n = choose|n: int| 0 <= n < missing.len() && missing[n] == (one.pubkey, slot);
            if mark_empty is None {
                lemma_pick(
                    missing,
                    crate::chainlink::fetch_cloner::pipeline::pick_marked(
                        crate::chainlink::fetch_cloner::pipeline::keys_view(mark_empty),
                        false,
                    ),
                    n,
                    (one.pubkey, slot),
                );
            }
        },
    }
}

/// What was fetched after all is not lost, and neither is what was there before.
pub proof fn law_batches_take_refetched_accounts_in(
    batch: BatchSorted,
    accounts: Vec<(Pubkey, Option<Account>)>,
    min: Option<u64>,
    i: int,
    k: int,
    r: (BatchDelegatedStage, Vec<(Pubkey, u64)>),
)
    requires
        call_ensures(BatchSorted::refetched, (batch, accounts, min), r),
        0 <= i < accounts@.len(),
    ensures
        r.0.programs == batch.programs,
        r.0.not_found == batch.not_found,
        0 <= k < batch.plain@.len() ==> r.0.plain@[k] == batch.plain@[k],
        0 <= k < batch.owned_by_deleg@.len() ==> r.1@[k].0 == batch.owned_by_deleg@[k].0
            && r.1@[k].1 >= batch.owned_by_deleg@[k].2,
        accounts@[i].1 matches Some(account) ==> {
            &&& account.owner.bytes != DLP_PROGRAM_ID ==> exists|n: int|
                0 <= n < r.0.plain@.len() && (#[trigger] r.0.plain@[n]).pubkey == accounts@[i].0
                    && r.0.plain@[n].account == account
            &&& account.owner.bytes == DLP_PROGRAM_ID ==> exists|n: int|
                0 <= n < r.1@.len() && (#[trigger] r.1@[n]).0 == accounts@[i].0 && r.1@[n].1
                    >= account.slot
        },
{
    let more = picked(accounts@, pick_refetched_plain());
    let owned = picked(accounts@, pick_refetched_delegated());
    let all = batch.owned_by_deleg@ + owned;
    if 0 <= k < batch.owned_by_deleg@.len() {
        assert(all[k] == batch.owned_by_deleg@[k]);
    }
    if accounts@[i].1 is Some {
        let account = accounts@[i].1->0;
        if account.owner.bytes != DLP_PROGRAM_ID {
            let request = pick_refetched_plain()(accounts@[i])->0;
            lemma_pick(accounts@, pick_refetched_plain(), i, request);
            let n = choose|n: int| 0 <= n < more.len() && more[n] == request;
            assert(r.0.plain@[batch.plain@.len() + n] == request);
        } else {
            let entry = (accounts@[i].0, account, account.slot);
            lemma_pick(accounts@, pick_refetched_delegated(), i, entry);
            let n = choose|n: int| 0 <= n < owned.len() && owned[n] == entry;
            assert(all[batch.owned_by_deleg@.len() + n] == entry);
            assert(r.1@[batch.owned_by_deleg@.len() + n].0 == accounts@[i].0);
        }
    }
}

/// A batch ends in what it could not find, if everything was cloned, and in the error otherwise.
pub proof fn law_batches_end(
    stage: BatchCloneStage,
    error: ChainlinkError,
    r: Result<FetchAndCloneResult, ChainlinkError>,
    failed: Result<FetchAndCloneResult, ChainlinkError>,
)
    requires
        call_ensures(BatchCloneStage::cloned, (stage, Ok(())), r),
        call_ensures(BatchCloneStage::cloned, (stage, Err(error)), failed),
    ensures
        r matches Ok(found) && found.not_found_on_chain == stage.not_found
            && found.missing_delegation_record == stage.missing_delegation_record,
        failed == Err::<FetchAndCloneResult, _>(error),
{
}

/// A fetch starts with the lists of what was fetched; what the chain does not have is told
/// unless it is stood in for.
pub proof fn law_fetches_start(
    pubkeys: Vec<Pubkey>,
    fetched: Vec<FetchedAccount>,
    mark_empty: Option<&Vec<Pubkey>>,
    lists: ClassifiedAccounts,
    r: (DelegatedStage, DelegatedWork),
)
    requires
        call_ensures(start_clone, (pubkeys, fetched, mark_empty), r),
        call_ensures(classify_remote_accounts, (fetched,), lists),
    ensures
        r.0.pubkeys == pubkeys,
        r.0.programs@ == lists.programs@,
        r.0.atas@ == lists.atas@,
        r.1.owned_by_deleg@ == lists.owned_by_deleg@,
        r.1.plain@ == lists.plain@,
        r.0.not_found@.len() <= lists.not_found@.len(),
        mark_empty is None ==> r.0.not_found@.len() == lists.not_found@.len(),
{
    let keys = crate::chainlink::fetch_cloner::pipeline::keys_view(mark_empty);
    let unmarked = crate::chainlink::fetch_cloner::pipeline::pick_marked(keys, false);
    let marked = crate::chainlink::fetch_cloner::pipeline::pick_marked(keys, true);
    let missing = lists.not_found@;
    lemma_picked_len(missing, unmarked);
    lemma_picked_parts(missing, unmarked, marked);
    if mark_empty is None && picked(missing, marked).len() > 0 {
        let first = picked(missing, marked)[0];
        lemma_picked_contains(missing, marked, first);
        assert(picked(missing, marked).contains(first));
    }
}

/// From stage to stage a fetch goes on with all that it has; if one of them fails, its error is
/// told and the accounts that were asked for are given back.
pub proof fn law_delegated_stages_go_on(
    stage: DelegatedStage,
    resolved: ResolvedDelegatedAccounts,
    error: ChainlinkError,
    k: int,
    r: Result<(ProgramsStage, Vec<(Pubkey, Account, u64)>), CloneFailure>,
    failed: Result<(ProgramsStage, Vec<(Pubkey, Account, u64)>), CloneFailure>,
)
    requires
        call_ensures(DelegatedStage::delegated, (stage, Ok(resolved)), r),
        call_ensures(DelegatedStage::delegated, (stage, Err(error)), failed),
    ensures
        r matches Ok((next, programs)) && next.pubkeys == stage.pubkeys && next.not_found
            == stage.not_found && next.delegated == resolved && next.atas == stage.atas && programs
            == stage.programs,
        failed matches Err(failure) && failure.error == error && failure.releases@.len()
            == stage.pubkeys@.len() && (0 <= k < stage.pubkeys@.len() ==> failure.releases@[k] == (
        SubscriptionRelease {
            pubkey: stage.pubkeys@[k],
            reason: SubscriptionReason::DirectAccount,
        })),
{
}

/// The same of the stage of programs; there the records are given back too, for both reasons.
pub proof fn law_program_stages_go_on(
    stage: ProgramsStage,
    resolved: ResolvedPrograms,
    error: ChainlinkError,
    r: Result<(AtasStage, Vec<AtaAccount>), CloneFailure>,
    failed: Result<(AtasStage, Vec<AtaAccount>), CloneFailure>,
)
    requires
        call_ensures(ProgramsStage::programs, (stage, Ok(resolved)), r),
        call_ensures(ProgramsStage::programs, (stage, Err(error)), failed),
    ensures
        r matches Ok((next, atas)) && {
            &&& atas == stage.atas
            &&& next.gathered.not_found == stage.not_found
            &&& next.gathered.missing_delegation_record
                == stage.delegated.missing_delegation_record
            &&& next.gathered.gathering.accounts_to_clone == stage.delegated.accounts_to_clone
            &&& next.gathered.gathering.loaded_programs == resolved.loaded_programs
            &&& next.gathered.gathering.record_subs == stage.delegated.record_subs
            &&& next.gathered.gathering.program_data_subs == resolved.program_data_subs
            &&& next.gathered.gathering.requested@.len() == stage.pubkeys@.len()
                + stage.delegated.record_subs@.len() + resolved.program_data_subs@.len()
        },
        failed matches Err(failure) && failure.error == error && failure.releases@.len()
            == stage.pubkeys@.len() + 2 * stage.delegated.record_subs@.len(),
{
}

/// Token accounts are added to what is cloned, and what the actions of all of it name is asked
/// of the bank.
pub proof fn law_token_account_stages_go_on(
    stage: AtasStage,
    resolved: Vec<AccountCloneRequest>,
    r: (BankStage, Vec<Pubkey>),
)
    requires
        call_ensures(AtasStage::atas, (stage, resolved), r),
    ensures
        r.0.gathered.gathering.accounts_to_clone@ == stage.gathered.gathering.accounts_to_clone@
            + resolved@,
        r.0.gathered.gathering.loaded_programs == stage.gathered.gathering.loaded_programs,
        r.0.gathered.gathering.requested == stage.gathered.gathering.requested,
        r.0.gathered.not_found == stage.gathered.not_found,
        r.0.gathered.missing_delegation_record == stage.gathered.missing_delegation_record,
        r.1@.no_duplicates(),
{
    lemma_distinct_keys(named_by_actions(r.0.gathered.gathering.accounts_to_clone@));
}

/// What actions name is fetched first exactly if neither the bank has it nor the fetch brings
/// it; if there is nothing to fetch, everything is cloned.
pub proof fn law_dependencies_come_first(
    stage: BankStage,
    in_bank: Vec<Pubkey>,
    allowed: Option<Vec<Pubkey>>,
    key: Pubkey,
    r: DependencyStep,
)
    requires
        call_ensures(BankStage::in_bank, (stage, &in_bank, &allowed), r),
    ensures
        ({
            let all = stage.gathered.gathering;
            let needed = named_by_actions(all.accounts_to_clone@).contains(key)
                && !in_bank@.contains(key) && !(exists|i: int|
                0 <= i < all.accounts_to_clone@.len() && (
                #[trigger] all.accounts_to_clone@[i]).pubkey == key) && !(exists|i: int|
                0 <= i < all.loaded_programs@.len() && (
                #[trigger] all.loaded_programs@[i]).program_id == key);
            match r {
                DependencyStep::Clone(_, batches) => {
                    &&& !needed
                    &&& batches.without_actions@.len() + batches.with_actions@.len()
                        == all.accounts_to_clone@.len()
                },
                DependencyStep::Fetch(next, dependencies) => {
                    &&& dependencies@.contains(key) <==> needed
                    &&& dependencies@.len() > 0
                    &&& next.gathered == stage.gathered
                },
            }
        }),
{
    let all = stage.gathered.gathering;
    let named = crate::pubkey::distinct_keys(named_by_actions(all.accounts_to_clone@));
    lemma_distinct_keys(named_by_actions(all.accounts_to_clone@));
    let pick = pick_absent(in_bank@, all.accounts_to_clone@, all.loaded_programs@);
    let absent = stage.gathered.absent(in_bank@);
    lemma_picked_contains(named, pick, key);
    if absent.contains(key) {
        let i = choose|i: int| 0 <= i < named.len() && pick(#[trigger] named[i]) == Some(key);
        assert(named[i] == key);
        assert(named.contains(key));
    }
    if named.contains(key) && pick(key) == Some(key) {
        let i = choose|i: int| 0 <= i < named.len() && named[i] == key;
        assert(pick(named[i]) == Some(key));
    }
    lemma_picked_parts(all.accounts_to_clone@, pick_with_actions(false), pick_with_actions(true));
}

/// What was fetched for the actions is asked for like everything else; if it could not be, the
/// error is told.
pub proof fn law_fetched_dependencies_go_on(
    stage: FetchStage,
    fetched: Vec<FetchedAccount>,
    error: ChainlinkError,
    lists: ClassifiedAccounts,
    r: Result<(DependencyDelegatedStage, DelegatedWork), CloneFailure>,
    failed: Result<(DependencyDelegatedStage, DelegatedWork), CloneFailure>,
)
    requires
        call_ensures(FetchStage::fetched, (stage, Ok(fetched)), r),
        call_ensures(FetchStage::fetched, (stage, Err(error)), failed),
        call_ensures(classify_remote_accounts, (fetched,), lists),
    ensures
        r matches Ok((next, work)) && {
            &&& next.gathered.gathering.requested@ == stage.gathered.gathering.requested@
                + stage.dependencies@
            &&& next.gathered.gathering.accounts_to_clone
                == stage.gathered.gathering.accounts_to_clone
            &&& next.programs@ == lists.programs@
            &&& next.atas@ == lists.atas@
            &&& work.plain@ == lists.plain@
            &&& work.owned_by_deleg@ == lists.owned_by_deleg@
        },
        failed matches Err(failure) && failure.error == error,
{
}

/// Nothing is cloned if an account that actions need has no record; the error names it.
pub proof fn law_dependencies_need_their_records(
    stage: DependencyDelegatedStage,
    resolved: ResolvedDelegatedAccounts,
    i: int,
    r: Result<(DependencyProgramsStage, Vec<(Pubkey, Account, u64)>), CloneFailure>,
)
    requires
        call_ensures(DependencyDelegatedStage::delegated, (stage, Ok(resolved)), r),
    ensures
        r is Ok <==> resolved.missing_delegation_record@.len() == 0,
        r matches Ok((next, programs)) ==> next.accounts == resolved.accounts_to_clone && programs
            == stage.programs && next.atas == stage.atas
            && next.gathered.gathering.accounts_to_clone
            == stage.gathered.gathering.accounts_to_clone,
        0 <= i < resolved.missing_delegation_record@.len() ==> (r matches Err(failure)
            && failure.error matches ChainlinkError::MissingDelegationActionAccounts(missing)
            && missing@[i] == resolved.missing_delegation_record@[i].0),
{
}

/// With the dependencies, everything is cloned: what was gathered before, their accounts and
/// their token accounts.
pub proof fn law_dependencies_are_cloned_too(
    stage: DependencyAtasStage,
    atas: Vec<AccountCloneRequest>,
    allowed: Option<Vec<Pubkey>>,
    r: (CloneStage, CloneBatches),
)
    requires
        call_ensures(DependencyAtasStage::atas, (stage, atas, &allowed), r),
    ensures
        r.1.without_actions@.len() + r.1.with_actions@.len()
            == stage.gathered.gathering.accounts_to_clone@.len() + stage.accounts@.len()
            + atas@.len(),
        allowed is None ==> r.1.programs@.len() == stage.gathered.gathering.loaded_programs@.len()
            + stage.programs.loaded_programs@.len(),
        r.0.not_found == stage.gathered.not_found,
        r.0.missing_delegation_record == stage.gathered.missing_delegation_record,
{
    let all = choose|all: Gathered|
        #[trigger] stage.completed_by(atas@, all) && all.cloned_by(r.0, r.1, allowed);
    lemma_picked_parts(
        all.gathering.accounts_to_clone@,
        pick_with_actions(false),
        pick_with_actions(true),
    );
    if allowed is None {
        lemma_all_allowed(all.gathering.loaded_programs@);
    }
}

proof fn lemma_all_allowed(programs: Seq<LoadedProgram>)
    ensures
        picked(
            programs,
            crate::chainlink::fetch_cloner::pipeline::pick_allowed(None::<Vec<Pubkey>>),
        ).len() == programs.len(),
    decreases programs.len(),
{
    if programs.len() > 0 {
        lemma_all_allowed(programs.drop_last());
    }
}

/// A fetch ends in what it could not find, and gives its subscriptions back; if the clone
/// failed, its error is told.
pub proof fn law_fetches_end(
    stage: CloneStage,
    error: ChainlinkError,
    r: Result<(FetchAndCloneResult, Vec<SubscriptionRelease>), CloneFailure>,
    failed: Result<(FetchAndCloneResult, Vec<SubscriptionRelease>), CloneFailure>,
)
    requires
        call_ensures(CloneStage::cloned, (stage, Ok(())), r),
        call_ensures(CloneStage::cloned, (stage, Err(error)), failed),
    ensures
        r matches Ok((found, releases)) && found.not_found_on_chain == stage.not_found
            && found.missing_delegation_record == stage.missing_delegation_record && releases
            == stage.releases,
        failed matches Err(failure) && failure.error == error,
{
}

/// What a fetch could not find is told by its addresses.
pub proof fn law_results_tell_what_is_missing(
    result: FetchAndCloneResult,
    i: int,
    not_found: Vec<Pubkey>,
    missing: Vec<Pubkey>,
    ok: bool,
)
    requires
        call_ensures(FetchAndCloneResult::pubkeys_not_found_on_chain, (&result,), not_found),
        call_ensures(FetchAndCloneResult::pubkeys_missing_delegation_record, (&result,), missing),
        call_ensures(FetchAndCloneResult::is_ok, (&result,), ok),
    ensures
        not_found@.len() == result.not_found_on_chain@.len(),
        0 <= i < not_found@.len() ==> not_found@[i] == result.not_found_on_chain@[i].0,
        missing@.len() == result.missing_delegation_record@.len(),
        0 <= i < missing@.len() ==> missing@[i] == result.missing_delegation_record@[i].0,
        ok <==> not_found@.len() == 0 && missing@.len() == 0,
{
}

} // verus!
