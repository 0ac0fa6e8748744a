//! What holds of fetched accounts until they are cloned.
use vstd::prelude::*;
use crate::account::{
    effective_slot, min_context_slot, Account, AccountMode, RemoteAccount, ResolvedAccount,
    SubscriptionReason,
};
use crate::chainlink::errors::ChainlinkError;
use crate::chainlink::fetch_cloner::fetching::{
    delegated_failed, expect_pair, forgets_mirrored_record, is_kept_undelegating, programs_failed,
    resolve_account_with_companion, should_refresh_undelegating_in_bank_account,
    task_to_fetch_with_delegation_record, RecordTask,
};
use crate::chainlink::fetch_cloner::pipeline::{
    classify_remote_accounts, classify_single_account, collect_delegation_action_dependencies,
    compute_subscription_releases, delegation_record_subs, law_watches_what_it_copies, named_by,
    named_by_actions, no_longer_watched, order_clones, partition_not_found, pick_allowed,
    pick_atas, pick_class, pick_error, pick_marked, pick_missing, pick_owner_program, pick_plain,
    pick_success, pick_unrecorded, pick_with_actions, read_records, request_with_record,
    resolve_delegated_accounts, resolve_recorded_accounts, split_results, AccountClass,
    CloneBatches, DelegatedAccount, DelegatedOutcome, DelegationRules, FetchedAccount,
    RecordedAccount,
};
use crate::chainlink::fetch_cloner::subscription::{released, SubscriptionRelease};
use crate::chainlink::fetch_cloner::types::{
    AccountWithCompanion, AtaAccount, ClassifiedAccounts, PartitionedNotFound, RefreshDecision,
    ResolvedDelegatedAccounts,
};
use crate::chainlink::record_mirror::MirrorLookup;
use crate::cloner::{AccountCloneRequest, ClonePostDelegationMode, Instruction, LoadedProgram};
use crate::delegation_record::DelegationRecord;
use crate::laws::delegation::{is_nobody, lemma_nobody};
use crate::lists::{lemma_picked_contains, lemma_picked_parts, picked};
use crate::pda::delegation_record_address;
use crate::program_ids::{DLP_PROGRAM_ID, NATIVE_LOADER_ID};
use crate::pubkey::{lemma_distinct_keys, Pubkey};

verus! {

/// What an item gives is among what is picked.
proof fn lemma_is_picked<A, B>(list: Seq<A>, pick: spec_fn(A) -> Option<B>, i: int, item: B)
    requires
        0 <= i < list.len(),
        pick(list[i]) == Some(item),
    ensures
        picked(list, pick).contains(item),
{
    lemma_picked_contains(list, pick, item);
}

/// Every account that was fetched is in the list where it belongs: those that the chain does
/// not have; those of the delegation program; the executable ones, by whatever loader but the
/// native one; the token accounts; and all others, which are taken as they are.
pub proof fn law_fetched_accounts_are_classified(
    fetched: Vec<FetchedAccount>,
    i: int,
    r: ClassifiedAccounts,
)
    requires
        call_ensures(classify_remote_accounts, (fetched,), r),
        0 <= i < fetched@.len(),
    ensures
        fetched@[i].account matches RemoteAccount::NotFound(slot) ==> r.not_found@.contains(
            (fetched@[i].pubkey, slot),
        ),
        fetched@[i].account matches RemoteAccount::Found(ResolvedAccount::Fresh(account)) ==> {
            &&& account.owner.bytes == DLP_PROGRAM_ID ==> r.owned_by_deleg@.contains(
                (fetched@[i].pubkey, account, account.slot),
            )
            &&& account.owner.bytes != DLP_PROGRAM_ID && account.executable && account.owner.bytes
                != NATIVE_LOADER_ID ==> r.programs@.contains(
                (fetched@[i].pubkey, account, account.slot),
            )
            &&& account.owner.bytes != DLP_PROGRAM_ID && !account.executable ==> {
                &&& fetched@[i].ata matches Some(info) ==> r.atas@.contains(
                    AtaAccount {
                        pubkey: fetched@[i].pubkey,
                        account,
                        info,
                        slot: account.slot,
                    },
                )
                &&& fetched@[i].ata is None ==> r.plain@.contains(
                    AccountCloneRequest {
                        pubkey: fetched@[i].pubkey,
                        account,
                        commit_frequency_ms: None,
                        post_delegation_mode: ClonePostDelegationMode::Plain,
                        delegated_to_other: None,
                        source_slots: None,
                    },
                )
            }
        },
{
    let list = fetched@;
    let one = list[i];
    match one.account {
        RemoteAccount::NotFound(slot) => {
            lemma_is_picked(list, pick_missing(), i, (one.pubkey, slot));
        },
        RemoteAccount::Found(ResolvedAccount::Fresh(account)) => {
            if account.owner.bytes == DLP_PROGRAM_ID {
                lemma_is_picked(
                    list,
                    pick_class(AccountClass::OwnedByDlp),
                    i,
                    (one.pubkey, account, account.slot),
                );
            } else if account.executable {
                if account.owner.bytes != NATIVE_LOADER_ID {
                    lemma_is_picked(
                        list,
                        pick_class(AccountClass::Program),
                        i,
                        (one.pubkey, account, account.slot),
                    );
                }
            } else {
                match one.ata {
                    Some(info) => {
                        lemma_is_picked(
                            list,
                            pick_atas(),
                            i,
                            AtaAccount { pubkey: one.pubkey, account, info, slot: account.slot },
                        );
                    },
                    None => {
                        lemma_is_picked(
                            list,
                            pick_plain(),
                            i,
                            AccountCloneRequest {
                                pubkey: one.pubkey,
                                account,
                                commit_frequency_ms: None,
                                post_delegation_mode: ClonePostDelegationMode::Plain,
                                delegated_to_other: None,
                                source_slots: None,
                            },
                        );
                    },
                }
            }
        },
        _ => {},
    }
}

/// Whether a fetched account is left out of all lists: it was not fetched since the bank has
/// it, or it is a program of the native loader.
pub open spec fn is_left_out(fetched: FetchedAccount) -> bool {
    match fetched.account {
        RemoteAccount::NotFound(_) => false,
        RemoteAccount::Found(ResolvedAccount::Bank(_, _)) => true,
        RemoteAccount::Found(ResolvedAccount::Fresh(account)) => account.executable
            && account.owner.bytes == NATIVE_LOADER_ID,
    }
}

/// The number of fetched accounts that are not left out.
pub open spec fn kept_count(fetched: Seq<FetchedAccount>) -> nat
    decreases fetched.len(),
{
    if fetched.len() == 0 {
        0
    } else {
        kept_count(fetched.drop_last()) + if is_left_out(fetched.last()) {
            0nat
        } else {
            1
        }
    }
}

proof fn lemma_kept_count(fetched: Seq<FetchedAccount>)
    ensures
        picked(fetched, pick_missing()).len() + picked(fetched, pick_plain()).len() + picked(
            fetched,
            pick_class(AccountClass::OwnedByDlp),
        ).len() + picked(fetched, pick_class(AccountClass::Program)).len() + picked(
            fetched,
            pick_atas(),
        ).len() == kept_count(fetched),
    decreases fetched.len(),
{
    if fetched.len() > 0 {
        lemma_kept_count(fetched.drop_last());
        lemma_loaders_differ();
    }
}

/// The native loader is not the delegation program.
proof fn lemma_loaders_differ()
    ensures
        NATIVE_LOADER_ID != DLP_PROGRAM_ID,
{
    assert(NATIVE_LOADER_ID[0] != DLP_PROGRAM_ID[0]);
}

/// Every account that is not left out is in exactly one of the lists.
pub proof fn law_fetched_accounts_are_classified_once(
    fetched: Vec<FetchedAccount>,
    r: ClassifiedAccounts,
)
    requires
        call_ensures(classify_remote_accounts, (fetched,), r),
    ensures
        r.not_found@.len() + r.plain@.len() + r.owned_by_deleg@.len() + r.programs@.len()
            + r.atas@.len() == kept_count(fetched@),
{
    lemma_kept_count(fetched@);
}

/// Whether a fetched account is what the chain holds under an address.
pub open spec fn is_on_chain(fetched: FetchedAccount, pubkey: Pubkey, account: Account) -> bool {
    fetched.pubkey == pubkey && fetched.account == RemoteAccount::Found(
        ResolvedAccount::Fresh(account),
    )
}

/// What is in a list was fetched and belongs there.
pub proof fn law_lists_hold_what_was_fetched(
    fetched: Vec<FetchedAccount>,
    pubkey: Pubkey,
    account: Account,
    slot: u64,
    r: ClassifiedAccounts,
)
    requires
        call_ensures(classify_remote_accounts, (fetched,), r),
    ensures
        r.programs@.contains((pubkey, account, slot)) ==> slot == account.slot
            && account.executable && account.owner.bytes != NATIVE_LOADER_ID
            && account.owner.bytes != DLP_PROGRAM_ID && exists|i: int|
            0 <= i < fetched@.len() && is_on_chain(#[trigger] fetched@[i], pubkey, account),
        r.owned_by_deleg@.contains((pubkey, account, slot)) ==> slot == account.slot
            && account.owner.bytes == DLP_PROGRAM_ID && exists|i: int|
            0 <= i < fetched@.len() && is_on_chain(#[trigger] fetched@[i], pubkey, account),
        r.not_found@.contains((pubkey, slot)) ==> exists|i: int|
            0 <= i < fetched@.len() && (#[trigger] fetched@[i]).pubkey == pubkey
                && fetched@[i].account == RemoteAccount::NotFound(slot),
{
    let list = fetched@;
    lemma_picked_contains(list, pick_class(AccountClass::Program), (pubkey, account, slot));
    lemma_picked_contains(list, pick_class(AccountClass::OwnedByDlp), (pubkey, account, slot));
    lemma_picked_contains(list, pick_missing(), (pubkey, slot));
    if r.programs@.contains((pubkey, account, slot)) {
        let i = choose|i: int|
            0 <= i < list.len() && pick_class(AccountClass::Program)(#[trigger] list[i]) == Some(
                (pubkey, account, slot),
            );
        assert(is_on_chain(list[i], pubkey, account));
    }
    if r.owned_by_deleg@.contains((pubkey, account, slot)) {
        let i = choose|i: int|
            0 <= i < list.len() && pick_class(AccountClass::OwnedByDlp)(#[trigger] list[i])
                == Some((pubkey, account, slot));
        assert(is_on_chain(list[i], pubkey, account));
    }
    if r.not_found@.contains((pubkey, slot)) {
        let i = choose|i: int|
            0 <= i < list.len() && pick_missing()(#[trigger] list[i]) == Some((pubkey, slot));
        assert(list[i].pubkey == pubkey);
    }
}

/// An account that the chain does not have is cloned as an empty one exactly if it is marked;
/// none is lost.
pub proof fn law_marked_accounts_become_empty(
    mark_empty: Option<&Vec<Pubkey>>,
    not_found: Vec<(Pubkey, u64)>,
    i: int,
    r: PartitionedNotFound,
)
    requires
        call_ensures(partition_not_found, (mark_empty, not_found), r),
        0 <= i < not_found@.len(),
    ensures
        ({
            let marked = mark_empty matches Some(keys) && keys@.contains(not_found@[i].0);
            &&& marked ==> r.clone_as_empty@.contains(not_found@[i]) && !r.not_found@.contains(
                not_found@[i],
            )
            &&& !marked ==> r.not_found@.contains(not_found@[i]) && !r.clone_as_empty@.contains(
                not_found@[i],
            )
        }),
        r.clone_as_empty@.len() + r.not_found@.len() == not_found@.len(),
{
    let keys = crate::chainlink::fetch_cloner::pipeline::keys_view(mark_empty);
    let item = not_found@[i];
    let marked = pick_marked(keys, true);
    let others = pick_marked(keys, false);
    lemma_picked_contains(not_found@, marked, item);
    lemma_picked_contains(not_found@, others, item);
    lemma_picked_parts(not_found@, marked, others);
    if r.clone_as_empty@.contains(item) {
        let j = choose|j: int|
            0 <= j < not_found@.len() && marked(#[trigger] not_found@[j]) == Some(item);
        assert(not_found@[j] == item);
    }
    if r.not_found@.contains(item) {
        let j = choose|j: int|
            0 <= j < not_found@.len() && others(#[trigger] not_found@[j]) == Some(item);
        assert(not_found@[j] == item);
    }
    assert(marked(item) == Some(item) || others(item) == Some(item));
}

/// Each account is subscribed to with its own record.
pub proof fn law_records_belong_to_accounts(keys: Vec<Pubkey>, i: int, r: Vec<Pubkey>)
    requires
        call_ensures(delegation_record_subs, (&keys,), r),
        0 <= i < keys@.len(),
    ensures
        r@.len() == keys@.len(),
        r@[i]@ == delegation_record_address(keys@[i]@),
{
}

/// An account with a record is brought in with its state on chain, as the record says: its
/// owner, whether it is confined, who runs it, how often it is committed. Its actions run only
/// if the rollup runs it.
pub proof fn law_recorded_accounts_are_brought_in(
    recorded: RecordedAccount,
    record: DelegationRecord,
    actions: Option<Vec<Instruction>>,
    rules: DelegationRules,
    r: AccountCloneRequest,
)
    requires
        call_ensures(request_with_record, (recorded, &rules), r),
        recorded.record == Some((record, actions)),
    ensures
        r.pubkey == recorded.pubkey,
        r.account.lamports == recorded.account.lamports,
        r.account.data == recorded.account.data,
        r.account.executable == recorded.account.executable,
        r.account.slot == recorded.account.slot,
        r.account.compressed == recorded.account.compressed,
        r.account.owner == record.owner,
        r.account.confined <==> is_nobody(record.authority),
        ({
            let holds_tokens = record.owner == rules.eata_program && recorded.account.data@.len()
                >= 72 && recorded.derived_eata == Some(recorded.pubkey);
            let here = record.authority == rules.validator_pubkey || is_nobody(record.authority);
            &&& r.account.mode == AccountMode::Delegated <==> here && !holds_tokens
            &&& r.commit_frequency_ms == if here && !holds_tokens {
                Some(record.commit_frequency_ms)
            } else {
                None
            }
            &&& r.delegated_to_other == if here {
                None
            } else {
                Some(record.authority)
            }
            &&& match actions {
                Some(list) if list@.len() > 0 && here && !holds_tokens => {
                    &&& r.post_delegation_mode matches ClonePostDelegationMode::ExecuteActions(
                        bundle,
                    )
                    &&& bundle.source() == record.owner
                    &&& bundle.instructions() == list@
                },
                _ => r.post_delegation_mode is Plain,
            }
        }),
        r.source_slots is None,
{
    lemma_nobody(record.authority);
}

/// An account without a record is brought in as it is.
pub proof fn law_unrecorded_accounts_are_brought_in(
    recorded: RecordedAccount,
    rules: DelegationRules,
    r: AccountCloneRequest,
)
    requires
        call_ensures(request_with_record, (recorded, &rules), r),
        recorded.record is None,
    ensures
        r.pubkey == recorded.pubkey,
        r.account == recorded.account,
        r.commit_frequency_ms is None,
        r.delegated_to_other is None,
        r.post_delegation_mode is Plain,
        r.source_slots is None,
{
}

/// Every delegated account is brought in, after the plain ones; those without a record are told
/// apart, and no others.
pub proof fn law_all_recorded_accounts_are_brought_in(
    keys: Vec<Pubkey>,
    record_subs: Vec<Pubkey>,
    plain: Vec<AccountCloneRequest>,
    recorded: Vec<RecordedAccount>,
    rules: DelegationRules,
    i: int,
    r: (ResolvedDelegatedAccounts, Vec<SubscriptionRelease>),
)
    requires
        call_ensures(
            resolve_recorded_accounts,
            (&keys, record_subs, plain, recorded, &rules),
            r,
        ),
        0 <= i < recorded@.len(),
    ensures
        r.0.accounts_to_clone@.len() == plain@.len() + recorded@.len(),
        forall|j: int| 0 <= j < plain@.len() ==> #[trigger] r.0.accounts_to_clone@[j] == plain@[j],
        r.0.accounts_to_clone@[plain@.len() + i].pubkey == recorded@[i].pubkey,
        r.0.accounts_to_clone@[plain@.len() + i].account.lamports == recorded@[i].account.lamports,
        recorded@[i].record is None ==> r.0.missing_delegation_record@.contains(
            (recorded@[i].pubkey, recorded@[i].account.slot),
        ),
        (forall|j: int| 0 <= j < recorded@.len() ==> (#[trigger] recorded@[j]).record is Some)
            ==> r.0.missing_delegation_record@.len() == 0,
        recorded@[i].record is Some && r.0.accounts_to_clone@[plain@.len() + i].account.mode
            == AccountMode::Delegated && !rules.programs_not_to_subscribe@.contains(
            ((recorded@[i].record->0).0).owner,
        ) ==> r.0.owner_programs@.contains(((recorded@[i].record->0).0).owner),
        r.0.owner_programs@.no_duplicates(),
        r.0.record_subs == record_subs,
        r.1@.len() == keys@.len(),
{
    assert forall|j: int| 0 <= j < plain@.len() implies #[trigger] r.0.accounts_to_clone@[j]
        == plain@[j] by {
        assert(r.0.accounts_to_clone@.take(plain@.len() as int)[j] == plain@[j]);
    }
    assert(recorded@[i].is_request(rules, r.0.accounts_to_clone@[plain@.len() + i]));
    if recorded@[i].record is None {
        lemma_is_picked(
            recorded@,
            pick_unrecorded(),
            i,
            (recorded@[i].pubkey, recorded@[i].account.slot),
        );
    }
    if forall|j: int| 0 <= j < recorded@.len() ==> (#[trigger] recorded@[j]).record is Some {
        let missing = picked(recorded@, pick_unrecorded());
        if missing.len() > 0 {
            lemma_picked_contains(recorded@, pick_unrecorded(), missing[0]);
            assert(missing.contains(missing[0]));
        }
    }
    let programs = picked(recorded@, pick_owner_program(rules));
    lemma_distinct_keys(programs);
    if recorded@[i].record is Some && recorded@[i].runs_here(rules) {
        let owner = ((recorded@[i].record->0).0).owner;
        if !rules.programs_not_to_subscribe@.contains(owner) {
            lemma_is_picked(recorded@, pick_owner_program(rules), i, owner);
        }
    }
}

/// One fetch that failed makes all of them fail, and everything that was subscribed to is given
/// back: the accounts twice, their records once for each reason. Otherwise the accounts are
/// given back once.
pub proof fn law_failed_fetches_give_everything_back(
    keys: Vec<Pubkey>,
    record_subs: Vec<Pubkey>,
    plain: Vec<AccountCloneRequest>,
    fetched: Vec<Result<DelegatedAccount, ChainlinkError>>,
    rules: DelegationRules,
    secret: &[u8; 32],
    r: DelegatedOutcome,
)
    requires
        call_ensures(
            resolve_delegated_accounts,
            (&keys, record_subs, plain, fetched, &rules, secret),
            r,
        ),
    ensures
        (exists|i: int| 0 <= i < fetched@.len() && (#[trigger] fetched@[i]) is Err) ==> r.result
            is Err,
        r.result is Ok ==> r.releases@.len() == keys@.len(),
        r.result is Err ==> r.releases@.len() == 2 * keys@.len() + 2 * record_subs@.len(),
        r.result matches Ok(resolved) ==> resolved.accounts_to_clone@.len() == plain@.len()
            + fetched@.len() && resolved.record_subs == record_subs,
        forall|k: int|
            0 <= k < keys@.len() ==> r.releases@.contains(
                SubscriptionRelease {
                    pubkey: #[trigger] keys@[k],
                    reason: SubscriptionReason::DirectAccount,
                },
            ),
        r.result is Err ==> forall|k: int|
            0 <= k < record_subs@.len() ==> r.releases@.contains(
                SubscriptionRelease {
                    pubkey: #[trigger] record_subs@[k],
                    reason: SubscriptionReason::DelegationRecord,
                },
            ),
{
    let errors = picked(fetched@, pick_error());
    if exists|i: int| 0 <= i < fetched@.len() && (#[trigger] fetched@[i]) is Err {
        let i = choose|i: int| 0 <= i < fetched@.len() && (#[trigger] fetched@[i]) is Err;
        lemma_is_picked(fetched@, pick_error(), i, fetched@[i]->Err_0);
        assert(errors.len() > 0);
    }
    if r.result is Ok {
        assert forall|i: int| 0 <= i < fetched@.len() implies (pick_error()(#[trigger] fetched@[i])
            is Some <==> pick_success()(fetched@[i]) is None) by {}
        lemma_picked_parts(fetched@, pick_error(), pick_success());
    }
    let direct = released(keys@, SubscriptionReason::DirectAccount);
    assert forall|k: int| 0 <= k < keys@.len() implies r.releases@.contains(
        SubscriptionRelease {
            pubkey: #[trigger] keys@[k],
            reason: SubscriptionReason::DirectAccount,
        },
    ) by {
        assert(r.releases@[k] == direct[k]);
    }
    if r.result is Err {
        let records = released(record_subs@, SubscriptionReason::DelegationRecord);
        assert forall|k: int| 0 <= k < record_subs@.len() implies r.releases@.contains(
            SubscriptionRelease {
                pubkey: #[trigger] record_subs@[k],
                reason: SubscriptionReason::DelegationRecord,
            },
        ) by {
            assert(r.releases@[2 * keys@.len() + record_subs@.len() + k] == records[k]);
        }
    }
}

/// Results are parted without loss: as many as there are, each where it belongs.
pub proof fn law_results_are_parted<T>(
    results: Vec<Result<T, ChainlinkError>>,
    i: int,
    r: (Vec<ChainlinkError>, Vec<T>),
)
    requires
        call_ensures(split_results::<T>, (results,), r),
        0 <= i < results@.len(),
    ensures
        r.0@.len() + r.1@.len() == results@.len(),
        results@[i] matches Ok(value) ==> r.1@.contains(value),
        results@[i] matches Err(error) ==> r.0@.contains(error),
{
    lemma_picked_parts(results@, pick_error::<T>(), pick_success::<T>());
    match results@[i] {
        Ok(value) => {
            lemma_is_picked(results@, pick_success::<T>(), i, value);
        },
        Err(error) => {
            lemma_is_picked(results@, pick_error::<T>(), i, error);
        },
    }
}

/// An account and its companion are put together from the chain, or from the bank where that
/// is where they were found. An account that is gone is an error; a companion that the chain
/// does not have is not.
pub proof fn law_companions_are_paired(
    pubkey: Pubkey,
    companion_pubkey: Pubkey,
    acc: RemoteAccount,
    companion: RemoteAccount,
    bank_account: Option<Account>,
    bank_companion: Option<Account>,
    r: Result<AccountWithCompanion, ChainlinkError>,
)
    requires
        call_ensures(
            resolve_account_with_companion,
            (pubkey, companion_pubkey, acc, companion, bank_account, bank_companion),
            r,
        ),
    ensures
        acc is NotFound ==> r == Err::<AccountWithCompanion, _>(
            ChainlinkError::ResolvedAccountCouldNoLongerBeFound(pubkey),
        ),
        r matches Ok(pair) ==> {
            &&& pair.pubkey == pubkey
            &&& pair.companion_pubkey == companion_pubkey
            &&& acc matches RemoteAccount::Found(ResolvedAccount::Fresh(account)) ==> pair.account
                == account
            &&& acc matches RemoteAccount::Found(ResolvedAccount::Bank(_, _)) ==> Some(pair.account)
                == bank_account
            &&& companion is NotFound <==> pair.companion_account is None
            &&& companion matches RemoteAccount::Found(ResolvedAccount::Fresh(account))
                ==> pair.companion_account == Some(account)
            &&& companion matches RemoteAccount::Found(ResolvedAccount::Bank(_, _))
                ==> pair.companion_account == bank_companion
        },
        (acc matches RemoteAccount::Found(ResolvedAccount::Fresh(_))) && (companion is NotFound
            || (companion matches RemoteAccount::Found(ResolvedAccount::Fresh(_)))) ==> r is Ok,
        (acc matches RemoteAccount::Found(ResolvedAccount::Bank(_, _))) && bank_account is None
            ==> r is Err,
        (companion matches RemoteAccount::Found(ResolvedAccount::Bank(_, _))) && bank_companion
            is None ==> r is Err,
{
}

/// A fetch of two accounts gives both in their order; any other number is an error.
pub proof fn law_pairs_are_expected(
    pubkey: Pubkey,
    companion: Pubkey,
    accs: Vec<RemoteAccount>,
    r: Result<(RemoteAccount, RemoteAccount), ChainlinkError>,
)
    requires
        call_ensures(expect_pair, (&pubkey, &companion, accs), r),
    ensures
        r is Ok <==> accs@.len() == 2,
        r matches Ok(pair) ==> pair.0 == accs@[0] && pair.1 == accs@[1],
        r matches Err(error) ==> error is UnexpectedAccountCount,
{
}

/// The mirror's record is taken exactly if it is one, and no newer than the account; otherwise
/// both are fetched, at the slot that is asked for.
pub proof fn law_mirrored_records_are_used(
    pubkey: Pubkey,
    account: Account,
    account_slot: u64,
    slot: u64,
    mirrored: MirrorLookup,
    is_record_data: bool,
    r: RecordTask,
)
    requires
        call_ensures(
            task_to_fetch_with_delegation_record,
            (pubkey, account, account_slot, slot, mirrored, is_record_data),
            r,
        ),
    ensures
        r is Resolved <==> is_record_data && (mirrored matches MirrorLookup::Hit {
            slot: record_slot,
            ..
        } && record_slot <= account_slot),
        r matches RecordTask::Resolved(pair) ==> {
            &&& pair.pubkey == pubkey
            &&& pair.account == account
            &&& pair.companion_pubkey@ == delegation_record_address(pubkey@)
            &&& pair.companion_account matches Some(record)
            &&& mirrored matches MirrorLookup::Hit { data, .. }
            &&& record.data == data
            &&& record.owner.bytes == DLP_PROGRAM_ID
        },
        r matches RecordTask::Fetch { pubkey: key, delegation_record_pubkey, slot: at } ==> {
            &&& key == pubkey
            &&& delegation_record_pubkey@ == delegation_record_address(pubkey@)
            &&& at == slot
        },
{
}

/// An undelegating account is left alone as long as its old delegation to this validator
/// stands, or that of the account that holds its tokens; otherwise it is fetched again, and
/// stood in for if it has no record and the chain does not have it either.
pub proof fn law_undelegated_accounts_are_refreshed(
    slot: u64,
    eata_record: Option<DelegationRecord>,
    record: Option<DelegationRecord>,
    eata_program: Pubkey,
    validator: Pubkey,
    r: RefreshDecision,
    forgets: bool,
    kept: bool,
)
    requires
        call_ensures(
            should_refresh_undelegating_in_bank_account,
            (slot, eata_record, record, &eata_program, &validator),
            r,
        ),
        call_ensures(forgets_mirrored_record, (r,), forgets),
        call_ensures(is_kept_undelegating, (&eata_record, &eata_program, &validator), kept),
    ensures
        kept <==> (eata_record matches Some(held) && held.owner == eata_program && held.authority
            == validator),
        kept ==> r == RefreshDecision::No,
        !kept && record is None ==> r == RefreshDecision::YesAndMarkEmptyIfNotFound,
        !kept && record is Some ==> {
            let found = record->0;
            let stands = (found.authority == validator || is_nobody(found.authority))
                && found.delegation_slot <= slot;
            &&& stands ==> r == RefreshDecision::No
            &&& !stands ==> r == RefreshDecision::Yes
        },
        forgets <==> r == RefreshDecision::Yes || r == RefreshDecision::YesAndMarkEmptyIfNotFound,
{
    if record is Some {
        lemma_nobody((record->0).authority);
    }
}

/// An account is read at its own slot or a later one that is asked for.
pub proof fn law_slots_are_late_enough(min: Option<u64>, account_slot: u64, r: u64)
    requires
        call_ensures(effective_slot, (min, account_slot), r),
    ensures
        r >= account_slot,
        min matches Some(min) ==> r >= min && (r == min || r == account_slot),
        min is None ==> r == account_slot,
{
}

/// A slot that is asked for is at least the newest one of the chain.
pub proof fn law_asked_slots_are_current(slot: Option<u64>, chain_slot: u64, r: Option<u64>)
    requires
        call_ensures(min_context_slot, (slot, chain_slot), r),
    ensures
        r is Some <==> slot is Some,
        r matches Some(at) ==> at >= chain_slot && at >= slot->0 && (at == chain_slot || at
            == slot->0),
{
}

proof fn lemma_release(
    parts: Seq<SubscriptionRelease>,
    keys: Seq<Pubkey>,
    reason: SubscriptionReason,
    start: int,
    key: Pubkey,
)
    requires
        0 <= start,
        start + keys.len() <= parts.len(),
        forall|i: int|
            0 <= i < keys.len() ==> #[trigger] parts[start + i] == released(keys, reason)[i],
        keys.contains(key),
    ensures
        parts.contains(SubscriptionRelease { pubkey: key, reason }),
{
    let i = choose|i: int| 0 <= i < keys.len() && keys[i] == key;
    assert(parts[start + i] == released(keys, reason)[i]);
}

/// Whether what is given back is what has to be: what was asked for and came to nothing, every
/// account that the rollup runs, every record and every code account, and nothing that is
/// cloned without being run.
pub open spec fn gives_back(
    requested: Seq<Pubkey>,
    accounts: Seq<AccountCloneRequest>,
    programs: Seq<LoadedProgram>,
    record_subs: Seq<Pubkey>,
    program_data_subs: Seq<Pubkey>,
    key: Pubkey,
    releases: Seq<SubscriptionRelease>,
) -> bool {
    let cloned = exists|i: int| 0 <= i < accounts.len() && (#[trigger] accounts[i]).pubkey == key;
    let run = exists|i: int|
        0 <= i < accounts.len() && (#[trigger] accounts[i]).pubkey == key
            && accounts[i].account.mode == AccountMode::Delegated;
    let loaded = exists|i: int|
        0 <= i < programs.len() && (#[trigger] programs[i]).program_id == key;
    let given = releases.contains(
        SubscriptionRelease { pubkey: key, reason: SubscriptionReason::DirectAccount },
    );
    &&& given <==> run || (requested.contains(key) && !cloned && !loaded)
    &&& record_subs.contains(key) ==> releases.contains(
        SubscriptionRelease { pubkey: key, reason: SubscriptionReason::DelegationRecord },
    )
    &&& program_data_subs.contains(key) ==> releases.contains(
        SubscriptionRelease { pubkey: key, reason: SubscriptionReason::ProgramData },
    )
}

/// Releases that are put together from their three parts give back what has to be.
pub proof fn lemma_gives_back(
    requested: Seq<Pubkey>,
    accounts: Seq<AccountCloneRequest>,
    programs: Seq<LoadedProgram>,
    record_subs: Seq<Pubkey>,
    program_data_subs: Seq<Pubkey>,
    key: Pubkey,
    releases: Seq<SubscriptionRelease>,
)
    requires
        releases == released(
            no_longer_watched(requested, accounts, programs),
            SubscriptionReason::DirectAccount,
        ) + released(record_subs, SubscriptionReason::DelegationRecord) + released(
            program_data_subs,
            SubscriptionReason::ProgramData,
        ),
    ensures
        gives_back(
            requested,
            accounts,
            programs,
            record_subs,
            program_data_subs,
            key,
            releases,
        ),
{
    let gone = no_longer_watched(requested, accounts, programs);
    law_watches_what_it_copies(requested, accounts, programs, key);
    let wanted = SubscriptionRelease { pubkey: key, reason: SubscriptionReason::DirectAccount };
    if gone.contains(key) {
        lemma_release(releases, gone, SubscriptionReason::DirectAccount, 0, key);
    }
    if releases.contains(wanted) {
        let n = choose|n: int| 0 <= n < releases.len() && releases[n] == wanted;
        if n < gone.len() {
            assert(gone[n] == key);
            assert(gone.contains(key));
        } else if n < gone.len() + record_subs.len() {
            assert(releases[n].reason == SubscriptionReason::DelegationRecord);
        } else {
            assert(releases[n].reason == SubscriptionReason::ProgramData);
        }
    }
    if record_subs.contains(key) {
        lemma_release(
            releases,
            record_subs,
            SubscriptionReason::DelegationRecord,
            gone.len() as int,
            key,
        );
    }
    if program_data_subs.contains(key) {
        lemma_release(
            releases,
            program_data_subs,
            SubscriptionReason::ProgramData,
            (gone.len() + record_subs.len()) as int,
            key,
        );
    }
}

/// What was asked for and came to nothing is given back, and so is every account that the
/// rollup runs, every record and every code account. A clone that the rollup does not run stays
/// watched.
pub proof fn law_watches_are_given_back(
    requested: Vec<Pubkey>,
    accounts: Vec<AccountCloneRequest>,
    programs: Vec<LoadedProgram>,
    record_subs: Vec<Pubkey>,
    program_data_subs: Vec<Pubkey>,
    key: Pubkey,
    r: Vec<SubscriptionRelease>,
)
    requires
        call_ensures(
            compute_subscription_releases,
            (&requested, &accounts, &programs, &record_subs, &program_data_subs),
            r,
        ),
    ensures
        gives_back(
            requested@,
            accounts@,
            programs@,
            record_subs@,
            program_data_subs@,
            key,
            r@,
        ),
{
    lemma_gives_back(
        requested@,
        accounts@,
        programs@,
        record_subs@,
        program_data_subs@,
        key,
        r@,
    );
}

/// Every program and account of an instruction is named.
pub proof fn lemma_named_by(instructions: Seq<Instruction>, i: int, k: int)
    requires
        0 <= i < instructions.len(),
    ensures
        named_by(instructions).contains(instructions[i].program_id),
        0 <= k < instructions[i].accounts@.len() ==> named_by(instructions).contains(
            instructions[i].accounts@[k].pubkey,
        ),
    decreases instructions.len(),
{
    let front = named_by(instructions.drop_last());
    let all = named_by(instructions);
    if i < instructions.len() - 1 {
        lemma_named_by(instructions.drop_last(), i, k);
        assert(instructions.drop_last()[i] == instructions[i]);
        let n = choose|n: int| 0 <= n < front.len() && front[n] == instructions[i].program_id;
        assert(all[n] == front[n]);
        if 0 <= k < instructions[i].accounts@.len() {
            let m = choose|m: int|
                0 <= m < front.len() && front[m] == instructions[i].accounts@[k].pubkey;
            assert(all[m] == front[m]);
        }
    } else {
        assert(all[front.len() as int] == instructions[i].program_id);
        if 0 <= k < instructions[i].accounts@.len() {
            assert(all[front.len() + 1 + k] == instructions[i].accounts@[k].pubkey);
        }
    }
}

/// What the actions of one request name is named.
pub proof fn lemma_named_by_actions(requests: Seq<AccountCloneRequest>, i: int, key: Pubkey)
    requires
        0 <= i < requests.len(),
        requests[i].post_delegation_mode matches ClonePostDelegationMode::ExecuteActions(bundle)
            && named_by(bundle.instructions()).contains(key),
    ensures
        named_by_actions(requests).contains(key),
    decreases requests.len(),
{
    let front = named_by_actions(requests.drop_last());
    let all = named_by_actions(requests);
    if i < requests.len() - 1 {
        assert(requests.drop_last()[i] == requests[i]);
        lemma_named_by_actions(requests.drop_last(), i, key);
        let n = choose|n: int| 0 <= n < front.len() && front[n] == key;
        assert(all[n] == front[n]);
    } else {
        let back = named_by(
            (requests.last().post_delegation_mode->ExecuteActions_0).instructions(),
        );
        let n = choose|n: int| 0 <= n < back.len() && back[n] == key;
        assert(all[front.len() + n] == key);
    }
}

/// Every program and every account that the actions of a request name is needed, once.
pub proof fn law_actions_need_what_they_name(
    requests: Vec<AccountCloneRequest>,
    i: int,
    j: int,
    k: int,
    r: Vec<Pubkey>,
)
    requires
        call_ensures(collect_delegation_action_dependencies, (&requests,), r),
        0 <= i < requests@.len(),
        requests@[i].post_delegation_mode matches ClonePostDelegationMode::ExecuteActions(bundle)
            && 0 <= j < bundle.instructions().len(),
    ensures
        ({
            let instruction = (
            requests@[i].post_delegation_mode->ExecuteActions_0).instructions()[j];
            &&& r@.contains(instruction.program_id)
            &&& 0 <= k < instruction.accounts@.len() ==> r@.contains(
                instruction.accounts@[k].pubkey,
            )
        }),
        r@.no_duplicates(),
{
    let list = (requests@[i].post_delegation_mode->ExecuteActions_0).instructions();
    lemma_distinct_keys(named_by_actions(requests@));
    lemma_named_by(list, j, k);
    lemma_named_by_actions(requests@, i, list[j].program_id);
    if 0 <= k < list[j].accounts@.len() {
        lemma_named_by_actions(requests@, i, list[j].accounts@[k].pubkey);
    }
}

/// Every account is cloned, those with actions after those without; every program that is
/// allowed is cloned, and no other.
pub proof fn law_everything_is_cloned(
    accounts: Vec<AccountCloneRequest>,
    programs: Vec<LoadedProgram>,
    allowed: Option<Vec<Pubkey>>,
    i: int,
    j: int,
    r: CloneBatches,
)
    requires
        call_ensures(order_clones, (accounts, programs, &allowed), r),
        0 <= i < accounts@.len(),
        0 <= j < programs@.len(),
    ensures
        r.without_actions@.len() + r.with_actions@.len() == accounts@.len(),
        accounts@[i].post_delegation_mode is ExecuteActions ==> r.with_actions@.contains(
            accounts@[i],
        ),
        !(accounts@[i].post_delegation_mode is ExecuteActions) ==> r.without_actions@.contains(
            accounts@[i],
        ),
        allowed is None || (allowed->0)@.len() == 0 ==> r.programs@.contains(programs@[j]),
        allowed is Some && (allowed->0)@.len() > 0 ==> (r.programs@.contains(programs@[j])
            <==> (allowed->0)@.contains(programs@[j].program_id)),
{
    lemma_picked_parts(accounts@, pick_with_actions(false), pick_with_actions(true));
    if accounts@[i].post_delegation_mode is ExecuteActions {
        lemma_is_picked(accounts@, pick_with_actions(true), i, accounts@[i]);
    } else {
        lemma_is_picked(accounts@, pick_with_actions(false), i, accounts@[i]);
    }
    lemma_picked_contains(programs@, pick_allowed(allowed), programs@[j]);
    if pick_allowed(allowed)(programs@[j]) == Some(programs@[j]) {
        assert(r.programs@.contains(programs@[j]));
    }
    if r.programs@.contains(programs@[j]) {
        let n = choose|n: int|
            0 <= n < programs@.len() && pick_allowed(allowed)(#[trigger] programs@[n]) == Some(
                programs@[j],
            );
        assert(programs@[n] == programs@[j]);
    }
}

/// A single account goes to the end of the one list where it belongs, or nowhere if it is left
/// out; what the lists had stays. Every executable account that the chain holds goes to the
/// programs, by whatever loader but the native one, unless the delegation program owns it.
pub proof fn law_single_accounts_are_classified(
    fetched: FetchedAccount,
    lists: &mut ClassifiedAccounts,
)
    requires
        call_ensures(classify_single_account, (fetched, lists), ()),
    ensures
        final(lists).not_found@.len() + final(lists).plain@.len()
            + final(lists).owned_by_deleg@.len() + final(lists).programs@.len()
            + final(lists).atas@.len() == old(lists).not_found@.len() + old(lists).plain@.len()
            + old(lists).owned_by_deleg@.len() + old(lists).programs@.len()
            + old(lists).atas@.len() + if is_left_out(fetched) {
            0int
        } else {
            1
        },
        fetched.account matches RemoteAccount::NotFound(slot) ==> final(lists).not_found@
            == old(lists).not_found@.push((fetched.pubkey, slot)),
        fetched.account matches RemoteAccount::Found(ResolvedAccount::Fresh(account)) ==> {
            &&& account.owner.bytes == DLP_PROGRAM_ID ==> final(lists).owned_by_deleg@
                == old(lists).owned_by_deleg@.push((fetched.pubkey, account, account.slot))
            &&& account.executable && account.owner.bytes != DLP_PROGRAM_ID
                && account.owner.bytes != NATIVE_LOADER_ID ==> final(lists).programs@
                == old(lists).programs@.push((fetched.pubkey, account, account.slot))
            &&& !account.executable && account.owner.bytes != DLP_PROGRAM_ID
                ==> final(lists).programs@ == old(lists).programs@
        },
        is_left_out(fetched) ==> {
            &&& final(lists).not_found@ == old(lists).not_found@
            &&& final(lists).plain@ == old(lists).plain@
            &&& final(lists).owned_by_deleg@ == old(lists).owned_by_deleg@
            &&& final(lists).programs@ == old(lists).programs@
            &&& final(lists).atas@ == old(lists).atas@
        },
{
    lemma_loaders_differ();
}

/// Reading the records of accounts keeps the accounts, in their order; one has a record exactly
/// if one was found, and it is the one whose bytes were found.
pub proof fn law_records_are_read(
    accounts: Vec<DelegatedAccount>,
    validator: Pubkey,
    secret: [u8; 32],
    i: int,
    r: Result<Vec<RecordedAccount>, ChainlinkError>,
)
    requires
        call_ensures(read_records, (accounts, &validator, &secret), r),
    ensures
        r matches Ok(recorded) ==> recorded@.len() == accounts@.len() && (0 <= i
            < accounts@.len() ==> {
            &&& recorded@[i].pubkey == accounts@[i].pair.pubkey
            &&& recorded@[i].account == accounts@[i].pair.account
            &&& recorded@[i].derived_eata == accounts@[i].derived_eata
            &&& recorded@[i].record is Some <==> accounts@[i].pair.companion_account is Some
        }),
        accounts@.len() == 0 ==> r is Ok,
        (forall|k: int|
            0 <= k < accounts@.len() ==> (
            #[trigger] accounts@[k]).pair.companion_account is None) ==> r is Ok,
{
    if r is Ok && 0 <= i < accounts@.len() {
        assert(accounts@[i].reads_as(validator, secret@, (r->Ok_0)@[i]));
    }
}

/// Failed resolutions give back everything that was asked for; if the programs failed, the
/// records too, as what was asked for and as records.
pub proof fn law_failed_resolutions_give_back(
    pubkeys: Vec<Pubkey>,
    record_subs: Vec<Pubkey>,
    key: Pubkey,
    delegated: Vec<SubscriptionRelease>,
    programs: Vec<SubscriptionRelease>,
)
    requires
        call_ensures(delegated_failed, (&pubkeys,), delegated),
        call_ensures(programs_failed, (&pubkeys, &record_subs), programs),
    ensures
        ({
            let direct = SubscriptionRelease {
                pubkey: key,
                reason: SubscriptionReason::DirectAccount,
            };
            let as_record = SubscriptionRelease {
                pubkey: key,
                reason: SubscriptionReason::DelegationRecord,
            };
            &&& pubkeys@.contains(key) ==> delegated@.contains(direct) && programs@.contains(
                direct,
            )
            &&& record_subs@.contains(key) ==> programs@.contains(direct) && programs@.contains(
                as_record,
            )
        }),
        delegated@.len() == pubkeys@.len(),
        programs@.len() == pubkeys@.len() + 2 * record_subs@.len(),
{
    if pubkeys@.contains(key) {
        lemma_release(delegated@, pubkeys@, SubscriptionReason::DirectAccount, 0, key);
        lemma_release(programs@, pubkeys@, SubscriptionReason::DirectAccount, 0, key);
    }
    if record_subs@.contains(key) {
        let n = pubkeys@.len() as int;
        let m = record_subs@.len() as int;
        lemma_release(programs@, record_subs@, SubscriptionReason::DirectAccount, n, key);
        lemma_release(programs@, record_subs@, SubscriptionReason::DelegationRecord, n + m, key);
    }
}

} // verus!
