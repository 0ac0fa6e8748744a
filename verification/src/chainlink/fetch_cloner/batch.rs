//! Fetches a batch of accounts and gives up the subscriptions that this made.
use vstd::prelude::*;
use crate::account::{
    Account, AccountMode, BankAccount, RemoteAccount, ResolvedAccount,
};
use crate::chainlink::account_still_undelegating_on_chain::{
    account_still_undelegating_on_chain, still_undelegating,
};
use crate::chainlink::errors::{error_texts, join_errors, ChainlinkError};
use crate::chainlink::fetch_cloner::cancel::{
    law_existing_subscriptions_stay, lemma_concat_contains, CancelStrategy,
};
use crate::chainlink::fetch_cloner::pipeline::{
    clones_account, is_cloned, is_loaded, loads_program, pick_delegated, pick_error,
    pick_failed, pick_loaded, pick_success, pick_unclaimed, pick_unreadable, pick_without_code,
    plain_request, sort_loads, split_results, FetchedAccount, ProgramLoad,
};
use crate::chainlink::fetch_cloner::types::AccountWithCompanion;
use crate::cloner::{AccountCloneRequest, LoadedProgram};
use crate::delegation_record::{
    delegated_to_validator_or_confined, is_delegated_to_validator_or_confined, is_record,
    read_record, record_reads, DelegationRecord, RecordError, DELEGATION_RECORD_SIZE,
};
use crate::lists::{lemma_picked_contains, lemma_picked_step, picked};
use crate::pda::{
    delegation_record_address, delegation_record_pda, program_data_address, program_data_pda,
};
use crate::program_ids::{DLP_PROGRAM_ID, SYSTEM_PROGRAM_ID};
use crate::pubkey::{append_keys, copy_keys, Pubkey};
use crate::text::joined;

verus! {

/// Whether `derived` are the delegation records of `keys`, then their code accounts.
pub open spec fn derived_keys(keys: Seq<Pubkey>, derived: Seq<Pubkey>) -> bool {
    &&& derived.len() == 2 * keys.len()
    &&& forall|i: int|
        0 <= i < keys.len() ==> (#[trigger] derived[i])@ == delegation_record_address(keys[i]@)
    &&& forall|i: int|
        keys.len() <= i < 2 * keys.len() ==> (#[trigger] derived[i])@ == program_data_address(
            keys[i - keys.len()]@,
        )
}

/// What a fetch of accounts may subscribe to besides them: their delegation records and the
/// accounts with their code.
pub fn derived_subscriptions(pubkeys: &Vec<Pubkey>) -> (r: Vec<Pubkey>)
    ensures
        derived_keys(pubkeys@, r@),
{
    let mut derived: Vec<Pubkey> = Vec::new();
    let mut i: usize = 0;
    while i < pubkeys.len()
        invariant
            i <= pubkeys.len(),
            derived@.len() == i,
            forall|j: int|
                0 <= j < i ==> (#[trigger] derived@[j])@ == delegation_record_address(pubkeys@[j]@),
        decreases pubkeys.len() - i,
    {
        derived.push(delegation_record_pda(&pubkeys[i]));
        i = i + 1;
    }
    let mut k: usize = 0;
    while k < pubkeys.len()
        invariant
            k <= pubkeys.len(),
            derived@.len() == pubkeys@.len() + k,
            forall|j: int|
                0 <= j < pubkeys@.len() ==> (#[trigger] derived@[j])@ == delegation_record_address(
                    pubkeys@[j]@,
                ),
            forall|j: int|
                pubkeys@.len() <= j < pubkeys@.len() + k ==> (#[trigger] derived@[j])@
                    == program_data_address(pubkeys@[j - pubkeys@.len()]@),
        decreases pubkeys.len() - k,
    {
        derived.push(program_data_pda(&pubkeys[k]));
        k = k + 1;
    }
    derived
}

/// Picks the accounts that the bank has.
pub open spec fn pick_in_bank() -> spec_fn(FetchedAccount) -> Option<(Pubkey, u64)> {
    |fetched: FetchedAccount|
        match fetched.account {
            RemoteAccount::Found(ResolvedAccount::Bank(pubkey, slot)) => Some((pubkey, slot)),
            _ => None,
        }
}

/// The accounts that were not fetched since the bank has them, with the bank's slots.
pub fn accounts_in_bank(fetched: &Vec<FetchedAccount>) -> (r: Vec<(Pubkey, u64)>)
    ensures
        r@ == picked(fetched@, pick_in_bank()),
{
    let mut in_bank: Vec<(Pubkey, u64)> = Vec::new();
    let mut i: usize = 0;
    while i < fetched.len()
        invariant
            i <= fetched.len(),
            in_bank@ == picked(fetched@.take(i as int), pick_in_bank()),
        decreases fetched.len() - i,
    {
        proof {
            lemma_picked_step(fetched@, i as int, pick_in_bank());
        }
        match &fetched[i].account {
            RemoteAccount::Found(ResolvedAccount::Bank(pubkey, slot)) => in_bank.push(
                (*pubkey, *slot),
            ),
            _ => {},
        }
        i = i + 1;
    }
    assert(fetched@.take(fetched@.len() as int) =~= fetched@);
    in_bank
}

/// Whether an account of the bank is fetched after all: it is undelegating there, and no
/// longer so on chain.
pub open spec fn refetched(
    in_bank: Option<BankAccount>,
    slot: u64,
    record: Option<DelegationRecord>,
) -> bool {
    in_bank matches Some(account) && account.undelegating && !still_undelegating(
        account.delegated,
        slot,
        record,
    )
}

/// Tests whether an account of the bank is fetched after all. `record` is its delegation
/// record on chain.
pub fn should_refetch(
    in_bank: &Option<BankAccount>,
    slot: u64,
    record: &Option<DelegationRecord>,
) -> (r: bool)
    ensures
        r == refetched(*in_bank, slot, *record),
{
    match in_bank {
        Some(account) => account.undelegating && !account_still_undelegating_on_chain(
            account.delegated,
            slot,
            record,
        ),
        None => false,
    }
}

/// Adds an account that was fetched after all to the accounts it belongs to.
pub fn sort_refetched(
    pubkey: Pubkey,
    account: Account,
    owned_by_deleg: &mut Vec<(Pubkey, Account, u64)>,
    plain: &mut Vec<AccountCloneRequest>,
)
    ensures
        account.owner.bytes == DLP_PROGRAM_ID ==> final(owned_by_deleg)@ == old(
            owned_by_deleg,
        )@.push((pubkey, account, account.slot)) && final(plain)@ == old(plain)@,
        account.owner.bytes != DLP_PROGRAM_ID ==> final(owned_by_deleg)@ == old(owned_by_deleg)@
            && final(plain)@ == old(plain)@.push(plain_request(pubkey, account)),
{
    if account.is_owned_by_dlp() {
        let slot = account.slot;
        owned_by_deleg.push((pubkey, account, slot));
    } else {
        plain.push(AccountCloneRequest::plain(pubkey, account));
    }
}

/// The account as its record says: its former owner, and run here if the record names this
/// validator or nobody.
pub open spec fn account_as_recorded(
    account: Account,
    record: DelegationRecord,
    validator: Pubkey,
) -> Account {
    (Account { owner: record.owner, ..account }).with_delegated(
        delegated_to_validator_or_confined(record.authority, validator),
    )
}

/// The record that the bytes hold, for every account of a batch.
pub open spec fn pair_is_readable(pair: AccountWithCompanion) -> bool {
    pair.companion_account matches Some(companion) ==> is_record(companion.data@)
}

/// Whether `request` brings an account in as its record says, or as it is without a record.
pub open spec fn is_recorded_request(
    pair: AccountWithCompanion,
    validator: Pubkey,
    request: AccountCloneRequest,
) -> bool {
    match pair.companion_account {
        None => request == plain_request(pair.pubkey, pair.account),
        Some(companion) => exists|record: DelegationRecord|
            {
                &&& #[trigger] record_reads(companion.data@, record)
                &&& request == plain_request(
                    pair.pubkey,
                    account_as_recorded(pair.account, record, validator),
                )
            },
    }
}

/// Picks the accounts without a record.
pub open spec fn pick_without_record() -> spec_fn(AccountWithCompanion) -> Option<(Pubkey, u64)> {
    |pair: AccountWithCompanion|
        match pair.companion_account {
            Some(_) => None,
            None => Some((pair.pubkey, pair.account.slot)),
        }
}

/// The addresses of the records of accounts.
pub open spec fn companion_keys(pairs: Seq<AccountWithCompanion>) -> Seq<Pubkey> {
    pairs.map_values(|pair: AccountWithCompanion| pair.companion_pubkey)
}

/// What became of the delegated accounts of a batch.
#[derive(Debug)]
pub struct BatchDelegated {
    pub accounts_to_clone: Vec<AccountCloneRequest>,
    pub record_subs: Vec<Pubkey>,
    pub missing_delegation_record: Vec<(Pubkey, u64)>,
}

/// The error for bytes that are no delegation record.
pub open spec fn unreadable_record(pair: AccountWithCompanion) -> ChainlinkError {
    ChainlinkError::InvalidDelegationRecord(
        pair.companion_pubkey,
        if pair.companion_account->0.data@.len() < DELEGATION_RECORD_SIZE {
            RecordError::TooShort
        } else {
            RecordError::WrongDiscriminator
        },
    )
}

/// Whether the account at `i` is the first with an unreadable record.
pub open spec fn first_unreadable(pairs: Seq<AccountWithCompanion>, i: int) -> bool {
    &&& 0 <= i < pairs.len()
    &&& !pair_is_readable(pairs[i])
    &&& forall|j: int| 0 <= j < i ==> pair_is_readable(#[trigger] pairs[j])
}

/// Turns what fetching delegated accounts with their records gave into clone requests. A fetch
/// that failed, or a record that cannot be read, ends the batch, and the subscriptions that it
/// made until then are given up.
pub fn resolve_batch_delegated(
    pubkeys: &Vec<Pubkey>,
    existing_subs: &Vec<Pubkey>,
    plain: Vec<AccountCloneRequest>,
    fetched: Vec<Result<AccountWithCompanion, ChainlinkError>>,
    validator_pubkey: &Pubkey,
) -> (r: Result<BatchDelegated, (ChainlinkError, CancelStrategy)>)
    ensures
        ({
            let errors = picked(fetched@, pick_error());
            let pairs = picked(fetched@, pick_success());
            if errors.len() > 0 {
                &&& r matches Err((error, cancel))
                &&& error matches ChainlinkError::DelegatedAccountResolutionsFailed(message)
                &&& message@ == joined(error_texts(errors), ", "@)
                &&& cancel matches CancelStrategy::New { new_subs, existing_subs: existing }
                &&& new_subs@ == pubkeys@
                &&& existing@ == existing_subs@
            } else {
                match r {
                    Err((error, cancel)) => exists|i: int|
                        {
                            &&& #[trigger] first_unreadable(pairs, i)
                            &&& error == unreadable_record(pairs[i])
                            &&& cancel matches CancelStrategy::New {
                                new_subs,
                                existing_subs: existing,
                            }
                            &&& new_subs@ == pubkeys@ + companion_keys(pairs.take(i + 1))
                            &&& existing@ == existing_subs@
                        },
                    Ok(resolved) => {
                        &&& forall|i: int|
                            0 <= i < pairs.len() ==> pair_is_readable(#[trigger] pairs[i])
                        &&& resolved.accounts_to_clone@.len() == plain@.len() + pairs.len()
                        &&& resolved.accounts_to_clone@.take(plain@.len() as int) == plain@
                        &&& forall|i: int|
                            0 <= i < pairs.len() ==> is_recorded_request(
                                #[trigger] pairs[i],
                                *validator_pubkey,
                                resolved.accounts_to_clone@[plain@.len() + i],
                            )
                        &&& resolved.record_subs@ == companion_keys(pairs)
                        &&& resolved.missing_delegation_record@ == picked(
                            pairs,
                            pick_without_record(),
                        )
                    },
                }
            }
        }),
{
    let (errors, pairs) = split_results(fetched);
    if errors.len() > 0 {
        return Err(
            (
                ChainlinkError::DelegatedAccountResolutionsFailed(join_errors(&errors)),
                CancelStrategy::New {
                    new_subs: copy_keys(pubkeys),
                    existing_subs: copy_keys(existing_subs),
                },
            ),
        );
    }
    let ghost first = plain@;
    let ghost all = pairs@;
    let mut accounts_to_clone = plain;
    let mut record_subs: Vec<Pubkey> = Vec::new();
    let mut missing_delegation_record: Vec<(Pubkey, u64)> = Vec::new();
    assert(record_subs@ =~= companion_keys(all.take(0)));
    for pair in it: pairs
        invariant
            it.seq() == all,
            all == picked(fetched@, pick_success()),
            picked(fetched@, pick_error()).len() == 0,
            accounts_to_clone@.len() == first.len() + it.index(),
            accounts_to_clone@.take(first.len() as int) == first,
            forall|j: int| 0 <= j < it.index() ==> pair_is_readable(#[trigger] all[j]),
            forall|j: int|
                0 <= j < it.index() ==> is_recorded_request(
                    #[trigger] all[j],
                    *validator_pubkey,
                    accounts_to_clone@[first.len() + j],
                ),
            record_subs@ == companion_keys(all.take(it.index() as int)),
            missing_delegation_record@ == picked(
                all.take(it.index() as int),
                pick_without_record(),
            ),
    {
        let ghost i = it.index() as int;
        let ghost before = accounts_to_clone@;
        proof {
            lemma_picked_step(all, i, pick_without_record());
        }
        record_subs.push(pair.companion_pubkey);
        assert(record_subs@ =~= companion_keys(all.take(i + 1)));
        let pubkey = pair.pubkey;
        let mut account = pair.account;
        match &pair.companion_account {
            Some(companion) => {
                match read_record(companion.data.as_slice()) {
                    Ok(record) => {
                        account.owner = record.owner;
                        account.set_delegated(
                            is_delegated_to_validator_or_confined(
                                &record.authority,
                                validator_pubkey,
                            ),
                        );
                        assert(record_reads(companion.data@, record));
                    },
                    Err(error) => {
                        assert(first_unreadable(all, i));
                        let mut new_subs = copy_keys(pubkeys);
                        append_keys(&mut new_subs, &record_subs);
                        return Err(
                            (
                                ChainlinkError::InvalidDelegationRecord(
                                    pair.companion_pubkey,
                                    error,
                                ),
                                CancelStrategy::New {
                                    new_subs,
                                    existing_subs: copy_keys(existing_subs),
                                },
                            ),
                        );
                    },
                }
            },
            None => {
                missing_delegation_record.push((pubkey, account.slot));
            },
        }
        accounts_to_clone.push(AccountCloneRequest::plain(pubkey, account));
        proof {
            assert(accounts_to_clone@.take(first.len() as int) =~= before.take(
                first.len() as int,
            ));
            assert(is_recorded_request(
                all[i],
                *validator_pubkey,
                accounts_to_clone@[first.len() + i],
            ));
        }
    }
    assert(all.take(all.len() as int) =~= all);
    Ok(BatchDelegated { accounts_to_clone, record_subs, missing_delegation_record })
}

/// Puts together what became of the programs of a batch. The first whose code cannot be read
/// ends the batch with nothing given up. If any could not be had or has no code account, the
/// subscriptions that the batch made are given up.
pub fn resolve_batch_programs(
    pubkeys: &Vec<Pubkey>,
    existing_subs: &Vec<Pubkey>,
    program_data_subs: &Vec<Pubkey>,
    loads: Vec<ProgramLoad>,
) -> (r: Result<Vec<LoadedProgram>, (ChainlinkError, Option<CancelStrategy>)>)
    ensures
        ({
            let unreadable = picked(loads@, pick_unreadable());
            let errors = picked(loads@, pick_failed()) + picked(loads@, pick_without_code());
            if unreadable.len() > 0 {
                &&& r matches Err((error, cancel))
                &&& error == unreadable[0]
                &&& cancel is None
            } else if errors.len() > 0 {
                &&& r matches Err((error, cancel))
                &&& error matches ChainlinkError::ProgramAccountResolutionsFailed(message)
                &&& message@ == joined(error_texts(errors), ", "@)
                &&& cancel matches Some(
                    CancelStrategy::New { new_subs, existing_subs: existing },
                )
                &&& new_subs@ == pubkeys@ + program_data_subs@
                &&& existing@ == existing_subs@
            } else {
                &&& r matches Ok(loaded)
                &&& loaded@ == picked(loads@, pick_loaded())
            }
        }),
{
    let sorted = sort_loads(loads);
    let mut unreadable = sorted.unreadable;
    if unreadable.len() > 0 {
        return Err((unreadable.swap_remove(0), None));
    }
    if sorted.errors.len() > 0 {
        let mut new_subs = copy_keys(pubkeys);
        append_keys(&mut new_subs, program_data_subs);
        return Err(
            (
                ChainlinkError::ProgramAccountResolutionsFailed(join_errors(&sorted.errors)),
                Some(CancelStrategy::New { new_subs, existing_subs: copy_keys(existing_subs) }),
            ),
        );
    }
    Ok(sorted.loaded)
}

/// What a batch gives up before it clones: of the subscriptions it made, those to records, to
/// accounts that it does not clone, and to code accounts; and all to accounts that the rollup
/// runs.
pub fn batch_cancellation(
    pubkeys: &Vec<Pubkey>,
    existing_subs: &Vec<Pubkey>,
    accounts_to_clone: &Vec<AccountCloneRequest>,
    loaded_programs: &Vec<LoadedProgram>,
    record_subs: &Vec<Pubkey>,
    program_data_subs: &Vec<Pubkey>,
) -> (r: CancelStrategy)
    ensures
        r matches CancelStrategy::Hybrid { new_subs, existing_subs: existing, all } && {
            &&& new_subs@ == record_subs@ + picked(
                pubkeys@,
                pick_unclaimed(accounts_to_clone@, loaded_programs@),
            ) + program_data_subs@
            &&& existing@ == existing_subs@
            &&& all@ == picked(accounts_to_clone@, pick_delegated())
        },
{
    let ghost pick = pick_unclaimed(accounts_to_clone@, loaded_programs@);
    let mut unclaimed: Vec<Pubkey> = Vec::new();
    let mut i: usize = 0;
    while i < pubkeys.len()
        invariant
            i <= pubkeys.len(),
            pick == pick_unclaimed(accounts_to_clone@, loaded_programs@),
            unclaimed@ == picked(pubkeys@.take(i as int), pick),
        decreases pubkeys.len() - i,
    {
        proof {
            lemma_picked_step(pubkeys@, i as int, pick);
        }
        if !clones_account(accounts_to_clone, &pubkeys[i]) && !loads_program(
            loaded_programs,
            &pubkeys[i],
        ) {
            unclaimed.push(pubkeys[i]);
        }
        i = i + 1;
    }
    assert(pubkeys@.take(pubkeys@.len() as int) =~= pubkeys@);
    let mut all: Vec<Pubkey> = Vec::new();
    let mut k: usize = 0;
    while k < accounts_to_clone.len()
        invariant
            k <= accounts_to_clone.len(),
            all@ == picked(accounts_to_clone@.take(k as int), pick_delegated()),
        decreases accounts_to_clone.len() - k,
    {
        proof {
            lemma_picked_step(accounts_to_clone@, k as int, pick_delegated());
        }
        if accounts_to_clone[k].account.is(AccountMode::Delegated) {
            all.push(accounts_to_clone[k].pubkey);
        }
        k = k + 1;
    }
    assert(accounts_to_clone@.take(accounts_to_clone@.len() as int) =~= accounts_to_clone@);
    let mut new_subs = copy_keys(record_subs);
    append_keys(&mut new_subs, &unclaimed);
    append_keys(&mut new_subs, program_data_subs);
    CancelStrategy::Hybrid { new_subs, existing_subs: copy_keys(existing_subs), all }
}

/// After a batch, an account that was asked for, and is neither a record nor a code account of
/// the batch, is no longer watched exactly if the rollup runs it, or if it was not watched
/// before and came to nothing.
pub proof fn law_batch_keeps_watches(
    pubkeys: Seq<Pubkey>,
    accounts: Seq<AccountCloneRequest>,
    programs: Seq<LoadedProgram>,
    record_subs: Seq<Pubkey>,
    program_data_subs: Seq<Pubkey>,
    cancel: CancelStrategy,
    pubkey: Pubkey,
)
    requires
        cancel matches CancelStrategy::Hybrid { new_subs, existing_subs, all } && {
            &&& new_subs@ == record_subs + picked(pubkeys, pick_unclaimed(accounts, programs))
                + program_data_subs
            &&& all@ == picked(accounts, pick_delegated())
        },
        pubkeys.contains(pubkey),
        !record_subs.contains(pubkey),
        !program_data_subs.contains(pubkey),
    ensures
        cancel.cancelled().contains(pubkey) <==> {
            ||| exists|i: int|
                0 <= i < accounts.len() && (#[trigger] accounts[i]).pubkey == pubkey
                    && accounts[i].account.mode == AccountMode::Delegated
            ||| !cancel->Hybrid_existing_subs@.contains(pubkey) && !is_cloned(accounts, pubkey)
                && !is_loaded(programs, pubkey)
        },
{
    law_existing_subscriptions_stay(cancel, pubkey);
    let unclaimed = picked(pubkeys, pick_unclaimed(accounts, programs));
    lemma_concat_contains(record_subs + unclaimed, program_data_subs, pubkey);
    lemma_concat_contains(record_subs, unclaimed, pubkey);
    lemma_picked_contains(pubkeys, pick_unclaimed(accounts, programs), pubkey);
    lemma_picked_contains(accounts, pick_delegated(), pubkey);
    let i = choose|i: int| 0 <= i < pubkeys.len() && pubkeys[i] == pubkey;
    if !is_cloned(accounts, pubkey) && !is_loaded(programs, pubkey) {
        assert(pick_unclaimed(accounts, programs)(pubkeys[i]) == Some(pubkey));
    }
    if exists|k: int|
        0 <= k < accounts.len() && (#[trigger] accounts[k]).pubkey == pubkey
            && accounts[k].account.mode == AccountMode::Delegated {
        let k = choose|k: int|
            0 <= k < accounts.len() && (#[trigger] accounts[k]).pubkey == pubkey
                && accounts[k].account.mode == AccountMode::Delegated;
        assert(pick_delegated()(accounts[k]) == Some(pubkey));
    }
}

/// What to do with an account that a subscription brought.
#[derive(Clone, Copy, Debug, PartialEq, Eq, Structural)]
pub enum UpdateAction {
    /// Nothing: the bank has it as new or newer.
    OutOfOrder,
    /// Nothing: it is still undelegating.
    StillUndelegating,
    /// It is cloned, as a program or as an account; a delegated one is no longer watched.
    Clone { unsubscribe: bool, executable: bool },
}

/// Tells what to do with an account that a subscription brought, given what the bank holds
/// under its address and its delegation record.
pub fn update_action(
    account: &Account,
    in_bank: &Option<BankAccount>,
    record: &Option<DelegationRecord>,
) -> (r: UpdateAction)
    ensures
        r == match *in_bank {
            Some(held) => if held.slot >= account.slot {
                UpdateAction::OutOfOrder
            } else if held.undelegating && still_undelegating(
                held.delegated,
                held.slot,
                *record,
            ) {
                UpdateAction::StillUndelegating
            } else {
                UpdateAction::Clone {
                    unsubscribe: account.mode == AccountMode::Delegated,
                    executable: account.executable,
                }
            },
            None => UpdateAction::Clone {
                unsubscribe: account.mode == AccountMode::Delegated,
                executable: account.executable,
            },
        },
{
    if let Some(held) = in_bank {
        if held.slot >= account.slot {
            return UpdateAction::OutOfOrder;
        }
        if held.undelegating && account_still_undelegating_on_chain(
            held.delegated,
            held.slot,
            record,
        ) {
            return UpdateAction::StillUndelegating;
        }
    }
    UpdateAction::Clone {
        unsubscribe: account.is(AccountMode::Delegated),
        executable: account.executable,
    }
}

/// The balance that an account is given if it has none: nothing is given to an account that
/// has lamports, and no account is made for nothing.
pub fn airdrop_account_if_empty(lamports: u64, in_bank: &Option<BankAccount>) -> (r: Option<
    Account,
>)
    ensures
        r is Some <==> lamports > 0 && (in_bank matches Some(held) ==> held.lamports == 0),
        r matches Some(account) ==> {
            &&& account.lamports == lamports
            &&& account.owner.bytes == SYSTEM_PROGRAM_ID
            &&& account.data@.len() == 0
            &&& !account.executable
            &&& account.slot == 0
            &&& account.mode == AccountMode::ReadOnly
        },
{
    if lamports == 0 {
        return None;
    }
    if let Some(held) = in_bank {
        if held.lamports > 0 {
            return None;
        }
    }
    Some(Account::new(lamports, Pubkey { bytes: SYSTEM_PROGRAM_ID }))
}

/// What the account of a forwarded update needs before it can be cloned.
#[derive(Debug)]
pub enum ForwardedStep {
    /// Nothing.
    CloneAsIs(Account),
    /// Its delegation record, fetched with the account at `slot`.
    FetchRecord { delegation_record_pubkey: Pubkey, slot: u64 },
    /// There is no account to clone.
    Nothing,
}

/// Tells what the account of a forwarded update needs: one of the delegation program needs its
/// record.
pub fn forwarded_step(pubkey: &Pubkey, account: RemoteAccount) -> (r: ForwardedStep)
    ensures
        match account {
            RemoteAccount::Found(ResolvedAccount::Fresh(fresh)) => if fresh.owner.bytes
                == DLP_PROGRAM_ID {
                &&& r matches ForwardedStep::FetchRecord { delegation_record_pubkey, slot }
                &&& delegation_record_pubkey@ == delegation_record_address(pubkey@)
                &&& slot == fresh.slot
            } else {
                r == ForwardedStep::CloneAsIs(fresh)
            },
            _ => r == ForwardedStep::Nothing,
        },
{
    match account {
        RemoteAccount::Found(ResolvedAccount::Fresh(fresh)) => if fresh.is_owned_by_dlp() {
            ForwardedStep::FetchRecord {
                delegation_record_pubkey: delegation_record_pda(pubkey),
                slot: fresh.slot,
            }
        } else {
            ForwardedStep::CloneAsIs(fresh)
        },
        _ => ForwardedStep::Nothing,
    }
}

/// What a forwarded account of the delegation program came to.
#[derive(Debug)]
pub struct ForwardedAccount {
    /// The account to clone, if it can be.
    pub account: Option<Account>,
    pub record: Option<DelegationRecord>,
    /// The subscriptions to give up.
    pub subs_to_remove: Vec<Pubkey>,
}

/// Gives a forwarded account what its record says. One without a record is cloned as it is;
/// one whose record cannot be read is not cloned. The record is no longer watched unless it
/// was before, and the account is not if the rollup runs it.
pub fn resolve_forwarded_account(
    pair: AccountWithCompanion,
    was_record_subscribed: bool,
    validator_pubkey: &Pubkey,
) -> (r: ForwardedAccount)
    ensures
        ({
            let record_sub = if was_record_subscribed {
                Seq::<Pubkey>::empty()
            } else {
                seq![pair.companion_pubkey]
            };
            match pair.companion_account {
                None => {
                    &&& r.account == Some(pair.account)
                    &&& r.record is None
                    &&& r.subs_to_remove@ == record_sub
                },
                Some(companion) => if is_record(companion.data@) {
                    &&& r.record matches Some(record)
                    &&& record_reads(companion.data@, record)
                    &&& r.account == Some(
                        account_as_recorded(pair.account, record, *validator_pubkey),
                    )
                    &&& r.subs_to_remove@ == if delegated_to_validator_or_confined(
                        record.authority,
                        *validator_pubkey,
                    ) {
                        record_sub.push(pair.pubkey)
                    } else {
                        record_sub
                    }
                } else {
                    &&& r.account is None
                    &&& r.record is None
                    &&& r.subs_to_remove@ == record_sub
                },
            }
        }),
{
    let mut subs_to_remove: Vec<Pubkey> = Vec::new();
    if !was_record_subscribed {
        subs_to_remove.push(pair.companion_pubkey);
    }
    let mut account = pair.account;
    match &pair.companion_account {
        None => ForwardedAccount { account: Some(account), record: None, subs_to_remove },
        Some(companion) => match read_record(companion.data.as_slice()) {
            Err(_) => ForwardedAccount { account: None, record: None, subs_to_remove },
            Ok(record) => {
                let runs_here = is_delegated_to_validator_or_confined(
                    &record.authority,
                    validator_pubkey,
                );
                account.owner = record.owner;
                account.set_delegated(runs_here);
                if runs_here {
                    subs_to_remove.push(pair.pubkey);
                }
                ForwardedAccount {
                    account: Some(account),
                    record: Some(record),
                    subs_to_remove,
                }
            },
        },
    }
}

} // verus!
