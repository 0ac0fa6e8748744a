//! The stages of a batch: accounts are fetched, those that are back from an undelegation are
//! fetched after all, what belongs to them is resolved, the subscriptions that are no longer
//! needed are given up, and everything is cloned.
//!
//! Each stage takes what came of the work that the stage before it asked for.
use vstd::prelude::*;
use crate::account::{
    effective_slot, slot_for, Account, BankAccount, RemoteAccount,
};
use crate::chainlink::errors::{error_texts, ChainlinkError};
use crate::chainlink::fetch_cloner::batch::{
    accounts_in_bank, batch_cancellation, companion_keys, derived_keys, derived_subscriptions,
    first_unreadable, is_recorded_request, pair_is_readable, pick_in_bank, pick_without_record,
    refetched, resolve_batch_delegated, resolve_batch_programs, should_refetch, sort_refetched,
    unreadable_record,
};
use crate::chainlink::fetch_cloner::cancel::CancelStrategy;
use crate::chainlink::fetch_cloner::pipeline::{
    classify_remote_accounts, keys_view, partition_not_found, pick_class, pick_delegated,
    pick_error, pick_failed, pick_loaded, pick_loader_v3, pick_marked, pick_missing, pick_plain,
    pick_success, pick_unclaimed, pick_unreadable, pick_without_code, plain_request,
    plan_program_fetch, AccountClass, FetchedAccount, ProgramLoad,
};
use crate::chainlink::fetch_cloner::types::{AccountWithCompanion, FetchAndCloneResult};
use crate::cloner::{AccountCloneRequest, LoadedProgram};
use crate::delegation_record::DelegationRecord;
use crate::lists::{lemma_picked_step, picked};
use crate::program_ids::DLP_PROGRAM_ID;
use crate::pubkey::{append_keys, copy_keys, distinct_keys, extend_distinct, Pubkey};
use crate::text::joined;

verus! {

/// The chain is being asked for the accounts. `existing_subs` are what was watched before.
#[derive(Debug)]
pub struct BatchFetch {
    pub pubkeys: Vec<Pubkey>,
    pub existing_subs: Vec<Pubkey>,
}

/// What a batch may subscribe to: the accounts, their delegation records, and the accounts
/// with their code.
pub fn batch_subscriptions(pubkeys: &Vec<Pubkey>) -> (r: Vec<Pubkey>)
    ensures
        r@.len() == 3 * pubkeys@.len(),
        r@.take(pubkeys@.len() as int) == pubkeys@,
        derived_keys(pubkeys@, r@.skip(pubkeys@.len() as int)),
{
    let mut subscriptions = copy_keys(pubkeys);
    let derived = derived_subscriptions(pubkeys);
    append_keys(&mut subscriptions, &derived);
    assert(subscriptions@.take(pubkeys@.len() as int) =~= pubkeys@);
    assert(subscriptions@.skip(pubkeys@.len() as int) =~= derived@);
    subscriptions
}

/// The accounts that the chain gave, under the addresses that were asked for.
pub open spec fn zipped(pubkeys: Seq<Pubkey>, accounts: Seq<RemoteAccount>) -> Seq<
    FetchedAccount,
> {
    Seq::new(
        if pubkeys.len() <= accounts.len() {
            pubkeys.len()
        } else {
            accounts.len()
        },
        |i: int| FetchedAccount { pubkey: pubkeys[i], account: accounts[i], ata: None },
    )
}

fn zip_fetched(pubkeys: &Vec<Pubkey>, accounts: Vec<RemoteAccount>) -> (r: Vec<FetchedAccount>)
    ensures
        r@ == zipped(pubkeys@, accounts@),
{
    let ghost all = accounts@;
    let mut fetched: Vec<FetchedAccount> = Vec::new();
    for account in it: accounts
        invariant
            it.seq() == all,
            fetched@ == zipped(pubkeys@, all.take(it.index() as int)),
    {
        let place = fetched.len();
        if place < pubkeys.len() {
            fetched.push(FetchedAccount { pubkey: pubkeys[place], account, ata: None });
        }
        assert(fetched@ =~= zipped(pubkeys@, all.take(it.index() + 1)));
    }
    assert(all.take(all.len() as int) =~= all);
    fetched
}

/// What was fetched, sorted by what has to be done with it.
#[derive(Debug)]
pub struct BatchSorted {
    pub pubkeys: Vec<Pubkey>,
    pub existing_subs: Vec<Pubkey>,
    pub not_found: Vec<(Pubkey, u64)>,
    pub plain: Vec<AccountCloneRequest>,
    pub owned_by_deleg: Vec<(Pubkey, Account, u64)>,
    pub programs: Vec<(Pubkey, Account, u64)>,
}

impl BatchFetch {
    /// Sorts what was fetched. Those accounts that the bank has are looked at next, with their
    /// slots there.
    pub fn fetched(
        self,
        accounts: Vec<RemoteAccount>,
        mark_empty_if_not_found: Option<&Vec<Pubkey>>,
    ) -> (r: (BatchSorted, Vec<(Pubkey, u64)>))
        ensures
            ({
                let fetched = zipped(self.pubkeys@, accounts@);
                &&& r.0.pubkeys == self.pubkeys
                &&& r.0.existing_subs == self.existing_subs
                &&& r.0.not_found@ == picked(
                    picked(fetched, pick_missing()),
                    pick_marked(keys_view(mark_empty_if_not_found), false),
                )
                &&& r.0.plain@ == picked(fetched, pick_plain())
                &&& r.0.owned_by_deleg@ == picked(fetched, pick_class(AccountClass::OwnedByDlp))
                &&& r.0.programs@ == picked(fetched, pick_class(AccountClass::Program))
                &&& r.1@ == picked(fetched, pick_in_bank())
            }),
    {
        let fetched = zip_fetched(&self.pubkeys, accounts);
        let in_bank = accounts_in_bank(&fetched);
        let classified = classify_remote_accounts(fetched);
        let parted = partition_not_found(mark_empty_if_not_found, classified.not_found);
        (
            BatchSorted {
                pubkeys: self.pubkeys,
                existing_subs: self.existing_subs,
                not_found: parted.not_found,
                plain: classified.plain,
                owned_by_deleg: classified.owned_by_deleg,
                programs: classified.programs,
            },
            in_bank,
        )
    }
}

/// An account of the bank with its slot there, its state, and its delegation record on chain.
#[derive(Clone, Copy, Debug)]
pub struct BankCheck {
    pub pubkey: Pubkey,
    pub slot: u64,
    pub in_bank: Option<BankAccount>,
    pub record: Option<DelegationRecord>,
}

/// Picks the accounts of the bank that are fetched after all.
pub open spec fn pick_refetched() -> spec_fn(BankCheck) -> Option<Pubkey> {
    |check: BankCheck|
        if refetched(check.in_bank, check.slot, check.record) {
            Some(check.pubkey)
        } else {
            None
        }
}

/// The accounts of the bank that are fetched after all, since their undelegation is over.
pub fn accounts_to_refetch(checks: &Vec<BankCheck>) -> (r: Vec<Pubkey>)
    ensures
        r@ == picked(checks@, pick_refetched()),
{
    let mut to_refetch: Vec<Pubkey> = Vec::new();
    let mut i: usize = 0;
    while i < checks.len()
        invariant
            i <= checks.len(),
            to_refetch@ == picked(checks@.take(i as int), pick_refetched()),
        decreases checks.len() - i,
    {
        proof {
            lemma_picked_step(checks@, i as int, pick_refetched());
        }
        let check = &checks[i];
        if should_refetch(&check.in_bank, check.slot, &check.record) {
            to_refetch.push(check.pubkey);
        }
        i = i + 1;
    }
    assert(checks@.take(checks@.len() as int) =~= checks@);
    to_refetch
}

/// Picks those that were fetched after all and belong to the delegation program.
pub open spec fn pick_refetched_delegated() -> spec_fn((Pubkey, Option<Account>)) -> Option<
    (Pubkey, Account, u64),
> {
    |entry: (Pubkey, Option<Account>)|
        match entry.1 {
            Some(account) => if account.owner.bytes == DLP_PROGRAM_ID {
                Some((entry.0, account, account.slot))
            } else {
                None
            },
            None => None,
        }
}

/// Picks those that were fetched after all and do not belong to the delegation program.
pub open spec fn pick_refetched_plain() -> spec_fn((Pubkey, Option<Account>)) -> Option<
    AccountCloneRequest,
> {
    |entry: (Pubkey, Option<Account>)|
        match entry.1 {
            Some(account) => if account.owner.bytes == DLP_PROGRAM_ID {
                None
            } else {
                Some(plain_request(entry.0, account))
            },
            None => None,
        }
}

/// The addresses of accounts with the slots that they have to be read at.
pub open spec fn slots_to_read(
    accounts: Seq<(Pubkey, Account, u64)>,
    min_context_slot: Option<u64>,
) -> Seq<(Pubkey, u64)> {
    accounts.map_values(
        |account: (Pubkey, Account, u64)| (account.0, slot_for(min_context_slot, account.2)),
    )
}

fn collect_slots(accounts: &Vec<(Pubkey, Account, u64)>, min_context_slot: Option<u64>) -> (r: Vec<
    (Pubkey, u64),
>)
    ensures
        r@ == slots_to_read(accounts@, min_context_slot),
{
    let mut slots: Vec<(Pubkey, u64)> = Vec::new();
    let mut i: usize = 0;
    while i < accounts.len()
        invariant
            i <= accounts.len(),
            slots@ == slots_to_read(accounts@.take(i as int), min_context_slot),
        decreases accounts.len() - i,
    {
        slots.push((accounts[i].0, effective_slot(min_context_slot, accounts[i].2)));
        i = i + 1;
        assert(slots@ =~= slots_to_read(accounts@.take(i as int), min_context_slot));
    }
    assert(accounts@.take(accounts@.len() as int) =~= accounts@);
    slots
}

/// Delegated accounts are being fetched with their records. Programs come next.
#[derive(Debug)]
pub struct BatchDelegatedStage {
    pub pubkeys: Vec<Pubkey>,
    pub existing_subs: Vec<Pubkey>,
    pub not_found: Vec<(Pubkey, u64)>,
    pub plain: Vec<AccountCloneRequest>,
    pub programs: Vec<(Pubkey, Account, u64)>,
    pub min_context_slot: Option<u64>,
}

impl BatchSorted {
    /// Takes in what was fetched after all, and goes on to the delegated accounts, which are
    /// fetched with their records at these slots.
    pub fn refetched(
        self,
        accounts: Vec<(Pubkey, Option<Account>)>,
        min_context_slot: Option<u64>,
    ) -> (r: (BatchDelegatedStage, Vec<(Pubkey, u64)>))
        ensures
            r.0.pubkeys == self.pubkeys,
            r.0.existing_subs == self.existing_subs,
            r.0.not_found == self.not_found,
            r.0.plain@ == self.plain@ + picked(accounts@, pick_refetched_plain()),
            r.0.programs == self.programs,
            r.0.min_context_slot == min_context_slot,
            r.1@ == slots_to_read(
                self.owned_by_deleg@ + picked(accounts@, pick_refetched_delegated()),
                min_context_slot,
            ),
    {
        let ghost all = accounts@;
        let mut plain = self.plain;
        let mut owned_by_deleg = self.owned_by_deleg;
        let ghost first_plain = plain@;
        let ghost first_owned = owned_by_deleg@;
        assert(first_plain + picked(all.take(0), pick_refetched_plain()) =~= first_plain);
        assert(first_owned + picked(all.take(0), pick_refetched_delegated()) =~= first_owned);
        for entry in it: accounts
            invariant
                it.seq() == all,
                plain@ == first_plain + picked(
                    all.take(it.index() as int),
                    pick_refetched_plain(),
                ),
                owned_by_deleg@ == first_owned + picked(
                    all.take(it.index() as int),
                    pick_refetched_delegated(),
                ),
        {
            let ghost i = it.index() as int;
            proof {
                lemma_picked_step(all, i, pick_refetched_plain());
                lemma_picked_step(all, i, pick_refetched_delegated());
            }
            match entry.1 {
                Some(account) => sort_refetched(
                    entry.0,
                    account,
                    &mut owned_by_deleg,
                    &mut plain,
                ),
                None => {},
            }
            assert(plain@ =~= first_plain + picked(all.take(i + 1), pick_refetched_plain()));
            assert(owned_by_deleg@ =~= first_owned + picked(
                all.take(i + 1),
                pick_refetched_delegated(),
            ));
        }
        assert(all.take(all.len() as int) =~= all);
        let slots = collect_slots(&owned_by_deleg, min_context_slot);
        (
            BatchDelegatedStage {
                pubkeys: self.pubkeys,
                existing_subs: self.existing_subs,
                not_found: self.not_found,
                plain,
                programs: self.programs,
                min_context_slot,
            },
            slots,
        )
    }
}

/// Programs that are fetched with their code at these slots, and those that keep it themselves.
#[derive(Debug)]
pub struct ProgramWork {
    pub with_program_data: Vec<(Pubkey, u64)>,
    pub single: Vec<(Pubkey, Account, u64)>,
}

/// Programs are being resolved.
#[derive(Debug)]
pub struct BatchProgramsStage {
    pub pubkeys: Vec<Pubkey>,
    pub existing_subs: Vec<Pubkey>,
    pub not_found: Vec<(Pubkey, u64)>,
    pub missing_delegation_record: Vec<(Pubkey, u64)>,
    pub accounts_to_clone: Vec<AccountCloneRequest>,
    pub record_subs: Vec<Pubkey>,
}

impl BatchDelegatedStage {
    /// Whether the delegated accounts led to this failure: fetches that failed, or else the
    /// first record that cannot be read.
    pub open spec fn fails_with(
        &self,
        fetched: Seq<Result<AccountWithCompanion, ChainlinkError>>,
        error: ChainlinkError,
        cancel: CancelStrategy,
    ) -> bool {
        let errors = picked(fetched, pick_error());
        let pairs = picked(fetched, pick_success());
        &&& cancel matches CancelStrategy::New { new_subs, existing_subs }
        &&& existing_subs@ == self.existing_subs@
        &&& if errors.len() > 0 {
            &&& error matches ChainlinkError::DelegatedAccountResolutionsFailed(message)
            &&& message@ == joined(error_texts(errors), ", "@)
            &&& new_subs@ == self.pubkeys@
        } else {
            exists|i: int|
                {
                    &&& #[trigger] first_unreadable(pairs, i)
                    &&& error == unreadable_record(pairs[i])
                    &&& new_subs@ == self.pubkeys@ + companion_keys(pairs.take(i + 1))
                }
        }
    }

    /// Whether the delegated accounts led to this stage.
    pub open spec fn goes_on_to(
        &self,
        fetched: Seq<Result<AccountWithCompanion, ChainlinkError>>,
        validator: Pubkey,
        stage: BatchProgramsStage,
    ) -> bool {
        let pairs = picked(fetched, pick_success());
        &&& stage.pubkeys@ == self.pubkeys@
        &&& stage.existing_subs@ == self.existing_subs@
        &&& stage.not_found == self.not_found
        &&& stage.missing_delegation_record@ == picked(pairs, pick_without_record())
        &&& stage.record_subs@ == companion_keys(pairs)
        &&& stage.accounts_to_clone@.len() == self.plain@.len() + pairs.len()
        &&& stage.accounts_to_clone@.take(self.plain@.len() as int) == self.plain@
        &&& forall|i: int|
            0 <= i < pairs.len() ==> is_recorded_request(
                #[trigger] pairs[i],
                validator,
                stage.accounts_to_clone@[self.plain@.len() + i],
            )
    }

    /// Goes on to the programs.
    pub fn delegated(
        self,
        fetched: Vec<Result<AccountWithCompanion, ChainlinkError>>,
        validator_pubkey: &Pubkey,
    ) -> (r: Result<(BatchProgramsStage, ProgramWork), (ChainlinkError, CancelStrategy)>)
        ensures
            ({
                let pairs = picked(fetched@, pick_success());
                r is Ok <==> {
                    &&& picked(fetched@, pick_error()).len() == 0
                    &&& forall|i: int|
                        0 <= i < pairs.len() ==> pair_is_readable(#[trigger] pairs[i])
                }
            }),
            match r {
                Err((error, cancel)) => self.fails_with(fetched@, error, cancel),
                Ok((stage, work)) => {
                    &&& self.goes_on_to(fetched@, *validator_pubkey, stage)
                    &&& work.with_program_data@ == slots_to_read(
                        picked(self.programs@, pick_loader_v3(true)),
                        self.min_context_slot,
                    )
                    &&& work.single@ == picked(self.programs@, pick_loader_v3(false))
                },
            },
    {
        match resolve_batch_delegated(
            &self.pubkeys,
            &self.existing_subs,
            self.plain,
            fetched,
            validator_pubkey,
        ) {
            Err(failure) => {
                proof {
                    let pairs = picked(fetched@, pick_success());
                    if picked(fetched@, pick_error()).len() == 0 {
                        let i = choose|i: int|
                            {
                                &&& #[trigger] first_unreadable(pairs, i)
                                &&& failure.0 == unreadable_record(pairs[i])
                            };
                        assert(!pair_is_readable(pairs[i]));
                    }
                }
                Err(failure)
            },
            Ok(resolved) => {
                let plan = plan_program_fetch(self.programs, self.min_context_slot);
                let with_program_data = collect_slots(&plan.loader_v3, self.min_context_slot);
                Ok(
                    (
                        BatchProgramsStage {
                            pubkeys: self.pubkeys,
                            existing_subs: self.existing_subs,
                            not_found: self.not_found,
                            missing_delegation_record: resolved.missing_delegation_record,
                            accounts_to_clone: resolved.accounts_to_clone,
                            record_subs: resolved.record_subs,
                        },
                        ProgramWork { with_program_data, single: plan.single },
                    ),
                )
            },
        }
    }
}

/// The code accounts of the programs that were fetched with them, each once.
pub fn program_data_of(pairs: &Vec<AccountWithCompanion>) -> (r: Vec<Pubkey>)
    ensures
        r@ == distinct_keys(companion_keys(pairs@)),
{
    let mut keys: Vec<Pubkey> = Vec::new();
    let mut i: usize = 0;
    assert(keys@ =~= companion_keys(pairs@.take(0)));
    while i < pairs.len()
        invariant
            i <= pairs.len(),
            keys@ == companion_keys(pairs@.take(i as int)),
        decreases pairs.len() - i,
    {
        keys.push(pairs[i].companion_pubkey);
        i = i + 1;
        assert(keys@ =~= companion_keys(pairs@.take(i as int)));
    }
    assert(pairs@.take(pairs@.len() as int) =~= pairs@);
    let mut distinct: Vec<Pubkey> = Vec::new();
    extend_distinct(&mut distinct, &keys);
    assert(Seq::<Pubkey>::empty() + keys@ =~= keys@);
    distinct
}

/// What a batch clones.
#[derive(Debug)]
pub struct BatchClones {
    pub accounts: Vec<AccountCloneRequest>,
    pub programs: Vec<LoadedProgram>,
}

/// Everything is being cloned, after what is no longer needed was given up.
#[derive(Debug)]
pub struct BatchCloneStage {
    pub not_found: Vec<(Pubkey, u64)>,
    pub missing_delegation_record: Vec<(Pubkey, u64)>,
}

impl BatchProgramsStage {
    /// Gives up the subscriptions that are no longer needed, and clones everything.
    pub fn programs(self, program_data_subs: &Vec<Pubkey>, loads: Vec<ProgramLoad>) -> (r: Result<
        (BatchCloneStage, CancelStrategy, BatchClones),
        (ChainlinkError, Option<CancelStrategy>),
    >)
        ensures
            ({
                let unreadable = picked(loads@, pick_unreadable());
                let errors = picked(loads@, pick_failed()) + picked(loads@, pick_without_code());
                let loaded = picked(loads@, pick_loaded());
                if unreadable.len() > 0 {
                    &&& r matches Err((error, cancel))
                    &&& error == unreadable[0]
                    &&& cancel is None
                } else if errors.len() > 0 {
                    &&& r matches Err((error, cancel))
                    &&& error matches ChainlinkError::ProgramAccountResolutionsFailed(message)
                    &&& message@ == joined(error_texts(errors), ", "@)
                    &&& cancel matches Some(CancelStrategy::New { new_subs, existing_subs })
                    &&& new_subs@ == self.pubkeys@ + program_data_subs@
                    &&& existing_subs@ == self.existing_subs@
                } else {
                    &&& r matches Ok((stage, cancel, clones))
                    &&& stage.not_found == self.not_found
                    &&& stage.missing_delegation_record == self.missing_delegation_record
                    &&& clones.accounts == self.accounts_to_clone
                    &&& clones.programs@ == loaded
                    &&& cancel matches CancelStrategy::Hybrid { new_subs, existing_subs, all }
                    &&& new_subs@ == self.record_subs@ + picked(
                        self.pubkeys@,
                        pick_unclaimed(self.accounts_to_clone@, loaded),
                    ) + program_data_subs@
                    &&& existing_subs@ == self.existing_subs@
                    &&& all@ == picked(self.accounts_to_clone@, pick_delegated())
                }
            }),
    {
        match resolve_batch_programs(
            &self.pubkeys,
            &self.existing_subs,
            program_data_subs,
            loads,
        ) {
            Err(failure) => Err(failure),
            Ok(programs) => {
                let cancel = batch_cancellation(
                    &self.pubkeys,
                    &self.existing_subs,
                    &self.accounts_to_clone,
                    &programs,
                    &self.record_subs,
                    program_data_subs,
                );
                Ok(
                    (
                        BatchCloneStage {
                            not_found: self.not_found,
                            missing_delegation_record: self.missing_delegation_record,
                        },
                        cancel,
                        BatchClones { accounts: self.accounts_to_clone, programs },
                    ),
                )
            },
        }
    }
}

impl BatchCloneStage {
    /// Ends the batch.
    pub fn cloned(self, result: Result<(), ChainlinkError>) -> (r: Result<
        FetchAndCloneResult,
        ChainlinkError,
    >)
        ensures
            match result {
                Ok(()) => {
                    &&& r matches Ok(found)
                    &&& found.not_found_on_chain == self.not_found
                    &&& found.missing_delegation_record == self.missing_delegation_record
                },
                Err(error) => r == Err::<FetchAndCloneResult, ChainlinkError>(error),
            },
    {
        match result {
            Ok(()) => Ok(
                FetchAndCloneResult {
                    not_found_on_chain: self.not_found,
                    missing_delegation_record: self.missing_delegation_record,
                },
            ),
            Err(error) => Err(error),
        }
    }
}

} // verus!
