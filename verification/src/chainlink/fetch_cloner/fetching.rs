//! Fetches accounts with what belongs to them.
use vstd::prelude::*;
use crate::account::{
    Account, AccountMode, RemoteAccount, ResolvedAccount, SubscriptionReason,
};
use crate::chainlink::account_still_undelegating_on_chain::{
    account_still_undelegating_on_chain, still_undelegating,
};
use crate::chainlink::errors::ChainlinkError;
use crate::chainlink::fetch_cloner::pipeline::{
    clones_account, collect_delegation_action_dependencies, compute_subscription_releases,
    is_cloned, is_loaded, loads_program, named_by_actions, no_longer_watched, order_clones,
    pick_allowed, pick_with_actions, CloneBatches,
};
use crate::chainlink::fetch_cloner::subscription::{
    append_releases, released, SubscriptionRelease,
};
use crate::chainlink::fetch_cloner::types::{
    collect_keys, keys_of, AccountWithCompanion, RefreshDecision, ResolvedDelegatedAccounts,
    ResolvedPrograms,
};
use crate::chainlink::record_mirror::MirrorLookup;
use crate::cloner::{AccountCloneRequest, LoadedProgram};
use crate::delegation_record::{
    delegated_to_validator_or_confined, is_delegated_to_validator_or_confined, DelegationRecord,
};
use crate::lists::{lemma_picked_step, picked};
use crate::pda::{delegation_record_address, delegation_record_pda};
use crate::program_ids::DLP_PROGRAM_ID;
use crate::pubkey::{
    append_keys, contains_key, copy_keys, distinct_keys, extend_distinct, Pubkey,
};
use crate::text::{address_text, address_to_text, concat5, decimal, decimal_text};

verus! {

/// The lamports of a record account whose data come from the mirror.
pub const MIRRORED_RECORD_LAMPORTS: u64 = 1_000_000;

/// The state of an account that was found: what the chain holds, or what the bank holds now if
/// that is where it was found.
pub open spec fn resolved_state(found: ResolvedAccount, in_bank: Option<Account>) -> Option<
    Account,
> {
    match found {
        ResolvedAccount::Fresh(account) => Some(account),
        ResolvedAccount::Bank(_, _) => in_bank,
    }
}

fn resolve_state(found: ResolvedAccount, in_bank: Option<Account>) -> (r: Option<Account>)
    ensures
        r == resolved_state(found, in_bank),
{
    match found {
        ResolvedAccount::Fresh(account) => Some(account),
        ResolvedAccount::Bank(_, _) => in_bank,
    }
}

/// An account and its companion, as they were found together.
pub open spec fn paired(
    pubkey: Pubkey,
    companion_pubkey: Pubkey,
    acc: RemoteAccount,
    companion: RemoteAccount,
    bank_account: Option<Account>,
    bank_companion: Option<Account>,
) -> Result<AccountWithCompanion, ChainlinkError> {
    match (acc, companion) {
        (RemoteAccount::NotFound(_), _) => Err(
            ChainlinkError::ResolvedAccountCouldNoLongerBeFound(pubkey),
        ),
        (RemoteAccount::Found(acc), RemoteAccount::NotFound(_)) => match resolved_state(
            acc,
            bank_account,
        ) {
            Some(account) => Ok(
                AccountWithCompanion { pubkey, account, companion_pubkey, companion_account: None },
            ),
            None => Err(ChainlinkError::ResolvedAccountCouldNoLongerBeFound(pubkey)),
        },
        (RemoteAccount::Found(acc), RemoteAccount::Found(companion)) => match resolved_state(
            companion,
            bank_companion,
        ) {
            None => Err(
                ChainlinkError::ResolvedCompanionAccountCouldNoLongerBeFound(companion_pubkey),
            ),
            Some(companion_account) => match resolved_state(acc, bank_account) {
                None => Err(ChainlinkError::ResolvedAccountCouldNoLongerBeFound(pubkey)),
                Some(account) => Ok(
                    AccountWithCompanion {
                        pubkey,
                        account,
                        companion_pubkey,
                        companion_account: Some(companion_account),
                    },
                ),
            },
        },
    }
}

/// Puts an account and its companion together. An account that is no longer there cannot be
/// used; one without a companion can. `bank_account` and `bank_companion` are what the bank
/// holds where the chain was not asked.
pub fn resolve_account_with_companion(
    pubkey: Pubkey,
    companion_pubkey: Pubkey,
    acc: RemoteAccount,
    companion: RemoteAccount,
    bank_account: Option<Account>,
    bank_companion: Option<Account>,
) -> (r: Result<AccountWithCompanion, ChainlinkError>)
    ensures
        r == paired(pubkey, companion_pubkey, acc, companion, bank_account, bank_companion),
{
    match (acc, companion) {
        (RemoteAccount::NotFound(_), _) => Err(
            ChainlinkError::ResolvedAccountCouldNoLongerBeFound(pubkey),
        ),
        (RemoteAccount::Found(acc), RemoteAccount::NotFound(_)) => match resolve_state(
            acc,
            bank_account,
        ) {
            Some(account) => Ok(
                AccountWithCompanion { pubkey, account, companion_pubkey, companion_account: None },
            ),
            None => Err(ChainlinkError::ResolvedAccountCouldNoLongerBeFound(pubkey)),
        },
        (RemoteAccount::Found(acc), RemoteAccount::Found(companion)) => {
            let companion_account = match resolve_state(companion, bank_companion) {
                Some(account) => account,
                None => {
                    return Err(
                        ChainlinkError::ResolvedCompanionAccountCouldNoLongerBeFound(
                            companion_pubkey,
                        ),
                    );
                },
            };
            match resolve_state(acc, bank_account) {
                None => Err(ChainlinkError::ResolvedAccountCouldNoLongerBeFound(pubkey)),
                Some(account) => Ok(
                    AccountWithCompanion {
                        pubkey,
                        account,
                        companion_pubkey,
                        companion_account: Some(companion_account),
                    },
                ),
            }
        },
    }
}

/// What is said if a fetch of an account and its companion gave another number of accounts.
pub open spec fn pair_expected_text(pubkey: Pubkey, companion: Pubkey, count: nat) -> Seq<char> {
    "Expected exactly 2 accounts for pubkey "@ + address_text(pubkey@) + " and companion "@
        + address_text(companion@) + (", got "@ + decimal_text(count))
}

/// The two accounts that a fetch of an account and its companion has to give.
pub fn expect_pair(pubkey: &Pubkey, companion_pubkey: &Pubkey, accs: Vec<RemoteAccount>) -> (r:
    Result<(RemoteAccount, RemoteAccount), ChainlinkError>)
    ensures
        accs@.len() == 2 ==> r == Ok::<_, ChainlinkError>((accs@[0], accs@[1])),
        accs@.len() != 2 ==> (r matches Err(ChainlinkError::UnexpectedAccountCount(message))
            && message@ == pair_expected_text(*pubkey, *companion_pubkey, accs@.len())),
{
    let mut accs = accs;
    if accs.len() == 2 {
        let ghost all = accs@;
        if let Some(second) = accs.pop() {
            if let Some(first) = accs.pop() {
                return Ok((first, second));
            }
        }
    }
    let mut count = String::from_str(", got ");
    count.append(decimal(accs.len() as u64).as_str());
    Err(
        ChainlinkError::UnexpectedAccountCount(
            concat5(
                "Expected exactly 2 accounts for pubkey ",
                address_to_text(pubkey).as_str(),
                " and companion ",
                address_to_text(companion_pubkey).as_str(),
                count.as_str(),
            ),
        ),
    )
}

/// How an account gets its delegation record.
#[derive(Debug)]
pub enum RecordTask {
    /// It has it.
    Resolved(AccountWithCompanion),
    /// Both are fetched.
    Fetch { pubkey: Pubkey, delegation_record_pubkey: Pubkey, slot: u64 },
}

/// The record account that stands for data of the mirror.
pub open spec fn is_mirrored_record(account: Account, data: Vec<u8>) -> bool {
    &&& account.lamports == MIRRORED_RECORD_LAMPORTS
    &&& account.data == data
    &&& account.owner.bytes == DLP_PROGRAM_ID
    &&& !account.executable
    &&& account.slot == 0
    &&& account.mode == AccountMode::ReadOnly
    &&& !account.confined
    &&& !account.compressed
}

/// Pairs an account with its delegation record. The mirror's record is taken if it is no newer
/// than the account; `is_record_data` says whether the mirror's bytes are a record. Otherwise
/// both are fetched at `slot`.
pub fn task_to_fetch_with_delegation_record(
    pubkey: Pubkey,
    account: Account,
    account_slot: u64,
    slot: u64,
    mirrored: MirrorLookup,
    is_record_data: bool,
) -> (r: RecordTask)
    ensures
        match r {
            RecordTask::Resolved(pair) => {
                &&& mirrored matches MirrorLookup::Hit { data, slot: record_slot }
                &&& record_slot <= account_slot
                &&& is_record_data
                &&& pair.pubkey == pubkey
                &&& pair.account == account
                &&& pair.companion_pubkey@ == delegation_record_address(pubkey@)
                &&& pair.companion_account matches Some(record)
                &&& is_mirrored_record(record, data)
            },
            RecordTask::Fetch { pubkey: fetched, delegation_record_pubkey, slot: at } => {
                &&& fetched == pubkey
                &&& delegation_record_pubkey@ == delegation_record_address(pubkey@)
                &&& at == slot
                &&& !(mirrored matches MirrorLookup::Hit { slot: record_slot, .. } && record_slot
                    <= account_slot && is_record_data)
            },
        },
{
    let delegation_record_pubkey = delegation_record_pda(&pubkey);
    match mirrored {
        MirrorLookup::Hit { data, slot: record_slot } => {
            if record_slot <= account_slot && is_record_data {
                let mut companion = Account::new(
                    MIRRORED_RECORD_LAMPORTS,
                    Pubkey { bytes: DLP_PROGRAM_ID },
                );
                companion.data = data;
                return RecordTask::Resolved(
                    AccountWithCompanion {
                        pubkey,
                        account,
                        companion_pubkey: delegation_record_pubkey,
                        companion_account: Some(companion),
                    },
                );
            }
        },
        _ => {},
    }
    RecordTask::Fetch { pubkey, delegation_record_pubkey, slot }
}

/// Whether an account that is undelegating in the bank stays as it is because the account that
/// holds its tokens is still delegated to this validator.
pub open spec fn companion_keeps_undelegating(
    eata_record: Option<DelegationRecord>,
    eata_program: Pubkey,
    validator: Pubkey,
) -> bool {
    eata_record matches Some(record) && record.owner == eata_program && record.authority
        == validator
}

/// Whether an account that is undelegating in the bank stays as it is because the account that
/// holds its tokens is still delegated to this validator. Its own record need not be fetched
/// then.
pub fn is_kept_undelegating(
    eata_record: &Option<DelegationRecord>,
    eata_program: &Pubkey,
    validator_pubkey: &Pubkey,
) -> (r: bool)
    ensures
        r == companion_keeps_undelegating(*eata_record, *eata_program, *validator_pubkey),
{
    match eata_record {
        Some(record) => record.owner == *eata_program && record.authority == *validator_pubkey,
        None => false,
    }
}

/// Whether an account that is undelegating in the bank has to be fetched again, and whether
/// what the mirror knows of its record is then forgotten. `eata_record` is the record of the
/// account that holds its tokens, if it is a token account, and `record` its own.
pub fn should_refresh_undelegating_in_bank_account(
    in_bank_slot: u64,
    eata_record: Option<DelegationRecord>,
    record: Option<DelegationRecord>,
    eata_program: &Pubkey,
    validator_pubkey: &Pubkey,
) -> (r: RefreshDecision)
    ensures
        r == if companion_keeps_undelegating(eata_record, *eata_program, *validator_pubkey) {
            RefreshDecision::No
        } else {
            match record {
                None => RefreshDecision::YesAndMarkEmptyIfNotFound,
                Some(found) => if still_undelegating(
                    delegated_to_validator_or_confined(found.authority, *validator_pubkey),
                    in_bank_slot,
                    record,
                ) {
                    RefreshDecision::No
                } else {
                    RefreshDecision::Yes
                },
            }
        },
{
    if is_kept_undelegating(&eata_record, eata_program, validator_pubkey) {
        return RefreshDecision::No;
    }
    match record {
        None => RefreshDecision::YesAndMarkEmptyIfNotFound,
        Some(found) => {
            let delegated_on_chain = is_delegated_to_validator_or_confined(
                &found.authority,
                validator_pubkey,
            );
            if account_still_undelegating_on_chain(delegated_on_chain, in_bank_slot, &record) {
                RefreshDecision::No
            } else {
                RefreshDecision::Yes
            }
        },
    }
}

/// Whether what the mirror knows of an account's record is forgotten with this decision.
pub fn forgets_mirrored_record(decision: RefreshDecision) -> (r: bool)
    ensures
        r == (decision != RefreshDecision::No),
{
    decision != RefreshDecision::No
}

/// What is given back if delegated accounts could not be resolved.
pub fn delegated_failed(pubkeys: &Vec<Pubkey>) -> (r: Vec<SubscriptionRelease>)
    ensures
        r@ == released(pubkeys@, SubscriptionReason::DirectAccount),
{
    let mut releases: Vec<SubscriptionRelease> = Vec::new();
    append_releases(&mut releases, pubkeys, SubscriptionReason::DirectAccount);
    releases
}

/// What is given back if programs could not be resolved.
pub fn programs_failed(pubkeys: &Vec<Pubkey>, record_subs: &Vec<Pubkey>) -> (r: Vec<
    SubscriptionRelease,
>)
    ensures
        r@ == released(pubkeys@, SubscriptionReason::DirectAccount) + released(
            record_subs@,
            SubscriptionReason::DirectAccount,
        ) + released(record_subs@, SubscriptionReason::DelegationRecord),
{
    let mut releases: Vec<SubscriptionRelease> = Vec::new();
    append_releases(&mut releases, pubkeys, SubscriptionReason::DirectAccount);
    append_releases(&mut releases, record_subs, SubscriptionReason::DirectAccount);
    append_releases(&mut releases, record_subs, SubscriptionReason::DelegationRecord);
    assert(releases@ =~= released(pubkeys@, SubscriptionReason::DirectAccount) + released(
        record_subs@,
        SubscriptionReason::DirectAccount,
    ) + released(record_subs@, SubscriptionReason::DelegationRecord));
    releases
}

/// What a fetch has gathered to be cloned, and what it is subscribed to.
#[derive(Debug)]
pub struct CloneGathering {
    /// Everything that was asked for.
    pub requested: Vec<Pubkey>,
    pub accounts_to_clone: Vec<AccountCloneRequest>,
    pub loaded_programs: Vec<LoadedProgram>,
    pub record_subs: Vec<Pubkey>,
    pub program_data_subs: Vec<Pubkey>,
}

/// Picks the accounts that actions need and that neither the bank has nor the fetch brings.
pub open spec fn pick_absent(
    in_bank: Seq<Pubkey>,
    accounts: Seq<AccountCloneRequest>,
    programs: Seq<LoadedProgram>,
) -> spec_fn(Pubkey) -> Option<Pubkey> {
    |pubkey: Pubkey|
        if in_bank.contains(pubkey) || is_cloned(accounts, pubkey) || is_loaded(programs, pubkey) {
            None
        } else {
            Some(pubkey)
        }
}

impl CloneGathering {
    /// What is given back: what is no longer watched for its own sake, and all delegation
    /// records and code accounts.
    pub open spec fn releases(&self) -> Seq<SubscriptionRelease> {
        released(
            no_longer_watched(self.requested@, self.accounts_to_clone@, self.loaded_programs@),
            SubscriptionReason::DirectAccount,
        ) + released(self.record_subs@, SubscriptionReason::DelegationRecord) + released(
            self.program_data_subs@,
            SubscriptionReason::ProgramData,
        )
    }

    /// Gathers what delegated accounts and programs came to.
    pub fn new(
        pubkeys: &Vec<Pubkey>,
        delegated: ResolvedDelegatedAccounts,
        programs: ResolvedPrograms,
    ) -> (r: CloneGathering)
        ensures
            r.requested@ == pubkeys@ + delegated.record_subs@ + programs.program_data_subs@,
            r.accounts_to_clone == delegated.accounts_to_clone,
            r.loaded_programs == programs.loaded_programs,
            r.record_subs == delegated.record_subs,
            r.program_data_subs == programs.program_data_subs,
    {
        let mut requested = copy_keys(pubkeys);
        append_keys(&mut requested, &delegated.record_subs);
        append_keys(&mut requested, &programs.program_data_subs);
        CloneGathering {
            requested,
            accounts_to_clone: delegated.accounts_to_clone,
            loaded_programs: programs.loaded_programs,
            record_subs: delegated.record_subs,
            program_data_subs: programs.program_data_subs,
        }
    }

    /// Adds token accounts.
    pub fn add_atas(&mut self, atas: Vec<AccountCloneRequest>)
        ensures
            final(self).accounts_to_clone@ == old(self).accounts_to_clone@ + atas@,
            final(self).requested == old(self).requested,
            final(self).loaded_programs == old(self).loaded_programs,
            final(self).record_subs == old(self).record_subs,
            final(self).program_data_subs == old(self).program_data_subs,
    {
        let mut atas = atas;
        self.accounts_to_clone.append(&mut atas);
    }

    /// What the actions need that has to be fetched first. `in_bank` are those accounts that
    /// the bank has.
    pub fn dependencies_to_fetch(&self, in_bank: &Vec<Pubkey>) -> (r: Vec<Pubkey>)
        ensures
            r@ == picked(
                distinct_keys(named_by_actions(self.accounts_to_clone@)),
                pick_absent(in_bank@, self.accounts_to_clone@, self.loaded_programs@),
            ),
    {
        let dependencies = collect_delegation_action_dependencies(&self.accounts_to_clone);
        let ghost pick = pick_absent(in_bank@, self.accounts_to_clone@, self.loaded_programs@);
        let mut to_fetch: Vec<Pubkey> = Vec::new();
        let mut i: usize = 0;
        while i < dependencies.len()
            invariant
                i <= dependencies.len(),
                pick == pick_absent(in_bank@, self.accounts_to_clone@, self.loaded_programs@),
                to_fetch@ == picked(dependencies@.take(i as int), pick),
            decreases dependencies.len() - i,
        {
            proof {
                lemma_picked_step(dependencies@, i as int, pick);
            }
            let pubkey = dependencies[i];
            if !contains_key(in_bank, &pubkey) && !clones_account(&self.accounts_to_clone, &pubkey)
                && !loads_program(&self.loaded_programs, &pubkey) {
                to_fetch.push(pubkey);
            }
            i = i + 1;
        }
        assert(dependencies@.take(dependencies@.len() as int) =~= dependencies@);
        to_fetch
    }

    /// Notes that the dependencies were fetched.
    pub fn dependencies_fetched(&mut self, dependencies: &Vec<Pubkey>)
        ensures
            final(self).requested@ == old(self).requested@ + dependencies@,
            final(self).accounts_to_clone == old(self).accounts_to_clone,
            final(self).loaded_programs == old(self).loaded_programs,
            final(self).record_subs == old(self).record_subs,
            final(self).program_data_subs == old(self).program_data_subs,
    {
        append_keys(&mut self.requested, dependencies);
    }

    /// What is given back now.
    pub fn subscription_releases(&self) -> (r: Vec<SubscriptionRelease>)
        ensures
            r@ == self.releases(),
    {
        compute_subscription_releases(
            &self.requested,
            &self.accounts_to_clone,
            &self.loaded_programs,
            &self.record_subs,
            &self.program_data_subs,
        )
    }

    /// Takes in what the delegated ones among the dependencies came to. If one has no
    /// delegation record, actions would run without it: then nothing is cloned, and what was
    /// subscribed to is given back.
    pub fn add_delegated_dependencies(
        &mut self,
        resolved: ResolvedDelegatedAccounts,
    ) -> (r: Result<Vec<AccountCloneRequest>, (ChainlinkError, Vec<SubscriptionRelease>)>)
        ensures
            final(self).accounts_to_clone == old(self).accounts_to_clone,
            final(self).loaded_programs == old(self).loaded_programs,
            final(self).program_data_subs == old(self).program_data_subs,
            final(self).record_subs@ == old(self).record_subs@ + resolved.record_subs@,
            if resolved.missing_delegation_record@.len() > 0 {
                &&& r matches Err((error, releases))
                &&& error matches ChainlinkError::MissingDelegationActionAccounts(missing)
                &&& missing@ == keys_of(resolved.missing_delegation_record@)
                &&& final(self).requested == old(self).requested
                &&& releases@ == final(self).releases()
            } else {
                &&& r matches Ok(accounts)
                &&& accounts == resolved.accounts_to_clone
                &&& final(self).requested@ == old(self).requested@ + resolved.record_subs@
            },
    {
        append_keys(&mut self.record_subs, &resolved.record_subs);
        if resolved.missing_delegation_record.len() > 0 {
            let releases = self.subscription_releases();
            return Err(
                (
                    ChainlinkError::MissingDelegationActionAccounts(
                        collect_keys(&resolved.missing_delegation_record),
                    ),
                    releases,
                ),
            );
        }
        append_keys(&mut self.requested, &resolved.record_subs);
        Ok(resolved.accounts_to_clone)
    }

    /// What is given back if the programs among the dependencies could not be resolved, given
    /// the accounts among them.
    pub fn dependency_programs_failed(self, accounts: Vec<AccountCloneRequest>) -> (r: Vec<
        SubscriptionRelease,
    >)
        ensures
            r@ == released(
                no_longer_watched(
                    self.requested@,
                    self.accounts_to_clone@ + accounts@,
                    self.loaded_programs@,
                ),
                SubscriptionReason::DirectAccount,
            ) + released(self.record_subs@, SubscriptionReason::DelegationRecord) + released(
                self.program_data_subs@,
                SubscriptionReason::ProgramData,
            ),
    {
        let mut all = self;
        let mut accounts = accounts;
        all.accounts_to_clone.append(&mut accounts);
        all.subscription_releases()
    }

    /// Takes in the rest of the dependencies: their accounts, programs and token accounts.
    pub fn add_dependencies(
        &mut self,
        accounts: Vec<AccountCloneRequest>,
        programs: ResolvedPrograms,
        atas: Vec<AccountCloneRequest>,
    )
        ensures
            final(self).requested@ == old(self).requested@ + programs.program_data_subs@,
            final(self).accounts_to_clone@ == old(self).accounts_to_clone@ + accounts@ + atas@,
            final(self).loaded_programs@ == old(self).loaded_programs@ + programs.loaded_programs@,
            final(self).record_subs == old(self).record_subs,
            final(self).program_data_subs@ == distinct_keys(
                old(self).program_data_subs@ + programs.program_data_subs@,
            ),
    {
        append_keys(&mut self.requested, &programs.program_data_subs);
        append_keys(&mut self.program_data_subs, &programs.program_data_subs);
        let mut subs: Vec<Pubkey> = Vec::new();
        extend_distinct(&mut subs, &self.program_data_subs);
        assert(Seq::<Pubkey>::empty() + self.program_data_subs@ =~= self.program_data_subs@);
        self.program_data_subs = subs;
        let mut accounts = accounts;
        let mut atas = atas;
        let mut loaded = programs.loaded_programs;
        self.accounts_to_clone.append(&mut accounts);
        self.accounts_to_clone.append(&mut atas);
        self.loaded_programs.append(&mut loaded);
    }

    /// Ends the gathering: what is cloned, in which order, and what is given back once it is.
    pub fn finish(self, allowed_programs: &Option<Vec<Pubkey>>) -> (r: (
        CloneBatches,
        Vec<SubscriptionRelease>,
    ))
        ensures
            r.0.programs@ == picked(self.loaded_programs@, pick_allowed(*allowed_programs)),
            r.0.without_actions@ == picked(self.accounts_to_clone@, pick_with_actions(false)),
            r.0.with_actions@ == picked(self.accounts_to_clone@, pick_with_actions(true)),
            r.1@ == self.releases(),
    {
        let releases = self.subscription_releases();
        (order_clones(self.accounts_to_clone, self.loaded_programs, allowed_programs), releases)
    }
}

} // verus!
