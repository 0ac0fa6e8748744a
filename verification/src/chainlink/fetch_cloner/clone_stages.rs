//! The stages of a fetch: what was fetched is resolved, what its actions need is fetched and
//! resolved too, everything is cloned, and what was subscribed to on the way is given back.
//!
//! Each stage takes what came of the work that the stage before it asked for.
use vstd::prelude::*;
use crate::account::{Account, SubscriptionReason};
use crate::chainlink::errors::ChainlinkError;
use crate::chainlink::fetch_cloner::fetching::{
    delegated_failed, pick_absent, programs_failed, CloneGathering,
};
use crate::chainlink::fetch_cloner::pipeline::{
    classify_remote_accounts, collect_delegation_action_dependencies, keys_view,
    named_by_actions, no_longer_watched, partition_not_found, pick_allowed, pick_atas,
    pick_class, pick_marked, pick_missing, pick_plain, pick_with_actions, AccountClass,
    CloneBatches, FetchedAccount,
};
use crate::chainlink::fetch_cloner::subscription::{released, SubscriptionRelease};
use crate::chainlink::fetch_cloner::types::{
    keys_of, AtaAccount, FetchAndCloneResult, ResolvedDelegatedAccounts, ResolvedPrograms,
};
use crate::cloner::AccountCloneRequest;
use crate::lists::picked;
use crate::pubkey::{copy_keys, distinct_keys, Pubkey};

verus! {

/// Why a fetch ends, and what it gives back.
#[derive(Debug)]
pub struct CloneFailure {
    pub error: ChainlinkError,
    pub releases: Vec<SubscriptionRelease>,
}

/// Accounts of the delegation program to resolve, and accounts that are taken as they are.
#[derive(Debug)]
pub struct DelegatedWork {
    pub owned_by_deleg: Vec<(Pubkey, Account, u64)>,
    pub plain: Vec<AccountCloneRequest>,
}

impl DelegatedWork {
    /// Whether this is the work that fetched accounts make.
    pub open spec fn of(&self, fetched: Seq<FetchedAccount>) -> bool {
        &&& self.owned_by_deleg@ == picked(fetched, pick_class(AccountClass::OwnedByDlp))
        &&& self.plain@ == picked(fetched, pick_plain())
    }
}

/// Delegated accounts are being resolved. Programs and token accounts come next.
#[derive(Debug)]
pub struct DelegatedStage {
    pub pubkeys: Vec<Pubkey>,
    pub not_found: Vec<(Pubkey, u64)>,
    pub programs: Vec<(Pubkey, Account, u64)>,
    pub atas: Vec<AtaAccount>,
}

/// Sorts what was fetched for `pubkeys`. The delegated accounts are resolved first.
pub fn start_clone(
    pubkeys: Vec<Pubkey>,
    fetched: Vec<FetchedAccount>,
    mark_empty_if_not_found: Option<&Vec<Pubkey>>,
) -> (r: (DelegatedStage, DelegatedWork))
    ensures
        r.0.pubkeys == pubkeys,
        r.0.not_found@ == picked(
            picked(fetched@, pick_missing()),
            pick_marked(keys_view(mark_empty_if_not_found), false),
        ),
        r.0.programs@ == picked(fetched@, pick_class(AccountClass::Program)),
        r.0.atas@ == picked(fetched@, pick_atas()),
        r.1.of(fetched@),
{
    let classified = classify_remote_accounts(fetched);
    let parted = partition_not_found(mark_empty_if_not_found, classified.not_found);
    (
        DelegatedStage {
            pubkeys,
            not_found: parted.not_found,
            programs: classified.programs,
            atas: classified.atas,
        },
        DelegatedWork { owned_by_deleg: classified.owned_by_deleg, plain: classified.plain },
    )
}

/// Programs are being resolved. Token accounts come next.
#[derive(Debug)]
pub struct ProgramsStage {
    pub pubkeys: Vec<Pubkey>,
    pub not_found: Vec<(Pubkey, u64)>,
    pub delegated: ResolvedDelegatedAccounts,
    pub atas: Vec<AtaAccount>,
}

impl DelegatedStage {
    /// Goes on to the programs. If the delegated accounts could not be resolved, the accounts
    /// that were asked for are no longer watched.
    pub fn delegated(self, resolved: Result<ResolvedDelegatedAccounts, ChainlinkError>) -> (r:
        Result<(ProgramsStage, Vec<(Pubkey, Account, u64)>), CloneFailure>)
        ensures
            match resolved {
                Ok(delegated) => {
                    &&& r matches Ok((stage, programs))
                    &&& stage.pubkeys == self.pubkeys
                    &&& stage.not_found == self.not_found
                    &&& stage.delegated == delegated
                    &&& stage.atas == self.atas
                    &&& programs == self.programs
                },
                Err(error) => {
                    &&& r matches Err(failure)
                    &&& failure.error == error
                    &&& failure.releases@ == released(
                        self.pubkeys@,
                        SubscriptionReason::DirectAccount,
                    )
                },
            },
    {
        match resolved {
            Ok(delegated) => Ok(
                (
                    ProgramsStage {
                        pubkeys: self.pubkeys,
                        not_found: self.not_found,
                        delegated,
                        atas: self.atas,
                    },
                    self.programs,
                ),
            ),
            Err(error) => Err(CloneFailure { error, releases: delegated_failed(&self.pubkeys) }),
        }
    }
}

/// What is told at the end of a fetch, besides what it clones.
#[derive(Debug)]
pub struct Gathered {
    pub not_found: Vec<(Pubkey, u64)>,
    pub missing_delegation_record: Vec<(Pubkey, u64)>,
    pub gathering: CloneGathering,
}

/// Token accounts are being resolved.
#[derive(Debug)]
pub struct AtasStage {
    pub gathered: Gathered,
}

impl ProgramsStage {
    /// Goes on to the token accounts. If the programs could not be resolved, neither the
    /// accounts that were asked for nor the records are watched any longer.
    pub fn programs(self, resolved: Result<ResolvedPrograms, ChainlinkError>) -> (r: Result<
        (AtasStage, Vec<AtaAccount>),
        CloneFailure,
    >)
        ensures
            match resolved {
                Ok(programs) => {
                    &&& r matches Ok((stage, atas))
                    &&& atas == self.atas
                    &&& stage.gathered.not_found == self.not_found
                    &&& stage.gathered.missing_delegation_record
                        == self.delegated.missing_delegation_record
                    &&& stage.gathered.gathering.requested@ == self.pubkeys@
                        + self.delegated.record_subs@ + programs.program_data_subs@
                    &&& stage.gathered.gathering.accounts_to_clone
                        == self.delegated.accounts_to_clone
                    &&& stage.gathered.gathering.loaded_programs == programs.loaded_programs
                    &&& stage.gathered.gathering.record_subs == self.delegated.record_subs
                    &&& stage.gathered.gathering.program_data_subs == programs.program_data_subs
                },
                Err(error) => {
                    &&& r matches Err(failure)
                    &&& failure.error == error
                    &&& failure.releases@ == released(
                        self.pubkeys@,
                        SubscriptionReason::DirectAccount,
                    ) + released(
                        self.delegated.record_subs@,
                        SubscriptionReason::DirectAccount,
                    ) + released(
                        self.delegated.record_subs@,
                        SubscriptionReason::DelegationRecord,
                    )
                },
            },
    {
        match resolved {
            Ok(programs) => {
                let missing_delegation_record = self.delegated.missing_delegation_record;
                let delegated = ResolvedDelegatedAccounts {
                    accounts_to_clone: self.delegated.accounts_to_clone,
                    record_subs: self.delegated.record_subs,
                    missing_delegation_record: Vec::new(),
                    owner_programs: self.delegated.owner_programs,
                };
                let gathering = CloneGathering::new(&self.pubkeys, delegated, programs);
                Ok(
                    (
                        AtasStage {
                            gathered: Gathered {
                                not_found: self.not_found,
                                missing_delegation_record,
                                gathering,
                            },
                        },
                        self.atas,
                    ),
                )
            },
            Err(error) => Err(
                CloneFailure {
                    error,
                    releases: programs_failed(&self.pubkeys, &self.delegated.record_subs),
                },
            ),
        }
    }
}

/// The bank is being asked which of the accounts that actions need it has.
#[derive(Debug)]
pub struct BankStage {
    pub gathered: Gathered,
}

impl AtasStage {
    /// Goes on to what the actions need.
    pub fn atas(self, resolved: Vec<AccountCloneRequest>) -> (r: (BankStage, Vec<Pubkey>))
        ensures
            r.0.gathered.not_found == self.gathered.not_found,
            r.0.gathered.missing_delegation_record == self.gathered.missing_delegation_record,
            r.0.gathered.gathering.requested == self.gathered.gathering.requested,
            r.0.gathered.gathering.accounts_to_clone@
                == self.gathered.gathering.accounts_to_clone@ + resolved@,
            r.0.gathered.gathering.loaded_programs == self.gathered.gathering.loaded_programs,
            r.0.gathered.gathering.record_subs == self.gathered.gathering.record_subs,
            r.0.gathered.gathering.program_data_subs == self.gathered.gathering.program_data_subs,
            r.1@ == distinct_keys(
                named_by_actions(r.0.gathered.gathering.accounts_to_clone@),
            ),
    {
        let mut gathered = self.gathered;
        gathered.gathering.add_atas(resolved);
        let dependencies = collect_delegation_action_dependencies(
            &gathered.gathering.accounts_to_clone,
        );
        (BankStage { gathered }, dependencies)
    }
}

/// Everything is being cloned.
#[derive(Debug)]
pub struct CloneStage {
    pub not_found: Vec<(Pubkey, u64)>,
    pub missing_delegation_record: Vec<(Pubkey, u64)>,
    pub releases: Vec<SubscriptionRelease>,
}

/// What the actions need is being fetched.
#[derive(Debug)]
pub struct FetchStage {
    pub gathered: Gathered,
    pub dependencies: Vec<Pubkey>,
}

/// How a fetch goes on once it is known what the bank has.
#[derive(Debug)]
pub enum DependencyStep {
    /// Everything is cloned.
    Clone(CloneStage, CloneBatches),
    /// These accounts are fetched first.
    Fetch(FetchStage, Vec<Pubkey>),
}

impl Gathered {
    /// What the actions need that neither the bank has nor the fetch brings.
    pub open spec fn absent(&self, in_bank: Seq<Pubkey>) -> Seq<Pubkey> {
        picked(
            distinct_keys(named_by_actions(self.gathering.accounts_to_clone@)),
            pick_absent(
                in_bank,
                self.gathering.accounts_to_clone@,
                self.gathering.loaded_programs@,
            ),
        )
    }

    /// Whether this is how everything that was gathered is cloned.
    pub open spec fn cloned_by(
        &self,
        stage: CloneStage,
        batches: CloneBatches,
        allowed: Option<Vec<Pubkey>>,
    ) -> bool {
        &&& stage.not_found == self.not_found
        &&& stage.missing_delegation_record == self.missing_delegation_record
        &&& stage.releases@ == self.gathering.releases()
        &&& batches.programs@ == picked(self.gathering.loaded_programs@, pick_allowed(allowed))
        &&& batches.without_actions@ == picked(
            self.gathering.accounts_to_clone@,
            pick_with_actions(false),
        )
        &&& batches.with_actions@ == picked(
            self.gathering.accounts_to_clone@,
            pick_with_actions(true),
        )
    }

    fn clone_all(self, allowed_programs: &Option<Vec<Pubkey>>) -> (r: (CloneStage, CloneBatches))
        ensures
            self.cloned_by(r.0, r.1, *allowed_programs),
    {
        let (batches, releases) = self.gathering.finish(allowed_programs);
        (
            CloneStage {
                not_found: self.not_found,
                missing_delegation_record: self.missing_delegation_record,
                releases,
            },
            batches,
        )
    }
}

impl BankStage {
    /// Clones everything, unless the actions need accounts that have to be fetched first.
    pub fn in_bank(self, in_bank: &Vec<Pubkey>, allowed_programs: &Option<Vec<Pubkey>>) -> (r:
        DependencyStep)
        ensures
            if self.gathered.absent(in_bank@).len() == 0 {
                &&& r matches DependencyStep::Clone(stage, batches)
                &&& self.gathered.cloned_by(stage, batches, *allowed_programs)
            } else {
                &&& r matches DependencyStep::Fetch(stage, dependencies)
                &&& dependencies@ == self.gathered.absent(in_bank@)
                &&& stage.gathered == self.gathered
                &&& stage.dependencies@ == dependencies@
            },
    {
        let dependencies = self.gathered.gathering.dependencies_to_fetch(in_bank);
        if dependencies.len() == 0 {
            let (stage, batches) = self.gathered.clone_all(allowed_programs);
            DependencyStep::Clone(stage, batches)
        } else {
            let asked = copy_keys(&dependencies);
            DependencyStep::Fetch(FetchStage { gathered: self.gathered, dependencies }, asked)
        }
    }
}

/// The delegated ones among the dependencies are being resolved.
#[derive(Debug)]
pub struct DependencyDelegatedStage {
    pub gathered: Gathered,
    pub programs: Vec<(Pubkey, Account, u64)>,
    pub atas: Vec<AtaAccount>,
}

/// What was gathered after the dependencies were fetched.
pub open spec fn with_requested(before: Gathered, more: Seq<Pubkey>, after: Gathered) -> bool {
    &&& after.not_found == before.not_found
    &&& after.missing_delegation_record == before.missing_delegation_record
    &&& after.gathering.requested@ == before.gathering.requested@ + more
    &&& after.gathering.accounts_to_clone == before.gathering.accounts_to_clone
    &&& after.gathering.loaded_programs == before.gathering.loaded_programs
    &&& after.gathering.record_subs == before.gathering.record_subs
    &&& after.gathering.program_data_subs == before.gathering.program_data_subs
}

impl FetchStage {
    /// Goes on to the delegated ones among the dependencies. Dependencies that the chain does
    /// not have are left out. If they could not be fetched, nothing is given back.
    pub fn fetched(self, fetched: Result<Vec<FetchedAccount>, ChainlinkError>) -> (r: Result<
        (DependencyDelegatedStage, DelegatedWork),
        CloneFailure,
    >)
        ensures
            match fetched {
                Ok(fetched) => {
                    &&& r matches Ok((stage, work))
                    &&& with_requested(self.gathered, self.dependencies@, stage.gathered)
                    &&& stage.programs@ == picked(fetched@, pick_class(AccountClass::Program))
                    &&& stage.atas@ == picked(fetched@, pick_atas())
                    &&& work.of(fetched@)
                },
                Err(error) => {
                    &&& r matches Err(failure)
                    &&& failure.error == error
                    &&& failure.releases@.len() == 0
                },
            },
    {
        match fetched {
            Ok(fetched) => {
                let mut gathered = self.gathered;
                gathered.gathering.dependencies_fetched(&self.dependencies);
                let classified = classify_remote_accounts(fetched);
                Ok(
                    (
                        DependencyDelegatedStage {
                            gathered,
                            programs: classified.programs,
                            atas: classified.atas,
                        },
                        DelegatedWork {
                            owned_by_deleg: classified.owned_by_deleg,
                            plain: classified.plain,
                        },
                    ),
                )
            },
            Err(error) => Err(CloneFailure { error, releases: Vec::new() }),
        }
    }
}

/// The programs among the dependencies are being resolved.
#[derive(Debug)]
pub struct DependencyProgramsStage {
    pub gathered: Gathered,
    pub accounts: Vec<AccountCloneRequest>,
    pub atas: Vec<AtaAccount>,
}

impl DependencyDelegatedStage {
    /// Goes on to the programs among the dependencies. If the delegated ones could not be
    /// resolved, or one of them has no delegation record, nothing is cloned.
    pub fn delegated(self, resolved: Result<ResolvedDelegatedAccounts, ChainlinkError>) -> (r:
        Result<(DependencyProgramsStage, Vec<(Pubkey, Account, u64)>), CloneFailure>)
        ensures
            match resolved {
                Ok(resolved) => if resolved.missing_delegation_record@.len() > 0 {
                    &&& r matches Err(failure)
                    &&& failure.error matches ChainlinkError::MissingDelegationActionAccounts(
                        missing,
                    )
                    &&& missing@ == keys_of(resolved.missing_delegation_record@)
                    &&& failure.releases@ == released(
                        no_longer_watched(
                            self.gathered.gathering.requested@,
                            self.gathered.gathering.accounts_to_clone@,
                            self.gathered.gathering.loaded_programs@,
                        ),
                        SubscriptionReason::DirectAccount,
                    ) + released(
                        self.gathered.gathering.record_subs@ + resolved.record_subs@,
                        SubscriptionReason::DelegationRecord,
                    ) + released(
                        self.gathered.gathering.program_data_subs@,
                        SubscriptionReason::ProgramData,
                    )
                } else {
                    &&& r matches Ok((stage, programs))
                    &&& programs == self.programs
                    &&& stage.accounts == resolved.accounts_to_clone
                    &&& stage.atas == self.atas
                    &&& stage.gathered.not_found == self.gathered.not_found
                    &&& stage.gathered.missing_delegation_record
                        == self.gathered.missing_delegation_record
                    &&& stage.gathered.gathering.requested@ == self.gathered.gathering.requested@
                        + resolved.record_subs@
                    &&& stage.gathered.gathering.accounts_to_clone
                        == self.gathered.gathering.accounts_to_clone
                    &&& stage.gathered.gathering.loaded_programs
                        == self.gathered.gathering.loaded_programs
                    &&& stage.gathered.gathering.record_subs@
                        == self.gathered.gathering.record_subs@ + resolved.record_subs@
                    &&& stage.gathered.gathering.program_data_subs
                        == self.gathered.gathering.program_data_subs
                },
                Err(error) => {
                    &&& r matches Err(failure)
                    &&& failure.error == error
                    &&& failure.releases@ == self.gathered.gathering.releases()
                },
            },
    {
        match resolved {
            Ok(resolved) => {
                let mut gathered = self.gathered;
                match gathered.gathering.add_delegated_dependencies(resolved) {
                    Ok(accounts) => Ok(
                        (
                            DependencyProgramsStage { gathered, accounts, atas: self.atas },
                            self.programs,
                        ),
                    ),
                    Err((error, releases)) => Err(CloneFailure { error, releases }),
                }
            },
            Err(error) => {
                let releases = self.gathered.gathering.subscription_releases();
                Err(CloneFailure { error, releases })
            },
        }
    }
}

/// The token accounts among the dependencies are being resolved.
#[derive(Debug)]
pub struct DependencyAtasStage {
    pub gathered: Gathered,
    pub accounts: Vec<AccountCloneRequest>,
    pub programs: ResolvedPrograms,
}

impl DependencyProgramsStage {
    /// Goes on to the token accounts among the dependencies.
    pub fn programs(self, resolved: Result<ResolvedPrograms, ChainlinkError>) -> (r: Result<
        (DependencyAtasStage, Vec<AtaAccount>),
        CloneFailure,
    >)
        ensures
            match resolved {
                Ok(programs) => {
                    &&& r matches Ok((stage, atas))
                    &&& atas == self.atas
                    &&& stage.gathered == self.gathered
                    &&& stage.accounts == self.accounts
                    &&& stage.programs == programs
                },
                Err(error) => {
                    &&& r matches Err(failure)
                    &&& failure.error == error
                    &&& failure.releases@ == released(
                        no_longer_watched(
                            self.gathered.gathering.requested@,
                            self.gathered.gathering.accounts_to_clone@ + self.accounts@,
                            self.gathered.gathering.loaded_programs@,
                        ),
                        SubscriptionReason::DirectAccount,
                    ) + released(
                        self.gathered.gathering.record_subs@,
                        SubscriptionReason::DelegationRecord,
                    ) + released(
                        self.gathered.gathering.program_data_subs@,
                        SubscriptionReason::ProgramData,
                    )
                },
            },
    {
        match resolved {
            Ok(programs) => Ok(
                (
                    DependencyAtasStage {
                        gathered: self.gathered,
                        accounts: self.accounts,
                        programs,
                    },
                    self.atas,
                ),
            ),
            Err(error) => Err(
                CloneFailure {
                    error,
                    releases: self.gathered.gathering.dependency_programs_failed(self.accounts),
                },
            ),
        }
    }
}

impl DependencyAtasStage {
    /// Whether `all` is what was gathered together with the dependencies.
    pub open spec fn completed_by(&self, atas: Seq<AccountCloneRequest>, all: Gathered) -> bool {
        let before = self.gathered.gathering;
        let after = all.gathering;
        &&& all.not_found == self.gathered.not_found
        &&& all.missing_delegation_record == self.gathered.missing_delegation_record
        &&& after.requested@ == before.requested@ + self.programs.program_data_subs@
        &&& after.accounts_to_clone@ == before.accounts_to_clone@ + self.accounts@ + atas
        &&& after.loaded_programs@ == before.loaded_programs@ + self.programs.loaded_programs@
        &&& after.record_subs == before.record_subs
        &&& after.program_data_subs@ == distinct_keys(
            before.program_data_subs@ + self.programs.program_data_subs@,
        )
    }

    /// Clones everything, with the dependencies.
    pub fn atas(self, resolved: Vec<AccountCloneRequest>, allowed_programs: &Option<Vec<Pubkey>>) -> (r:
        (CloneStage, CloneBatches))
        ensures
            exists|all: Gathered|
                #[trigger] self.completed_by(resolved@, all) && all.cloned_by(
                    r.0,
                    r.1,
                    *allowed_programs,
                ),
    {
        let ghost before = self;
        let mut gathered = self.gathered;
        gathered.gathering.add_dependencies(self.accounts, self.programs, resolved);
        assert(before.completed_by(resolved@, gathered));
        gathered.clone_all(allowed_programs)
    }
}

impl CloneStage {
    /// Ends the fetch. Only if everything was cloned is something given back.
    pub fn cloned(self, result: Result<(), ChainlinkError>) -> (r: Result<
        (FetchAndCloneResult, Vec<SubscriptionRelease>),
        CloneFailure,
    >)
        ensures
            match result {
                Ok(()) => {
                    &&& r matches Ok((result, releases))
                    &&& result.not_found_on_chain == self.not_found
                    &&& result.missing_delegation_record == self.missing_delegation_record
                    &&& releases == self.releases
                },
                Err(error) => {
                    &&& r matches Err(failure)
                    &&& failure.error == error
                    &&& failure.releases@.len() == 0
                },
            },
    {
        match result {
            Ok(()) => Ok(
                (
                    FetchAndCloneResult {
                        not_found_on_chain: self.not_found,
                        missing_delegation_record: self.missing_delegation_record,
                    },
                    self.releases,
                ),
            ),
            Err(error) => Err(CloneFailure { error, releases: Vec::new() }),
        }
    }
}

/// Once everything is cloned, no delegation record and no code account that the fetch
/// subscribed to stays watched for that reason, and neither does an account that was asked for
/// and came to nothing.
pub proof fn law_fetches_give_back(
    gathered: Gathered,
    stage: CloneStage,
    batches: CloneBatches,
    allowed: Option<Vec<Pubkey>>,
    pubkey: Pubkey,
)
    requires
        gathered.cloned_by(stage, batches, allowed),
    ensures
        gathered.gathering.record_subs@.contains(pubkey) ==> stage.releases@.contains(
            SubscriptionRelease { pubkey, reason: SubscriptionReason::DelegationRecord },
        ),
        gathered.gathering.program_data_subs@.contains(pubkey) ==> stage.releases@.contains(
            SubscriptionRelease { pubkey, reason: SubscriptionReason::ProgramData },
        ),
        no_longer_watched(
            gathered.gathering.requested@,
            gathered.gathering.accounts_to_clone@,
            gathered.gathering.loaded_programs@,
        ).contains(pubkey) ==> stage.releases@.contains(
            SubscriptionRelease { pubkey, reason: SubscriptionReason::DirectAccount },
        ),
{
    let gathering = gathered.gathering;
    let unwatched = no_longer_watched(
        gathering.requested@,
        gathering.accounts_to_clone@,
        gathering.loaded_programs@,
    );
    let direct = released(unwatched, SubscriptionReason::DirectAccount);
    let records = released(gathering.record_subs@, SubscriptionReason::DelegationRecord);
    let all = stage.releases@;
    if unwatched.contains(pubkey) {
        let i = choose|i: int| 0 <= i < unwatched.len() && unwatched[i] == pubkey;
        assert(all[i] == direct[i]);
    }
    if gathering.record_subs@.contains(pubkey) {
        let i = choose|i: int|
            0 <= i < gathering.record_subs@.len() && gathering.record_subs@[i] == pubkey;
        assert(all[direct.len() + i] == records[i]);
    }
    if gathering.program_data_subs@.contains(pubkey) {
        let i = choose|i: int|
            0 <= i < gathering.program_data_subs@.len() && gathering.program_data_subs@[i]
                == pubkey;
        assert(all[direct.len() + records.len() + i] == (SubscriptionRelease {
            pubkey,
            reason: SubscriptionReason::ProgramData,
        }));
    }
}

} // verus!
