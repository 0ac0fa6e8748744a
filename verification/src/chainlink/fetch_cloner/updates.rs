//! What an update from a subscription leads to.
use vstd::prelude::*;
use crate::account::{
    Account, AccountMode, RemoteAccount, ResolvedAccount, SubscriptionReason, SubscriptionSource,
};
use crate::chainlink::account_still_undelegating_on_chain::{
    account_still_undelegating_on_chain, still_undelegating,
};
use crate::chainlink::errors::ChainlinkError;
use crate::chainlink::fetch_cloner::collision::{is_missing, misses};
use crate::chainlink::fetch_cloner::delegation::{
    account_with_record, apply_delegation_record_to_account, delegated_to_other,
    get_delegated_to_other, is_raw_eata_account, parse_delegation_record, parse_raw_eata_pda,
    record_parse,
};
use crate::chainlink::fetch_cloner::fetching::companion_keeps_undelegating;
use crate::chainlink::fetch_cloner::rules::{
    action_dependency_needs_fetch, observes, program_subscription_is_too_broad,
    DlpProgramUpdateInterest,
};
use crate::chainlink::fetch_cloner::subscription::SubscriptionRelease;
use crate::chainlink::fetch_cloner::types::{
    keys_of, AccountWithCompanion, FetchAndCloneResult,
};
use crate::chainlink::record_mirror::ObservedUndelegationRequest;
use crate::cloner::{
    action_dependencies, AccountCloneRequest, ClonePostDelegationMode, DelegationActions,
    Instruction,
};
use crate::delegation_record::{
    delegated_to_validator_or_confined, is_delegated_to_validator_or_confined,
    is_undelegation_request, read_undelegation_request, DelegationRecord,
};
use crate::lists::{lemma_picked_step, picked};
use crate::program_ids::{
    ASSOCIATED_TOKEN_PROGRAM_ID, LOADER_V3_ID, TOKEN_2022_PROGRAM_ID, TOKEN_PROGRAM_ID,
};
use crate::pubkey::{contains_key, distinct_keys, insert_key, Pubkey};
use crate::sorting::{
    addresses_sorted, has_text, insert_text, sort_addresses, texts_sorted,
};
use crate::text::{address_text, address_to_text};

verus! {

/// Where an update goes first.
#[derive(Clone, Copy, Debug, PartialEq, Eq, Structural)]
pub enum UpdateRoute {
    /// Nowhere: the rollup runs the account. Its direct subscription is given up.
    DropAuthoritative,
    /// It looks internal, and may be a delegated account all the same.
    ResolveCollision,
    Process,
}

/// Tells where an update goes first. `interest` is what an update of the delegation program
/// that came from a subscription to the program is worth.
pub fn route_update(
    source: SubscriptionSource,
    is_dlp_owned: bool,
    is_internal: bool,
    interest: Option<DlpProgramUpdateInterest>,
) -> (r: UpdateRoute)
    ensures
        r == if interest == Some(DlpProgramUpdateInterest::DropLocalDelegatedAuthoritative) {
            UpdateRoute::DropAuthoritative
        } else if interest != Some(DlpProgramUpdateInterest::ProcessUndelegating) && interest
            != Some(DlpProgramUpdateInterest::ProcessAtaProjection) && is_dlp_owned && is_internal
            && source == SubscriptionSource::Program {
            UpdateRoute::ResolveCollision
        } else {
            UpdateRoute::Process
        },
{
    let wanted = match interest {
        Some(DlpProgramUpdateInterest::DropLocalDelegatedAuthoritative) => {
            return UpdateRoute::DropAuthoritative;
        },
        Some(DlpProgramUpdateInterest::ProcessUndelegating) => true,
        Some(DlpProgramUpdateInterest::ProcessAtaProjection) => true,
        _ => false,
    };
    if !wanted && is_dlp_owned && is_internal && source == SubscriptionSource::Program {
        UpdateRoute::ResolveCollision
    } else {
        UpdateRoute::Process
    }
}

/// What to do with an update whose account may not be watched any longer.
#[derive(Clone, Copy, Debug, PartialEq, Eq, Structural)]
pub enum WatchCheck {
    Proceed,
    Drop,
    /// Drop it, and have the account that the bank still holds removed.
    DropAndRemove,
}

/// Tells what to do with an update by whether its account is watched. An update from a
/// subscription to a program may come for an account that is not watched itself.
pub fn check_watched(source: SubscriptionSource, is_watching: bool, in_bank: bool) -> (r: WatchCheck)
    ensures
        r == if source == SubscriptionSource::Account && !is_watching {
            if in_bank {
                WatchCheck::DropAndRemove
            } else {
                WatchCheck::Drop
            }
        } else {
            WatchCheck::Proceed
        },
{
    if source == SubscriptionSource::Account && !is_watching {
        if in_bank {
            WatchCheck::DropAndRemove
        } else {
            WatchCheck::Drop
        }
    } else {
        WatchCheck::Proceed
    }
}

/// The program account that stands for an update of its code account.
pub fn routed_program_account(update_slot: u64) -> (r: Account)
    ensures
        r.lamports == 1,
        r.data@.len() == 0,
        r.owner.bytes == LOADER_V3_ID,
        r.slot == update_slot,
        !r.executable,
        r.mode == AccountMode::ReadOnly,
{
    let mut account = Account::new(1, Pubkey { bytes: LOADER_V3_ID });
    account.slot = update_slot;
    account
}

/// Whether an update brings nothing new: the bank holds the account from a later slot, or from
/// the same one, unless the update says that the account is delegated and the bank does not.
pub open spec fn non_advancing(local: Option<(u64, AccountMode)>, account: Account) -> bool {
    local matches Some((slot, mode)) && (slot > account.slot || (slot == account.slot && !(
    account.mode == AccountMode::Delegated && mode != AccountMode::Delegated)))
}

/// Tests whether an update brings nothing new.
pub fn is_non_advancing(local: Option<(u64, AccountMode)>, account: &Account) -> (r: bool)
    ensures
        r == non_advancing(local, *account),
{
    match local {
        Some((slot, mode)) => slot > account.slot || (slot == account.slot && !(account.is(
            AccountMode::Delegated,
        ) && mode != AccountMode::Delegated)),
        None => false,
    }
}

/// What an update leads to once its account is resolved.
#[derive(Debug)]
pub enum UpdatePlan {
    /// Nothing.
    Ignore,
    /// Only the token account that shows the balance is cloned.
    CloneProjected,
    /// Nothing but that the direct subscription is given up: the rollup runs the account.
    CleanupDirect,
    Apply(UpdateEffects),
}

/// What applying an update does, in this order.
#[derive(Debug)]
pub struct UpdateEffects {
    /// A direct subscription is made sure of, since the account is watched again.
    pub ensure_direct: bool,
    /// The tracking of the undelegation ends.
    pub cleanup_undelegation: bool,
    /// The direct subscription is given up.
    pub cleanup_direct: bool,
    pub target: UpdateTarget,
}

/// What is cloned.
#[derive(Debug)]
pub enum UpdateTarget {
    Program(Account),
    /// An account; the token account that shows its balance follows if there is one.
    Clone(AccountCloneRequest),
}

/// Whether the delegation state of the account changed on chain: it is back from an
/// undelegation, or it is delegated now and was not before.
pub open spec fn undelegation_completed(
    local: Option<(u64, AccountMode)>,
    account: Account,
) -> bool {
    match local {
        Some((_, mode)) => mode == AccountMode::Transient || (mode != AccountMode::Delegated
            && account.mode == AccountMode::Delegated),
        None => account.mode == AccountMode::Delegated,
    }
}

/// Whether an undelegating account of the bank stays as it is.
pub open spec fn stays_undelegating(
    local_slot: u64,
    account: Account,
    record: Option<DelegationRecord>,
    is_projected_ata: bool,
    eata_program: Pubkey,
    validator: Pubkey,
) -> bool {
    ||| account.mode == AccountMode::Delegated && is_projected_ata && companion_keeps_undelegating(
        record,
        eata_program,
        validator,
    )
    ||| still_undelegating(account.mode == AccountMode::Delegated, local_slot, record)
}

/// How often an account is committed after an update: as its record says, if that names this
/// validator.
pub open spec fn update_commit_frequency(
    record: Option<DelegationRecord>,
    validator: Pubkey,
) -> Option<u64> {
    match record {
        Some(record) => if record.authority == validator {
            Some(record.commit_frequency_ms)
        } else {
            None
        },
        None => None,
    }
}

/// The request that an update leads to.
pub open spec fn update_request(
    pubkey: Pubkey,
    account: Account,
    record: Option<DelegationRecord>,
    validator: Pubkey,
) -> AccountCloneRequest {
    AccountCloneRequest {
        pubkey,
        account,
        commit_frequency_ms: update_commit_frequency(record, validator),
        post_delegation_mode: ClonePostDelegationMode::Plain,
        delegated_to_other: match record {
            Some(record) => delegated_to_other(record, validator),
            None => None,
        },
        source_slots: None,
    }
}

/// What an update leads to.
pub open spec fn update_plan(
    pubkey: Pubkey,
    account: Account,
    local: Option<(u64, AccountMode)>,
    record: Option<DelegationRecord>,
    has_projected: bool,
    is_projected_ata: bool,
    eata_program: Pubkey,
    validator: Pubkey,
) -> UpdatePlan {
    if non_advancing(local, account) {
        if (local->0).0 == account.slot && has_projected {
            UpdatePlan::CloneProjected
        } else {
            UpdatePlan::Ignore
        }
    } else if local matches Some((_, mode)) && mode == AccountMode::Delegated {
        UpdatePlan::CleanupDirect
    } else if local matches Some((slot, mode)) && mode == AccountMode::Transient
        && stays_undelegating(slot, account, record, is_projected_ata, eata_program, validator) {
        UpdatePlan::Ignore
    } else {
        let completed = undelegation_completed(local, account);
        let delegated = account.mode == AccountMode::Delegated;
        UpdatePlan::Apply(
            UpdateEffects {
                ensure_direct: completed && !delegated,
                cleanup_undelegation: completed,
                cleanup_direct: delegated,
                target: if account.executable {
                    UpdateTarget::Program(account)
                } else {
                    UpdateTarget::Clone(update_request(pubkey, account, record, validator))
                },
            },
        )
    }
}

/// Tells what an update leads to. `local` is the slot and mode of the account in the bank,
/// `has_projected` whether a token account can be cloned that shows the account's balance, and
/// `is_projected_ata` whether the account is itself such a token account.
pub fn plan_update(
    pubkey: Pubkey,
    account: Account,
    local: Option<(u64, AccountMode)>,
    record: &Option<DelegationRecord>,
    has_projected: bool,
    is_projected_ata: bool,
    eata_program: &Pubkey,
    validator_pubkey: &Pubkey,
) -> (r: UpdatePlan)
    ensures
        r == update_plan(
            pubkey,
            account,
            local,
            *record,
            has_projected,
            is_projected_ata,
            *eata_program,
            *validator_pubkey,
        ),
{
    let delegated = account.is(AccountMode::Delegated);
    let mut completed = false;
    match local {
        Some((slot, mode)) => {
            if is_non_advancing(local, &account) {
                return if slot == account.slot && has_projected {
                    UpdatePlan::CloneProjected
                } else {
                    UpdatePlan::Ignore
                };
            }
            if mode == AccountMode::Delegated {
                return UpdatePlan::CleanupDirect;
            }
            if mode == AccountMode::Transient {
                if delegated && is_projected_ata {
                    if let Some(found) = record {
                        if found.owner == *eata_program && found.authority == *validator_pubkey {
                            return UpdatePlan::Ignore;
                        }
                    }
                }
                if account_still_undelegating_on_chain(delegated, slot, record) {
                    return UpdatePlan::Ignore;
                }
                completed = true;
            } else if delegated {
                completed = true;
            }
        },
        None => {
            if delegated {
                completed = true;
            }
        },
    }
    let target = if account.executable {
        UpdateTarget::Program(account)
    } else {
        let (commit_frequency_ms, other) = match record {
            Some(found) => (
                if found.authority == *validator_pubkey {
                    Some(found.commit_frequency_ms)
                } else {
                    None
                },
                get_delegated_to_other(validator_pubkey, found),
            ),
            None => (None, None),
        };
        UpdateTarget::Clone(
            AccountCloneRequest {
                pubkey,
                account,
                commit_frequency_ms,
                post_delegation_mode: ClonePostDelegationMode::Plain,
                delegated_to_other: other,
                source_slots: None,
            },
        )
    };
    UpdatePlan::Apply(
        UpdateEffects {
            ensure_direct: completed && !delegated,
            cleanup_undelegation: completed,
            cleanup_direct: delegated,
            target,
        },
    )
}

/// An update is never applied over newer state, over an account that the rollup runs, or over
/// one that is still undelegating on chain; and one that is applied brings the account that it
/// came with.
pub proof fn law_updates_keep_what_is_newer(
    pubkey: Pubkey,
    account: Account,
    local: Option<(u64, AccountMode)>,
    record: Option<DelegationRecord>,
    has_projected: bool,
    is_projected_ata: bool,
    eata_program: Pubkey,
    validator: Pubkey,
)
    ensures
        update_plan(
            pubkey,
            account,
            local,
            record,
            has_projected,
            is_projected_ata,
            eata_program,
            validator,
        ) matches UpdatePlan::Apply(effects) ==> {
            &&& local matches Some((slot, mode)) ==> {
                &&& slot <= account.slot
                &&& slot == account.slot ==> account.mode == AccountMode::Delegated
                &&& mode != AccountMode::Delegated
                &&& mode == AccountMode::Transient ==> !still_undelegating(
                    account.mode == AccountMode::Delegated,
                    slot,
                    record,
                )
            }
            &&& match effects.target {
                UpdateTarget::Program(program) => program == account,
                UpdateTarget::Clone(request) => request.pubkey == pubkey && request.account
                    == account,
            }
            &&& !(effects.ensure_direct && effects.cleanup_direct)
        },
{
}

/// What a forwarded account of the delegation program came to.
#[derive(Debug)]
pub struct ForwardedResolution {
    /// The account to clone, if it can be.
    pub account: Option<Account>,
    pub record: Option<DelegationRecord>,
    pub actions: Option<Vec<Instruction>>,
    /// The program to subscribe to, so that the end of the delegation is not missed.
    pub subscribe_owner: Option<Pubkey>,
    /// The undelegation request that the account is.
    pub request: Option<ObservedUndelegationRequest>,
    pub releases: Vec<SubscriptionRelease>,
}

/// What is given back once a forwarded account was fetched with its record.
pub open spec fn forwarded_releases(record_pubkey: Pubkey, acquired: bool) -> Seq<
    SubscriptionRelease,
> {
    let direct = seq![
        SubscriptionRelease {
            pubkey: record_pubkey,
            reason: SubscriptionReason::DirectAccount,
        },
    ];
    if acquired {
        direct.push(
            SubscriptionRelease {
                pubkey: record_pubkey,
                reason: SubscriptionReason::DelegationRecord,
            },
        )
    } else {
        direct
    }
}

/// What is given back if a forwarded account could not be fetched with its record.
pub fn forwarded_fetch_failed(record_pubkey: Pubkey, acquired: bool) -> (r: Vec<
    SubscriptionRelease,
>)
    ensures
        r@ == if acquired {
            seq![
                SubscriptionRelease {
                    pubkey: record_pubkey,
                    reason: SubscriptionReason::DelegationRecord,
                },
            ]
        } else {
            Seq::empty()
        },
{
    let mut releases: Vec<SubscriptionRelease> = Vec::new();
    if acquired {
        releases.push(
            SubscriptionRelease {
                pubkey: record_pubkey,
                reason: SubscriptionReason::DelegationRecord,
            },
        );
    }
    releases
}

/// Whether a program has too many accounts to subscribe to all of them.
pub open spec fn too_broad(program: Pubkey) -> bool {
    program.bytes == TOKEN_PROGRAM_ID || program.bytes == TOKEN_2022_PROGRAM_ID || program.bytes
        == ASSOCIATED_TOKEN_PROGRAM_ID
}

/// Whether `resolution` is what a forwarded account comes to, given what was read from its
/// record. With a record it is the account as the record says. Without one it is cloned as it
/// is if it is an internal account, of which an undelegation request is one.
pub open spec fn resolves_forwarded(
    pair: AccountWithCompanion,
    parsed: Option<(DelegationRecord, Option<Vec<Instruction>>)>,
    acquired: bool,
    is_internal: bool,
    derived_eata: Option<Pubkey>,
    eata_program: Pubkey,
    validator: Pubkey,
    resolution: ForwardedResolution,
) -> bool {
    &&& resolution.releases@ == forwarded_releases(pair.companion_pubkey, acquired)
    &&& if pair.companion_account is Some {
        &&& resolution.request is None
        &&& match parsed {
            Some((record, actions)) => {
                let account = account_with_record(
                    pair.account,
                    record,
                    validator,
                    is_raw_eata_account(
                        pair.pubkey,
                        pair.account.data@,
                        record.owner,
                        eata_program,
                        derived_eata,
                    ),
                );
                &&& resolution.account == Some(account)
                &&& resolution.record == Some(record)
                &&& resolution.actions == actions
                &&& resolution.subscribe_owner == if account.mode == AccountMode::Delegated
                    && !too_broad(record.owner) {
                    Some(record.owner)
                } else {
                    None
                }
            },
            None => {
                &&& resolution.account is None
                &&& resolution.record is None
                &&& resolution.actions is None
                &&& resolution.subscribe_owner is None
            },
        }
    } else {
        let is_request = is_undelegation_request(pair.account.data@);
        &&& resolution.record is None
        &&& resolution.actions is None
        &&& resolution.subscribe_owner is None
        &&& resolution.account == if is_request || is_internal {
            Some(pair.account)
        } else {
            None
        }
        &&& resolution.request is Some <==> is_request
        &&& resolution.request matches Some(request) ==> observes(
            (pair.pubkey, pair.account.data),
            pair.account.slot,
            request,
        )
    }
}

/// Resolves a forwarded account, given what was read from its record.
pub fn resolve_forwarded_record(
    pair: AccountWithCompanion,
    parsed: Option<(DelegationRecord, Option<Vec<Instruction>>)>,
    acquired: bool,
    is_internal: bool,
    derived_eata: Option<Pubkey>,
    eata_program: &Pubkey,
    validator_pubkey: &Pubkey,
) -> (r: ForwardedResolution)
    ensures
        resolves_forwarded(
            pair,
            parsed,
            acquired,
            is_internal,
            derived_eata,
            *eata_program,
            *validator_pubkey,
            r,
        ),
{
    let mut releases: Vec<SubscriptionRelease> = Vec::new();
    releases.push(
        SubscriptionRelease {
            pubkey: pair.companion_pubkey,
            reason: SubscriptionReason::DirectAccount,
        },
    );
    if acquired {
        releases.push(
            SubscriptionRelease {
                pubkey: pair.companion_pubkey,
                reason: SubscriptionReason::DelegationRecord,
            },
        );
    }
    assert(releases@ =~= forwarded_releases(pair.companion_pubkey, acquired));
    let mut account = pair.account;
    if pair.companion_account.is_some() {
        match parsed {
            Some((record, actions)) => {
                let is_raw_eata = parse_raw_eata_pda(
                    &pair.pubkey,
                    account.data.as_slice(),
                    &record.owner,
                    eata_program,
                    derived_eata,
                ).is_some();
                apply_delegation_record_to_account(
                    validator_pubkey,
                    is_raw_eata,
                    &mut account,
                    &record,
                );
                let subscribe_owner = if account.is(AccountMode::Delegated)
                    && !program_subscription_is_too_broad(&record.owner) {
                    Some(record.owner)
                } else {
                    None
                };
                ForwardedResolution {
                    account: Some(account),
                    record: Some(record),
                    actions,
                    subscribe_owner,
                    request: None,
                    releases,
                }
            },
            None => ForwardedResolution {
                account: None,
                record: None,
                actions: None,
                subscribe_owner: None,
                request: None,
                releases,
            },
        }
    } else {
        let request = match read_undelegation_request(account.data.as_slice()) {
            Some(request) => Some(
                ObservedUndelegationRequest {
                    request_pda: pair.pubkey,
                    delegated_account: request.delegated_account,
                    expires_at_slot: request.expires_at_slot,
                    observed_slot: account.slot,
                },
            ),
            None => None,
        };
        let cloned = if request.is_some() || is_internal {
            Some(account)
        } else {
            None
        };
        ForwardedResolution {
            account: cloned,
            record: None,
            actions: None,
            subscribe_owner: None,
            request,
            releases,
        }
    }
}

/// Whether `parsed` is what reading the companion as a delegation record may give.
pub open spec fn may_parse(
    pair: AccountWithCompanion,
    validator: Pubkey,
    secret: Seq<u8>,
    parsed: Option<(DelegationRecord, Option<Vec<Instruction>>)>,
) -> bool {
    match pair.companion_account {
        None => parsed is None,
        Some(companion) => match parsed {
            Some(read) => record_parse(
                companion.data@,
                pair.companion_pubkey,
                validator,
                secret,
                Ok(read),
            ),
            None => exists|error: ChainlinkError| #[trigger]
                record_parse(
                    companion.data@,
                    pair.companion_pubkey,
                    validator,
                    secret,
                    Err(error),
                ),
        },
    }
}

/// Resolves a forwarded account of the delegation program that was fetched with its record.
pub fn resolve_account_to_clone_from_forwarded_sub(
    pair: AccountWithCompanion,
    acquired: bool,
    is_internal: bool,
    derived_eata: Option<Pubkey>,
    eata_program: &Pubkey,
    validator_pubkey: &Pubkey,
    secret: &[u8; 32],
) -> (r: ForwardedResolution)
    ensures
        exists|parsed: Option<(DelegationRecord, Option<Vec<Instruction>>)>|
            {
                &&& #[trigger] may_parse(pair, *validator_pubkey, secret@, parsed)
                &&& resolves_forwarded(
                    pair,
                    parsed,
                    acquired,
                    is_internal,
                    derived_eata,
                    *eata_program,
                    *validator_pubkey,
                    r,
                )
            },
{
    let parsed = match &pair.companion_account {
        None => None,
        Some(companion) => {
            let read = parse_delegation_record(
                companion.data.as_slice(),
                pair.companion_pubkey,
                validator_pubkey,
                secret,
            );
            match read {
                Ok(parsed) => Some(parsed),
                Err(error) => {
                    assert(record_parse(
                        companion.data@,
                        pair.companion_pubkey,
                        *validator_pubkey,
                        secret@,
                        Err(error),
                    ));
                    None
                },
            }
        },
    };
    assert(may_parse(pair, *validator_pubkey, secret@, parsed));
    resolve_forwarded_record(
        pair,
        parsed,
        acquired,
        is_internal,
        derived_eata,
        eata_program,
        validator_pubkey,
    )
}

/// The slot of an update that may be of a delegated account which is not known here yet.
pub fn greedy_candidate(in_bank: bool, account: &RemoteAccount) -> (r: Option<u64>)
    ensures
        r == match *account {
            RemoteAccount::Found(ResolvedAccount::Fresh(fresh)) => if !in_bank && fresh.owner.bytes
                == crate::program_ids::DLP_PROGRAM_ID {
                Some(fresh.slot)
            } else {
                None
            },
            _ => None,
        },
{
    match account {
        RemoteAccount::Found(ResolvedAccount::Fresh(fresh)) => if !in_bank
            && fresh.is_owned_by_dlp() {
            Some(fresh.slot)
        } else {
            None
        },
        _ => None,
    }
}

/// How the discovery of a delegated account goes on.
#[derive(Debug)]
pub enum GreedyPlan {
    /// There is no record: the update is processed as any other.
    FallBack,
    /// The account is delegated elsewhere, so the update is done with.
    DelegatedElsewhere,
    /// These are cloned. With the token accounts of a wallet that the account holds tokens
    /// for, all are cloned as one batch.
    Clone { pubkeys: Vec<Pubkey>, as_batch: bool },
}

/// Picks what the bank does not have.
pub open spec fn pick_not_in_bank(in_bank: Seq<Pubkey>) -> spec_fn(Pubkey) -> Option<Pubkey> {
    |pubkey: Pubkey|
        if in_bank.contains(pubkey) {
            None
        } else {
            Some(pubkey)
        }
}

/// Tells how the discovery of a delegated account goes on. `atas` are the token accounts that
/// could show its balance, and `in_bank` those of them that the bank has.
pub fn plan_greedy_clone(
    pubkey: Pubkey,
    record: &Option<DelegationRecord>,
    atas: &Vec<Pubkey>,
    in_bank: &Vec<Pubkey>,
    validator_pubkey: &Pubkey,
) -> (r: GreedyPlan)
    ensures
        match *record {
            None => r is FallBack,
            Some(found) => if delegated_to_validator_or_confined(
                found.authority,
                *validator_pubkey,
            ) {
                &&& r matches GreedyPlan::Clone { pubkeys, as_batch }
                &&& pubkeys@ == seq![pubkey] + picked(atas@, pick_not_in_bank(in_bank@))
                &&& as_batch == (atas@.len() > 0)
            } else {
                r is DelegatedElsewhere
            },
        },
{
    let found = match record {
        None => {
            return GreedyPlan::FallBack;
        },
        Some(found) => found,
    };
    if !is_delegated_to_validator_or_confined(&found.authority, validator_pubkey) {
        return GreedyPlan::DelegatedElsewhere;
    }
    let mut pubkeys: Vec<Pubkey> = Vec::new();
    pubkeys.push(pubkey);
    let mut i: usize = 0;
    assert(pubkeys@ =~= seq![pubkey] + picked(atas@.take(0), pick_not_in_bank(in_bank@)));
    while i < atas.len()
        invariant
            i <= atas.len(),
            pubkeys@ == seq![pubkey] + picked(atas@.take(i as int), pick_not_in_bank(in_bank@)),
        decreases atas.len() - i,
    {
        proof {
            lemma_picked_step(atas@, i as int, pick_not_in_bank(in_bank@));
        }
        if !contains_key(in_bank, &atas[i]) {
            pubkeys.push(atas[i]);
        }
        i = i + 1;
        assert(pubkeys@ =~= seq![pubkey] + picked(
            atas@.take(i as int),
            pick_not_in_bank(in_bank@),
        ));
    }
    assert(atas@.take(atas@.len() as int) =~= atas@);
    GreedyPlan::Clone { pubkeys, as_batch: atas.len() > 0 }
}

/// Whether a discovered account was cloned from the update's slot or a later one.
pub fn greedy_clone_is_fresh(
    pubkey: &Pubkey,
    result: &Result<FetchAndCloneResult, ChainlinkError>,
    bank_slot: Option<u64>,
    update_slot: u64,
) -> (r: bool)
    ensures
        r == (*result matches Ok(result) && !is_missing(result, *pubkey) && (bank_slot matches Some(
            slot,
        ) && slot >= update_slot)),
{
    match result {
        Err(_) => false,
        Ok(result) => {
            if misses(result, pubkey) {
                return false;
            }
            match bank_slot {
                Some(slot) => slot >= update_slot,
                None => false,
            }
        },
    }
}

/// Whether the update of a discovered account is done with: it was cloned, and so was the token
/// account that shows its balance if there is one (`projected`).
pub fn greedy_clone_handled(is_fresh: bool, projected: Option<bool>) -> (r: bool)
    ensures
        r == (is_fresh && projected != Some(false)),
{
    is_fresh && match projected {
        Some(cloned) => cloned,
        None => true,
    }
}

/// Whether a token account that shows a balance is cloned: not while it is undelegating, and
/// not for an update if the bank does not have it.
pub fn clones_projected_ata(local: Option<AccountMode>, is_update: bool) -> (r: bool)
    ensures
        r == match local {
            Some(mode) => mode != AccountMode::Transient,
            None => !is_update,
        },
{
    match local {
        Some(mode) => mode != AccountMode::Transient,
        None => !is_update,
    }
}

/// Picks the address of a dependency.
pub open spec fn pick_dependency() -> spec_fn((Pubkey, bool)) -> Option<Pubkey> {
    |dependency: (Pubkey, bool)| Some(dependency.0)
}

/// Picks the address of a dependency that is written to.
pub open spec fn pick_writable() -> spec_fn((Pubkey, bool)) -> Option<Pubkey> {
    |dependency: (Pubkey, bool)|
        if dependency.1 {
            Some(dependency.0)
        } else {
            None
        }
}

/// The accounts and programs that actions need besides their target, and which of them they
/// write to, each once.
pub fn collect_post_delegation_action_dependencies(
    target: Pubkey,
    delegation_actions: &DelegationActions,
) -> (r: (Vec<Pubkey>, Vec<Pubkey>))
    ensures
        r.0@ == distinct_keys(
            picked(
                action_dependencies(delegation_actions.instructions(), target),
                pick_dependency(),
            ),
        ),
        r.1@ == distinct_keys(
            picked(
                action_dependencies(delegation_actions.instructions(), target),
                pick_writable(),
            ),
        ),
{
    let named = delegation_actions.dependencies(target);
    let mut dependencies: Vec<Pubkey> = Vec::new();
    let mut writable: Vec<Pubkey> = Vec::new();
    let mut i: usize = 0;
    while i < named.len()
        invariant
            i <= named.len(),
            dependencies@ == distinct_keys(picked(named@.take(i as int), pick_dependency())),
            writable@ == distinct_keys(picked(named@.take(i as int), pick_writable())),
        decreases named.len() - i,
    {
        let ghost short = picked(named@.take(i as int), pick_dependency());
        let ghost short_writable = picked(named@.take(i as int), pick_writable());
        proof {
            lemma_picked_step(named@, i as int, pick_dependency());
            lemma_picked_step(named@, i as int, pick_writable());
            assert(short.push(named@[i as int].0).drop_last() =~= short);
            assert(short_writable.push(named@[i as int].0).drop_last() =~= short_writable);
        }
        insert_key(&mut dependencies, named[i].0);
        if named[i].1 {
            insert_key(&mut writable, named[i].0);
        }
        i = i + 1;
    }
    assert(named@.take(named@.len() as int) =~= named@);
    (dependencies, writable)
}

/// A dependency, with its slot and mode in the bank if it is there.
#[derive(Clone, Copy, Debug)]
pub struct ActionDependency {
    pub pubkey: Pubkey,
    pub local: Option<(u64, AccountMode)>,
}

/// Whether a dependency has to be fetched.
pub open spec fn dependency_fetched(
    dependency: ActionDependency,
    writable: Seq<Pubkey>,
    remote_slot: u64,
) -> bool {
    match dependency.local {
        None => !writable.contains(dependency.pubkey),
        Some((slot, mode)) => writable.contains(dependency.pubkey) && slot < remote_slot && mode
            != AccountMode::Delegated,
    }
}

/// Picks the dependencies that have to be fetched.
pub open spec fn pick_fetched_dependency(writable: Seq<Pubkey>, remote_slot: u64) -> spec_fn(
    ActionDependency,
) -> Option<Pubkey> {
    |dependency: ActionDependency|
        if dependency_fetched(dependency, writable, remote_slot) {
            Some(dependency.pubkey)
        } else {
            None
        }
}

/// The dependencies that have to be fetched before actions run.
pub fn dependencies_to_refresh(
    dependencies: &Vec<ActionDependency>,
    writable: &Vec<Pubkey>,
    remote_slot: u64,
) -> (r: Vec<Pubkey>)
    ensures
        r@ == picked(dependencies@, pick_fetched_dependency(writable@, remote_slot)),
{
    let ghost pick = pick_fetched_dependency(writable@, remote_slot);
    let mut fetched: Vec<Pubkey> = Vec::new();
    let mut i: usize = 0;
    while i < dependencies.len()
        invariant
            i <= dependencies.len(),
            pick == pick_fetched_dependency(writable@, remote_slot),
            fetched@ == picked(dependencies@.take(i as int), pick),
        decreases dependencies.len() - i,
    {
        proof {
            lemma_picked_step(dependencies@, i as int, pick);
        }
        let dependency = dependencies[i];
        if action_dependency_needs_fetch(
            dependency.local,
            remote_slot,
            contains_key(writable, &dependency.pubkey),
        ) {
            fetched.push(dependency.pubkey);
        }
        i = i + 1;
    }
    assert(dependencies@.take(dependencies@.len() as int) =~= dependencies@);
    fetched
}

/// Whether actions may run after their dependencies were fetched: not if one of these is
/// delegated and has no record. The error names those in order, each once.
pub fn check_dependencies(result: &FetchAndCloneResult) -> (r: Result<(), ChainlinkError>)
    ensures
        match r {
            Ok(_) => result.missing_delegation_record@.len() == 0,
            Err(error) => {
                &&& result.missing_delegation_record@.len() > 0
                &&& error matches ChainlinkError::MissingDelegationActionAccounts(missing)
                &&& addresses_sorted(missing@)
                &&& forall|pubkey: Pubkey| #[trigger]
                    missing@.contains(pubkey) <==> keys_of(
                        result.missing_delegation_record@,
                    ).contains(pubkey)
            },
        },
{
    if result.missing_delegation_record.len() == 0 {
        return Ok(());
    }
    let missing = result.pubkeys_missing_delegation_record();
    Err(ChainlinkError::MissingDelegationActionAccounts(sort_addresses(&missing)))
}

/// Whether a text is the address of an account that has to sign one of the instructions.
pub open spec fn is_signer_text(actions: Seq<Instruction>, text: Seq<char>) -> bool {
    exists|i: int, k: int|
        {
            &&& 0 <= i < actions.len()
            &&& 0 <= k < actions[i].accounts@.len()
            &&& (#[trigger] actions[i].accounts@[k]).is_signer
            &&& address_text(actions[i].accounts@[k].pubkey@) == text
        }
}

fn insert_signers(signers: &mut Vec<String>, instruction: &Instruction)
    requires
        texts_sorted(old(signers)@),
    ensures
        texts_sorted(final(signers)@),
        forall|text: Seq<char>| #[trigger]
            has_text(final(signers)@, text) <==> has_text(old(signers)@, text) || exists|k: int|
                0 <= k < instruction.accounts@.len() && (
                #[trigger] instruction.accounts@[k]).is_signer && address_text(
                    instruction.accounts@[k].pubkey@,
                ) == text,
{
    let ghost start = signers@;
    let mut k: usize = 0;
    while k < instruction.accounts.len()
        invariant
            k <= instruction.accounts.len(),
            texts_sorted(signers@),
            forall|text: Seq<char>| #[trigger]
                has_text(signers@, text) <==> has_text(start, text) || exists|m: int|
                    0 <= m < k && (#[trigger] instruction.accounts@[m]).is_signer && address_text(
                        instruction.accounts@[m].pubkey@,
                    ) == text,
        decreases instruction.accounts.len() - k,
    {
        let ghost before = signers@;
        if instruction.accounts[k].is_signer {
            insert_text(signers, address_to_text(&instruction.accounts[k].pubkey));
        }
        proof {
            assert forall|text: Seq<char>| #[trigger] has_text(signers@, text) <==> has_text(
                start,
                text,
            ) || exists|m: int|
                0 <= m < k + 1 && (#[trigger] instruction.accounts@[m]).is_signer && address_text(
                    instruction.accounts@[m].pubkey@,
                ) == text by {
                assert(has_text(before, text) == has_text(before, text));
                let meta = instruction.accounts@[k as int];
            }
        }
        k = k + 1;
    }
}

/// The addresses of the accounts that have to sign the actions, in order, each once.
pub fn action_signers(actions: &Vec<Instruction>) -> (r: Vec<String>)
    ensures
        texts_sorted(r@),
        forall|text: Seq<char>| #[trigger]
            has_text(r@, text) <==> is_signer_text(actions@, text),
{
    let mut signers: Vec<String> = Vec::new();
    let mut i: usize = 0;
    while i < actions.len()
        invariant
            i <= actions.len(),
            texts_sorted(signers@),
            forall|text: Seq<char>| #[trigger]
                has_text(signers@, text) <==> is_signer_text(actions@.take(i as int), text),
        decreases actions.len() - i,
    {
        let ghost before = signers@;
        let ghost short = actions@.take(i as int);
        let ghost long = actions@.take(i + 1);
        insert_signers(&mut signers, &actions[i]);
        proof {
            assert forall|text: Seq<char>| #[trigger] has_text(signers@, text) <==> is_signer_text(
                long,
                text,
            ) by {
                assert(has_text(before, text) <==> is_signer_text(short, text));
                if is_signer_text(short, text) {
                    let (a, k) = choose|a: int, k: int|
                        {
                            &&& 0 <= a < short.len()
                            &&& 0 <= k < short[a].accounts@.len()
                            &&& (#[trigger] short[a].accounts@[k]).is_signer
                            &&& address_text(short[a].accounts@[k].pubkey@) == text
                        };
                    assert(long[a].accounts@[k].is_signer);
                }
                if is_signer_text(long, text) {
                    let (a, k) = choose|a: int, k: int|
                        {
                            &&& 0 <= a < long.len()
                            &&& 0 <= k < long[a].accounts@.len()
                            &&& (#[trigger] long[a].accounts@[k]).is_signer
                            &&& address_text(long[a].accounts@[k].pubkey@) == text
                        };
                    if a < i {
                        assert(short[a].accounts@[k].is_signer);
                    } else {
                        assert(actions@[i as int].accounts@[k].is_signer);
                    }
                }
                if exists|k: int|
                    0 <= k < actions@[i as int].accounts@.len() && (
                    #[trigger] actions@[i as int].accounts@[k]).is_signer && address_text(
                        actions@[i as int].accounts@[k].pubkey@,
                    ) == text {
                    let k = choose|k: int|
                        0 <= k < actions@[i as int].accounts@.len() && (
                        #[trigger] actions@[i as int].accounts@[k]).is_signer && address_text(
                            actions@[i as int].accounts@[k].pubkey@,
                        ) == text;
                    assert(long[i as int].accounts@[k].is_signer);
                }
            }
        }
        i = i + 1;
    }
    assert(actions@.take(actions@.len() as int) =~= actions@);
    signers
}

} // verus!
