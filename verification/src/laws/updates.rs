//! What holds of updates from subscriptions.
use vstd::prelude::*;
use crate::account::{
    Account, AccountMode, RemoteAccount, ResolvedAccount, SubscriptionReason, SubscriptionSource,
};
use crate::chainlink::account_still_undelegating_on_chain::account_still_undelegating_on_chain;
use crate::chainlink::errors::ChainlinkError;
use crate::chainlink::fetch_cloner::rules::DlpProgramUpdateInterest;
use crate::chainlink::fetch_cloner::subscription::SubscriptionRelease;
use crate::chainlink::fetch_cloner::types::{AccountWithCompanion, FetchAndCloneResult};
use crate::chainlink::fetch_cloner::updates::{
    check_dependencies, check_watched, clones_projected_ata, dependencies_to_refresh,
    forwarded_fetch_failed, greedy_candidate, greedy_clone_handled, greedy_clone_is_fresh,
    is_non_advancing, pick_fetched_dependency, pick_not_in_bank, plan_greedy_clone, plan_update,
    resolve_forwarded_record, route_update, ActionDependency, ForwardedResolution, GreedyPlan,
    UpdatePlan, UpdateRoute, UpdateTarget, WatchCheck,
};
use crate::cloner::Instruction;
use crate::delegation_record::DelegationRecord;
use crate::laws::delegation::{is_marked, is_nobody, lemma_marked, lemma_nobody};
use crate::lists::{lemma_picked_contains, picked};
use crate::program_ids::{
    ASSOCIATED_TOKEN_PROGRAM_ID, DLP_PROGRAM_ID, TOKEN_2022_PROGRAM_ID, TOKEN_PROGRAM_ID,
};
use crate::pubkey::Pubkey;

verus! {

/// News of an account that the rollup neither runs nor takes back, or does not have, are always
/// applied, as they are.
pub proof fn law_news_are_applied(
    pubkey: Pubkey,
    account: Account,
    local: Option<(u64, AccountMode)>,
    record: Option<DelegationRecord>,
    has_projected: bool,
    is_projected_ata: bool,
    eata_program: Pubkey,
    validator: Pubkey,
    r: UpdatePlan,
)
    requires
        call_ensures(
            plan_update,
            (
                pubkey,
                account,
                local,
                &record,
                has_projected,
                is_projected_ata,
                &eata_program,
                &validator,
            ),
            r,
        ),
        local matches Some((slot, mode)) ==> slot < account.slot && mode != AccountMode::Delegated
            && mode != AccountMode::Transient,
    ensures
        r is Apply,
        account.executable ==> (r->Apply_0).target == UpdateTarget::Program(account),
        !account.executable ==> {
            &&& (r->Apply_0).target matches UpdateTarget::Clone(request)
            &&& request.pubkey == pubkey
            &&& request.account == account
        },
{
}

/// So is the news that an account is delegated, even if the bank has the account from the very
/// slot of the news.
pub proof fn law_delegations_are_applied(
    pubkey: Pubkey,
    account: Account,
    local: Option<(u64, AccountMode)>,
    record: Option<DelegationRecord>,
    has_projected: bool,
    is_projected_ata: bool,
    eata_program: Pubkey,
    validator: Pubkey,
    r: UpdatePlan,
)
    requires
        call_ensures(
            plan_update,
            (
                pubkey,
                account,
                local,
                &record,
                has_projected,
                is_projected_ata,
                &eata_program,
                &validator,
            ),
            r,
        ),
        local matches Some((slot, mode)) && slot == account.slot && mode != AccountMode::Delegated
            && mode != AccountMode::Transient,
        account.mode == AccountMode::Delegated,
    ensures
        r is Apply,
{
}

/// Nothing old is applied. What the bank has from a later slot stays; so does what it has from
/// the same slot, unless the account turned out to be delegated. A balance that the account
/// shows elsewhere is brought up to date if the slots are the same.
pub proof fn law_old_news_are_ignored(
    pubkey: Pubkey,
    account: Account,
    local: Option<(u64, AccountMode)>,
    record: Option<DelegationRecord>,
    has_projected: bool,
    is_projected_ata: bool,
    eata_program: Pubkey,
    validator: Pubkey,
    r: UpdatePlan,
)
    requires
        call_ensures(
            plan_update,
            (
                pubkey,
                account,
                local,
                &record,
                has_projected,
                is_projected_ata,
                &eata_program,
                &validator,
            ),
            r,
        ),
        local is Some,
    ensures
        (local->0).0 > account.slot ==> r is Ignore,
        (local->0).0 == account.slot && (account.mode != AccountMode::Delegated || (local->0).1
            == AccountMode::Delegated) ==> (if has_projected {
            r is CloneProjected
        } else {
            r is Ignore
        }),
{
}

/// News of an account that the rollup runs only tell that it need not be watched.
pub proof fn law_delegated_accounts_are_not_overwritten(
    pubkey: Pubkey,
    account: Account,
    local: Option<(u64, AccountMode)>,
    record: Option<DelegationRecord>,
    has_projected: bool,
    is_projected_ata: bool,
    eata_program: Pubkey,
    validator: Pubkey,
    r: UpdatePlan,
)
    requires
        call_ensures(
            plan_update,
            (
                pubkey,
                account,
                local,
                &record,
                has_projected,
                is_projected_ata,
                &eata_program,
                &validator,
            ),
            r,
        ),
        local matches Some((slot, mode)) && mode == AccountMode::Delegated && slot < account.slot,
    ensures
        r is CleanupDirect,
{
}

/// An account on its way back to the chain has arrived once the chain says that it is not
/// delegated, or delegated anew: then it is taken over and, unless delegated, watched again. As
/// long as its old delegation stands it stays as it is.
pub proof fn law_returning_accounts_arrive(
    pubkey: Pubkey,
    account: Account,
    local: Option<(u64, AccountMode)>,
    record: Option<DelegationRecord>,
    has_projected: bool,
    is_projected_ata: bool,
    eata_program: Pubkey,
    validator: Pubkey,
    r: UpdatePlan,
)
    requires
        call_ensures(
            plan_update,
            (
                pubkey,
                account,
                local,
                &record,
                has_projected,
                is_projected_ata,
                &eata_program,
                &validator,
            ),
            r,
        ),
        local matches Some((slot, mode)) && mode == AccountMode::Transient && slot < account.slot,
    ensures
        account.mode != AccountMode::Delegated ==> {
            &&& r matches UpdatePlan::Apply(effects)
            &&& effects.ensure_direct
            &&& effects.cleanup_undelegation
            &&& !effects.cleanup_direct
        },
        account.mode == AccountMode::Delegated && !is_projected_ata ==> match record {
            None => r is Ignore,
            Some(record) => if record.delegation_slot <= (local->0).0 {
                r is Ignore
            } else {
                r is Apply
            },
        },
        account.mode == AccountMode::Delegated && is_projected_ata && (record matches Some(record)
            && record.owner == eata_program && record.authority == validator) ==> r is Ignore,
        account.mode == AccountMode::Delegated && is_projected_ata && (record matches Some(record)
            && record.delegation_slot > (local->0).0 && (record.owner != eata_program
            || record.authority != validator)) ==> r is Apply,
{
}

/// What is applied is watched exactly if the rollup does not run it: the subscription is given
/// up for an account that it runs, and made sure of for one that came back. The tracking of an
/// undelegation ends with the undelegation, and with a new delegation.
pub proof fn law_applied_news_settle_the_watch(
    pubkey: Pubkey,
    account: Account,
    local: Option<(u64, AccountMode)>,
    record: Option<DelegationRecord>,
    has_projected: bool,
    is_projected_ata: bool,
    eata_program: Pubkey,
    validator: Pubkey,
    r: UpdatePlan,
)
    requires
        call_ensures(
            plan_update,
            (
                pubkey,
                account,
                local,
                &record,
                has_projected,
                is_projected_ata,
                &eata_program,
                &validator,
            ),
            r,
        ),
        r is Apply,
    ensures
        (r->Apply_0).cleanup_direct <==> account.mode == AccountMode::Delegated,
        (r->Apply_0).ensure_direct <==> account.mode != AccountMode::Delegated && (
        local matches Some((_, mode)) && mode == AccountMode::Transient),
        (r->Apply_0).cleanup_undelegation <==> account.mode == AccountMode::Delegated || (
        local matches Some((_, mode)) && mode == AccountMode::Transient),
{
}

/// A request for news is for a plain clone. It says how often to commit exactly if the record
/// names this very validator, and names the other validator if the record does.
pub proof fn law_requests_for_news_follow_the_record(
    pubkey: Pubkey,
    account: Account,
    local: Option<(u64, AccountMode)>,
    record: Option<DelegationRecord>,
    has_projected: bool,
    is_projected_ata: bool,
    eata_program: Pubkey,
    validator: Pubkey,
    r: UpdatePlan,
)
    requires
        call_ensures(
            plan_update,
            (
                pubkey,
                account,
                local,
                &record,
                has_projected,
                is_projected_ata,
                &eata_program,
                &validator,
            ),
            r,
        ),
        r matches UpdatePlan::Apply(effects) && effects.target is Clone,
    ensures
        ({
            let request = (r->Apply_0).target->Clone_0;
            &&& request.post_delegation_mode is Plain
            &&& request.source_slots is None
            &&& match record {
                None => request.commit_frequency_ms is None && request.delegated_to_other is None,
                Some(record) => {
                    &&& record.authority == validator ==> request.commit_frequency_ms == Some(
                        record.commit_frequency_ms,
                    ) && request.delegated_to_other is None
                    &&& record.authority != validator ==> request.commit_frequency_ms is None
                    &&& record.authority != validator && !is_nobody(record.authority)
                        ==> request.delegated_to_other == Some(record.authority)
                    &&& is_nobody(record.authority) ==> request.delegated_to_other is None
                },
            }
        }),
{
    if record is Some {
        lemma_nobody((record->0).authority);
    }
}

/// An update advances the bank exactly if it is from a later slot, or from the same slot and
/// tells of a delegation that the bank does not have; and always if the bank has nothing.
pub proof fn law_updates_advance(local: Option<(u64, AccountMode)>, account: Account, r: bool)
    requires
        call_ensures(is_non_advancing, (local, &account), r),
    ensures
        local is None ==> !r,
        local matches Some((slot, mode)) ==> {
            &&& account.slot > slot ==> !r
            &&& account.slot < slot ==> r
            &&& account.slot == slot ==> (!r <==> account.mode == AccountMode::Delegated && mode
                != AccountMode::Delegated)
        },
{
}

/// An account is still undelegating exactly if the delegation that it has here is not newer
/// than what the bank holds. One that is not delegated here is not.
pub proof fn law_new_delegations_end_undelegations(
    is_delegated: bool,
    slot: u64,
    record: Option<DelegationRecord>,
    r: bool,
)
    requires
        call_ensures(account_still_undelegating_on_chain, (is_delegated, slot, &record), r),
    ensures
        !is_delegated ==> !r,
        is_delegated && record is None ==> r,
        is_delegated ==> (record matches Some(record) ==> (!r <==> record.delegation_slot > slot)),
{
}

/// No update is dropped but that of an account which the rollup runs; nothing is taken for a
/// collision but an account of the delegation program that looks internal and was heard of
/// through the program.
pub proof fn law_updates_are_routed(
    source: SubscriptionSource,
    is_dlp_owned: bool,
    is_internal: bool,
    interest: Option<DlpProgramUpdateInterest>,
    r: UpdateRoute,
)
    requires
        call_ensures(route_update, (source, is_dlp_owned, is_internal, interest), r),
    ensures
        r == UpdateRoute::DropAuthoritative <==> interest == Some(
            DlpProgramUpdateInterest::DropLocalDelegatedAuthoritative,
        ),
        r == UpdateRoute::ResolveCollision ==> is_dlp_owned && is_internal && source
            == SubscriptionSource::Program,
        is_dlp_owned && is_internal && source == SubscriptionSource::Program && interest is None
            ==> r == UpdateRoute::ResolveCollision,
        interest == Some(DlpProgramUpdateInterest::ProcessUndelegating) || interest == Some(
            DlpProgramUpdateInterest::ProcessAtaProjection,
        ) ==> r == UpdateRoute::Process,
        source == SubscriptionSource::Account && interest is None ==> r == UpdateRoute::Process,
        !is_dlp_owned && interest is None ==> r == UpdateRoute::Process,
        !is_internal && interest is None ==> r == UpdateRoute::Process,
{
}

/// An update of an account that is watched goes on, and so does one that came through a
/// program. Any other is dropped, and the account leaves the bank if it is there.
pub proof fn law_watched_updates_go_on(
    source: SubscriptionSource,
    is_watching: bool,
    in_bank: bool,
    r: WatchCheck,
)
    requires
        call_ensures(check_watched, (source, is_watching, in_bank), r),
    ensures
        is_watching ==> r == WatchCheck::Proceed,
        source == SubscriptionSource::Program ==> r == WatchCheck::Proceed,
        source == SubscriptionSource::Account && !is_watching && in_bank ==> r
            == WatchCheck::DropAndRemove,
        source == SubscriptionSource::Account && !is_watching && !in_bank ==> r
            == WatchCheck::Drop,
{
}

/// A forwarded account with a record becomes what applying the record makes of it; its state on
/// chain is kept, whether or not it holds tokens for the rollup.
pub proof fn law_forwarded_accounts_follow_their_record(
    pair: AccountWithCompanion,
    record: DelegationRecord,
    actions: Option<Vec<Instruction>>,
    acquired: bool,
    is_internal: bool,
    derived_eata: Option<Pubkey>,
    eata_program: Pubkey,
    validator: Pubkey,
    r: ForwardedResolution,
)
    requires
        call_ensures(
            resolve_forwarded_record,
            (
                pair,
                Some((record, actions)),
                acquired,
                is_internal,
                derived_eata,
                &eata_program,
                &validator,
            ),
            r,
        ),
        pair.companion_account is Some,
    ensures
        r.record == Some(record),
        r.actions == actions,
        r.request is None,
        r.account matches Some(account) && {
            &&& account.lamports == pair.account.lamports
            &&& account.data == pair.account.data
            &&& account.executable == pair.account.executable
            &&& account.slot == pair.account.slot
            &&& account.compressed == pair.account.compressed
            &&& account.owner == record.owner
            &&& account.confined <==> is_nobody(record.authority)
            &&& account.mode == AccountMode::Delegated <==> (record.authority == validator
                || is_nobody(record.authority)) && !(record.owner == eata_program
                && pair.account.data@.len() >= 72 && derived_eata == Some(pair.pubkey))
            &&& r.subscribe_owner is Some <==> account.mode == AccountMode::Delegated
                && record.owner.bytes != TOKEN_PROGRAM_ID && record.owner.bytes
                != TOKEN_2022_PROGRAM_ID && record.owner.bytes != ASSOCIATED_TOKEN_PROGRAM_ID
            &&& r.subscribe_owner is Some ==> r.subscribe_owner == Some(record.owner)
        },
{
    lemma_nobody(record.authority);
}

/// A forwarded account whose record cannot be read is not cloned; one without a record is
/// cloned as it is if it is internal or asks for an undelegation, which is then told.
pub proof fn law_forwarded_accounts_without_record(
    pair: AccountWithCompanion,
    acquired: bool,
    is_internal: bool,
    derived_eata: Option<Pubkey>,
    eata_program: Pubkey,
    validator: Pubkey,
    r: ForwardedResolution,
)
    requires
        call_ensures(
            resolve_forwarded_record,
            (
                pair,
                None::<(DelegationRecord, Option<Vec<Instruction>>)>,
                acquired,
                is_internal,
                derived_eata,
                &eata_program,
                &validator,
            ),
            r,
        ),
    ensures
        r.record is None && r.actions is None && r.subscribe_owner is None,
        pair.companion_account is Some ==> r.account is None && r.request is None,
        pair.companion_account is None ==> {
            let asks = pair.account.data@.len() >= 48 && is_marked(pair.account.data@, 104);
            &&& r.account == if asks || is_internal {
                Some(pair.account)
            } else {
                None
            }
            &&& r.request is Some <==> asks
            &&& r.request matches Some(request) ==> {
                &&& request.request_pda == pair.pubkey
                &&& request.delegated_account@ == pair.account.data@.subrange(8, 40)
                &&& request.observed_slot == pair.account.slot
            }
        },
{
    lemma_marked(pair.account.data@, 104);
}

/// What was subscribed to for a forwarded account is given back: the record, once for the fetch
/// and once more if it was subscribed to as a record.
pub proof fn law_forwarded_accounts_give_back(
    pair: AccountWithCompanion,
    parsed: Option<(DelegationRecord, Option<Vec<Instruction>>)>,
    acquired: bool,
    is_internal: bool,
    derived_eata: Option<Pubkey>,
    eata_program: Pubkey,
    validator: Pubkey,
    r: ForwardedResolution,
    failed: Vec<SubscriptionRelease>,
)
    requires
        call_ensures(
            resolve_forwarded_record,
            (pair, parsed, acquired, is_internal, derived_eata, &eata_program, &validator),
            r,
        ),
        call_ensures(forwarded_fetch_failed, (pair.companion_pubkey, acquired), failed),
    ensures
        r.releases@.len() == if acquired {
            2nat
        } else {
            1
        },
        failed@.len() == if acquired {
            1nat
        } else {
            0
        },
        r.releases@[0] == (SubscriptionRelease {
            pubkey: pair.companion_pubkey,
            reason: SubscriptionReason::DirectAccount,
        }),
        acquired ==> r.releases@[1] == failed@[0] && failed@[0] == (SubscriptionRelease {
            pubkey: pair.companion_pubkey,
            reason: SubscriptionReason::DelegationRecord,
        }),
{
}

/// An account may be discovered exactly if the bank does not have it and the delegation program
/// owns it.
pub proof fn law_unknown_delegated_accounts_are_discovered(
    in_bank: bool,
    account: Account,
    r: Option<u64>,
    missing: Option<u64>,
    slot: u64,
)
    requires
        call_ensures(
            greedy_candidate,
            (in_bank, &RemoteAccount::Found(ResolvedAccount::Fresh(account))),
            r,
        ),
        call_ensures(greedy_candidate, (in_bank, &RemoteAccount::NotFound(slot)), missing),
    ensures
        r is Some <==> !in_bank && account.owner.bytes == DLP_PROGRAM_ID,
        r is Some ==> r == Some(account.slot),
        missing is None,
{
}

/// A discovered account that is delegated here is cloned, before the token accounts of its
/// wallet that the bank does not have; one that is delegated elsewhere is not, and one without
/// a record is looked at further.
pub proof fn law_discovered_accounts_are_cloned(
    pubkey: Pubkey,
    record: Option<DelegationRecord>,
    atas: Vec<Pubkey>,
    in_bank: Vec<Pubkey>,
    validator: Pubkey,
    r: GreedyPlan,
    ata: Pubkey,
)
    requires
        call_ensures(plan_greedy_clone, (pubkey, &record, &atas, &in_bank, &validator), r),
    ensures
        record is None ==> r is FallBack,
        record matches Some(record) ==> {
            let here = record.authority == validator || is_nobody(record.authority);
            &&& !here ==> r is DelegatedElsewhere
            &&& here ==> r is Clone
        },
        r matches GreedyPlan::Clone { pubkeys, as_batch } ==> {
            &&& pubkeys@.len() > 0
            &&& pubkeys@[0] == pubkey
            &&& as_batch <==> atas@.len() > 0
            &&& pubkeys@.skip(1).contains(ata) <==> atas@.contains(ata) && !in_bank@.contains(ata)
        },
{
    if record is Some {
        lemma_nobody((record->0).authority);
    }
    if r is Clone {
        let pubkeys = r->pubkeys@;
        let more = picked(atas@, pick_not_in_bank(in_bank@));
        assert(pubkeys.skip(1) =~= more);
        lemma_picked_contains(atas@, pick_not_in_bank(in_bank@), ata);
        if atas@.contains(ata) && !in_bank@.contains(ata) {
            let i = choose|i: int| 0 <= i < atas@.len() && atas@[i] == ata;
            assert(pick_not_in_bank(in_bank@)(atas@[i]) == Some(ata));
        }
        if more.contains(ata) {
            let i = choose|i: int|
                0 <= i < atas@.len() && pick_not_in_bank(in_bank@)(#[trigger] atas@[i]) == Some(
                    ata,
                );
            assert(atas@[i] == ata);
        }
    }
}

/// An account was discovered only if it was found, and the bank has it from the slot of the
/// update or a later one.
pub proof fn law_discoveries_are_fresh(
    pubkey: Pubkey,
    result: FetchAndCloneResult,
    error: ChainlinkError,
    bank_slot: Option<u64>,
    update_slot: u64,
    r: bool,
    failed: bool,
)
    requires
        call_ensures(greedy_clone_is_fresh, (&pubkey, &Ok(result), bank_slot, update_slot), r),
        call_ensures(greedy_clone_is_fresh, (&pubkey, &Err(error), bank_slot, update_slot), failed),
    ensures
        !failed,
        r ==> (bank_slot matches Some(slot) && slot >= update_slot),
        (exists|i: int|
            0 <= i < result.not_found_on_chain@.len() && (
            #[trigger] result.not_found_on_chain@[i]).0 == pubkey) ==> !r,
        (exists|i: int|
            0 <= i < result.missing_delegation_record@.len() && (
            #[trigger] result.missing_delegation_record@[i]).0 == pubkey) ==> !r,
        result.not_found_on_chain@.len() == 0 && result.missing_delegation_record@.len() == 0 && (
        bank_slot matches Some(slot) && slot >= update_slot) ==> r,
{
    if exists|i: int|
        0 <= i < result.not_found_on_chain@.len() && (#[trigger] result.not_found_on_chain@[i]).0
            == pubkey {
        let i = choose|i: int|
            0 <= i < result.not_found_on_chain@.len() && (
            #[trigger] result.not_found_on_chain@[i]).0 == pubkey;
        assert(crate::chainlink::fetch_cloner::types::keys_of(result.not_found_on_chain@)[i]
            == pubkey);
    }
    if exists|i: int|
        0 <= i < result.missing_delegation_record@.len() && (
        #[trigger] result.missing_delegation_record@[i]).0 == pubkey {
        let i = choose|i: int|
            0 <= i < result.missing_delegation_record@.len() && (
            #[trigger] result.missing_delegation_record@[i]).0 == pubkey;
        assert(crate::chainlink::fetch_cloner::types::keys_of(
            result.missing_delegation_record@,
        )[i] == pubkey);
    }
}

/// An update is done with once its account is fresh and the balance that it shows, if there is
/// one, was cloned too.
pub proof fn law_discoveries_are_done_with(is_fresh: bool, projected: Option<bool>, r: bool)
    requires
        call_ensures(greedy_clone_handled, (is_fresh, projected), r),
    ensures
        !is_fresh ==> !r,
        projected == Some(false) ==> !r,
        is_fresh && projected is None ==> r,
        is_fresh && projected == Some(true) ==> r,
{
}

/// A token account that is on its way back is never overwritten by a balance; one that the bank
/// does not have is made, but not for a mere update.
pub proof fn law_balances_spare_returning_accounts(
    local: Option<AccountMode>,
    is_update: bool,
    r: bool,
)
    requires
        call_ensures(clones_projected_ata, (local, is_update), r),
    ensures
        local == Some(AccountMode::Transient) ==> !r,
        local is Some && local != Some(AccountMode::Transient) ==> r,
        local is None ==> (r <==> !is_update),
{
}

/// Before actions run, an account that they only read is fetched if the bank does not have it,
/// and one that they write to if the bank has it from before the slot of the actions and does
/// not run it. No other account is.
pub proof fn law_dependencies_are_refreshed(
    dependencies: Vec<ActionDependency>,
    writable: Vec<Pubkey>,
    remote_slot: u64,
    i: int,
    r: Vec<Pubkey>,
)
    requires
        call_ensures(dependencies_to_refresh, (&dependencies, &writable, remote_slot), r),
        0 <= i < dependencies@.len(),
        forall|j: int|
            0 <= j < dependencies@.len() && j != i ==> (#[trigger] dependencies@[j]).pubkey
                != dependencies@[i].pubkey,
    ensures
        ({
            let dependency = dependencies@[i];
            let writes = writable@.contains(dependency.pubkey);
            r@.contains(dependency.pubkey) <==> {
                ||| dependency.local is None && !writes
                ||| dependency.local matches Some((slot, mode)) && writes && slot < remote_slot
                    && mode != AccountMode::Delegated
            }
        }),
        r@.len() <= dependencies@.len(),
{
    let pick = pick_fetched_dependency(writable@, remote_slot);
    lemma_picked_contains(dependencies@, pick, dependencies@[i].pubkey);
    crate::lists::lemma_picked_len(dependencies@, pick);
    if r@.contains(dependencies@[i].pubkey) {
        let j = choose|j: int|
            0 <= j < dependencies@.len() && pick(#[trigger] dependencies@[j]) == Some(
                dependencies@[i].pubkey,
            );
        assert(dependencies@[j].pubkey == dependencies@[i].pubkey);
        assert(j == i);
    } else {
        assert(pick(dependencies@[i]) != Some(dependencies@[i].pubkey));
    }
}

/// Actions may run exactly if none of the accounts that they need lacks its delegation record.
/// The error names all that do and no other.
pub proof fn law_actions_wait_for_records(
    result: FetchAndCloneResult,
    r: Result<(), ChainlinkError>,
    pubkey: Pubkey,
)
    requires
        call_ensures(check_dependencies, (&result,), r),
    ensures
        r is Ok <==> result.missing_delegation_record@.len() == 0,
        r matches Err(error) ==> {
            &&& error matches ChainlinkError::MissingDelegationActionAccounts(missing)
            &&& missing@.contains(pubkey) <==> exists|i: int|
                0 <= i < result.missing_delegation_record@.len() && (
                #[trigger] result.missing_delegation_record@[i]).0 == pubkey
        },
{
    if r is Err {
        let list = result.missing_delegation_record@;
        let keys = crate::chainlink::fetch_cloner::types::keys_of(list);
        if exists|i: int| 0 <= i < list.len() && (#[trigger] list[i]).0 == pubkey {
            let i = choose|i: int| 0 <= i < list.len() && (#[trigger] list[i]).0 == pubkey;
            assert(keys[i] == pubkey);
            assert(keys.contains(pubkey));
        }
        if keys.contains(pubkey) {
            let i = choose|i: int| 0 <= i < keys.len() && keys[i] == pubkey;
            assert(list[i].0 == pubkey);
        }
        let missing = r->Err_0->MissingDelegationActionAccounts_0@;
        assert(missing.contains(pubkey) <==> keys.contains(pubkey));
    }
}

} // verus!
