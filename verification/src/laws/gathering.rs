//! What holds of what is gathered for cloning, and of what actions need.
use vstd::prelude::*;
use crate::account::{Account, AccountMode, SubscriptionReason};
use crate::chainlink::errors::ChainlinkError;
use crate::chainlink::fetch_cloner::fetching::{pick_absent, CloneGathering};
use crate::chainlink::fetch_cloner::ownership::{claim_undelegation, release_undelegation};
use crate::chainlink::fetch_cloner::pending::clone_pending_request_error;
use crate::chainlink::fetch_cloner::pipeline::{
    clones_account, is_cloned, is_loaded, loads_program, named_by_actions, CloneBatches,
};
use crate::chainlink::fetch_cloner::subscription::SubscriptionRelease;
use crate::chainlink::fetch_cloner::types::{
    AccountWithCompanion, ResolvedDelegatedAccounts, ResolvedPrograms,
};
use crate::chainlink::fetch_cloner::updates::{
    action_signers, collect_post_delegation_action_dependencies, is_signer_text, pick_dependency,
    pick_writable, resolve_account_to_clone_from_forwarded_sub, routed_program_account,
    ForwardedResolution,
};
use crate::cloner::{
    action_dependencies, instruction_addresses, AccountCloneRequest, ClonePostDelegationMode,
    DelegationActions, Instruction, LoadedProgram,
};
use crate::laws::clones::{lemma_dependency, lemma_no_target};
use crate::laws::delegation::{is_marked, lemma_marked};
use crate::laws::fetching::{gives_back, lemma_gives_back, lemma_named_by, lemma_named_by_actions};
use crate::lists::{lemma_picked_contains, picked};
use crate::program_ids::LOADER_V3_ID;
use crate::pubkey::{lemma_distinct_keys, Pubkey};
use crate::sorting::has_text;
use crate::text::address_text;

verus! {

/// What an action names is fetched before anything is cloned, unless the bank has it or it is
/// cloned anyway.
pub proof fn law_absent_dependencies_are_fetched(
    gathering: CloneGathering,
    in_bank: Vec<Pubkey>,
    i: int,
    j: int,
    k: int,
    r: Vec<Pubkey>,
)
    requires
        call_ensures(CloneGathering::dependencies_to_fetch, (&gathering, &in_bank), r),
        0 <= i < gathering.accounts_to_clone@.len(),
        gathering.accounts_to_clone@[i].post_delegation_mode
            matches ClonePostDelegationMode::ExecuteActions(bundle) && 0 <= j
            < bundle.instructions().len(),
    ensures
        ({
            let mode = gathering.accounts_to_clone@[i].post_delegation_mode;
            let instruction = (mode->ExecuteActions_0).instructions()[j];
            let there = |key: Pubkey|
                in_bank@.contains(key) || (exists|n: int|
                    0 <= n < gathering.accounts_to_clone@.len() && (
                    #[trigger] gathering.accounts_to_clone@[n]).pubkey == key) || (exists|n: int|
                    0 <= n < gathering.loaded_programs@.len() && (
                    #[trigger] gathering.loaded_programs@[n]).program_id == key);
            &&& r@.contains(instruction.program_id) <==> !there(instruction.program_id)
            &&& 0 <= k < instruction.accounts@.len() ==> (r@.contains(
                instruction.accounts@[k].pubkey,
            ) <==> !there(instruction.accounts@[k].pubkey))
        }),
{
    let requests = gathering.accounts_to_clone@;
    let programs = gathering.loaded_programs@;
    let list = (requests[i].post_delegation_mode->ExecuteActions_0).instructions();
    let named = crate::pubkey::distinct_keys(named_by_actions(requests));
    let pick = pick_absent(in_bank@, requests, programs);
    lemma_distinct_keys(named_by_actions(requests));
    lemma_named_by(list, j, k);
    lemma_absent(named, pick, in_bank@, requests, programs, list[j].program_id);
    lemma_named_by_actions(requests, i, list[j].program_id);
    if 0 <= k < list[j].accounts@.len() {
        let key = list[j].accounts@[k].pubkey;
        lemma_named_by_actions(requests, i, key);
        lemma_absent(named, pick, in_bank@, requests, programs, key);
    }
}

proof fn lemma_absent(
    named: Seq<Pubkey>,
    pick: spec_fn(Pubkey) -> Option<Pubkey>,
    in_bank: Seq<Pubkey>,
    requests: Seq<AccountCloneRequest>,
    programs: Seq<LoadedProgram>,
    key: Pubkey,
)
    requires
        pick == pick_absent(in_bank, requests, programs),
    ensures
        picked(named, pick).contains(key) <==> named.contains(key) && !(in_bank.contains(key)
            || is_cloned(requests, key) || is_loaded(programs, key)),
{
    lemma_picked_contains(named, pick, key);
    if named.contains(key) {
        let n = choose|n: int| 0 <= n < named.len() && named[n] == key;
        if !(in_bank.contains(key) || is_cloned(requests, key) || is_loaded(programs, key)) {
            assert(pick(named[n]) == Some(key));
        }
    }
}

/// What is gathered at first is what delegated accounts and programs came to.
pub proof fn law_gatherings_start(
    pubkeys: Vec<Pubkey>,
    delegated: ResolvedDelegatedAccounts,
    programs: ResolvedPrograms,
    key: Pubkey,
    r: CloneGathering,
)
    requires
        call_ensures(CloneGathering::new, (&pubkeys, delegated, programs), r),
    ensures
        r.requested@.contains(key) <==> pubkeys@.contains(key) || delegated.record_subs@.contains(
            key,
        ) || programs.program_data_subs@.contains(key),
        r.accounts_to_clone == delegated.accounts_to_clone,
        r.loaded_programs == programs.loaded_programs,
        r.record_subs == delegated.record_subs,
        r.program_data_subs == programs.program_data_subs,
{
    lemma_concat_contains(pubkeys@, delegated.record_subs@, key);
    lemma_concat_contains(
        pubkeys@ + delegated.record_subs@,
        programs.program_data_subs@,
        key,
    );
}

proof fn lemma_concat_contains(a: Seq<Pubkey>, b: Seq<Pubkey>, key: Pubkey)
    ensures
        (a + b).contains(key) <==> a.contains(key) || b.contains(key),
{
    let all = a + b;
    if a.contains(key) {
        let i = choose|i: int| 0 <= i < a.len() && a[i] == key;
        assert(all[i] == key);
    }
    if b.contains(key) {
        let i = choose|i: int| 0 <= i < b.len() && b[i] == key;
        assert(all[a.len() + i] == key);
    }
    if all.contains(key) {
        let i = choose|i: int| 0 <= i < all.len() && all[i] == key;
        if i < a.len() {
            assert(a[i] == key);
        } else {
            assert(b[i - a.len()] == key);
        }
    }
}

/// Gathering token accounts adds them and nothing else.
pub proof fn law_token_accounts_are_gathered(
    gathering: &mut CloneGathering,
    atas: Vec<AccountCloneRequest>,
    i: int,
)
    requires
        call_ensures(CloneGathering::add_atas, (gathering, atas), ()),
    ensures
        final(gathering).accounts_to_clone@.len() == old(gathering).accounts_to_clone@.len()
            + atas@.len(),
        0 <= i < old(gathering).accounts_to_clone@.len() ==> final(gathering).accounts_to_clone@[i]
            == old(gathering).accounts_to_clone@[i],
        ({
            let was = old(gathering).accounts_to_clone@.len();
            0 <= i < atas@.len() ==> final(gathering).accounts_to_clone@[was + i] == atas@[i]
        }),
        final(gathering).requested == old(gathering).requested,
        final(gathering).loaded_programs == old(gathering).loaded_programs,
        final(gathering).record_subs == old(gathering).record_subs,
        final(gathering).program_data_subs == old(gathering).program_data_subs,
{
}

/// A dependency that is delegated but has no record stops the clone; what stops it is told, and
/// all that was watched for it is given back.
pub proof fn law_dependencies_need_records(
    gathering: &mut CloneGathering,
    resolved: ResolvedDelegatedAccounts,
    i: int,
    key: Pubkey,
    r: Result<Vec<AccountCloneRequest>, (ChainlinkError, Vec<SubscriptionRelease>)>,
)
    requires
        call_ensures(CloneGathering::add_delegated_dependencies, (gathering, resolved), r),
    ensures
        r is Ok <==> resolved.missing_delegation_record@.len() == 0,
        r matches Ok(accounts) ==> accounts == resolved.accounts_to_clone,
        r matches Err((error, releases)) ==> {
            &&& error matches ChainlinkError::MissingDelegationActionAccounts(missing)
            &&& missing@.len() == resolved.missing_delegation_record@.len()
            &&& 0 <= i < missing@.len() ==> missing@[i]
                == resolved.missing_delegation_record@[i].0
            &&& gives_back(
                old(gathering).requested@,
                old(gathering).accounts_to_clone@,
                old(gathering).loaded_programs@,
                old(gathering).record_subs@ + resolved.record_subs@,
                old(gathering).program_data_subs@,
                key,
                releases@,
            )
        },
        final(gathering).accounts_to_clone == old(gathering).accounts_to_clone,
        final(gathering).loaded_programs == old(gathering).loaded_programs,
{
    if resolved.missing_delegation_record@.len() > 0 {
        lemma_gives_back(
            old(gathering).requested@,
            old(gathering).accounts_to_clone@,
            old(gathering).loaded_programs@,
            old(gathering).record_subs@ + resolved.record_subs@,
            old(gathering).program_data_subs@,
            key,
            (r->Err_0).1@,
        );
    }
}

/// What is given back at the end is what has to be, given all that was gathered; and the same
/// holds of what is given back on the way.
pub proof fn law_gathered_watches_are_given_back(
    gathering: CloneGathering,
    allowed: Option<Vec<Pubkey>>,
    key: Pubkey,
    now: Vec<SubscriptionRelease>,
    r: (CloneBatches, Vec<SubscriptionRelease>),
)
    requires
        call_ensures(CloneGathering::subscription_releases, (&gathering,), now),
        call_ensures(CloneGathering::finish, (gathering, &allowed), r),
    ensures
        gives_back(
            gathering.requested@,
            gathering.accounts_to_clone@,
            gathering.loaded_programs@,
            gathering.record_subs@,
            gathering.program_data_subs@,
            key,
            r.1@,
        ),
        now@ == r.1@,
{
    lemma_gives_back(
        gathering.requested@,
        gathering.accounts_to_clone@,
        gathering.loaded_programs@,
        gathering.record_subs@,
        gathering.program_data_subs@,
        key,
        r.1@,
    );
}

/// If the programs among the dependencies fail, the accounts among them are not given back as
/// if they had come to nothing.
pub proof fn law_failed_dependencies_are_given_back(
    gathering: CloneGathering,
    accounts: Vec<AccountCloneRequest>,
    key: Pubkey,
    r: Vec<SubscriptionRelease>,
)
    requires
        call_ensures(CloneGathering::dependency_programs_failed, (gathering, accounts), r),
    ensures
        gives_back(
            gathering.requested@,
            gathering.accounts_to_clone@ + accounts@,
            gathering.loaded_programs@,
            gathering.record_subs@,
            gathering.program_data_subs@,
            key,
            r@,
        ),
{
    lemma_gives_back(
        gathering.requested@,
        gathering.accounts_to_clone@ + accounts@,
        gathering.loaded_programs@,
        gathering.record_subs@,
        gathering.program_data_subs@,
        key,
        r@,
    );
}

/// Gathering dependencies adds their accounts, token accounts and programs and loses nothing.
pub proof fn law_dependencies_are_gathered(
    gathering: &mut CloneGathering,
    accounts: Vec<AccountCloneRequest>,
    programs: ResolvedPrograms,
    atas: Vec<AccountCloneRequest>,
    i: int,
    key: Pubkey,
)
    requires
        call_ensures(CloneGathering::add_dependencies, (gathering, accounts, programs, atas), ()),
    ensures
        ({
            let was = old(gathering).accounts_to_clone@.len();
            let all = final(gathering).accounts_to_clone@;
            let loaded = old(gathering).loaded_programs@.len();
            &&& all.len() == was + accounts@.len() + atas@.len()
            &&& 0 <= i < was ==> all[i] == old(gathering).accounts_to_clone@[i]
            &&& 0 <= i < accounts@.len() ==> all[was + i] == accounts@[i]
            &&& 0 <= i < atas@.len() ==> all[was + accounts@.len() + i] == atas@[i]
            &&& final(gathering).loaded_programs@.len() == loaded
                + programs.loaded_programs@.len()
            &&& 0 <= i < loaded ==> final(gathering).loaded_programs@[i]
                == old(gathering).loaded_programs@[i]
            &&& 0 <= i < programs.loaded_programs@.len()
                ==> final(gathering).loaded_programs@[loaded + i] == programs.loaded_programs@[i]
        }),
        final(gathering).program_data_subs@.contains(key)
            <==> old(gathering).program_data_subs@.contains(key)
            || programs.program_data_subs@.contains(key),
        final(gathering).requested@.contains(key) <==> old(gathering).requested@.contains(key)
            || programs.program_data_subs@.contains(key),
        final(gathering).record_subs == old(gathering).record_subs,
{
    lemma_distinct_keys(old(gathering).program_data_subs@ + programs.program_data_subs@);
    lemma_concat_contains(old(gathering).program_data_subs@, programs.program_data_subs@, key);
    lemma_concat_contains(old(gathering).requested@, programs.program_data_subs@, key);
}

/// Dependencies that were fetched were asked for.
pub proof fn law_fetched_dependencies_are_asked_for(
    gathering: &mut CloneGathering,
    dependencies: Vec<Pubkey>,
    key: Pubkey,
)
    requires
        call_ensures(CloneGathering::dependencies_fetched, (gathering, &dependencies), ()),
    ensures
        final(gathering).requested@.contains(key) <==> old(gathering).requested@.contains(key)
            || dependencies@.contains(key),
        final(gathering).accounts_to_clone == old(gathering).accounts_to_clone,
        final(gathering).loaded_programs == old(gathering).loaded_programs,
        final(gathering).record_subs == old(gathering).record_subs,
        final(gathering).program_data_subs == old(gathering).program_data_subs,
{
    lemma_concat_contains(old(gathering).requested@, dependencies@, key);
}

/// An account is cloned exactly if a request is for it, and a program loaded exactly if one of
/// the programs is it.
pub proof fn law_requests_are_found(
    accounts: Vec<AccountCloneRequest>,
    programs: Vec<LoadedProgram>,
    key: Pubkey,
    i: int,
    cloned: bool,
    loaded: bool,
)
    requires
        call_ensures(clones_account, (&accounts, &key), cloned),
        call_ensures(loads_program, (&programs, &key), loaded),
    ensures
        0 <= i < accounts@.len() && accounts@[i].pubkey == key ==> cloned,
        0 <= i < programs@.len() && programs@[i].program_id == key ==> loaded,
        accounts@.len() == 0 ==> !cloned,
        programs@.len() == 0 ==> !loaded,
        cloned ==> exists|n: int|
            0 <= n < accounts@.len() && (#[trigger] accounts@[n]).pubkey == key,
        loaded ==> exists|n: int|
            0 <= n < programs@.len() && (#[trigger] programs@[n]).program_id == key,
{
}

/// Actions need every program and account that they name but their target, and write to those
/// accounts that they say they write to.
pub proof fn law_actions_tell_what_they_write_to(
    target: Pubkey,
    bundle: DelegationActions,
    i: int,
    k: int,
    r: (Vec<Pubkey>, Vec<Pubkey>),
)
    requires
        call_ensures(collect_post_delegation_action_dependencies, (target, &bundle), r),
        0 <= i < bundle.instructions().len(),
    ensures
        ({
            let instruction = bundle.instructions()[i];
            let meta = instruction.accounts@[k];
            &&& instruction.program_id != target ==> r.0@.contains(instruction.program_id)
            &&& 0 <= k < instruction.accounts@.len() && meta.pubkey != target ==> r.0@.contains(
                meta.pubkey,
            )
            &&& 0 <= k < instruction.accounts@.len() && meta.pubkey != target && meta.is_writable
                ==> r.1@.contains(meta.pubkey)
        }),
        !r.0@.contains(target),
        !r.1@.contains(target),
        r.0@.no_duplicates(),
        r.1@.no_duplicates(),
{
    let instructions = bundle.instructions();
    let all = action_dependencies(instructions, target);
    let instruction = instructions[i];
    let list = instruction_addresses(instruction);
    lemma_distinct_keys(picked(all, pick_dependency()));
    lemma_distinct_keys(picked(all, pick_writable()));
    assert(list[0] == (instruction.program_id, false));
    if instruction.program_id != target {
        lemma_dependency(instructions, target, i, (instruction.program_id, false));
        lemma_needed(all, (instruction.program_id, false));
    }
    if 0 <= k < instruction.accounts@.len() && instruction.accounts@[k].pubkey != target {
        let meta = instruction.accounts@[k];
        assert(list[k + 1] == (meta.pubkey, meta.is_writable));
        lemma_dependency(instructions, target, i, (meta.pubkey, meta.is_writable));
        lemma_needed(all, (meta.pubkey, meta.is_writable));
    }
    lemma_picked_contains(all, pick_dependency(), target);
    lemma_picked_contains(all, pick_writable(), target);
    if picked(all, pick_dependency()).contains(target) {
        let n = choose|n: int|
            0 <= n < all.len() && pick_dependency()(#[trigger] all[n]) == Some(target);
        lemma_no_target(instructions, target, n);
    }
    if picked(all, pick_writable()).contains(target) {
        let n = choose|n: int|
            0 <= n < all.len() && pick_writable()(#[trigger] all[n]) == Some(target);
        lemma_no_target(instructions, target, n);
    }
}

proof fn lemma_needed(all: Seq<(Pubkey, bool)>, dependency: (Pubkey, bool))
    requires
        all.contains(dependency),
    ensures
        picked(all, pick_dependency()).contains(dependency.0),
        dependency.1 ==> picked(all, pick_writable()).contains(dependency.0),
{
    let n = choose|n: int| 0 <= n < all.len() && all[n] == dependency;
    lemma_picked_contains(all, pick_dependency(), dependency.0);
    lemma_picked_contains(all, pick_writable(), dependency.0);
    assert(pick_dependency()(all[n]) == Some(dependency.0));
    if dependency.1 {
        assert(pick_writable()(all[n]) == Some(dependency.0));
    }
}

/// Whoever has to sign an action is told, and nobody else.
pub proof fn law_signers_are_told(
    actions: Vec<Instruction>,
    i: int,
    k: int,
    n: int,
    r: Vec<String>,
)
    requires
        call_ensures(action_signers, (&actions,), r),
    ensures
        0 <= i < actions@.len() && 0 <= k < actions@[i].accounts@.len()
            && actions@[i].accounts@[k].is_signer ==> exists|m: int|
            0 <= m < r@.len() && (#[trigger] r@[m])@ == address_text(
                actions@[i].accounts@[k].pubkey@,
            ),
        0 <= n < r@.len() ==> exists|a: int, b: int|
            0 <= a < actions@.len() && 0 <= b < actions@[a].accounts@.len() && (
            #[trigger] actions@[a].accounts@[b]).is_signer && r@[n]@ == address_text(
                actions@[a].accounts@[b].pubkey@,
            ),
{
    if 0 <= i < actions@.len() && 0 <= k < actions@[i].accounts@.len()
        && actions@[i].accounts@[k].is_signer {
        let text = address_text(actions@[i].accounts@[k].pubkey@);
        assert(is_signer_text(actions@, text));
        assert(has_text(r@, text));
    }
    if 0 <= n < r@.len() {
        assert(has_text(r@, r@[n]@));
        assert(is_signer_text(actions@, r@[n]@));
    }
}

/// A forwarded account that was found without a record is taken as it is if it is internal or
/// asks for an undelegation, and not at all if it does not; its record is given back either
/// way.
pub proof fn law_forwarded_accounts_without_companion(
    pair: AccountWithCompanion,
    acquired: bool,
    is_internal: bool,
    derived_eata: Option<Pubkey>,
    eata_program: Pubkey,
    validator: Pubkey,
    secret: [u8; 32],
    r: ForwardedResolution,
)
    requires
        call_ensures(
            resolve_account_to_clone_from_forwarded_sub,
            (pair, acquired, is_internal, derived_eata, &eata_program, &validator, &secret),
            r,
        ),
    ensures
        r.releases@.len() == if acquired {
            2nat
        } else {
            1
        },
        r.releases@[0] == (SubscriptionRelease {
            pubkey: pair.companion_pubkey,
            reason: SubscriptionReason::DirectAccount,
        }),
        pair.companion_account is Some ==> r.request is None,
        pair.companion_account is None ==> {
            let asks = pair.account.data@.len() >= 48 && is_marked(pair.account.data@, 104);
            &&& r.record is None && r.actions is None && r.subscribe_owner is None
            &&& r.account == if asks || is_internal {
                Some(pair.account)
            } else {
                None
            }
            &&& r.request is Some <==> asks
        },
        r.account matches Some(account) ==> {
            &&& account.lamports == pair.account.lamports
            &&& account.data == pair.account.data
            &&& account.executable == pair.account.executable
            &&& account.slot == pair.account.slot
            &&& account.compressed == pair.account.compressed
            &&& r.record matches Some(record) ==> account.owner == record.owner
            &&& r.record is None ==> account == pair.account
        },
{
    lemma_marked(pair.account.data@, 104);
}

/// The account that stands for a program whose code was updated is as new as the update, and
/// belongs to the upgradeable loader.
pub proof fn law_updated_programs_are_stood_for(slot: u64, r: Account)
    requires
        call_ensures(routed_program_account, (slot,), r),
    ensures
        r.slot == slot,
        r.owner.bytes == LOADER_V3_ID,
        r.data@.len() == 0,
        r.lamports > 0,
        !r.executable,
        r.mode == AccountMode::ReadOnly,
{
}

/// An undelegation that is given up can be claimed again, and the claims on other accounts
/// stay.
pub proof fn law_released_undelegations_can_be_claimed(
    pending: &mut Vec<Pubkey>,
    pubkey: Pubkey,
    other: Pubkey,
    later: &mut Vec<Pubkey>,
    again: bool,
)
    requires
        call_ensures(release_undelegation, (pending, &pubkey), ()),
        *old(later) == *final(pending),
        call_ensures(claim_undelegation, (later, pubkey), again),
    ensures
        again,
        !final(pending)@.contains(pubkey),
        other != pubkey ==> (final(pending)@.contains(other) <==> old(pending)@.contains(other)),
{
    assert(final(pending)@.contains(pubkey) ==> false);
}

/// An error that ends a wait is told to everybody as it is.
pub proof fn law_errors_are_told_as_they_are(error: ChainlinkError, r: ChainlinkError)
    requires
        call_ensures(clone_pending_request_error, (&error,), r),
    ensures
        error matches ChainlinkError::PendingRequestTimeout(_) ==> r == error,
        error matches ChainlinkError::PendingRequestOwnerDropped(_) ==> r == error,
        error matches ChainlinkError::PendingRequestOwnerFailed(pubkey, message) ==> (r
            matches ChainlinkError::PendingRequestOwnerFailed(copied, text) && copied == pubkey
            && text@ == message@),
        error matches ChainlinkError::PendingRequestOwnerDisappeared(pubkey, message) ==> (r
            matches ChainlinkError::PendingRequestOwnerDisappeared(copied, text) && copied
            == pubkey && text@ == message@),
{
}

} // verus!
