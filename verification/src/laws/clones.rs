//! What holds of clones: which are made, in which state, and what is run after them.
use vstd::prelude::*;
use crate::account::{Account, AccountMode};
use crate::chainlink::errors::ChainlinkError;
use crate::chainlink::fetch_cloner::ownership::{
    after_rescue, claim_undelegation, normalize_immutable_account,
    normalize_unresolved_dlp_clone_request, prepare_clone, rescue_request, rescues, CloneStep,
    CloneTarget,
};
use crate::cloner::{
    action_dependencies, claims_materialization, instruction_addresses, instruction_dependencies,
    other_than, post_finalize, undelegation_action, AccountCloneRequest, ClonePostDelegationMode,
    CloneSourceSlots, DelegationActions, Instruction, PostFinalize,
};
use crate::filters::noop_system_transfer::{is_noop_system_transfer, ProgramInstruction};
use crate::pda::magic_fee_vault_address;
use crate::program_ids::{DLP_PROGRAM_ID, MAGIC_CONTEXT_ID, MAGIC_PROGRAM_ID, SYSTEM_PROGRAM_ID};
use crate::pubkey::Pubkey;

verus! {

/// Whether a request is for an account that nothing but its own state says anything about: it
/// does not belong to the delegation program, it is no token account, and nothing runs after it.
pub open spec fn is_ordinary(request: AccountCloneRequest, target: CloneTarget) -> bool {
    &&& request.account.owner.bytes != DLP_PROGRAM_ID
    &&& target.token_account is None
    &&& request.post_delegation_mode is Plain
}

/// An ordinary account is cloned with the state of its request, unless the rollup runs it
/// already or it is an update of an account that the bank does not have.
pub proof fn law_ordinary_accounts_are_cloned(
    request: AccountCloneRequest,
    target: CloneTarget,
    validator: Pubkey,
    r: Result<CloneStep, ChainlinkError>,
)
    requires
        call_ensures(prepare_clone, (request, target, &validator), r),
        is_ordinary(request, target),
    ensures
        target.is_update && target.local is None ==> r == Ok::<_, ChainlinkError>(CloneStep::Skip),
        request.account.mode == AccountMode::Delegated && target.local == Some(
            AccountMode::Delegated,
        ) ==> r == Ok::<_, ChainlinkError>(CloneStep::Skip),
        !(target.is_update && target.local is None) && !(request.account.mode
            == AccountMode::Delegated && target.local == Some(AccountMode::Delegated)) ==> {
            &&& r matches Ok(CloneStep::Clone(cloned))
            &&& cloned.pubkey == request.pubkey
            &&& cloned.account.lamports == request.account.lamports
            &&& cloned.account.data == request.account.data
            &&& cloned.account.owner == request.account.owner
            &&& cloned.account.executable == request.account.executable
            &&& cloned.account.slot == request.account.slot
            &&& cloned.account.confined == request.account.confined
            &&& cloned.account.compressed == request.account.compressed
            &&& cloned.commit_frequency_ms == request.commit_frequency_ms
            &&& cloned.delegated_to_other == request.delegated_to_other
            &&& cloned.source_slots == request.source_slots
            &&& cloned.post_delegation_mode == request.post_delegation_mode
            &&& request.account.mode == AccountMode::Delegated ==> cloned.account.mode
                == AccountMode::Delegated
            &&& request.account.mode == AccountMode::ReadOnly && request.account.lamports > 0
                ==> cloned.account.mode == AccountMode::ReadOnly
        },
{
}

/// A delegated account with actions is cloned with them, unless the rollup runs it already; an
/// account that is not delegated never is.
pub proof fn law_accounts_are_cloned_with_their_actions(
    request: AccountCloneRequest,
    target: CloneTarget,
    validator: Pubkey,
    r: Result<CloneStep, ChainlinkError>,
)
    requires
        call_ensures(prepare_clone, (request, target, &validator), r),
        request.account.owner.bytes != DLP_PROGRAM_ID,
        target.token_account is None,
        request.post_delegation_mode is ExecuteActions,
        !target.is_update,
    ensures
        request.account.mode == AccountMode::Delegated && target.local != Some(
            AccountMode::Delegated,
        ) ==> r == Ok::<_, ChainlinkError>(CloneStep::CloneWithActions(request)),
        request.account.mode == AccountMode::Delegated && target.local == Some(
            AccountMode::Delegated,
        ) ==> r == Ok::<_, ChainlinkError>(CloneStep::Skip),
        request.account.mode != AccountMode::Delegated ==> r is Err,
{
}

/// A token account that is delegated is cloned as it has to be; one whose data are malformed is
/// not.
pub proof fn law_token_accounts_are_cloned(
    request: AccountCloneRequest,
    target: CloneTarget,
    validator: Pubkey,
    r: Result<CloneStep, ChainlinkError>,
)
    requires
        call_ensures(prepare_clone, (request, target, &validator), r),
        request.account.mode == AccountMode::Delegated,
        request.post_delegation_mode is Plain,
        !target.is_update,
        target.local != Some(AccountMode::Delegated),
    ensures
        target.token_account == Some(None::<Account>) ==> (r matches Err(error) && error
            is InvalidTokenAccount),
        (target.token_account matches Some(Some(account)) && account.owner.bytes != DLP_PROGRAM_ID
            && account.mode == AccountMode::Delegated) ==> (r matches Ok(CloneStep::Clone(cloned))
            && cloned.account == (target.token_account->0)->0 && cloned.pubkey == request.pubkey),
{
}

/// An account of the delegation program is never said to be run here, but for the validator's
/// own fee vault.
pub proof fn law_unresolved_accounts_are_not_run(
    request: &mut AccountCloneRequest,
    validator: Pubkey,
    r: Result<(), ChainlinkError>,
)
    requires
        call_ensures(normalize_unresolved_dlp_clone_request, (request, &validator), r),
    ensures
        r is Ok && final(request).account.owner.bytes == DLP_PROGRAM_ID && final(request).pubkey@
            != magic_fee_vault_address(validator@) ==> final(request).account.mode
            != AccountMode::Delegated && final(request).account.mode != AccountMode::Ephemeral,
        old(request).account.owner.bytes != DLP_PROGRAM_ID || old(request).pubkey@
            == magic_fee_vault_address(validator@) ==> r is Ok && *final(request) == *old(request),
        final(request).pubkey == old(request).pubkey,
        final(request).account.lamports == old(request).account.lamports,
        final(request).account.data == old(request).account.data,
        final(request).account.owner == old(request).account.owner,
        final(request).account.slot == old(request).account.slot,
        r is Err ==> old(request).post_delegation_mode is ExecuteActions,
{
}

/// An account that the rollup does not run stands for one that the chain does not have exactly
/// if it has no lamports and the bank does not have it. Nothing else of it changes, and nothing
/// at all of an account that the rollup runs.
pub proof fn law_copies_get_their_mode(request: &mut AccountCloneRequest, in_bank: bool)
    requires
        call_ensures(normalize_immutable_account, (request, in_bank), ()),
    ensures
        ({
            let copy = old(request).account.mode == AccountMode::ReadOnly
                || old(request).account.mode == AccountMode::Placeholder;
            &&& !copy ==> *final(request) == *old(request)
            &&& copy ==> (final(request).account.mode == AccountMode::Placeholder
                <==> old(request).account.lamports == 0 && !in_bank)
            &&& copy && final(request).account.mode != AccountMode::Placeholder
                ==> final(request).account.mode == AccountMode::ReadOnly
        }),
        final(request).pubkey == old(request).pubkey,
        final(request).account.lamports == old(request).account.lamports,
        final(request).account.data == old(request).account.data,
        final(request).account.owner == old(request).account.owner,
        final(request).account.executable == old(request).account.executable,
        final(request).account.slot == old(request).account.slot,
        final(request).post_delegation_mode == old(request).post_delegation_mode,
{
}

/// The undelegation of an account is claimed by one at a time.
pub proof fn law_undelegations_are_claimed_once(
    pending: &mut Vec<Pubkey>,
    pubkey: Pubkey,
    other: Pubkey,
    r: bool,
)
    requires
        call_ensures(claim_undelegation, (pending, pubkey), r),
    ensures
        r <==> !old(pending)@.contains(pubkey),
        final(pending)@.contains(pubkey),
        other != pubkey ==> (final(pending)@.contains(other) <==> old(pending)@.contains(other)),
{
    if r {
        let after = final(pending)@;
        assert(after[after.len() - 1] == pubkey);
        if old(pending)@.contains(other) {
            let i = choose|i: int| 0 <= i < old(pending)@.len() && old(pending)@[i] == other;
            assert(after[i] == other);
        }
        if after.contains(other) && other != pubkey {
            let i = choose|i: int| 0 <= i < after.len() && after[i] == other;
            assert(old(pending)@[i] == other);
        }
    }
}

/// An account whose actions failed is cloned to be given back only if it is certain that it was
/// not cloned, and never while it is on its way back.
pub proof fn law_rescues_are_safe(error: ChainlinkError, local: Option<AccountMode>, r: bool)
    requires
        call_ensures(rescues, (&error, local), r),
    ensures
        local == Some(AccountMode::Transient) ==> !r,
        error matches ChainlinkError::ClonerError(cause) ==> (r ==> cause.rescue_allowed()),
        local != Some(AccountMode::Transient) && !(error is ClonerError) ==> r,
{
}

/// A rescue that succeeded counts; if it failed too, the first error does.
pub proof fn law_first_errors_count(
    error: ChainlinkError,
    second: ChainlinkError,
    materialized: Option<(Pubkey, AccountMode)>,
    r: Result<Option<(Pubkey, AccountMode)>, ChainlinkError>,
    failed: Result<Option<(Pubkey, AccountMode)>, ChainlinkError>,
)
    requires
        call_ensures(after_rescue, (error, Ok(materialized)), r),
        call_ensures(after_rescue, (error, Err(second)), failed),
    ensures
        r == Ok::<_, ChainlinkError>(materialized),
        failed == Err::<Option<(Pubkey, AccountMode)>, _>(error),
{
}

/// A rescue brings the same account in and gives it back, in the name of the program whose
/// actions it had.
pub proof fn law_rescues_keep_the_account(request: AccountCloneRequest, r: AccountCloneRequest)
    requires
        call_ensures(rescue_request, (request,), r),
    ensures
        r.pubkey == request.pubkey,
        r.account == request.account,
        r.commit_frequency_ms == request.commit_frequency_ms,
        r.delegated_to_other == request.delegated_to_other,
        r.source_slots == request.source_slots,
        request.post_delegation_mode matches ClonePostDelegationMode::ExecuteActions(bundle)
            ==> r.post_delegation_mode == ClonePostDelegationMode::RescueUndelegate(
            bundle.source(),
        ),
        !(request.post_delegation_mode is ExecuteActions) ==> r.post_delegation_mode
            == request.post_delegation_mode,
{
}

/// After a clone its actions run, all of them in their order, or the account is given back, or
/// nothing happens.
pub proof fn law_what_runs_after_a_clone(
    mode: ClonePostDelegationMode,
    authority: Pubkey,
    pubkey: Pubkey,
    intent: Vec<u8>,
    r: Option<PostFinalize>,
)
    requires
        call_ensures(post_finalize, (mode, authority, pubkey, intent), r),
    ensures
        r is None <==> mode is Plain,
        mode matches ClonePostDelegationMode::ExecuteActions(bundle) ==> (r->0).source_program
            == bundle.source() && (r->0).actions@ == bundle.instructions(),
        mode matches ClonePostDelegationMode::RescueUndelegate(program) ==> {
            &&& (r->0).source_program == program
            &&& (r->0).actions@.len() == 1
            &&& (r->0).actions@[0].program_id.bytes == MAGIC_PROGRAM_ID
            &&& (r->0).actions@[0].data == intent
            &&& (r->0).actions@[0].accounts@.len() == 3
            &&& (r->0).actions@[0].accounts@[2].pubkey == pubkey
            &&& (r->0).actions@[0].accounts@[2].is_writable
        },
{
}

/// An account is given back by an instruction of the rollup's program that the authority signs,
/// that writes to the account and to the rollup's context, and to nothing else.
pub proof fn law_accounts_are_given_back(
    authority: Pubkey,
    pubkey: Pubkey,
    data: Vec<u8>,
    r: Instruction,
)
    requires
        call_ensures(undelegation_action, (authority, pubkey, data), r),
    ensures
        r.program_id.bytes == MAGIC_PROGRAM_ID,
        r.data == data,
        r.accounts@.len() == 3,
        r.accounts@[0].pubkey == authority && r.accounts@[0].is_signer
            && !r.accounts@[0].is_writable,
        r.accounts@[1].pubkey.bytes == MAGIC_CONTEXT_ID && !r.accounts@[1].is_signer
            && r.accounts@[1].is_writable,
        r.accounts@[2].pubkey == pubkey && !r.accounts@[2].is_signer && r.accounts@[2].is_writable,
{
}

/// Only an account that belongs to the rollup itself is not claimed for what the chain holds.
pub proof fn law_own_accounts_are_not_claimed(observed: Option<AccountMode>, r: bool)
    requires
        call_ensures(claims_materialization, (observed,), r),
    ensures
        r <==> observed != Some(AccountMode::Magic),
{
}

/// Actions are kept as they are; without any there is nothing to run.
pub proof fn law_actions_are_kept(
    source: Pubkey,
    actions: Vec<Instruction>,
    r: Option<DelegationActions>,
)
    requires
        call_ensures(DelegationActions::new, (source, actions), r),
    ensures
        r is Some <==> actions@.len() > 0,
        r matches Some(bundle) ==> bundle.source() == source && bundle.instructions() == actions@,
{
}

/// Every address of an instruction but the target is a dependency.
pub proof fn lemma_dependency(
    actions: Seq<Instruction>,
    target: Pubkey,
    i: int,
    dependency: (Pubkey, bool),
)
    requires
        0 <= i < actions.len(),
        instruction_addresses(actions[i]).contains(dependency),
        dependency.0 != target,
    ensures
        action_dependencies(actions, target).contains(dependency),
    decreases actions.len(),
{
    let front = action_dependencies(actions.drop_last(), target);
    let back = instruction_dependencies(actions.last(), target);
    let all = action_dependencies(actions, target);
    if i < actions.len() - 1 {
        assert(actions.drop_last()[i] == actions[i]);
        lemma_dependency(actions.drop_last(), target, i, dependency);
        let n = choose|n: int| 0 <= n < front.len() && front[n] == dependency;
        assert(all[n] == dependency);
    } else {
        let list = instruction_addresses(actions[i]);
        let n = choose|n: int| 0 <= n < list.len() && list[n] == dependency;
        list.lemma_filter_contains(other_than(target), n);
        assert(back.contains(dependency));
        let m = choose|m: int| 0 <= m < back.len() && back[m] == dependency;
        assert(all[front.len() + m] == dependency);
    }
}

/// The target is no dependency.
pub proof fn lemma_no_target(actions: Seq<Instruction>, target: Pubkey, n: int)
    requires
        0 <= n < action_dependencies(actions, target).len(),
    ensures
        action_dependencies(actions, target)[n].0 != target,
    decreases actions.len(),
{
    if actions.len() > 0 {
        let front = action_dependencies(actions.drop_last(), target);
        let list = instruction_addresses(actions.last());
        if n < front.len() {
            lemma_no_target(actions.drop_last(), target, n);
        } else {
            list.lemma_filter_pred(other_than(target), n - front.len());
        }
    }
}

/// Actions need every program and every account that they name, written to or not, but not the
/// account that they are for.
pub proof fn law_actions_need_what_they_name(
    bundle: DelegationActions,
    target: Pubkey,
    i: int,
    k: int,
    n: int,
    r: Vec<(Pubkey, bool)>,
)
    requires
        call_ensures(DelegationActions::dependencies, (&bundle, target), r),
        0 <= i < bundle.instructions().len(),
    ensures
        ({
            let instruction = bundle.instructions()[i];
            &&& instruction.program_id != target ==> r@.contains((instruction.program_id, false))
            &&& 0 <= k < instruction.accounts@.len() && instruction.accounts@[k].pubkey != target
                ==> r@.contains(
                (instruction.accounts@[k].pubkey, instruction.accounts@[k].is_writable),
            )
        }),
        0 <= n < r@.len() ==> r@[n].0 != target,
{
    let instruction = bundle.instructions()[i];
    let list = instruction_addresses(instruction);
    assert(list[0] == (instruction.program_id, false));
    if instruction.program_id != target {
        lemma_dependency(bundle.instructions(), target, i, (instruction.program_id, false));
    }
    if 0 <= k < instruction.accounts@.len() && instruction.accounts@[k].pubkey != target {
        let meta = instruction.accounts@[k];
        assert(list[k + 1] == (meta.pubkey, meta.is_writable));
        lemma_dependency(bundle.instructions(), target, i, (meta.pubkey, meta.is_writable));
    }
    if 0 <= n < r@.len() {
        lemma_no_target(bundle.instructions(), target, n);
    }
}

/// A request without source slots comes from its account alone; a shown balance is as new as
/// the newer of its sources.
pub proof fn law_sources_have_slots(
    request: AccountCloneRequest,
    ata: u64,
    eata: u64,
    slot: u64,
    r: CloneSourceSlots,
    projected: CloneSourceSlots,
    single: CloneSourceSlots,
)
    requires
        call_ensures(AccountCloneRequest::source_slots, (&request,), r),
        call_ensures(CloneSourceSlots::projected, (ata, eata), projected),
        call_ensures(CloneSourceSlots::single, (slot,), single),
    ensures
        request.source_slots is None ==> r.data == request.account.slot && r.view
            == request.account.slot,
        request.source_slots matches Some(slots) ==> r == slots,
        projected.data == ata && projected.view >= ata && projected.view >= eata && (
        projected.view == ata || projected.view == eata),
        single.data == slot && single.view == slot,
{
}

/// A transaction does nothing exactly if its one instruction has the system program transfer no
/// lamports.
pub proof fn law_transfers_of_nothing_are_noticed(
    instructions: Vec<ProgramInstruction>,
    r: bool,
)
    requires
        call_ensures(is_noop_system_transfer, (&instructions,), r),
    ensures
        r ==> instructions@.len() == 1,
        r ==> instructions@[0].program_id.bytes == SYSTEM_PROGRAM_ID,
        instructions@.len() == 1 ==> {
            let data = instructions@[0].data@;
            &&& r ==> data.len() >= 12 && data[0] == 2 && (forall|i: int|
                1 <= i < 12 ==> #[trigger] data[i] == 0)
            &&& instructions@[0].program_id.bytes == SYSTEM_PROGRAM_ID && data.len() >= 12
                && data[0] == 2 && (forall|i: int| 1 <= i < 12 ==> #[trigger] data[i] == 0) ==> r
        },
{
    if instructions@.len() == 1 {
        let data = instructions@[0].data@;
        if data.len() >= 12 {
            assert(crate::bytes::le_value(data, 4) <= u64::MAX) by {
                assert(data[4] <= 255 && data[5] <= 255 && data[6] <= 255 && data[7] <= 255
                    && data[8] <= 255 && data[9] <= 255 && data[10] <= 255 && data[11] <= 255);
            }
        }
    }
}

/// Actions are run exactly if there are any, and are handed on as they are.
pub proof fn law_actions_are_handed_on(
    actions: Option<DelegationActions>,
    mode: ClonePostDelegationMode,
    has: bool,
    given: Option<&DelegationActions>,
)
    requires
        call_ensures(ClonePostDelegationMode::from_actions, (actions,), mode),
        call_ensures(ClonePostDelegationMode::has_actions, (&mode,), has),
        call_ensures(ClonePostDelegationMode::delegation, (&mode,), given),
    ensures
        has <==> actions is Some,
        actions matches Some(bundle) ==> given == Some(&bundle),
        actions is None ==> given is None && mode is Plain,
{
}

/// What runs after a clone is what the record asked for, for the program that owned the account.
pub proof fn law_actions_run_as_asked(
    source: Pubkey,
    actions: Vec<Instruction>,
    bundle: Option<DelegationActions>,
    r: PostFinalize,
)
    requires
        call_ensures(DelegationActions::new, (source, actions), bundle),
        bundle is Some,
        call_ensures(DelegationActions::into_post_finalize, (bundle->0,), r),
    ensures
        r.source_program == source,
        r.actions@ == actions@,
{
}

/// A plain request is for the account as it is.
pub proof fn law_plain_requests_take_the_account(
    pubkey: Pubkey,
    account: Account,
    r: AccountCloneRequest,
)
    requires
        call_ensures(AccountCloneRequest::plain, (pubkey, account), r),
    ensures
        r.pubkey == pubkey,
        r.account == account,
        r.commit_frequency_ms is None,
        r.post_delegation_mode is Plain,
        r.delegated_to_other is None,
        r.source_slots is None,
{
}

/// An error of a clone names the account that it is about.
pub proof fn law_refused_clones_are_named(
    request: AccountCloneRequest,
    target: CloneTarget,
    validator: Pubkey,
    r: Result<CloneStep, ChainlinkError>,
)
    requires
        call_ensures(prepare_clone, (request, target, &validator), r),
    ensures
        r matches Err(error) ==> {
            ||| error matches ChainlinkError::InvalidTokenAccount(pubkey, _) && pubkey
                == request.pubkey
            ||| error matches ChainlinkError::InvalidDelegationActions(pubkey, _) && pubkey
                == request.pubkey
        },
        target.is_update && target.local is None ==> r == Ok::<CloneStep, ChainlinkError>(
            CloneStep::Skip,
        ),
{
}

} // verus!
