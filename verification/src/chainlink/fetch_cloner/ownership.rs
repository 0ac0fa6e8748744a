//! Who may write an account into the bank, and in which state.
use vstd::prelude::*;
use crate::account::{Account, AccountMode};
use crate::chainlink::errors::ChainlinkError;
use crate::chainlink::fetch_cloner::rules::{immutable_account_mode, immutable_mode};
use crate::cloner::{
    AccountCloneRequest, ClonePostDelegationMode, LoadedProgram, RemoteProgramLoader,
};
use crate::lru_map::{displaced, holds, promoted, pushed, without, LruMap};
use crate::pda::{
    magic_fee_vault_address, magic_fee_vault_pda, program_data_address, program_data_pda,
};
use crate::program_ids::DLP_PROGRAM_ID;
use crate::pubkey::{insert_key, lemma_pubkey_bytes_determine, Pubkey};

verus! {

/// What came of watching the code of a program.
#[derive(Clone, Copy, Debug, PartialEq, Eq, Structural)]
pub enum ProgramDataWatch {
    Installed,
    AlreadyInstalled,
    EvictedConcurrently,
}

/// How watching the code of a program starts.
#[derive(Clone, Copy, Debug, PartialEq, Eq)]
pub enum WatchStart {
    /// It is watched already.
    AlreadyInstalled,
    /// It is subscribed to. What left to make room, a code account and its program, is
    /// forgotten first, and the program is evicted.
    Acquire { program_data: Pubkey, evicted: Option<(Pubkey, Pubkey)> },
}

/// Starts to watch the code of a program. `index` maps watched code accounts to their programs.
pub fn start_watch(index: &mut LruMap<Pubkey>, program_id: Pubkey) -> (r: WatchStart)
    requires
        old(index).wf(),
    ensures
        final(index).wf(),
        final(index).capacity() == old(index).capacity(),
        match r {
            WatchStart::AlreadyInstalled => exists|data: Pubkey|
                {
                    &&& data@ == program_data_address(program_id@)
                    &&& #[trigger] holds(old(index).entries(), data.bytes)
                    &&& final(index).entries() == promoted(old(index).entries(), data.bytes)
                },
            WatchStart::Acquire { program_data, evicted } => {
                &&& program_data@ == program_data_address(program_id@)
                &&& !holds(old(index).entries(), program_data.bytes)
                &&& final(index).entries() == pushed(
                    old(index).entries(),
                    old(index).capacity(),
                    program_data.bytes,
                    program_id,
                )
                &&& evicted == match displaced(
                    old(index).entries(),
                    old(index).capacity(),
                    program_data.bytes,
                ) {
                    Some((data, program)) => Some((Pubkey { bytes: data }, program)),
                    None => None,
                }
            },
        },
{
    let program_data = program_data_pda(&program_id);
    if index.touch(&program_data) {
        return WatchStart::AlreadyInstalled;
    }
    let evicted = index.push(program_data, program_id);
    WatchStart::Acquire { program_data, evicted }
}

/// How watching the code of a program ends up.
#[derive(Clone, Copy, Debug, PartialEq, Eq, Structural)]
pub enum WatchEnd {
    /// The subscription could not be had: the program is not watched.
    Failed,
    Installed,
    /// It left to make room meanwhile: the subscription is forgotten.
    EvictedConcurrently,
}

/// Ends the start of a watch, once its subscription was had or not.
pub fn finish_watch(index: &mut LruMap<Pubkey>, program_data: &Pubkey, acquired: bool) -> (r:
    WatchEnd)
    requires
        old(index).wf(),
    ensures
        final(index).wf(),
        final(index).capacity() == old(index).capacity(),
        r == if !acquired {
            WatchEnd::Failed
        } else if holds(old(index).entries(), program_data.bytes) {
            WatchEnd::Installed
        } else {
            WatchEnd::EvictedConcurrently
        },
        final(index).entries() == if acquired {
            promoted(old(index).entries(), program_data.bytes)
        } else {
            without(old(index).entries(), program_data.bytes)
        },
{
    if !acquired {
        index.pop(program_data);
        return WatchEnd::Failed;
    }
    if index.touch(program_data) {
        WatchEnd::Installed
    } else {
        WatchEnd::EvictedConcurrently
    }
}

/// Stops watching the code of a program. Returns the code account whose subscription is
/// forgotten, if it was watched.
pub fn unwatch_programdata(index: &mut LruMap<Pubkey>, program_id: &Pubkey) -> (r: Option<Pubkey>)
    requires
        old(index).wf(),
    ensures
        final(index).wf(),
        final(index).capacity() == old(index).capacity(),
        exists|data: Pubkey|
            {
                &&& data@ == program_data_address(program_id@)
                &&& r == if #[trigger] holds(old(index).entries(), data.bytes) {
                    Some(data)
                } else {
                    None
                }
                &&& final(index).entries() == without(old(index).entries(), data.bytes)
            },
{
    let program_data = program_data_pda(program_id);
    let ghost before = index.entries();
    let watched = index.pop(&program_data).is_some();
    assert(holds(before, program_data.bytes) == watched);
    if watched {
        Some(program_data)
    } else {
        None
    }
}

/// What cloning a program does.
#[derive(Clone, Copy, Debug, PartialEq, Eq, Structural)]
pub enum ProgramCloneStep {
    /// Nothing but to watch its code, since the bank has it as new.
    Skip { watch: bool },
    /// Its code is watched if it is in another account, and it is cloned.
    Clone { watch: bool },
}

/// Tells what cloning a program does.
pub fn program_clone_step(local_slot: Option<u64>, program: &LoadedProgram) -> (r: ProgramCloneStep)
    ensures
        ({
            let watch = program.loader == RemoteProgramLoader::V3;
            r == if local_slot matches Some(slot) && slot >= program.remote_slot {
                ProgramCloneStep::Skip { watch }
            } else {
                ProgramCloneStep::Clone { watch }
            }
        }),
{
    let watch = match program.loader {
        RemoteProgramLoader::V3 => true,
        _ => false,
    };
    if let Some(slot) = local_slot {
        if slot >= program.remote_slot {
            return ProgramCloneStep::Skip { watch };
        }
    }
    ProgramCloneStep::Clone { watch }
}

/// Whether the watch of a program's code is undone after its clone: it failed, and the watch
/// was made for it.
pub fn unwatches_after_clone(cloned: bool, watch: Option<ProgramDataWatch>) -> (r: bool)
    ensures
        r == (!cloned && watch == Some(ProgramDataWatch::Installed)),
{
    !cloned && match watch {
        Some(ProgramDataWatch::Installed) => true,
        _ => false,
    }
}

/// Whether a request says that this validator runs an account which still belongs to the
/// delegation program: its record was never resolved. The validator's fee vault does belong to
/// it.
pub open spec fn is_unresolved(request: AccountCloneRequest, validator: Pubkey) -> bool {
    &&& request.account.owner.bytes == DLP_PROGRAM_ID
    &&& request.account.mode == AccountMode::Delegated || request.account.mode
        == AccountMode::Ephemeral
    &&& request.pubkey@ != magic_fee_vault_address(validator@)
}

/// The request with an account in another mode.
pub open spec fn in_mode(request: AccountCloneRequest, mode: AccountMode) -> AccountCloneRequest {
    AccountCloneRequest { account: Account { mode, ..request.account }, ..request }
}

/// Takes back the claim to run an account whose record was never resolved. With actions the
/// request is refused.
pub fn normalize_unresolved_dlp_clone_request(
    request: &mut AccountCloneRequest,
    validator_pubkey: &Pubkey,
) -> (r: Result<(), ChainlinkError>)
    ensures
        if !is_unresolved(*old(request), *validator_pubkey) {
            r is Ok && *final(request) == *old(request)
        } else if old(request).post_delegation_mode is ExecuteActions {
            &&& *final(request) == *old(request)
            &&& r matches Err(ChainlinkError::InvalidDelegationActions(pubkey, message))
            &&& pubkey == old(request).pubkey
            &&& message@
                == "post-delegation actions attached to unresolved DLP-owned clone target"@
        } else {
            r is Ok && *final(request) == in_mode(*old(request), AccountMode::ReadOnly)
        },
{
    let claims_delegation = request.account.is(AccountMode::Delegated) || request.account.is(
        AccountMode::Ephemeral,
    );
    if !request.account.is_owned_by_dlp() || !claims_delegation {
        return Ok(());
    }
    let vault = magic_fee_vault_pda(validator_pubkey);
    if request.pubkey == vault {
        return Ok(());
    }
    proof {
        if request.pubkey@ == vault@ {
            lemma_pubkey_bytes_determine(request.pubkey, vault);
        }
    }
    if request.post_delegation_mode.has_actions() {
        return Err(
            ChainlinkError::InvalidDelegationActions(
                request.pubkey,
                String::from_str(
                    "post-delegation actions attached to unresolved DLP-owned clone target",
                ),
            ),
        );
    }
    request.account.mode = AccountMode::ReadOnly;
    Ok(())
}

/// The request with the mode that an account which the rollup does not run has: it only stands
/// for an account if it has no lamports and the bank does not have it.
pub open spec fn immutable_normalized(request: AccountCloneRequest, in_bank: bool) -> AccountCloneRequest {
    if request.account.mode == AccountMode::ReadOnly || request.account.mode
        == AccountMode::Placeholder {
        in_mode(
            request,
            if immutable_mode(request.account.lamports) == AccountMode::Placeholder && !in_bank {
                AccountMode::Placeholder
            } else {
                AccountMode::ReadOnly
            },
        )
    } else {
        request
    }
}

/// Gives an account that the rollup does not run its mode.
pub fn normalize_immutable_account(request: &mut AccountCloneRequest, in_bank: bool)
    ensures
        *final(request) == immutable_normalized(*old(request), in_bank),
{
    if !request.account.is(AccountMode::ReadOnly) && !request.account.is(AccountMode::Placeholder) {
        return;
    }
    let mode = immutable_account_mode(request.account.lamports);
    request.account.mode = if mode == AccountMode::Placeholder && !in_bank {
        AccountMode::Placeholder
    } else {
        AccountMode::ReadOnly
    };
}

/// How a clone goes on.
#[derive(Debug)]
pub enum CloneStep {
    /// Nothing is cloned.
    Skip,
    /// The account is cloned.
    Clone(AccountCloneRequest),
    /// What the actions need is fetched, then the account is cloned and they run.
    CloneWithActions(AccountCloneRequest),
}

/// What is known about the account of a request here.
#[derive(Debug)]
pub struct CloneTarget {
    /// The mode of the account in the bank, if it is there.
    pub local: Option<AccountMode>,
    /// Whether the request is for an update and not for a new account.
    pub is_update: bool,
    /// For a token account: the account as it is cloned, or nothing if its data are malformed.
    pub token_account: Option<Option<Account>>,
}

/// The request with the account as it is cloned, or nothing if that cannot be.
pub open spec fn with_token_account(
    request: AccountCloneRequest,
    token_account: Option<Option<Account>>,
) -> Option<AccountCloneRequest> {
    if request.account.mode == AccountMode::Delegated {
        match token_account {
            Some(Some(account)) => Some(AccountCloneRequest { account, ..request }),
            Some(None) => None,
            None => Some(request),
        }
    } else {
        Some(request)
    }
}

/// The request with the claims that it may make.
pub open spec fn with_true_claims(
    request: AccountCloneRequest,
    validator: Pubkey,
    in_bank: bool,
) -> AccountCloneRequest {
    immutable_normalized(
        if is_unresolved(request, validator) {
            in_mode(request, AccountMode::ReadOnly)
        } else {
            request
        },
        in_bank,
    )
}

/// An error about actions with this text.
pub open spec fn is_actions_error(error: ChainlinkError, pubkey: Pubkey, text: Seq<char>) -> bool {
    error matches ChainlinkError::InvalidDelegationActions(refused, message) && refused == pubkey
        && message@ == text
}

/// Whether `step` is how a clone goes on. An update of an account that the bank does not have
/// is skipped, and so is a delegated account that the rollup runs already. Actions are refused
/// for an update, for an account that is not delegated, and for one whose record was never
/// resolved.
pub open spec fn clone_goes_on(
    request: AccountCloneRequest,
    target: CloneTarget,
    validator: Pubkey,
    step: Result<CloneStep, ChainlinkError>,
) -> bool {
    let in_bank = target.local is Some;
    let has_actions = request.post_delegation_mode is ExecuteActions;
    if target.is_update && !in_bank {
        step == Ok::<CloneStep, ChainlinkError>(CloneStep::Skip)
    } else {
        match with_token_account(request, target.token_account) {
            None => step matches Err(ChainlinkError::InvalidTokenAccount(refused, message))
                && refused == request.pubkey && message@
                == "delegated ATA token data is malformed"@,
            Some(request) => {
                let checked = with_true_claims(request, validator, in_bank);
                if is_unresolved(request, validator) && has_actions {
                    step matches Err(error) && is_actions_error(
                        error,
                        request.pubkey,
                        "post-delegation actions attached to unresolved DLP-owned clone target"@,
                    )
                } else if target.is_update && has_actions {
                    step matches Err(error) && is_actions_error(
                        error,
                        request.pubkey,
                        "account update unexpectedly contains post-delegation actions"@,
                    )
                } else if checked.account.mode == AccountMode::Delegated && target.local == Some(
                    AccountMode::Delegated,
                ) {
                    step == Ok::<CloneStep, ChainlinkError>(CloneStep::Skip)
                } else if !has_actions {
                    step == Ok::<CloneStep, ChainlinkError>(CloneStep::Clone(checked))
                } else if checked.account.mode != AccountMode::Delegated {
                    step matches Err(error) && is_actions_error(
                        error,
                        request.pubkey,
                        "post-delegation actions attached to non-delegated clone target"@,
                    )
                } else {
                    step == Ok::<CloneStep, ChainlinkError>(CloneStep::CloneWithActions(checked))
                }
            },
        }
    }
}

/// Tells how a clone goes on.
pub fn prepare_clone(
    request: AccountCloneRequest,
    target: CloneTarget,
    validator_pubkey: &Pubkey,
) -> (r: Result<CloneStep, ChainlinkError>)
    ensures
        clone_goes_on(request, target, *validator_pubkey, r),
{
    let mut request = request;
    let pubkey = request.pubkey;
    let in_bank = target.local.is_some();
    if target.is_update && !in_bank {
        return Ok(CloneStep::Skip);
    }
    if request.account.is(AccountMode::Delegated) {
        match target.token_account {
            Some(Some(account)) => {
                request.account = account;
            },
            Some(None) => {
                return Err(
                    ChainlinkError::InvalidTokenAccount(
                        pubkey,
                        String::from_str("delegated ATA token data is malformed"),
                    ),
                );
            },
            None => {},
        }
    }
    let normalized = normalize_unresolved_dlp_clone_request(&mut request, validator_pubkey);
    if let Err(error) = normalized {
        return Err(error);
    }
    normalize_immutable_account(&mut request, in_bank);
    let has_actions = request.post_delegation_mode.has_actions();
    if target.is_update && has_actions {
        return Err(
            ChainlinkError::InvalidDelegationActions(
                pubkey,
                String::from_str("account update unexpectedly contains post-delegation actions"),
            ),
        );
    }
    let delegated = request.account.is(AccountMode::Delegated);
    if delegated {
        if let Some(AccountMode::Delegated) = target.local {
            return Ok(CloneStep::Skip);
        }
    }
    if !has_actions {
        return Ok(CloneStep::Clone(request));
    }
    if !delegated {
        return Err(
            ChainlinkError::InvalidDelegationActions(
                pubkey,
                String::from_str(
                    "post-delegation actions attached to non-delegated clone target",
                ),
            ),
        );
    }
    Ok(CloneStep::CloneWithActions(request))
}

/// What is cloned is never an account of the delegation program that this validator says it
/// runs without a resolved record, except its own fee vault; and actions only run for an
/// account that the rollup runs.
pub proof fn law_clones_make_true_claims(
    request: AccountCloneRequest,
    target: CloneTarget,
    validator: Pubkey,
    step: Result<CloneStep, ChainlinkError>,
)
    requires
        clone_goes_on(request, target, validator, step),
    ensures
        step matches Ok(CloneStep::Clone(cloned)) ==> !is_unresolved(cloned, validator)
            && cloned.pubkey == request.pubkey,
        step matches Ok(CloneStep::CloneWithActions(cloned)) ==> {
            &&& !is_unresolved(cloned, validator)
            &&& cloned.account.mode == AccountMode::Delegated
            &&& cloned.pubkey == request.pubkey
            &&& !target.is_update
            &&& target.local != Some(AccountMode::Delegated)
        },
        step matches Ok(CloneStep::Clone(cloned)) ==> cloned.account.mode != AccountMode::Delegated
            || target.local != Some(AccountMode::Delegated),
{
}

/// Claims the undelegation of an account. Returns whether nobody else has it.
pub fn claim_undelegation(pending: &mut Vec<Pubkey>, pubkey: Pubkey) -> (r: bool)
    ensures
        r == !old(pending)@.contains(pubkey),
        final(pending)@ == if r {
            old(pending)@.push(pubkey)
        } else {
            old(pending)@
        },
{
    insert_key(pending, pubkey)
}

/// Gives the undelegation of an account up again.
pub fn release_undelegation(pending: &mut Vec<Pubkey>, pubkey: &Pubkey)
    requires
        old(pending)@.no_duplicates(),
    ensures
        final(pending)@.no_duplicates(),
        forall|other: Pubkey| #[trigger]
            final(pending)@.contains(other) <==> old(pending)@.contains(other) && other != *pubkey,
{
    let ghost before = pending@;
    let mut i: usize = 0;
    while i < pending.len()
        invariant
            i <= pending.len(),
            pending@ == before,
            before == old(pending)@,
            before.no_duplicates(),
            forall|j: int| 0 <= j < i ==> (#[trigger] before[j]) != *pubkey,
        decreases pending.len() - i,
    {
        if pending[i] == *pubkey {
            pending.remove(i);
            proof {
                let after = pending@;
                let at = i as int;
                assert forall|other: Pubkey| #[trigger] after.contains(other) <==> before.contains(
                    other,
                ) && other != *pubkey by {
                    if after.contains(other) {
                        let j = choose|j: int| 0 <= j < after.len() && after[j] == other;
                        let k = if j < at {
                            j
                        } else {
                            j + 1
                        };
                        assert(before[k] == other);
                    }
                    if before.contains(other) && other != *pubkey {
                        let k = choose|k: int| 0 <= k < before.len() && before[k] == other;
                        let j = if k < at {
                            k
                        } else {
                            k - 1
                        };
                        assert(after[j] == other);
                    }
                }
                assert forall|j: int, k: int|
                    0 <= j < after.len() && 0 <= k < after.len() && j != k implies after[j]
                    != after[k] by {
                    let a = if j < at {
                        j
                    } else {
                        j + 1
                    };
                    let b = if k < at {
                        k
                    } else {
                        k + 1
                    };
                    assert(after[j] == before[a]);
                    assert(after[k] == before[b]);
                }
            }
            return;
        }
        i = i + 1;
    }
}

/// Whether an account may be cloned to be given back after this error. If the clone itself
/// failed, it has to be certain that the bank does not have it.
pub open spec fn may_rescue(error: ChainlinkError) -> bool {
    error matches ChainlinkError::ClonerError(cause) ==> cause.rescue_allowed()
}

/// Whether an account whose actions could not be run is cloned to be given back: not if it is
/// on its way already, and not if it may have been cloned after all.
pub fn rescues(error: &ChainlinkError, local: Option<AccountMode>) -> (r: bool)
    ensures
        r == (may_rescue(*error) && local != Some(AccountMode::Transient)),
{
    match error {
        ChainlinkError::ClonerError(cause) => if !cause.allows_rescue() {
            return false;
        },
        _ => {},
    }
    match local {
        Some(AccountMode::Transient) => false,
        _ => true,
    }
}

/// What an account came to whose actions could not be run, by what came of cloning it to be
/// given back. If that failed too, the first error counts.
pub fn after_rescue(
    error: ChainlinkError,
    rescued: Result<Option<(Pubkey, AccountMode)>, ChainlinkError>,
) -> (r: Result<Option<(Pubkey, AccountMode)>, ChainlinkError>)
    ensures
        r == match rescued {
            Ok(materialized) => Ok::<Option<(Pubkey, AccountMode)>, ChainlinkError>(materialized),
            Err(_) => Err(error),
        },
{
    match rescued {
        Ok(materialized) => Ok(materialized),
        Err(_) => Err(error),
    }
}

/// The request that clones an account to give it back, in place of running its actions.
pub fn rescue_request(request: AccountCloneRequest) -> (r: AccountCloneRequest)
    ensures
        r == (AccountCloneRequest {
            post_delegation_mode: match request.post_delegation_mode {
                ClonePostDelegationMode::ExecuteActions(bundle) => {
                    ClonePostDelegationMode::RescueUndelegate(bundle.source())
                },
                _ => request.post_delegation_mode,
            },
            ..request
        }),
{
    let mode = match request.post_delegation_mode {
        ClonePostDelegationMode::ExecuteActions(
            bundle,
        ) => ClonePostDelegationMode::RescueUndelegate(bundle.source_program()),
        other => other,
    };
    AccountCloneRequest {
        pubkey: request.pubkey,
        account: request.account,
        commit_frequency_ms: request.commit_frequency_ms,
        post_delegation_mode: mode,
        delegated_to_other: request.delegated_to_other,
        source_slots: request.source_slots,
    }
}

} // verus!
