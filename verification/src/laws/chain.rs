//! What holds of what is known of accounts on both sides, and of accounts that leave.
use vstd::prelude::*;
use crate::account::{later, Account, AccountMode, RemoteAccount, ResolvedAccount};
use crate::chainlink::blacklisted_accounts::{
    blacklisted_accounts, native_program_accounts, sysvar_accounts,
};
use crate::chainlink::errors::ChainlinkError;
use crate::chainlink::evictions::{next_eviction_step, EvictionCause, EvictionState, EvictionStep};
use crate::chainlink::{
    account_delegation_sessions, account_delegation_statuses, accounts_delegated_on_base_and_er,
    ensure_accounts, pick_pending, AccountDelegationSession, AccountDelegationStatus,
    AccountStatusOnEr, AskedMode,
};
use crate::cloner::errors::{ClonerError, EngineError};
use crate::lists::{lemma_picked_contains, lemma_picked_len};
use crate::program_ids::{
    DLP_PROGRAM_ID, LOADER_V1_ID, LOADER_V2_ID, LOADER_V3_ID, LOADER_V4_ID, MAGIC_CONTEXT_ID,
    MAGIC_PROGRAM_ID, NATIVE_LOADER_ID, NATIVE_MINT_ID, STAKE_CONFIG_ID, SYSTEM_PROGRAM_ID,
    SYSVAR_CLOCK_ID, SYSVAR_RENT_ID, TOKEN_PROGRAM_ID, VOTE_PROGRAM_ID,
};
use crate::pubkey::{lemma_distinct_keys, Pubkey};

verus! {

/// An account has to be fetched before it can be used exactly if the rollup does not have it or
/// it is on its way back.
pub proof fn law_absent_accounts_are_ensured(asked: Vec<AskedMode>, i: int, r: Vec<Pubkey>)
    requires
        call_ensures(ensure_accounts, (&asked,), r),
        0 <= i < asked@.len(),
    ensures
        asked@[i].1 is None ==> r@.contains(asked@[i].0),
        asked@[i].1 == Some(AccountMode::Transient) ==> r@.contains(asked@[i].0),
        asked@[i].1 is Some && asked@[i].1 != Some(AccountMode::Transient) && (forall|j: int|
            0 <= j < asked@.len() && j != i ==> (#[trigger] asked@[j]).0 != asked@[i].0)
            ==> !r@.contains(asked@[i].0),
        r@.len() <= asked@.len(),
{
    lemma_picked_len(asked@, pick_pending());
    lemma_picked_contains(asked@, pick_pending(), asked@[i].0);
    if asked@[i].1 is None || asked@[i].1 == Some(AccountMode::Transient) {
        assert(pick_pending()(asked@[i]) == Some(asked@[i].0));
    } else if r@.contains(asked@[i].0) {
        let j = choose|j: int|
            0 <= j < asked@.len() && pick_pending()(#[trigger] asked@[j]) == Some(asked@[i].0);
        assert(asked@[j].0 == asked@[i].0);
        assert(j != i);
    }
}

/// An account that the rollup has is protected exactly if the rollup runs it or it is on its
/// way back; an account that it does not have has no session.
pub proof fn law_sessions_protect_run_accounts(
    locals: Vec<Option<(AccountMode, u64)>>,
    i: int,
    r: Vec<Option<AccountDelegationSession>>,
)
    requires
        call_ensures(account_delegation_sessions, (&locals,), r),
        0 <= i < locals@.len(),
    ensures
        r@.len() == locals@.len(),
        r@[i] is Some <==> locals@[i] is Some,
        locals@[i] matches Some((mode, slot)) ==> (r@[i]->0).remote_slot == slot && ((
        r@[i]->0).locally_protected <==> mode == AccountMode::Delegated || mode
            == AccountMode::Transient),
{
}

/// Both sides are told as they are: the chain has an account delegated exactly if the
/// delegation program owns it, and the rollup exactly if it runs it or the delegation program
/// owns its copy.
pub proof fn law_both_sides_are_told(
    locals: Vec<Option<(AccountMode, Pubkey)>>,
    remotes: Vec<RemoteAccount>,
    i: int,
    r: Result<Vec<AccountDelegationStatus>, ChainlinkError>,
)
    requires
        call_ensures(account_delegation_statuses, (&locals, &Some(remotes)), r),
        0 <= i < locals@.len(),
    ensures
        r is Ok <==> remotes@.len() == locals@.len(),
        r matches Ok(statuses) ==> {
            &&& statuses@.len() == locals@.len()
            &&& statuses@[i].delegated_on_base <==> (remotes@[i] matches RemoteAccount::Found(
                ResolvedAccount::Fresh(account),
            ) && account.owner.bytes == DLP_PROGRAM_ID)
            &&& locals@[i] is None <==> statuses@[i].account_on_er == AccountStatusOnEr::Missing
            &&& locals@[i] matches Some((mode, owner)) ==> (statuses@[i].account_on_er
                == AccountStatusOnEr::Delegated <==> mode == AccountMode::Delegated || owner.bytes
                == DLP_PROGRAM_ID)
        },
{
}

/// A rollup that follows no chain says nothing of any account.
pub proof fn law_without_a_chain_nothing_is_delegated(
    locals: Vec<Option<(AccountMode, Pubkey)>>,
    i: int,
    r: Result<Vec<AccountDelegationStatus>, ChainlinkError>,
)
    requires
        call_ensures(account_delegation_statuses, (&locals, &None), r),
        0 <= i < locals@.len(),
    ensures
        r matches Ok(statuses) && statuses@.len() == locals@.len()
            && !statuses@[i].delegated_on_base && statuses@[i].account_on_er
            == AccountStatusOnEr::Missing,
{
}

/// An account is ready exactly if both sides say that it is delegated; if not, there is a
/// reason.
pub proof fn law_ready_accounts_are_delegated_on_both_sides(
    status: AccountDelegationStatus,
    ready: bool,
    reason: Option<&'static str>,
)
    requires
        call_ensures(AccountDelegationStatus::delegated_on_base_and_er, (&status,), ready),
        call_ensures(AccountDelegationStatus::not_ready_reason, (&status,), reason),
    ensures
        ready <==> status.delegated_on_base && status.account_on_er
            == AccountStatusOnEr::Delegated,
        reason is None <==> ready,
        !status.delegated_on_base ==> (reason->0)@ == "not_delegated_on_base"@,
        status.delegated_on_base && status.account_on_er == AccountStatusOnEr::Missing ==> (
        reason->0)@ == "delegated_on_base_missing_on_er"@,
        status.delegated_on_base && status.account_on_er == AccountStatusOnEr::NotDelegated ==> (
        reason->0)@ == "delegated_on_base_not_delegated_on_er"@,
{
}

/// The same of a list.
pub proof fn law_ready_accounts_are_listed(
    statuses: Vec<AccountDelegationStatus>,
    i: int,
    r: Vec<bool>,
)
    requires
        call_ensures(accounts_delegated_on_base_and_er, (&statuses,), r),
        0 <= i < statuses@.len(),
    ensures
        r@.len() == statuses@.len(),
        r@[i] <==> statuses@[i].delegated_on_base && statuses@[i].account_on_er
            == AccountStatusOnEr::Delegated,
{
}

/// An account that nobody watches is claimed, then unsubscribed from, then removed; each step
/// only if the one before it was done. One that is watched again stays, unless the cache let it
/// go; then what it showed a balance of is let go too.
pub proof fn law_evictions_go_step_by_step(
    cause: EvictionCause,
    watching: bool,
    done: bool,
    shown: Option<Pubkey>,
    a: EvictionStep,
    b: EvictionStep,
    c: EvictionStep,
    d: EvictionStep,
)
    requires
        call_ensures(next_eviction_step, (cause, EvictionState::Locked { watching }), a),
        call_ensures(next_eviction_step, (cause, EvictionState::Claimed(done)), b),
        call_ensures(next_eviction_step, (cause, EvictionState::Unsubscribed(done)), c),
        call_ensures(
            next_eviction_step,
            (cause, EvictionState::Removed { done, shown_from: shown }),
            d,
        ),
    ensures
        a is Stop <==> cause == EvictionCause::Unwatched && watching,
        a is Claim <==> cause == EvictionCause::Displaced || !watching,
        done ==> b is Unsubscribe && c is Remove,
        !done ==> b is Stop && c is Stop && d is Stop,
        done && cause == EvictionCause::Displaced ==> (shown matches Some(key) ==> d
            == EvictionStep::ReleaseProjection(key)),
        cause == EvictionCause::Unwatched || shown is None ==> d is Stop,
{
}

/// The accounts that are never cloned are each named once: among them the validator, the
/// faucet, the sysvars, the loaders, the usual programs of every chain and those of the rollup
/// itself.
pub proof fn law_built_in_accounts_are_never_cloned(
    validator: Pubkey,
    faucet: Pubkey,
    key: Pubkey,
    r: Vec<Pubkey>,
    sysvars: Vec<Pubkey>,
    natives: Vec<Pubkey>,
)
    requires
        call_ensures(blacklisted_accounts, (&validator, &faucet), r),
        call_ensures(sysvar_accounts, (), sysvars),
        call_ensures(native_program_accounts, (), natives),
    ensures
        r@.no_duplicates(),
        r@.contains(validator),
        r@.contains(faucet),
        sysvars@.contains(key) ==> r@.contains(key),
        natives@.contains(key) ==> r@.contains(key),
        key.bytes == MAGIC_PROGRAM_ID || key.bytes == MAGIC_CONTEXT_ID || key.bytes
            == NATIVE_MINT_ID || key.bytes == STAKE_CONFIG_ID ==> r@.contains(key),
        key.bytes == SYSTEM_PROGRAM_ID || key.bytes == VOTE_PROGRAM_ID || key.bytes
            == TOKEN_PROGRAM_ID || key.bytes == NATIVE_LOADER_ID || key.bytes == LOADER_V1_ID
            || key.bytes == LOADER_V2_ID || key.bytes == LOADER_V3_ID || key.bytes
            == LOADER_V4_ID ==> natives@.contains(key),
        key.bytes == SYSVAR_CLOCK_ID || key.bytes == SYSVAR_RENT_ID ==> sysvars@.contains(key),
        r@.contains(key) ==> sysvars@.contains(key) || natives@.contains(key) || key == validator
            || key == faucet || key.bytes == MAGIC_PROGRAM_ID || key.bytes == MAGIC_CONTEXT_ID
            || key.bytes == NATIVE_MINT_ID || key.bytes == STAKE_CONFIG_ID,
{
    let others = crate::chainlink::blacklisted_accounts::other_blacklisted(validator, faucet);
    let s = sysvars@;
    let n = natives@;
    let all = s + n + others;
    let start = (s.len() + n.len()) as int;
    lemma_distinct_keys(all);
    assert(others[0].bytes == STAKE_CONFIG_ID && others[1].bytes == NATIVE_MINT_ID
        && others[2].bytes == MAGIC_PROGRAM_ID && others[3].bytes == MAGIC_CONTEXT_ID && others[4]
        == validator && others[5] == faucet);
    assert(all[start] == others[0]);
    assert(all[start + 1] == others[1]);
    assert(all[start + 2] == others[2]);
    assert(all[start + 3] == others[3]);
    assert(all[start + 4] == others[4]);
    assert(all[start + 5] == others[5]);
    if s.contains(key) {
        let i = choose|i: int| 0 <= i < s.len() && s[i] == key;
        assert(all[i] == key);
    }
    if n.contains(key) {
        let i = choose|i: int| 0 <= i < n.len() && n[i] == key;
        assert(all[s.len() + i] == key);
    }
    if all.contains(key) {
        let i = choose|i: int| 0 <= i < all.len() && all[i] == key;
        if i < s.len() {
            assert(s[i] == key);
        } else if i < s.len() + n.len() {
            assert(n[i - s.len()] == key);
        } else {
            assert(others[i - s.len() - n.len()] == key);
        }
    }
    assert(n[1].bytes == LOADER_V2_ID && n[2].bytes == LOADER_V3_ID && n[3].bytes == LOADER_V1_ID
        && n[8].bytes == LOADER_V4_ID && n[9].bytes == NATIVE_LOADER_ID && n[12].bytes
        == SYSTEM_PROGRAM_ID && n[13].bytes == VOTE_PROGRAM_ID && n[14].bytes == TOKEN_PROGRAM_ID);
    assert(s[1].bytes == SYSVAR_CLOCK_ID && s[8].bytes == SYSVAR_RENT_ID);
}

/// An account may be rescued after an error of its clone only if the engine rejected the clone
/// for certain; what wraps such an error for an ordinary account does not change that.
pub proof fn law_rescues_need_certainty(
    error: EngineError,
    inner: ClonerError,
    pubkey: Pubkey,
    engine: bool,
    plain: bool,
    wrapped: bool,
    other: bool,
)
    requires
        call_ensures(ClonerError::allows_rescue, (&ClonerError::Engine(error),), engine),
        call_ensures(ClonerError::allows_rescue, (&inner,), plain),
        call_ensures(
            ClonerError::allows_rescue,
            (&ClonerError::FailedToCloneRegularAccount(pubkey, Box::new(inner)),),
            wrapped,
        ),
        call_ensures(
            ClonerError::allows_rescue,
            (&ClonerError::FailedToCloneAndScheduleUndelegation(pubkey, Box::new(inner)),),
            other,
        ),
    ensures
        engine <==> error is TransactionExecution || error is TransactionCompile || error
            is Sanitization || error is Signature || error is SignatureVerification || error
            is Serde,
        error is ShuttingDown || error is ServiceUnavailable || error is Task || error is Internal
            ==> !engine,
        wrapped == plain,
        !other,
{
}

/// The state that the chain gave is that of an account found there, and the slot is that of
/// whatever was said.
pub proof fn law_answers_are_read(
    remote: RemoteAccount,
    slot: u64,
    owned: bool,
    fresh: Option<&Account>,
)
    requires
        call_ensures(RemoteAccount::slot, (&remote,), slot),
        call_ensures(RemoteAccount::is_owned_by_delegation_program, (&remote,), owned),
        call_ensures(RemoteAccount::fresh_account, (&remote,), fresh),
    ensures
        remote matches RemoteAccount::NotFound(at) ==> slot == at && !owned && fresh is None,
        remote matches RemoteAccount::Found(ResolvedAccount::Bank(_, at)) ==> slot == at && !owned
            && fresh is None,
        remote matches RemoteAccount::Found(ResolvedAccount::Fresh(account)) ==> slot
            == account.slot && (owned <==> account.owner.bytes == DLP_PROGRAM_ID) && fresh == Some(
            &account,
        ),
{
}

/// Marking an account as delegated or not changes its mode and nothing else; one that is not
/// delegated stays in the mode that it is in.
pub proof fn law_marking_changes_the_mode(account: &mut Account, delegated: bool)
    requires
        call_ensures(Account::set_delegated, (account, delegated), ()),
    ensures
        delegated <==> final(account).mode == AccountMode::Delegated,
        !delegated && old(account).mode != AccountMode::Delegated ==> final(account).mode
            == old(account).mode,
        !delegated && old(account).mode == AccountMode::Delegated ==> final(account).mode
            == AccountMode::ReadOnly,
        final(account).lamports == old(account).lamports,
        final(account).data == old(account).data,
        final(account).owner == old(account).owner,
        final(account).executable == old(account).executable,
        final(account).slot == old(account).slot,
        final(account).confined == old(account).confined,
        final(account).compressed == old(account).compressed,
{
}

/// A new account has its balance and its owner and nothing else.
pub proof fn law_new_accounts_are_empty(lamports: u64, owner: Pubkey, r: Account, dlp: bool)
    requires
        call_ensures(Account::new, (lamports, owner), r),
        call_ensures(Account::is_owned_by_dlp, (&r,), dlp),
    ensures
        r.lamports == lamports,
        r.owner == owner,
        r.data@.len() == 0,
        !r.executable && !r.confined && !r.compressed,
        r.slot == 0,
        r.mode == AccountMode::ReadOnly,
        dlp <==> owner.bytes == DLP_PROGRAM_ID,
{
}

/// Of two slots the later one counts.
pub proof fn law_later_slots_count(a: u64, b: u64, r: u64)
    requires
        call_ensures(later, (a, b), r),
    ensures
        r >= a && r >= b,
        r == a || r == b,
{
}

} // verus!
