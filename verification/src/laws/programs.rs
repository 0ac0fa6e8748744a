//! What holds of programs that are fetched, loaded, watched and loaded anew.
use vstd::prelude::*;
use crate::account::{Account, AccountMode, RemoteAccount, SubscriptionReason};
use crate::chainlink::errors::ChainlinkError;
use crate::chainlink::fetch_cloner::ownership::{
    finish_watch, program_clone_step, start_watch, unwatches_after_clone, ProgramCloneStep,
    ProgramDataWatch, WatchEnd, WatchStart,
};
use crate::chainlink::fetch_cloner::pipeline::{
    batch_slot, pair_programs, pick_failed, pick_loaded, pick_loader_v3, pick_unreadable,
    pick_without_code, plan_program_fetch, program_step, resolve_programs_with_program_data,
    sort_loads, BankPair, ProgramFetch, ProgramLoad, ProgramStep, ProgramsOutcome, SortedLoads,
};
use crate::chainlink::fetch_cloner::program_loader::{
    deferred_verify_due, executable_step, header_is_unchanged, programdata_header,
    remember_program, resolve_update_for_loaded_program, ExecutableStep, LoadedProgramStep,
    ProgramVerifyState,
};
use crate::chainlink::fetch_cloner::program_reload::{LoadableProgram, ProgramReload, ReloadStep};
use crate::chainlink::fetch_cloner::subscription::{program_data_releases, SubscriptionRelease};
use crate::chainlink::fetch_cloner::types::AccountWithCompanion;
use crate::cloner::{resolve_program, AccountCloneRequest, LoadedProgram, RemoteProgramLoader};
use crate::lists::{lemma_picked_contains, lemma_picked_parts, picked};
use crate::lru_map::{holds, lemma_position, lemma_position_of, LruMap};
use crate::pda::program_data_address;
use crate::program_ids::{LOADER_V1_ID, LOADER_V2_ID, LOADER_V3_ID, LOADER_V4_ID};
use crate::pubkey::{lemma_distinct_keys, Pubkey};

verus! {

proof fn lemma_batch_slot(programs: Seq<(Pubkey, Account, u64)>, min: Option<u64>, i: int)
    requires
        0 <= i < programs.len(),
    ensures
        batch_slot(programs, min) matches Some(slot) && slot >= programs[i].2 && (min matches Some(
            min,
        ) ==> slot >= min),
    decreases programs.len(),
{
    if i < programs.len() - 1 {
        assert(programs.drop_last()[i] == programs[i]);
        lemma_batch_slot(programs.drop_last(), min, i);
    }
}

proof fn lemma_batch_slot_is_one(programs: Seq<(Pubkey, Account, u64)>, min: Option<u64>)
    ensures
        programs.len() == 0 ==> batch_slot(programs, min) == min,
        batch_slot(programs, min) matches Some(slot) ==> (min == Some(slot) || exists|i: int|
            0 <= i < programs.len() && (#[trigger] programs[i]).2 == slot),
    decreases programs.len(),
{
    if programs.len() > 0 {
        let short = programs.drop_last();
        lemma_batch_slot_is_one(short, min);
        let slot = batch_slot(programs, min)->0;
        assert(programs[programs.len() - 1] == programs.last());
        if min != Some(slot) && programs.last().2 != slot {
            assert(batch_slot(short, min) == Some(slot));
            let i = choose|i: int| 0 <= i < short.len() && (#[trigger] short[i]).2 == slot;
            assert(programs[i] == short[i]);
        }
    }
}

/// Every program is fetched: one of the third loader together with the account that keeps its
/// code, any other by itself.
pub proof fn law_all_programs_are_fetched(
    programs: Vec<(Pubkey, Account, u64)>,
    min: Option<u64>,
    i: int,
    r: ProgramFetch,
)
    requires
        call_ensures(plan_program_fetch, (programs, min), r),
        0 <= i < programs@.len(),
    ensures
        programs@[i].1.owner.bytes == LOADER_V3_ID ==> r.loader_v3@.contains(programs@[i]),
        programs@[i].1.owner.bytes != LOADER_V3_ID ==> r.single@.contains(programs@[i]),
        r.loader_v3@.len() + r.single@.len() == programs@.len(),
        r.program_data@.len() == r.loader_v3@.len(),
        forall|k: int|
            0 <= k < r.loader_v3@.len() ==> (#[trigger] r.program_data@[k])@
                == program_data_address(r.loader_v3@[k].0@),
{
    lemma_picked_parts(programs@, pick_loader_v3(true), pick_loader_v3(false));
    lemma_picked_contains(programs@, pick_loader_v3(true), programs@[i]);
    lemma_picked_contains(programs@, pick_loader_v3(false), programs@[i]);
    assert(pick_loader_v3(true)(programs@[i]) == Some(programs@[i]) || pick_loader_v3(false)(
        programs@[i],
    ) == Some(programs@[i]));
}

/// Programs with their code are fetched at a slot that is late enough for each of them, and not
/// later than it has to be.
pub proof fn law_programs_are_fetched_late_enough(
    programs: Vec<(Pubkey, Account, u64)>,
    min: Option<u64>,
    k: int,
    r: ProgramFetch,
)
    requires
        call_ensures(plan_program_fetch, (programs, min), r),
        0 <= k < r.loader_v3@.len(),
    ensures
        r.min_context_slot matches Some(slot) && slot >= r.loader_v3@[k].2 && (min matches Some(
            min,
        ) ==> slot >= min) && (min == Some(slot) || exists|i: int|
            0 <= i < r.loader_v3@.len() && (#[trigger] r.loader_v3@[i]).2 == slot),
{
    lemma_batch_slot(r.loader_v3@, min, k);
    lemma_batch_slot_is_one(r.loader_v3@, min);
}

/// What is fetched is each program, and right after it its code.
pub proof fn law_programs_are_fetched_with_their_code(
    plan: ProgramFetch,
    k: int,
    r: Vec<Pubkey>,
    subs: Vec<Pubkey>,
)
    requires
        plan.wf(),
        call_ensures(ProgramFetch::pubkeys_to_fetch, (&plan,), r),
        call_ensures(ProgramFetch::program_data_subs, (&plan,), subs),
        0 <= k < plan.loader_v3@.len(),
    ensures
        r@.len() == 2 * plan.loader_v3@.len(),
        r@[2 * k] == plan.loader_v3@[k].0,
        r@[2 * k + 1]@ == program_data_address(plan.loader_v3@[k].0@),
        subs@.contains(r@[2 * k + 1]),
        subs@.no_duplicates(),
{
    lemma_distinct_keys(plan.program_data@);
    assert(r@[2 * k] == plan.to_fetch()[2 * k]);
    assert(r@[2 * k + 1] == plan.to_fetch()[2 * k + 1]);
    assert((2 * k) / 2 == k && (2 * k) % 2 == 0 && (2 * k + 1) / 2 == k && (2 * k + 1) % 2 == 1);
    assert(plan.program_data@[k]@ == program_data_address(plan.loader_v3@[k].0@));
    assert(plan.program_data@.contains(plan.program_data@[k]));
}

/// A program is loaded exactly if it was put together with its code.
pub proof fn law_programs_need_their_code(
    pair: AccountWithCompanion,
    error: ChainlinkError,
    r: ProgramStep,
    failed: ProgramStep,
)
    requires
        call_ensures(program_step, (Ok(pair),), r),
        call_ensures(program_step, (Err(error),), failed),
    ensures
        failed == ProgramStep::Failed(error),
        pair.companion_account matches Some(code) ==> r == (ProgramStep::Load {
            program_id: pair.pubkey,
            owner: pair.account.owner,
            code,
        }),
        pair.companion_account is None ==> r == (ProgramStep::WithoutCode {
            program_id: pair.pubkey,
            program_data: pair.companion_pubkey,
        }),
{
}

proof fn lemma_pick<A, B>(list: Seq<A>, pick: spec_fn(A) -> Option<B>, i: int, item: B)
    requires
        0 <= i < list.len(),
        pick(list[i]) == Some(item),
    ensures
        picked(list, pick).contains(item),
        picked(list, pick).len() > 0,
{
    lemma_picked_contains(list, pick, item);
}

/// Programs are resolved exactly if all of them could be had, have code and could be read; then
/// all of them are loaded. If one could not be had, or has no code, everything that was
/// subscribed to is given back.
pub proof fn law_programs_are_resolved_together(
    loads: Vec<ProgramLoad>,
    fetched: Vec<Pubkey>,
    subs: Vec<Pubkey>,
    i: int,
    r: ProgramsOutcome,
)
    requires
        call_ensures(resolve_programs_with_program_data, (loads, &fetched, subs), r),
        0 <= i < loads@.len(),
    ensures
        loads@[i] is Failed || loads@[i] is WithoutCode || (loads@[i] matches ProgramLoad::Read(read)
            && read is Err) ==> r.result is Err,
        r.result matches Ok(resolved) ==> {
            &&& loads@[i] matches ProgramLoad::Read(Ok(program))
            &&& resolved.loaded_programs@.contains(program)
            &&& resolved.program_data_subs == subs
            &&& r.releases@.len() == 0
        },
        (forall|k: int|
            0 <= k < loads@.len() ==> ((#[trigger] loads@[k]) matches ProgramLoad::Read(read)
                && read is Ok)) ==> r.result is Ok,
        r.result is Err && !(exists|k: int|
            0 <= k < loads@.len() && ((#[trigger] loads@[k]) matches ProgramLoad::Read(read)
                && read is Err)) ==> r.releases@.len() == fetched@.len() + subs@.len(),
{
    let unreadable = picked(loads@, pick_unreadable());
    let failed = picked(loads@, pick_failed());
    let without = picked(loads@, pick_without_code());
    match loads@[i] {
        ProgramLoad::Failed(error) => {
            lemma_pick(loads@, pick_failed(), i, error);
        },
        ProgramLoad::WithoutCode { program_id, program_data } => {
            lemma_pick(
                loads@,
                pick_without_code(),
                i,
                ChainlinkError::FailedToResolveProgramDataAccount(program_data, program_id),
            );
        },
        ProgramLoad::Read(Err(error)) => {
            lemma_pick(loads@, pick_unreadable(), i, error);
        },
        ProgramLoad::Read(Ok(program)) => {
            lemma_pick(loads@, pick_loaded(), i, program);
        },
    }
    if unreadable.len() > 0 {
        lemma_picked_contains(loads@, pick_unreadable(), unreadable[0]);
        assert(unreadable.contains(unreadable[0]));
        let k = choose|k: int|
            0 <= k < loads@.len() && pick_unreadable()(#[trigger] loads@[k]) == Some(
                unreadable[0],
            );
        assert(loads@[k] matches ProgramLoad::Read(read) && read is Err);
    }
    if failed.len() > 0 {
        lemma_picked_contains(loads@, pick_failed(), failed[0]);
        assert(failed.contains(failed[0]));
    }
    if without.len() > 0 {
        lemma_picked_contains(loads@, pick_without_code(), without[0]);
        assert(without.contains(without[0]));
    }
}

/// What became of programs is sorted without loss.
pub proof fn law_loads_are_sorted(loads: Vec<ProgramLoad>, i: int, r: SortedLoads)
    requires
        call_ensures(sort_loads, (loads,), r),
        0 <= i < loads@.len(),
    ensures
        match loads@[i] {
            ProgramLoad::Failed(error) => r.errors@.contains(error),
            ProgramLoad::WithoutCode { program_id, program_data } => r.errors@.contains(
                ChainlinkError::FailedToResolveProgramDataAccount(program_data, program_id),
            ),
            ProgramLoad::Read(Err(error)) => r.unreadable@.contains(error),
            ProgramLoad::Read(Ok(program)) => r.loaded@.contains(program),
        },
{
    let failed = picked(loads@, pick_failed());
    let without = picked(loads@, pick_without_code());
    match loads@[i] {
        ProgramLoad::Failed(error) => {
            lemma_pick(loads@, pick_failed(), i, error);
            let n = choose|n: int| 0 <= n < failed.len() && failed[n] == error;
            assert(r.errors@[n] == error);
        },
        ProgramLoad::WithoutCode { program_id, program_data } => {
            let error = ChainlinkError::FailedToResolveProgramDataAccount(
                program_data,
                program_id,
            );
            lemma_pick(loads@, pick_without_code(), i, error);
            let n = choose|n: int| 0 <= n < without.len() && without[n] == error;
            assert(r.errors@[failed.len() + n] == error);
        },
        ProgramLoad::Read(Err(error)) => {
            lemma_pick(loads@, pick_unreadable(), i, error);
        },
        ProgramLoad::Read(Ok(program)) => {
            lemma_pick(loads@, pick_loaded(), i, program);
        },
    }
}

/// A fetch that failed is the only thing that is said of it.
pub proof fn law_failed_program_fetches_are_told(
    plan: ProgramFetch,
    keys: Vec<Pubkey>,
    message: String,
    in_bank: Vec<BankPair>,
    r: Vec<Result<AccountWithCompanion, ChainlinkError>>,
)
    requires
        plan.wf(),
        keys@ == plan.to_fetch(),
        in_bank@.len() == plan.loader_v3@.len(),
        call_ensures(pair_programs, (&plan, &keys, Err(message), in_bank), r),
    ensures
        r@.len() == 1,
        r@[0] == Err::<AccountWithCompanion, _>(ChainlinkError::RemoteAccountProviderError(message)),
{
}

/// Each program is put together with the code that was fetched right after it.
pub proof fn law_programs_are_paired(
    plan: ProgramFetch,
    keys: Vec<Pubkey>,
    accounts: Vec<RemoteAccount>,
    in_bank: Vec<BankPair>,
    k: int,
    r: Vec<Result<AccountWithCompanion, ChainlinkError>>,
    one: Result<AccountWithCompanion, ChainlinkError>,
)
    requires
        plan.wf(),
        keys@ == plan.to_fetch(),
        in_bank@.len() == plan.loader_v3@.len(),
        call_ensures(pair_programs, (&plan, &keys, Ok(accounts), in_bank), r),
        accounts@.len() == 2 * plan.loader_v3@.len(),
        0 <= k < plan.loader_v3@.len(),
        call_ensures(
            crate::chainlink::fetch_cloner::fetching::resolve_account_with_companion,
            (
                plan.loader_v3@[k].0,
                plan.program_data@[k],
                accounts@[2 * k],
                accounts@[2 * k + 1],
                in_bank@[k].account,
                in_bank@[k].companion,
            ),
            one,
        ),
    ensures
        r@.len() == plan.loader_v3@.len(),
        r@[k] == one,
{
}

/// An update of a program is looked at exactly if the program may be cloned and its loader is
/// one that can change programs.
pub proof fn law_changed_programs_are_looked_at(
    allowed: Option<Vec<Pubkey>>,
    pubkey: Pubkey,
    owner: Pubkey,
    r: ExecutableStep,
)
    requires
        call_ensures(executable_step, (&allowed, &pubkey, &owner), r),
    ensures
        owner.bytes == LOADER_V1_ID ==> r == ExecutableStep::Ignore,
        (allowed matches Some(programs) && programs@.len() > 0 && !programs@.contains(pubkey))
            ==> r == ExecutableStep::Ignore,
        owner.bytes != LOADER_V1_ID && (allowed matches Some(programs) ==> programs@.len() == 0
            || programs@.contains(pubkey)) ==> {
            &&& r matches ExecutableStep::Resolve { program_data, of_loader_v3 }
            &&& program_data@ == program_data_address(pubkey@)
            &&& of_loader_v3 <==> owner.bytes == LOADER_V3_ID
        },
{
}

/// A program that is not remembered, or that the bank lost, is loaded anew.
pub proof fn law_unknown_programs_are_loaded(
    cache: &mut LruMap<ProgramVerifyState>,
    pubkey: Pubkey,
    in_bank: bool,
    owner: Pubkey,
    now: u64,
    r: LoadedProgramStep,
)
    requires
        old(cache).wf(),
        call_ensures(
            resolve_update_for_loaded_program,
            (cache, &pubkey, in_bank, &owner, now),
            r,
        ),
        old(cache).value(pubkey) is None || !in_bank,
    ensures
        r is Reload,
{
}

/// A remembered program of the second loader never changes; one of the third is looked at at
/// most once a minute, but a look that was put off is taken later; any other is loaded anew.
pub proof fn law_known_programs_are_looked_at(
    cache: &mut LruMap<ProgramVerifyState>,
    pubkey: Pubkey,
    owner: Pubkey,
    now: u64,
    r: LoadedProgramStep,
)
    requires
        old(cache).wf(),
        call_ensures(resolve_update_for_loaded_program, (cache, &pubkey, true, &owner, now), r),
        old(cache).value(pubkey) is Some,
    ensures
        ({
            let state = old(cache).value(pubkey)->0;
            let recent = now < state.verified_at || now - state.verified_at < 60_000;
            &&& owner.bytes == LOADER_V2_ID ==> r is Done
            &&& owner.bytes != LOADER_V2_ID && owner.bytes != LOADER_V3_ID ==> r is Reload
            &&& owner.bytes == LOADER_V3_ID && recent && state.deferred_verify ==> r is Done
            &&& owner.bytes == LOADER_V3_ID && recent && !state.deferred_verify ==> {
                &&& r matches LoadedProgramStep::Defer { delay_ms }
                &&& state.verified_at <= now ==> now + delay_ms == state.verified_at + 60_010
                &&& final(cache).value(pubkey) matches Some(after)
                &&& after.deferred_verify
                &&& after.verified_at == state.verified_at
                &&& after.programdata_header == state.programdata_header
            }
            &&& owner.bytes == LOADER_V3_ID && !recent ==> match state.programdata_header {
                None => r is Reload,
                Some(header) => r matches LoadedProgramStep::CheckHeader { loaded_header }
                    && loaded_header@ == header@,
            }
        }),
{
    old(cache).lemma_wf();
    final(cache).lemma_wf();
    lemma_loaders_differ();
    let before = old(cache).entries();
    lemma_position(before, pubkey.bytes);
    if final(cache).entries().len() > 0 {
        lemma_position_of(final(cache).entries(), 0);
    }
}

proof fn lemma_loaders_differ()
    ensures
        LOADER_V2_ID != LOADER_V3_ID,
{
    assert(LOADER_V2_ID[7] != LOADER_V3_ID[7]);
}

/// A header is the first bytes of a program's code account.
pub proof fn law_headers_come_first(data: Vec<u8>, r: Option<Vec<u8>>)
    requires
        call_ensures(programdata_header, (&data,), r),
    ensures
        r is Some <==> data@.len() >= 45,
        r matches Some(header) ==> header@ == data@.subrange(0, 45),
{
    if r is Some {
        assert(data@.take(45) =~= data@.subrange(0, 45));
    }
}

/// A program counts as unchanged exactly if its header on chain begins with the one that it was
/// loaded with and no more is compared; then the time of the look is noted.
pub proof fn law_changed_headers_are_noticed(
    cache: &mut LruMap<ProgramVerifyState>,
    pubkey: Pubkey,
    fetched: Option<Vec<u8>>,
    loaded_header: Vec<u8>,
    now: u64,
    r: bool,
)
    requires
        old(cache).wf(),
        loaded_header@.len() == 45,
        call_ensures(header_is_unchanged, (cache, &pubkey, &fetched, &loaded_header, now), r),
    ensures
        fetched is None ==> !r,
        fetched matches Some(header) ==> (r <==> header@.len() >= 45 && header@.subrange(0, 45)
            == loaded_header@),
        r && old(cache).value(pubkey) is Some ==> {
            &&& final(cache).value(pubkey) matches Some(after)
            &&& after.verified_at == now
            &&& after.programdata_header == (old(cache).value(pubkey)->0).programdata_header
            &&& after.deferred_verify == (old(cache).value(pubkey)->0).deferred_verify
        },
        !r ==> final(cache).entries() == old(cache).entries(),
{
    old(cache).lemma_wf();
    final(cache).lemma_wf();
    lemma_position(old(cache).entries(), pubkey.bytes);
    if final(cache).entries().len() > 0 {
        lemma_position_of(final(cache).entries(), 0);
    }
    if fetched is Some {
        let header = (fetched->0)@;
        if header.len() >= 45 {
            assert(header.take(45) =~= header.subrange(0, 45));
        }
    }
}

/// A look that was put off is put off no longer once it is taken.
pub proof fn law_deferred_looks_are_taken(cache: &mut LruMap<ProgramVerifyState>, pubkey: Pubkey)
    requires
        old(cache).wf(),
        call_ensures(deferred_verify_due, (cache, &pubkey), ()),
    ensures
        old(cache).value(pubkey) is Some ==> {
            &&& final(cache).value(pubkey) matches Some(after)
            &&& !after.deferred_verify
            &&& after.verified_at == (old(cache).value(pubkey)->0).verified_at
            &&& after.programdata_header == (old(cache).value(pubkey)->0).programdata_header
        },
        old(cache).value(pubkey) is None ==> final(cache).entries() == old(cache).entries(),
{
    old(cache).lemma_wf();
    final(cache).lemma_wf();
    lemma_position(old(cache).entries(), pubkey.bytes);
    if final(cache).entries().len() > 0 {
        lemma_position_of(final(cache).entries(), 0);
    }
}

/// A program that was loaded is remembered with its header if its code is in another account,
/// and no look at it is put off.
pub proof fn law_loaded_programs_are_remembered(
    cache: &mut LruMap<ProgramVerifyState>,
    pubkey: Pubkey,
    of_loader_v3: bool,
    header: Option<Vec<u8>>,
    now: u64,
)
    requires
        old(cache).wf(),
        call_ensures(remember_program, (cache, pubkey, of_loader_v3, header, now), ()),
    ensures
        final(cache).value(pubkey) matches Some(state) && state.verified_at == now
            && !state.deferred_verify && (of_loader_v3 ==> state.programdata_header == header) && (
        !of_loader_v3 ==> state.programdata_header is None),
{
    old(cache).lemma_wf();
    final(cache).lemma_wf();
    assert(final(cache).entries()[0].0 == pubkey.bytes);
    lemma_position_of(final(cache).entries(), 0);
}

/// A program of the third loader is fetched with its code, as of the slot of its update; any
/// other is loaded from the update.
pub proof fn law_reloads_start(reload: ProgramReload, account: Account, r: ReloadStep)
    requires
        call_ensures(ProgramReload::start, (&reload, account), r),
    ensures
        reload.of_loader_v3 ==> r == (ReloadStep::Fetch { slot: account.slot }),
        !reload.of_loader_v3 ==> r == (ReloadStep::Load { program: account }),
{
}

/// A reload goes on with what was fetched and loaded, and if either failed, all that was
/// subscribed to for it is given back, both reasons of it.
pub proof fn law_reloads_go_on(
    reload: ProgramReload,
    pair: AccountWithCompanion,
    program: LoadedProgram,
    error: ChainlinkError,
    fetched: Result<LoadableProgram, Vec<SubscriptionRelease>>,
    not_fetched: Result<LoadableProgram, Vec<SubscriptionRelease>>,
    loaded: Result<LoadedProgram, Vec<SubscriptionRelease>>,
    not_loaded: Result<LoadedProgram, Vec<SubscriptionRelease>>,
)
    requires
        call_ensures(ProgramReload::fetched, (&reload, Ok(pair)), fetched),
        call_ensures(ProgramReload::fetched, (&reload, Err(error)), not_fetched),
        call_ensures(ProgramReload::loaded, (&reload, Ok(program)), loaded),
        call_ensures(ProgramReload::loaded, (&reload, Err(error)), not_loaded),
    ensures
        fetched matches Ok(loadable) && loadable.program == pair.account && loadable.program_data
            == pair.companion_account && (loadable.header is Some <==> (
        pair.companion_account matches Some(code) && code.data@.len() >= 45)),
        loaded == Ok::<LoadedProgram, Vec<SubscriptionRelease>>(program),
        not_fetched is Err && not_loaded is Err,
        not_fetched->Err_0@ == not_loaded->Err_0@,
        reload.acquired ==> {
            let back = not_fetched->Err_0@;
            &&& back.len() == 2
            &&& back[0] == (SubscriptionRelease {
                pubkey: reload.program_data,
                reason: SubscriptionReason::DirectAccount,
            })
            &&& back[1] == (SubscriptionRelease {
                pubkey: reload.program_data,
                reason: SubscriptionReason::ProgramData,
            })
        },
        !reload.acquired ==> not_fetched->Err_0@.len() == 0,
{
}

/// A program is remembered exactly if it was cloned.
pub proof fn law_reloads_end(
    reload: ProgramReload,
    cache: &mut LruMap<ProgramVerifyState>,
    header: Option<Vec<u8>>,
    is_cloned: bool,
    now: u64,
    r: Vec<SubscriptionRelease>,
)
    requires
        old(cache).wf(),
        call_ensures(ProgramReload::cloned, (&reload, cache, header, is_cloned, now), r),
    ensures
        !is_cloned ==> final(cache).entries() == old(cache).entries(),
        is_cloned ==> (final(cache).value(reload.pubkey) matches Some(state) && state.verified_at
            == now && !state.deferred_verify),
        r@.len() == if reload.acquired {
            2nat
        } else {
            0
        },
{
    old(cache).lemma_wf();
    final(cache).lemma_wf();
    if is_cloned {
        assert(final(cache).entries()[0].0 == reload.pubkey.bytes);
        lemma_position_of(final(cache).entries(), 0);
    }
}

/// A program that the bank has as new is not cloned, and any other is; the code of a program of
/// the third loader is watched either way.
pub proof fn law_older_programs_are_cloned(
    local_slot: Option<u64>,
    program: LoadedProgram,
    r: ProgramCloneStep,
)
    requires
        call_ensures(program_clone_step, (local_slot, &program), r),
    ensures
        local_slot is None ==> r is Clone,
        local_slot matches Some(slot) ==> (r is Skip <==> slot >= program.remote_slot),
        r matches ProgramCloneStep::Skip { watch } ==> (watch <==> program.loader
            == RemoteProgramLoader::V3),
        r matches ProgramCloneStep::Clone { watch } ==> (watch <==> program.loader
            == RemoteProgramLoader::V3),
{
}

/// A watch is undone only if it was made for a clone that failed.
pub proof fn law_watches_of_failed_clones_are_undone(
    cloned: bool,
    watch: Option<ProgramDataWatch>,
    r: bool,
)
    requires
        call_ensures(unwatches_after_clone, (cloned, watch), r),
    ensures
        cloned ==> !r,
        watch != Some(ProgramDataWatch::Installed) ==> !r,
        !cloned && watch == Some(ProgramDataWatch::Installed) ==> r,
{
}

/// Watching a program's code that is watched already changes nothing; otherwise it is watched
/// for the program, and what left for it is told.
pub proof fn law_code_is_watched(
    index: &mut LruMap<Pubkey>,
    program: Pubkey,
    r: WatchStart,
)
    requires
        old(index).wf(),
        call_ensures(start_watch, (index, program), r),
    ensures
        r matches WatchStart::Acquire { program_data, evicted } ==> {
            &&& program_data@ == program_data_address(program@)
            &&& old(index).value(program_data) is None
            &&& final(index).value(program_data) == Some(program)
            &&& evicted is Some <==> old(index).entries().len() == old(index).capacity()
            &&& evicted matches Some((data, gone)) ==> old(index).entries().last() == (
                data.bytes,
                gone,
            )
        },
        final(index).entries().len() >= old(index).entries().len(),
{
    old(index).lemma_wf();
    final(index).lemma_wf();
    if r is Acquire {
        assert(final(index).entries()[0].0 == r->program_data.bytes);
        lemma_position_of(final(index).entries(), 0);
        lemma_position(old(index).entries(), r->program_data.bytes);
    } else {
        let data = choose|data: Pubkey|
            {
                &&& data@ == program_data_address(program@)
                &&& #[trigger] holds(old(index).entries(), data.bytes)
                &&& final(index).entries() == crate::lru_map::promoted(
                    old(index).entries(),
                    data.bytes,
                )
            };
        lemma_position(old(index).entries(), data.bytes);
    }
}

/// A watch whose subscription could not be had is forgotten; one that left meanwhile is told
/// apart from one that stands.
pub proof fn law_watches_are_finished(
    index: &mut LruMap<Pubkey>,
    data: Pubkey,
    acquired: bool,
    r: WatchEnd,
)
    requires
        old(index).wf(),
        call_ensures(finish_watch, (index, &data, acquired), r),
    ensures
        !acquired ==> r == WatchEnd::Failed,
        acquired ==> (r == WatchEnd::Installed <==> old(index).value(data) is Some),
        acquired && old(index).value(data) is None ==> r == WatchEnd::EvictedConcurrently,
        !acquired && old(index).value(data) is Some ==> final(index).entries().len()
            == old(index).entries().len() - 1,
        acquired ==> final(index).entries().len() == old(index).entries().len(),
{
    lemma_position(old(index).entries(), data.bytes);
}

/// A program that is still deployed is brought in as an executable copy of its code, under the
/// fourth loader, or the first if that is where it comes from; one that is not is not.
pub proof fn law_deployed_programs_are_brought_in(
    program: LoadedProgram,
    r: Option<AccountCloneRequest>,
)
    requires
        call_ensures(resolve_program, (program,), r),
    ensures
        r is Some <==> !program.retracted,
        r matches Some(request) ==> {
            &&& request.pubkey == program.program_id
            &&& request.account.data == program.program_data
            &&& request.account.lamports == program.lamports
            &&& request.account.executable
            &&& request.account.slot == program.remote_slot
            &&& request.account.mode == AccountMode::ReadOnly
            &&& program.loader == RemoteProgramLoader::V1 ==> request.account.owner.bytes
                == LOADER_V1_ID
            &&& program.loader != RemoteProgramLoader::V1 ==> request.account.owner.bytes
                == LOADER_V4_ID
            &&& !request.account.confined && !request.account.compressed
            &&& request.post_delegation_mode is Plain
            &&& request.commit_frequency_ms is None
            &&& request.delegated_to_other is None
        },
{
}

/// A program's code is given back for both reasons that it was subscribed to for.
pub proof fn law_code_is_given_back(data: Pubkey, r: Vec<SubscriptionRelease>)
    requires
        call_ensures(program_data_releases, (data,), r),
    ensures
        r@.len() == 2,
        r@[0] == (SubscriptionRelease { pubkey: data, reason: SubscriptionReason::DirectAccount }),
        r@[1] == (SubscriptionRelease { pubkey: data, reason: SubscriptionReason::ProgramData }),
{
}

} // verus!
