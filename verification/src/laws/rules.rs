//! What holds of the small rules that the steps of a fetch share.
use vstd::prelude::*;
use crate::account::{Account, AccountMode, SubscriptionSource};
use crate::bytes::starts_with_discriminator;
use crate::chainlink::fetch_cloner::cancel::{law_existing_subscriptions_stay, CancelStrategy};
use crate::chainlink::fetch_cloner::compression::{
    pick_expanded, resolve_compressed_accounts, try_decompress_compressed_delegation,
    CompressedAccount, CompressedDelegationRecord,
};
use crate::chainlink::fetch_cloner::rules::{
    action_dependency_needs_fetch, any_touches_risk, authority_record_config,
    classify_dlp_program_update_interest, clone_intent_for_request,
    clone_remote_result_for_request, delegation_actions_require_risk_check, discriminator_filter,
    immutable_account_mode, is_empty_placeholder_account, is_program_allowed, is_risk_relevant,
    pick_recorded_in, pick_requests, program_subscription_is_too_broad, read_undelegation_requests,
    replay_gap_queries, replay_recovery_candidates, touches_risk, undelegation_request_config,
    AmlCheckStrategy, BytesFilter, CloneIntent, CloneRemoteResult, DlpProgramUpdateInterest,
    ProgramAccountsQuery, ReplayGapQueries, RollupPrograms,
};
use crate::chainlink::fetch_cloner::update_steps::{next_update_step, UpdateState, UpdateStep};
use crate::chainlink::fetch_cloner::updates::{
    check_watched, route_update, UpdateRoute, WatchCheck,
};
use crate::chainlink::record_mirror::ObservedUndelegationRequest;
use crate::cloner::{AccountCloneRequest, Instruction};
use crate::laws::delegation::{is_marked, lemma_marked};
use crate::lists::{lemma_picked_contains, lemma_picked_len, picked};
use crate::pda::delegation_record_address;
use crate::program_ids::{
    ASSOCIATED_TOKEN_PROGRAM_ID, MAGIC_PROGRAM_ID, SYSTEM_PROGRAM_ID, TOKEN_2022_PROGRAM_ID,
    TOKEN_PROGRAM_ID,
};
use crate::pubkey::Pubkey;

verus! {

/// An account without lamports stands for one that the chain does not have, and no other does.
pub proof fn law_accounts_without_lamports_are_placeholders(lamports: u64, r: AccountMode)
    requires
        call_ensures(immutable_account_mode, (lamports,), r),
    ensures
        lamports == 0 ==> r == AccountMode::Placeholder,
        lamports > 0 ==> r == AccountMode::ReadOnly,
{
}

/// The filter for a mark lets exactly the data through that begin with it.
pub proof fn law_filters_find_marks(mark: u8, data: Seq<u8>, r: BytesFilter)
    requires
        call_ensures(discriminator_filter, (mark,), r),
    ensures
        r.accepts(data) <==> is_marked(data, mark),
        r.offset == 0,
        r.bytes@.len() == 8,
{
    lemma_marked(data, mark);
}

/// The records that name an authority are asked for, and nothing else is.
pub proof fn law_records_of_an_authority_are_asked_for(
    authority: Pubkey,
    min: Option<u64>,
    data: Seq<u8>,
    r: ProgramAccountsQuery,
)
    requires
        call_ensures(authority_record_config, (&authority, min), r),
    ensures
        r.accepts(data) <==> is_marked(data, 100) && data.len() >= 40 && data.subrange(8, 40)
            == authority@,
        r.min_context_slot == min,
        !r.with_data,
{
    lemma_marked(data, 100);
}

/// After a gap all records are asked for that name this validator or nobody, and all accounts
/// of the delegation program.
pub proof fn law_gaps_are_filled(validator: Pubkey, slot: u64, data: Seq<u8>, r: ReplayGapQueries)
    requires
        call_ensures(replay_gap_queries, (&validator, slot), r),
    ensures
        is_marked(data, 100) && data.len() >= 40 && (data.subrange(8, 40) == validator@ || (
        forall|i: int| 8 <= i < 40 ==> data[i] == 0)) ==> r.validator_records.accepts(data)
            || r.confined_records.accepts(data),
        r.validator_records.accepts(data) || r.confined_records.accepts(data) ==> is_marked(
            data,
            100,
        ) && data.len() >= 40,
        r.accounts.accepts(data),
        r.validator_records.min_context_slot == Some(slot),
        r.confined_records.min_context_slot == Some(slot),
        r.accounts.min_context_slot == Some(slot),
{
    lemma_marked(data, 100);
    assert(starts_with_discriminator(data, 100) || !starts_with_discriminator(data, 100));
    if data.len() >= 40 && forall|i: int| 8 <= i < 40 ==> data[i] == 0 {
        assert(data.subrange(8, 40) =~= crate::pubkey::zero_pubkey());
    }
}

/// Undelegation requests are asked for with their data, and nothing else is.
pub proof fn law_requests_are_asked_for(data: Seq<u8>, r: ProgramAccountsQuery)
    requires
        call_ensures(undelegation_request_config, (), r),
    ensures
        r.accepts(data) <==> data.len() == 48 && is_marked(data, 104),
        r.with_data,
{
    lemma_marked(data, 104);
}

/// Every account that is an undelegation request is read as one, and no other is.
pub proof fn law_requests_are_collected(
    accounts: Vec<(Pubkey, Vec<u8>)>,
    slot: u64,
    i: int,
    r: Vec<ObservedUndelegationRequest>,
)
    requires
        call_ensures(read_undelegation_requests, (&accounts, slot), r),
        0 <= i < accounts@.len(),
    ensures
        accounts@[i].1@.len() >= 48 && is_marked(accounts@[i].1@, 104) ==> exists|k: int|
            0 <= k < r@.len() && (#[trigger] r@[k]).request_pda == accounts@[i].0
                && r@[k].delegated_account@ == accounts@[i].1@.subrange(8, 40)
                && r@[k].observed_slot == slot,
        r@.len() <= accounts@.len(),
        (forall|k: int|
            0 <= k < accounts@.len() ==> !((#[trigger] accounts@[k]).1@.len() >= 48 && is_marked(
                accounts@[k].1@,
                104,
            ))) ==> r@.len() == 0,
{
    let found = picked(accounts@, pick_requests());
    lemma_picked_len(accounts@, pick_requests());
    lemma_marked(accounts@[i].1@, 104);
    lemma_picked_contains(accounts@, pick_requests(), accounts@[i]);
    if accounts@[i].1@.len() >= 48 && is_marked(accounts@[i].1@, 104) {
        assert(pick_requests()(accounts@[i]) == Some(accounts@[i]));
        let k = choose|k: int| 0 <= k < found.len() && found[k] == accounts@[i];
        assert(r@[k].request_pda == accounts@[i].0);
    }
    if forall|k: int|
        0 <= k < accounts@.len() ==> !((#[trigger] accounts@[k]).1@.len() >= 48 && is_marked(
            accounts@[k].1@,
            104,
        )) {
        if found.len() > 0 {
            lemma_picked_contains(accounts@, pick_requests(), found[0]);
            assert(found.contains(found[0]));
            let k = choose|k: int|
                0 <= k < accounts@.len() && pick_requests()(#[trigger] accounts@[k]) == Some(
                    found[0],
                );
            lemma_marked(accounts@[k].1@, 104);
        }
    }
}

/// An account is looked at after a gap exactly if its record is among those that were found.
pub proof fn law_recorded_accounts_are_candidates(
    accounts: Vec<Pubkey>,
    records: Vec<Pubkey>,
    key: Pubkey,
    r: Vec<Pubkey>,
)
    requires
        call_ensures(replay_recovery_candidates, (&accounts, &records), r),
    ensures
        r@.contains(key) <==> accounts@.contains(key) && exists|i: int|
            0 <= i < records@.len() && (#[trigger] records@[i])@ == delegation_record_address(key@),
{
    let pick = pick_recorded_in(records@);
    lemma_picked_contains(accounts@, pick, key);
    if r@.contains(key) {
        let i = choose|i: int| 0 <= i < accounts@.len() && pick(#[trigger] accounts@[i]) == Some(key);
        assert(accounts@[i] == key);
    }
    if accounts@.contains(key) && exists|i: int|
        0 <= i < records@.len() && (#[trigger] records@[i])@ == delegation_record_address(key@) {
        let i = choose|i: int| 0 <= i < accounts@.len() && accounts@[i] == key;
        assert(pick(accounts@[i]) == Some(key));
    }
}

/// An update of an account that the rollup runs is dropped and no other is; one of an account
/// on its way back is followed; a watched account is processed as such; and balances that
/// somebody wants shown are shown.
pub proof fn law_updates_are_worth_something(
    local: Option<AccountMode>,
    is_watching: bool,
    raw_eata_interest: Option<bool>,
    base_ata_interest: bool,
    r: DlpProgramUpdateInterest,
)
    requires
        call_ensures(
            classify_dlp_program_update_interest,
            (local, is_watching, raw_eata_interest, base_ata_interest),
            r,
        ),
    ensures
        r == DlpProgramUpdateInterest::DropLocalDelegatedAuthoritative <==> local == Some(
            AccountMode::Delegated,
        ),
        r == DlpProgramUpdateInterest::ProcessUndelegating <==> local == Some(
            AccountMode::Transient,
        ),
        r == DlpProgramUpdateInterest::ProcessDirectlyWatched <==> is_watching && local != Some(
            AccountMode::Delegated,
        ) && local != Some(AccountMode::Transient),
        r == DlpProgramUpdateInterest::ProcessAtaProjection ==> raw_eata_interest == Some(true) || (
        raw_eata_interest is None && base_ata_interest),
        !is_watching && local is None && raw_eata_interest == Some(true) ==> r
            == DlpProgramUpdateInterest::ProcessAtaProjection,
        !is_watching && local is None && raw_eata_interest == Some(false) ==> r
            == DlpProgramUpdateInterest::DiscoverDelegatedAccount,
        !is_watching && local is None && raw_eata_interest is None ==> r == (
        if base_ata_interest {
            DlpProgramUpdateInterest::ProcessAtaProjection
        } else {
            DlpProgramUpdateInterest::DiscoverDelegatedAccount
        }),
{
}

/// Without a restriction any program may be cloned; with one, those that it names.
pub proof fn law_programs_are_allowed(allowed: Option<Vec<Pubkey>>, program: Pubkey, r: bool)
    requires
        call_ensures(is_program_allowed, (&allowed, &program), r),
    ensures
        allowed is None ==> r,
        allowed matches Some(programs) ==> {
            &&& programs@.len() == 0 ==> r
            &&& programs@.contains(program) ==> r
            &&& programs@.len() > 0 && !programs@.contains(program) ==> !r
        },
{
}

/// All accounts of a program can be subscribed to, unless it is one of the token programs.
pub proof fn law_token_programs_are_too_broad(program: Pubkey, r: bool)
    requires
        call_ensures(program_subscription_is_too_broad, (&program,), r),
    ensures
        program.bytes == TOKEN_PROGRAM_ID ==> r,
        program.bytes == TOKEN_2022_PROGRAM_ID ==> r,
        program.bytes == ASSOCIATED_TOKEN_PROGRAM_ID ==> r,
        program.bytes != TOKEN_PROGRAM_ID && program.bytes != TOKEN_2022_PROGRAM_ID
            && program.bytes != ASSOCIATED_TOKEN_PROGRAM_ID ==> !r,
{
}

/// What a clone is for, and whether the chain had it, follows from the account alone, unless
/// actions are to run.
pub proof fn law_clones_have_an_intent(
    request: AccountCloneRequest,
    result: CloneRemoteResult,
    intent: CloneIntent,
    empty: bool,
)
    requires
        call_ensures(clone_remote_result_for_request, (&request,), result),
        call_ensures(clone_intent_for_request, (&request,), intent),
        call_ensures(is_empty_placeholder_account, (&request.account,), empty),
    ensures
        empty <==> request.account.mode == AccountMode::Placeholder,
        result == CloneRemoteResult::NotFound <==> empty,
        result == CloneRemoteResult::Found <==> !empty,
        intent == CloneIntent::EmptyPlaceholder <==> empty,
        intent == CloneIntent::DelegationRecord <==> request.account.mode
            == AccountMode::Delegated,
        intent == CloneIntent::ActionDependency <==> !empty && request.account.mode
            != AccountMode::Delegated && request.post_delegation_mode is ExecuteActions,
        intent == CloneIntent::NormalAccount <==> !empty && request.account.mode
            != AccountMode::Delegated && !(request.post_delegation_mode is ExecuteActions),
{
}

/// An account that actions only read is fetched exactly if the bank does not have it; one that
/// they write to exactly if the bank has it, from before the actions, and does not run it.
pub proof fn law_needed_accounts_are_fetched(
    local: Option<(u64, AccountMode)>,
    view_slot: u64,
    r: bool,
    w: bool,
)
    requires
        call_ensures(action_dependency_needs_fetch, (local, view_slot, false), r),
        call_ensures(action_dependency_needs_fetch, (local, view_slot, true), w),
    ensures
        r <==> local is None,
        w <==> (local matches Some((slot, mode)) && slot < view_slot && mode
            != AccountMode::Delegated),
{
}

/// A program moves value exactly if it is a token program, the system program, or the
/// corresponding one of the rollup.
pub proof fn law_programs_that_move_value(program: Pubkey, rollup: RollupPrograms, r: bool)
    requires
        call_ensures(is_risk_relevant, (&program, &rollup), r),
    ensures
        program.bytes == TOKEN_PROGRAM_ID ==> r,
        program.bytes == TOKEN_2022_PROGRAM_ID ==> r,
        program.bytes == MAGIC_PROGRAM_ID ==> r,
        program.bytes == SYSTEM_PROGRAM_ID ==> r,
        program == rollup.eata ==> r,
        program == rollup.ephemeral_system ==> r,
        r ==> program.bytes == TOKEN_PROGRAM_ID || program.bytes == TOKEN_2022_PROGRAM_ID
            || program.bytes == MAGIC_PROGRAM_ID || program.bytes == SYSTEM_PROGRAM_ID || program
            == rollup.eata || program == rollup.ephemeral_system,
{
}

/// Actions are checked if everybody's are, or if one of them runs or names a program that moves
/// value; and not otherwise.
pub proof fn law_risky_actions_are_checked(
    strategy: AmlCheckStrategy,
    actions: Vec<Instruction>,
    rollup: RollupPrograms,
    i: int,
    k: int,
    r: bool,
    runs: bool,
    names: bool,
)
    requires
        call_ensures(delegation_actions_require_risk_check, (strategy, &actions, &rollup), r),
        0 <= i < actions@.len(),
        0 <= k < actions@[i].accounts@.len(),
        call_ensures(is_risk_relevant, (&actions@[i].program_id, &rollup), runs),
        call_ensures(is_risk_relevant, (&actions@[i].accounts@[k].pubkey, &rollup), names),
    ensures
        strategy == AmlCheckStrategy::AllSigners ==> r,
        runs ==> r,
        names ==> r,
{
    if runs || names {
        assert(touches_risk(actions@[i], rollup));
        assert(any_touches_risk(actions@, rollup));
    }
}

/// Whether a program moves value.
pub open spec fn is_valuable(program: Pubkey, rollup: RollupPrograms) -> bool {
    program.bytes == TOKEN_PROGRAM_ID || program.bytes == TOKEN_2022_PROGRAM_ID || program.bytes
        == MAGIC_PROGRAM_ID || program.bytes == SYSTEM_PROGRAM_ID || program == rollup.eata
        || program == rollup.ephemeral_system
}

/// Actions that neither run nor name a program that moves value are not checked, unless
/// everybody's are.
pub proof fn law_harmless_actions_are_not_checked(
    actions: Vec<Instruction>,
    rollup: RollupPrograms,
    r: bool,
)
    requires
        call_ensures(
            delegation_actions_require_risk_check,
            (AmlCheckStrategy::RelevantPrograms, &actions, &rollup),
            r,
        ),
        forall|i: int|
            0 <= i < actions@.len() ==> !is_valuable((#[trigger] actions@[i]).program_id, rollup),
        forall|i: int, k: int|
            0 <= i < actions@.len() && 0 <= k < actions@[i].accounts@.len() ==> !is_valuable(
                (#[trigger] actions@[i].accounts@[k]).pubkey,
                rollup,
            ),
    ensures
        !r,
{
    assert forall|i: int| 0 <= i < actions@.len() implies !touches_risk(
        #[trigger] actions@[i],
        rollup,
    ) by {
        assert(!is_valuable(actions@[i].program_id, rollup));
    }
}

/// The steps of an update begin as its route says, and go on as its watch check says.
pub proof fn law_steps_follow_the_route(
    source: SubscriptionSource,
    is_dlp_owned: bool,
    is_internal: bool,
    interest: Option<DlpProgramUpdateInterest>,
    is_watching: bool,
    in_bank: bool,
    route: UpdateRoute,
    check: WatchCheck,
    first: UpdateStep,
    later: UpdateStep,
)
    requires
        call_ensures(route_update, (source, is_dlp_owned, is_internal, interest), route),
        call_ensures(check_watched, (source, is_watching, in_bank), check),
        call_ensures(
            next_update_step,
            (UpdateState::Received { source, is_dlp_owned, is_internal, interest },),
            first,
        ),
        call_ensures(
            next_update_step,
            (UpdateState::Checked { source, is_watching, in_bank },),
            later,
        ),
    ensures
        route == UpdateRoute::DropAuthoritative ==> first is ReleaseDirect,
        route == UpdateRoute::ResolveCollision ==> first is ResolveCollision,
        route == UpdateRoute::Process ==> first is Discover,
        check == WatchCheck::Proceed ==> later is FindProgram,
        check == WatchCheck::Drop ==> later is Stop,
        check == WatchCheck::DropAndRemove ==> later is RemoveStale,
{
}

/// An update that was not handled by a discovery goes on; one that keeps a program's code has
/// the program loaded anew; any other is resolved, and applied if its account was found.
pub proof fn law_updates_come_to_an_end(
    handled: bool,
    program: Option<Pubkey>,
    found: bool,
    a: UpdateStep,
    b: UpdateStep,
    c: UpdateStep,
)
    requires
        call_ensures(next_update_step, (UpdateState::Discovered { handled },), a),
        call_ensures(next_update_step, (UpdateState::Routed { program },), b),
        call_ensures(next_update_step, (UpdateState::Resolved { found },), c),
    ensures
        handled ==> a is Stop,
        !handled ==> a is CheckWatched,
        program matches Some(program) ==> b == UpdateStep::ReloadProgram(program),
        program is None ==> b is Resolve,
        found ==> c is Apply,
        !found ==> c is Stop,
{
}

/// A strategy gives up exactly the subscriptions that it names, but no existing one unless it
/// is named outright, and none twice.
pub proof fn law_subscriptions_are_given_up(strategy: CancelStrategy, key: Pubkey, r: Vec<Pubkey>)
    requires
        call_ensures(CancelStrategy::subs_to_cancel, (&strategy,), r),
    ensures
        r@.no_duplicates(),
        r@.contains(key) <==> match strategy {
            CancelStrategy::All(keys) => keys@.contains(key),
            CancelStrategy::New { new_subs, existing_subs } => new_subs@.contains(key)
                && !existing_subs@.contains(key),
            CancelStrategy::Hybrid { new_subs, existing_subs, all } => all@.contains(key) || (
            new_subs@.contains(key) && !existing_subs@.contains(key)),
        },
{
    law_existing_subscriptions_stay(strategy, key);
}

/// A strategy that names nothing is empty, and no other is.
pub proof fn law_empty_strategies_name_nothing(strategy: CancelStrategy, r: bool)
    requires
        call_ensures(CancelStrategy::is_empty, (&strategy,), r),
    ensures
        r <==> match strategy {
            CancelStrategy::All(keys) => keys@.len() == 0,
            CancelStrategy::New { new_subs, existing_subs } => new_subs@.len() + existing_subs@.len()
                == 0,
            CancelStrategy::Hybrid { new_subs, existing_subs, all } => new_subs@.len()
                + existing_subs@.len() + all@.len() == 0,
        },
{
}

/// A compressed account is what its record says: its lamports, its data and its owner. The
/// rollup runs it exactly if the record names this validator.
pub proof fn law_compressed_accounts_are_expanded(
    record: CompressedDelegationRecord,
    account_slot: u64,
    min_context_slot: u64,
    validator: Pubkey,
    r: Option<(Account, u64)>,
    nothing: Option<(Account, u64)>,
)
    requires
        call_ensures(
            try_decompress_compressed_delegation,
            (Some(record), account_slot, min_context_slot, &validator),
            r,
        ),
        call_ensures(
            try_decompress_compressed_delegation,
            (None::<CompressedDelegationRecord>, account_slot, min_context_slot, &validator),
            nothing,
        ),
    ensures
        nothing is None,
        r is Some,
        ({
            let (account, delegation_slot) = r->0;
            &&& account.lamports == record.lamports
            &&& account.data == record.data
            &&& account.owner == record.owner
            &&& account.compressed
            &&& !account.executable
            &&& account.mode == AccountMode::Delegated <==> record.authority == validator
            &&& record.authority != validator ==> account.mode == AccountMode::ReadOnly
            &&& account.slot >= account_slot && account.slot >= min_context_slot
            &&& account.slot == account_slot || account.slot == min_context_slot
            &&& delegation_slot == record.delegation_slot
        }),
{
}

/// Every compressed account whose record can be read is requested, in its order, and no other.
pub proof fn law_compressed_accounts_are_requested(
    accounts: Vec<CompressedAccount>,
    min: Option<u64>,
    validator: Pubkey,
    i: int,
    r: Vec<AccountCloneRequest>,
)
    requires
        call_ensures(resolve_compressed_accounts, (accounts, min, &validator), r),
        0 <= i < accounts@.len(),
    ensures
        accounts@[i].record matches Some(record) ==> exists|k: int|
            0 <= k < r@.len() && (#[trigger] r@[k]).pubkey == accounts@[i].pubkey
                && r@[k].account.lamports == record.lamports && r@[k].account.data == record.data
                && r@[k].account.owner == record.owner && r@[k].account.slot >= accounts@[i].slot
                && (r@[k].account.mode == AccountMode::Delegated <==> record.authority
                == validator),
        r@.len() <= accounts@.len(),
        (forall|k: int| 0 <= k < accounts@.len() ==> (#[trigger] accounts@[k]).record is None)
            ==> r@.len() == 0,
{
    let pick = pick_expanded(min, validator);
    lemma_picked_len(accounts@, pick);
    if accounts@[i].record is Some {
        let request = pick(accounts@[i])->0;
        lemma_picked_contains(accounts@, pick, request);
        assert(pick(accounts@[i]) == Some(request));
        let k = choose|k: int| 0 <= k < r@.len() && r@[k] == request;
        assert(r@[k].pubkey == accounts@[i].pubkey);
    }
    if forall|k: int| 0 <= k < accounts@.len() ==> (#[trigger] accounts@[k]).record is None {
        if r@.len() > 0 {
            lemma_picked_contains(accounts@, pick, r@[0]);
            assert(r@.contains(r@[0]));
        }
    }
}

/// A filter accepts exactly the data that hold its bytes at its place.
pub proof fn law_filters_compare_bytes(filter: BytesFilter, data: Seq<u8>)
    ensures
        filter.accepts(data) <==> filter.offset + filter.bytes@.len() <= data.len() && forall|
            k: int,
        |
            0 <= k < filter.bytes@.len() ==> data[filter.offset + k] == #[trigger] filter.bytes@[k],
{
    let n = filter.bytes@.len();
    if filter.offset + n <= data.len() {
        let part = data.subrange(filter.offset as int, filter.offset + n);
        if filter.accepts(data) {
            assert forall|k: int| 0 <= k < n implies data[filter.offset + k]
                == #[trigger] filter.bytes@[k] by {
                assert(part[k] == filter.bytes@[k]);
            }
        } else if forall|k: int|
            0 <= k < n ==> data[filter.offset + k] == #[trigger] filter.bytes@[k] {
            assert(part =~= filter.bytes@);
        }
    }
}

/// A query accepts exactly the data of its length that all its filters accept.
pub proof fn law_queries_accept_what_all_filters_accept(
    query: ProgramAccountsQuery,
    data: Seq<u8>,
    i: int,
)
    ensures
        query.accepts(data) && 0 <= i < query.filters@.len() ==> query.filters@[i].accepts(data),
        query.accepts(data) ==> (query.data_size matches Some(size) ==> data.len() == size),
        query.filters@.len() == 0 && query.data_size is None ==> query.accepts(data),
{
}

/// Recovery only asks where accounts are, not what they hold.
pub proof fn law_recovery_asks_for_no_data(validator: Pubkey, slot: u64, r: ReplayGapQueries)
    requires
        call_ensures(replay_gap_queries, (&validator, slot), r),
    ensures
        !r.validator_records.with_data,
        !r.confined_records.with_data,
        !r.accounts.with_data,
{
}

} // verus!
