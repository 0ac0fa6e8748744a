//! What updates of subscriptions lead to.
use magicblock_chainlink::account::{
    Account, AccountMode, RemoteAccount, ResolvedAccount, SubscriptionReason, SubscriptionSource,
};
use magicblock_chainlink::chainlink::errors::ChainlinkError;
use magicblock_chainlink::chainlink::fetch_cloner::ata_projection::{
    ata_info_from_layout, first_in_bank, is_known_empty_eata, mark_eata_empty,
    maybe_build_projected_ata_clone_request_from_eata_sub_update, plan_ata_projection,
    resolve_ata_with_eata_projection, skips_eata_fetch, sort_eata_fetch, BankAta, EataFetch,
    EataUpdate, FetchedAta, FetchedEata,
};
use magicblock_chainlink::chainlink::fetch_cloner::compression::{
    resolve_compressed_accounts, try_decompress_compressed_delegation, CompressedAccount,
    CompressedDelegationRecord,
};
use magicblock_chainlink::chainlink::fetch_cloner::ownership::{
    after_rescue, claim_undelegation, finish_watch, prepare_clone, program_clone_step,
    release_undelegation, rescue_request, rescues, start_watch, unwatch_programdata,
    unwatches_after_clone, CloneStep, CloneTarget, ProgramCloneStep, ProgramDataWatch, WatchEnd,
    WatchStart,
};
use magicblock_chainlink::chainlink::fetch_cloner::program_loader::{
    deferred_verify_due, executable_step, header_is_unchanged, programdata_header,
    remember_program, resolve_update_for_loaded_program, ExecutableStep, LoadedProgramStep,
};
use magicblock_chainlink::chainlink::fetch_cloner::rules::DlpProgramUpdateInterest;
use magicblock_chainlink::chainlink::fetch_cloner::types::{
    AccountWithCompanion, AtaAccount, AtaInfo, FetchAndCloneResult,
};
use magicblock_chainlink::chainlink::fetch_cloner::updates::{
    action_signers, check_dependencies, check_watched, clones_projected_ata,
    collect_post_delegation_action_dependencies, dependencies_to_refresh, forwarded_fetch_failed,
    greedy_candidate, greedy_clone_handled, greedy_clone_is_fresh, plan_greedy_clone, plan_update,
    resolve_account_to_clone_from_forwarded_sub, route_update, routed_program_account,
    ActionDependency, GreedyPlan, UpdatePlan, UpdateRoute, UpdateTarget, WatchCheck,
};
use magicblock_chainlink::cloner::errors::{ClonerError, EngineError, ErrorText};
use magicblock_chainlink::cloner::{
    AccountCloneRequest, AccountMeta, ClonePostDelegationMode, CloneSourceSlots,
    DelegationActions, Instruction, LoadedProgram, RemoteProgramLoader,
};
use magicblock_chainlink::delegation_record::DelegationRecord;
use magicblock_chainlink::lru_map::LruMap;
use magicblock_chainlink::program_ids::{
    DLP_PROGRAM_ID, LOADER_V1_ID, LOADER_V2_ID, LOADER_V3_ID, LOADER_V4_ID, TOKEN_PROGRAM_ID,
};
use magicblock_chainlink::pubkey::Pubkey;

fn key(n: u8) -> Pubkey {
    Pubkey::new([n; 32])
}

fn shown(text: &str) -> ErrorText {
    ErrorText { display: text.to_string(), debug: text.to_string() }
}

fn dlp() -> Pubkey {
    Pubkey::new(DLP_PROGRAM_ID)
}

fn address(pubkey: Pubkey) -> solana_pubkey::Pubkey {
    solana_pubkey::Pubkey::new_from_array(pubkey.bytes)
}

fn data_pda(program: Pubkey) -> Pubkey {
    Pubkey::new(
        solana_loader_v3_interface::get_program_data_address(&address(program)).to_bytes(),
    )
}

fn record(authority: Pubkey, owner: Pubkey, delegation_slot: u64) -> DelegationRecord {
    DelegationRecord { authority, owner, delegation_slot, lamports: 3, commit_frequency_ms: 40 }
}

fn account(owner: Pubkey, slot: u64, mode: AccountMode) -> Account {
    let mut account = Account::new(1, owner);
    account.slot = slot;
    account.mode = mode;
    account
}

fn instruction(program: u8, accounts: Vec<AccountMeta>) -> Instruction {
    Instruction { program_id: key(program), accounts, data: vec![] }
}

fn meta(n: u8, is_signer: bool, is_writable: bool) -> AccountMeta {
    AccountMeta { pubkey: key(n), is_signer, is_writable }
}

fn with_actions(mut request: AccountCloneRequest) -> AccountCloneRequest {
    request.post_delegation_mode = ClonePostDelegationMode::from_actions(DelegationActions::new(
        key(50),
        vec![instruction(31, vec![])],
    ));
    request
}

#[test]
fn updates_are_routed() {
    use_route(
        SubscriptionSource::Program,
        true,
        true,
        Some(DlpProgramUpdateInterest::DropLocalDelegatedAuthoritative),
        UpdateRoute::DropAuthoritative,
    );
    use_route(
        SubscriptionSource::Program,
        true,
        true,
        Some(DlpProgramUpdateInterest::DiscoverDelegatedAccount),
        UpdateRoute::ResolveCollision,
    );
    use_route(
        SubscriptionSource::Program,
        true,
        true,
        Some(DlpProgramUpdateInterest::ProcessUndelegating),
        UpdateRoute::Process,
    );
    use_route(SubscriptionSource::Account, true, true, None, UpdateRoute::Process);
    assert_eq!(check_watched(SubscriptionSource::Account, true, true), WatchCheck::Proceed);
    assert_eq!(check_watched(SubscriptionSource::Program, false, true), WatchCheck::Proceed);
    assert_eq!(check_watched(SubscriptionSource::Account, false, false), WatchCheck::Drop);
    assert_eq!(
        check_watched(SubscriptionSource::Account, false, true),
        WatchCheck::DropAndRemove
    );
}

fn use_route(
    source: SubscriptionSource,
    is_dlp_owned: bool,
    is_internal: bool,
    interest: Option<DlpProgramUpdateInterest>,
    expected: UpdateRoute,
) {
    assert_eq!(route_update(source, is_dlp_owned, is_internal, interest), expected);
}

fn plan(
    update: Account,
    local: Option<(u64, AccountMode)>,
    record: Option<DelegationRecord>,
) -> UpdatePlan {
    plan_update(key(1), update, local, &record, false, false, &key(98), &key(99))
}

#[test]
fn updates_keep_what_is_newer_or_run_here() {
    let plain = |slot: u64| account(key(60), slot, AccountMode::ReadOnly);
    assert!(matches!(plan(plain(5), Some((6, AccountMode::ReadOnly)), None), UpdatePlan::Ignore));
    assert!(matches!(plan(plain(5), Some((5, AccountMode::ReadOnly)), None), UpdatePlan::Ignore));
    assert!(matches!(
        plan(plain(9), Some((5, AccountMode::Delegated)), None),
        UpdatePlan::CleanupDirect
    ));
    let delegated = account(key(50), 9, AccountMode::Delegated);
    assert!(matches!(
        plan(delegated, Some((5, AccountMode::Transient)), Some(record(key(99), key(50), 5))),
        UpdatePlan::Ignore
    ));
    let UpdatePlan::Apply(effects) = plan(plain(9), Some((5, AccountMode::Transient)), None)
    else {
        panic!("expected the account to be back");
    };
    assert!(effects.ensure_direct && effects.cleanup_undelegation && !effects.cleanup_direct);
    let delegated = account(key(50), 9, AccountMode::Delegated);
    let UpdatePlan::Apply(effects) = plan(
        delegated,
        Some((9, AccountMode::ReadOnly)),
        Some(record(key(99), key(50), 5)),
    ) else {
        panic!("expected the account to be delegated");
    };
    assert!(!effects.ensure_direct && effects.cleanup_undelegation && effects.cleanup_direct);
    assert!(matches!(
        effects.target,
        UpdateTarget::Clone(request)
            if request.pubkey == key(1) && request.commit_frequency_ms == Some(40)
    ));
    let mut executable = plain(9);
    executable.executable = true;
    assert!(matches!(
        plan(executable, None, None),
        UpdatePlan::Apply(effects) if matches!(effects.target, UpdateTarget::Program(_))
    ));
    assert!(matches!(
        plan_update(
            key(1),
            plain(5),
            Some((5, AccountMode::ReadOnly)),
            &None,
            true,
            false,
            &key(98),
            &key(99)
        ),
        UpdatePlan::CloneProjected
    ));
}

fn forwarded(companion: Option<Account>, data: Vec<u8>) -> AccountWithCompanion {
    let mut account = account(dlp(), 7, AccountMode::ReadOnly);
    account.data = data;
    AccountWithCompanion {
        pubkey: key(1),
        account,
        companion_pubkey: key(2),
        companion_account: companion,
    }
}

#[test]
fn forwarded_accounts_are_resolved() {
    let resolve = |pair: AccountWithCompanion, is_internal: bool| {
        resolve_account_to_clone_from_forwarded_sub(
            pair,
            true,
            is_internal,
            None,
            &key(98),
            &key(99),
            &[1; 32],
        )
    };
    let record = dlp_api::state::DelegationRecord {
        authority: address(key(99)),
        owner: address(key(50)),
        delegation_slot: 2,
        lamports: 3,
        commit_frequency_ms: 40,
    };
    let mut data = vec![0; dlp_api::state::DelegationRecord::size_with_discriminator()];
    record.to_bytes_with_discriminator(&mut data).unwrap();
    let mut companion = account(dlp(), 7, AccountMode::ReadOnly);
    companion.data = data;
    let resolution = resolve(forwarded(Some(companion), vec![]), false);
    assert_eq!(resolution.account.unwrap().mode, AccountMode::Delegated);
    assert_eq!(resolution.subscribe_owner, Some(key(50)));
    let given_back: Vec<_> =
        resolution.releases.iter().map(|release| (release.pubkey, release.reason)).collect();
    assert_eq!(
        given_back,
        vec![
            (key(2), SubscriptionReason::DirectAccount),
            (key(2), SubscriptionReason::DelegationRecord),
        ]
    );

    assert!(resolve(forwarded(None, vec![]), false).account.is_none());
    assert!(resolve(forwarded(None, vec![]), true).account.is_some());
    let mut data = 104u64.to_le_bytes().to_vec();
    data.extend_from_slice(&[4; 32]);
    data.extend_from_slice(&77u64.to_le_bytes());
    let request = resolve(forwarded(None, data), false).request.unwrap();
    assert_eq!(request.delegated_account, key(4));
    assert_eq!(request.observed_slot, 7);
    assert_eq!(request.expires_at_slot, 77);
    assert_eq!(forwarded_fetch_failed(key(2), true).len(), 1);
    assert!(forwarded_fetch_failed(key(2), false).is_empty());
}

#[test]
fn discovered_accounts_are_cloned_with_their_token_accounts() {
    let fresh = |owner: Pubkey| {
        RemoteAccount::Found(ResolvedAccount::Fresh(account(owner, 7, AccountMode::ReadOnly)))
    };
    assert_eq!(greedy_candidate(false, &fresh(dlp())), Some(7));
    assert_eq!(greedy_candidate(true, &fresh(dlp())), None);
    assert_eq!(greedy_candidate(false, &fresh(key(60))), None);
    let atas = vec![key(3), key(4)];
    let plan = |record: Option<DelegationRecord>| {
        plan_greedy_clone(key(1), &record, &atas, &vec![key(4)], &key(99))
    };
    assert!(matches!(plan(None), GreedyPlan::FallBack));
    assert!(matches!(
        plan(Some(record(key(77), key(50), 1))),
        GreedyPlan::DelegatedElsewhere
    ));
    assert!(matches!(
        plan(Some(record(key(99), key(50), 1))),
        GreedyPlan::Clone { pubkeys, as_batch: true } if pubkeys == vec![key(1), key(3)]
    ));
    let ok = Ok(FetchAndCloneResult::empty());
    assert!(greedy_clone_is_fresh(&key(1), &ok, Some(7), 7));
    assert!(!greedy_clone_is_fresh(&key(1), &ok, Some(6), 7));
    assert!(!greedy_clone_is_fresh(&key(1), &ok, None, 7));
    assert!(greedy_clone_handled(true, None));
    assert!(!greedy_clone_handled(true, Some(false)));
    assert!(clones_projected_ata(Some(AccountMode::ReadOnly), true));
    assert!(!clones_projected_ata(Some(AccountMode::Transient), true));
    assert!(!clones_projected_ata(None, true));
}

#[test]
fn dependencies_are_refreshed_before_actions_run() {
    let actions = DelegationActions::new(
        key(50),
        vec![
            instruction(31, vec![meta(1, true, true), meta(2, false, true)]),
            instruction(31, vec![meta(2, false, false), meta(3, true, false)]),
        ],
    )
    .unwrap();
    let (dependencies, writable) =
        collect_post_delegation_action_dependencies(key(1), &actions);
    assert_eq!(dependencies, vec![key(31), key(2), key(3)]);
    assert_eq!(writable, vec![key(2)]);
    let dependency = |n: u8, local: Option<(u64, AccountMode)>| ActionDependency {
        pubkey: key(n),
        local,
    };
    assert_eq!(
        dependencies_to_refresh(
            &vec![
                dependency(31, None),
                dependency(2, Some((5, AccountMode::ReadOnly))),
                dependency(3, Some((5, AccountMode::ReadOnly))),
            ],
            &writable,
            9,
        ),
        vec![key(31), key(2)]
    );
    assert!(check_dependencies(&FetchAndCloneResult::empty()).is_ok());
    let missing = FetchAndCloneResult {
        not_found_on_chain: vec![],
        missing_delegation_record: vec![(key(3), 1), (key(2), 1)],
    };
    assert!(matches!(
        check_dependencies(&missing),
        Err(ChainlinkError::MissingDelegationActionAccounts(list))
            if list == vec![key(2), key(3)]
    ));
    let mut expected = vec![address(key(1)).to_string(), address(key(3)).to_string()];
    expected.sort();
    assert_eq!(action_signers(actions.actions()), expected);
}

#[test]
fn programs_are_looked_at_now_and_then() {
    let v3 = Pubkey::new(LOADER_V3_ID);
    assert!(matches!(
        executable_step(&None, &key(1), &Pubkey::new(LOADER_V1_ID)),
        ExecutableStep::Ignore
    ));
    assert!(matches!(
        executable_step(&Some(vec![key(2)]), &key(1), &v3),
        ExecutableStep::Ignore
    ));
    assert_eq!(
        executable_step(&None, &key(1), &v3),
        ExecutableStep::Resolve { program_data: data_pda(key(1)), of_loader_v3: true }
    );
    let mut cache = LruMap::new(4);
    assert!(matches!(
        resolve_update_for_loaded_program(&mut cache, &key(1), true, &v3, 0),
        LoadedProgramStep::Reload
    ));
    remember_program(&mut cache, key(1), true, Some(vec![1; 45]), 1_000);
    assert!(matches!(
        resolve_update_for_loaded_program(&mut cache, &key(1), true, &v3, 11_000),
        LoadedProgramStep::Defer { delay_ms: 50_010 }
    ));
    assert!(matches!(
        resolve_update_for_loaded_program(&mut cache, &key(1), true, &v3, 12_000),
        LoadedProgramStep::Done
    ));
    deferred_verify_due(&mut cache, &key(1));
    let step = resolve_update_for_loaded_program(&mut cache, &key(1), true, &v3, 61_010);
    assert!(matches!(
        step,
        LoadedProgramStep::CheckHeader { loaded_header } if loaded_header == vec![1; 45]
    ));
    assert!(header_is_unchanged(&mut cache, &key(1), &Some(vec![1; 60]), &vec![1; 45], 61_010));
    assert!(!header_is_unchanged(&mut cache, &key(1), &None, &vec![1; 45], 61_010));
    assert!(!header_is_unchanged(&mut cache, &key(1), &Some(vec![2; 45]), &vec![1; 45], 61_010));
    assert!(matches!(
        resolve_update_for_loaded_program(&mut cache, &key(1), true, &v3, 62_010),
        LoadedProgramStep::Defer { .. }
    ));
    assert!(matches!(
        resolve_update_for_loaded_program(
            &mut cache,
            &key(1),
            true,
            &Pubkey::new(LOADER_V2_ID),
            200_000
        ),
        LoadedProgramStep::Done
    ));
    assert!(matches!(
        resolve_update_for_loaded_program(
            &mut cache,
            &key(1),
            true,
            &Pubkey::new(LOADER_V4_ID),
            200_000
        ),
        LoadedProgramStep::Reload
    ));
    assert!(matches!(
        resolve_update_for_loaded_program(&mut cache, &key(1), false, &v3, 200_000),
        LoadedProgramStep::Reload
    ));
    assert!(cache.peek(&key(1)).is_none());
    assert_eq!(programdata_header(&vec![3; 50]), Some(vec![3; 45]));
    assert_eq!(programdata_header(&vec![3; 44]), None);
    let routed = routed_program_account(9);
    assert_eq!((routed.owner, routed.slot), (v3, 9));
}

#[test]
fn code_is_watched_with_the_program() {
    let mut index = LruMap::new(1);
    let WatchStart::Acquire { program_data, evicted } = start_watch(&mut index, key(1)) else {
        panic!("expected a new watch");
    };
    assert_eq!(program_data, data_pda(key(1)));
    assert_eq!(evicted, None);
    assert_eq!(finish_watch(&mut index, &program_data, true), WatchEnd::Installed);
    assert_eq!(start_watch(&mut index, key(1)), WatchStart::AlreadyInstalled);
    assert_eq!(
        start_watch(&mut index, key(2)),
        WatchStart::Acquire {
            program_data: data_pda(key(2)),
            evicted: Some((data_pda(key(1)), key(1))),
        }
    );
    assert_eq!(finish_watch(&mut index, &program_data, true), WatchEnd::EvictedConcurrently);
    assert_eq!(finish_watch(&mut index, &data_pda(key(2)), false), WatchEnd::Failed);
    assert_eq!(unwatch_programdata(&mut index, &key(2)), None);
    start_watch(&mut index, key(3));
    assert_eq!(unwatch_programdata(&mut index, &key(3)), Some(data_pda(key(3))));
    assert!(unwatches_after_clone(false, Some(ProgramDataWatch::Installed)));
    assert!(!unwatches_after_clone(true, Some(ProgramDataWatch::Installed)));
    assert!(!unwatches_after_clone(false, Some(ProgramDataWatch::AlreadyInstalled)));
    let program = LoadedProgram {
        program_id: key(1),
        program_data: vec![],
        lamports: 1,
        loader: RemoteProgramLoader::V3,
        retracted: false,
        remote_slot: 7,
    };
    assert_eq!(program_clone_step(Some(7), &program), ProgramCloneStep::Skip { watch: true });
    assert_eq!(program_clone_step(Some(6), &program), ProgramCloneStep::Clone { watch: true });
}

fn target(local: Option<AccountMode>, is_update: bool) -> CloneTarget {
    CloneTarget { local, is_update, token_account: None }
}

#[test]
fn clones_make_true_claims() {
    let request = |owner: Pubkey, mode: AccountMode| {
        AccountCloneRequest::plain(key(1), account(owner, 7, mode))
    };
    let prepare = |request: AccountCloneRequest, target: CloneTarget| {
        prepare_clone(request, target, &key(99))
    };
    let cloned = |step: Result<CloneStep, ChainlinkError>| match step {
        Ok(CloneStep::Clone(request)) => request,
        _ => panic!("expected a clone"),
    };
    let unresolved =
        cloned(prepare(request(dlp(), AccountMode::Delegated), target(None, false)));
    assert_eq!(unresolved.account.mode, AccountMode::ReadOnly);
    let delegated =
        cloned(prepare(request(key(50), AccountMode::Delegated), target(None, false)));
    assert_eq!(delegated.account.mode, AccountMode::Delegated);
    let vault = dlp_api::pda::magic_fee_vault_pda_from_validator(&address(key(99)));
    let vault = AccountCloneRequest::plain(
        Pubkey::new(vault.to_bytes()),
        account(dlp(), 7, AccountMode::Delegated),
    );
    assert_eq!(
        cloned(prepare(vault, target(None, false))).account.mode,
        AccountMode::Delegated
    );
    assert!(matches!(
        prepare(request(key(50), AccountMode::ReadOnly), target(None, true)),
        Ok(CloneStep::Skip)
    ));
    assert!(matches!(
        prepare(
            request(key(50), AccountMode::Delegated),
            target(Some(AccountMode::Delegated), false)
        ),
        Ok(CloneStep::Skip)
    ));
    let mut empty = request(key(50), AccountMode::ReadOnly);
    empty.account.lamports = 0;
    assert_eq!(
        cloned(prepare(empty, target(None, false))).account.mode,
        AccountMode::Placeholder
    );
}

#[test]
fn actions_run_only_for_delegated_accounts() {
    let request = |owner: Pubkey, mode: AccountMode| {
        with_actions(AccountCloneRequest::plain(key(1), account(owner, 7, mode)))
    };
    let refused = |step: Result<CloneStep, ChainlinkError>, expected: &str| {
        matches!(
            step,
            Err(ChainlinkError::InvalidDelegationActions(pubkey, text))
                if pubkey == key(1) && text == expected
        )
    };
    assert!(matches!(
        prepare_clone(request(key(50), AccountMode::Delegated), target(None, false), &key(99)),
        Ok(CloneStep::CloneWithActions(_))
    ));
    assert!(refused(
        prepare_clone(request(key(50), AccountMode::ReadOnly), target(None, false), &key(99)),
        "post-delegation actions attached to non-delegated clone target"
    ));
    assert!(refused(
        prepare_clone(request(dlp(), AccountMode::Delegated), target(None, false), &key(99)),
        "post-delegation actions attached to unresolved DLP-owned clone target"
    ));
    assert!(refused(
        prepare_clone(
            request(key(50), AccountMode::Delegated),
            target(Some(AccountMode::ReadOnly), true),
            &key(99)
        ),
        "account update unexpectedly contains post-delegation actions"
    ));
    let malformed =
        CloneTarget { local: None, is_update: false, token_account: Some(None) };
    assert!(matches!(
        prepare_clone(request(key(50), AccountMode::Delegated), malformed, &key(99)),
        Err(ChainlinkError::InvalidTokenAccount(pubkey, text))
            if pubkey == key(1) && text == "delegated ATA token data is malformed"
    ));
    assert!(matches!(
        rescue_request(request(key(50), AccountMode::Delegated)).post_delegation_mode,
        ClonePostDelegationMode::RescueUndelegate(program) if program == key(50)
    ));
    let missing = ChainlinkError::AccountLoadFailed(key(1));
    assert!(rescues(&missing, None));
    assert!(rescues(&missing, Some(AccountMode::ReadOnly)));
    assert!(!rescues(&missing, Some(AccountMode::Transient)));
    let failed = ChainlinkError::ClonerError(ClonerError::Engine(
        EngineError::SignatureVerification(shown("SignatureVerification")),
    ));
    assert!(rescues(&failed, None));
    let unclear = ChainlinkError::ClonerError(ClonerError::TransactionError(shown("lost")));
    assert!(!rescues(&unclear, None));
    assert!(matches!(
        after_rescue(
            ChainlinkError::AccountLoadFailed(key(1)),
            Ok(Some((key(1), AccountMode::Transient)))
        ),
        Ok(Some((pubkey, AccountMode::Transient))) if pubkey == key(1)
    ));
    assert!(matches!(
        after_rescue(missing, Err(failed)),
        Err(ChainlinkError::AccountLoadFailed(pubkey)) if pubkey == key(1)
    ));
    let mut pending = vec![];
    assert!(claim_undelegation(&mut pending, key(1)));
    assert!(!claim_undelegation(&mut pending, key(1)));
    release_undelegation(&mut pending, &key(1));
    assert!(claim_undelegation(&mut pending, key(1)));
}

#[test]
fn token_accounts_show_delegated_balances() {
    let eata_program = key(98);
    let mut data = vec![0; 72];
    data[..32].copy_from_slice(&[5; 32]);
    data[32..64].copy_from_slice(&[6; 32]);
    let update = EataUpdate { pubkey: key(3), data, slot: 9, derived_eata: Some(key(3)) };
    let token = Pubkey::new(TOKEN_PROGRAM_ID);
    let ata = |mode: AccountMode| {
        Some(BankAta {
            pubkey: key(4),
            slot: 5,
            mode,
            from_base: Some(account(token, 0, AccountMode::ReadOnly)),
            from_eata: None,
        })
    };
    let build = |record: Option<DelegationRecord>, ata: Option<BankAta>| {
        maybe_build_projected_ata_clone_request_from_eata_sub_update(
            &update,
            &record,
            ata,
            Some(vec![instruction(31, vec![])]),
            &key(99),
            &eata_program,
        )
    };
    let shown =
        build(Some(record(key(99), eata_program, 1)), ata(AccountMode::ReadOnly)).unwrap();
    assert_eq!(shown.pubkey, key(4));
    assert_eq!(shown.account.mode, AccountMode::Delegated);
    assert_eq!(shown.account.slot, 9);
    assert_eq!(shown.source_slots, Some(CloneSourceSlots { data: 5, view: 9 }));
    assert!(shown.post_delegation_mode.has_actions());
    assert!(build(None, ata(AccountMode::ReadOnly)).is_none());
    assert!(build(Some(record(key(77), eata_program, 1)), ata(AccountMode::ReadOnly)).is_none());
    assert!(build(Some(record(key(99), key(50), 1)), ata(AccountMode::ReadOnly)).is_none());
    assert!(build(Some(record(key(99), eata_program, 1)), ata(AccountMode::Transient)).is_none());
    assert!(build(Some(record(key(99), eata_program, 1)), None).is_none());
}

#[test]
fn token_accounts_are_fetched_with_their_balances() {
    let ata = |n: u8, slot: u64| AtaAccount {
        pubkey: key(n),
        account: account(key(60), slot, AccountMode::ReadOnly),
        info: AtaInfo { mint: key(1), owner: key(2) },
        slot,
    };
    let plan = plan_ata_projection(
        &vec![ata(10, 5), ata(11, 8)],
        &vec![Some(key(12)), None],
        Some(6),
    );
    assert_eq!(plan.subscribe, vec![key(10), key(12), key(11)]);
    assert_eq!(
        plan.fetches,
        vec![(key(10), key(12), 6), (key(11), Pubkey::zero(), 8)]
    );
    let fetched = |n: u8, authority: Pubkey| FetchedAta {
        pubkey: key(n),
        account: account(key(60), 5, AccountMode::ReadOnly),
        eata: Some(FetchedEata {
            slot: 7,
            record: Some((record(authority, key(98), 1), None)),
            from_base: Some(account(key(61), 0, AccountMode::ReadOnly)),
            from_eata: None,
        }),
    };
    let (requests, given_back) = resolve_ata_with_eata_projection(
        vec![fetched(10, key(99)), fetched(11, key(77))],
        &vec![key(10)],
        true,
        &key(99),
        &key(98),
    );
    assert_eq!(requests[0].account.mode, AccountMode::Delegated);
    assert_eq!(requests[0].account.owner, key(61));
    assert_eq!(requests[0].account.slot, 7);
    assert_eq!(requests[1].account.owner, key(60));
    assert_eq!(requests[1].delegated_to_other, Some(key(77)));
    assert_eq!(requests[1].source_slots, None);
    let given_back: Vec<_> =
        given_back.iter().map(|release| (release.pubkey, release.reason)).collect();
    assert_eq!(
        given_back,
        vec![
            (key(10), SubscriptionReason::DirectAccount),
            (key(10), SubscriptionReason::AtaProjection),
        ]
    );
}

#[test]
fn missing_balances_are_remembered() {
    let mut known = LruMap::new(2);
    assert!(!is_known_empty_eata(&mut known, &key(1)));
    mark_eata_empty(&mut known, key(1));
    mark_eata_empty(&mut known, key(2));
    assert!(is_known_empty_eata(&mut known, &key(1)));
    mark_eata_empty(&mut known, key(3));
    assert!(!is_known_empty_eata(&mut known, &key(2)));
    assert!(is_known_empty_eata(&mut known, &key(1)));
    assert!(skips_eata_fetch(true, true, true));
    assert!(!skips_eata_fetch(false, true, true));
    assert!(matches!(
        sort_eata_fetch(Some(RemoteAccount::NotFound(1)), true),
        EataFetch::Missing { mark_empty: true }
    ));
    assert!(matches!(sort_eata_fetch(None, true), EataFetch::Missing { mark_empty: false }));
    assert_eq!(first_in_bank(&vec![key(1), key(2), key(3)], &vec![false, true, true]), Some(1));
    assert_eq!(first_in_bank(&vec![key(1)], &vec![false]), None);
    let mut data = vec![5; 32];
    data.extend_from_slice(&[6; 32]);
    let info = ata_info_from_layout(&key(9), &data, &vec![key(8), key(9)]).unwrap();
    assert_eq!(info, AtaInfo { mint: key(5), owner: key(6) });
    assert!(ata_info_from_layout(&key(9), &data, &vec![key(8)]).is_none());
    assert!(ata_info_from_layout(&key(9), &data[..63], &vec![key(9)]).is_none());
}

#[test]
fn compressed_accounts_are_expanded() {
    let compressed = |authority: Pubkey| CompressedDelegationRecord {
        authority,
        owner: key(50),
        delegation_slot: 3,
        lamports: 8,
        data: vec![1],
    };
    let (expanded, slot) =
        try_decompress_compressed_delegation(Some(compressed(key(99))), 5, 6, &key(99)).unwrap();
    assert_eq!(slot, 3);
    assert_eq!((expanded.slot, expanded.lamports, expanded.owner), (6, 8, key(50)));
    assert_eq!(expanded.mode, AccountMode::Delegated);
    assert!(expanded.compressed);
    assert!(try_decompress_compressed_delegation(None, 5, 6, &key(99)).is_none());
    let requests = resolve_compressed_accounts(
        vec![
            CompressedAccount { pubkey: key(1), record: Some(compressed(key(77))), slot: 5 },
            CompressedAccount { pubkey: key(2), record: None, slot: 5 },
        ],
        None,
        &key(99),
    );
    assert_eq!(requests.len(), 1);
    assert_eq!(requests[0].pubkey, key(1));
    assert_eq!(requests[0].account.mode, AccountMode::ReadOnly);
    assert_eq!(requests[0].account.slot, 5);
}
