//! The stages of fetches and batches, and the steps of updates.
use magicblock_chainlink::account::{
    Account, AccountMode, BankAccount, RemoteAccount, ResolvedAccount, SubscriptionReason,
    SubscriptionSource,
};
use magicblock_chainlink::chainlink::errors::ChainlinkError;
use magicblock_chainlink::chainlink::fetch_cloner::batch_stages::{
    accounts_to_refetch, batch_subscriptions, program_data_of, BankCheck, BatchFetch,
};
use magicblock_chainlink::chainlink::fetch_cloner::cancel::CancelStrategy;
use magicblock_chainlink::chainlink::fetch_cloner::clone_stages::{
    start_clone, BankStage, DependencyStep, ProgramsStage,
};
use magicblock_chainlink::chainlink::fetch_cloner::collision::{
    record_resolution, DelegationRecordResolution,
};
use magicblock_chainlink::chainlink::fetch_cloner::fetching::is_kept_undelegating;
use magicblock_chainlink::chainlink::fetch_cloner::pipeline::{
    DelegationRules, FetchedAccount, ProgramLoad,
};
use magicblock_chainlink::chainlink::fetch_cloner::program_reload::{ProgramReload, ReloadStep};
use magicblock_chainlink::chainlink::fetch_cloner::rules::DlpProgramUpdateInterest;
use magicblock_chainlink::chainlink::fetch_cloner::subscription::SubscriptionRelease;
use magicblock_chainlink::chainlink::fetch_cloner::types::{
    AccountWithCompanion, ResolvedDelegatedAccounts, ResolvedPrograms,
};
use magicblock_chainlink::chainlink::fetch_cloner::update_steps::{
    next_update_step, UpdateState, UpdateStep,
};
use magicblock_chainlink::cloner::{
    AccountCloneRequest, AccountMeta, ClonePostDelegationMode, DelegationActions, Instruction,
    LoadedProgram, RemoteProgramLoader,
};
use magicblock_chainlink::delegation_record::DelegationRecord;
use magicblock_chainlink::lru_map::LruMap;
use magicblock_chainlink::program_ids::{
    ASSOCIATED_TOKEN_PROGRAM_ID, DLP_PROGRAM_ID, LOADER_V3_ID, TOKEN_2022_PROGRAM_ID,
    TOKEN_PROGRAM_ID,
};
use magicblock_chainlink::pubkey::Pubkey;

fn key(n: u8) -> Pubkey {
    Pubkey::new([n; 32])
}

fn dlp() -> Pubkey {
    Pubkey::new(DLP_PROGRAM_ID)
}

fn address(pubkey: Pubkey) -> solana_pubkey::Pubkey {
    solana_pubkey::Pubkey::new_from_array(pubkey.bytes)
}

fn record_pda(account: Pubkey) -> Pubkey {
    Pubkey::new(
        dlp_api::pda::delegation_record_pda_from_delegated_account(&address(account)).to_bytes(),
    )
}

fn data_pda(program: Pubkey) -> Pubkey {
    Pubkey::new(
        solana_loader_v3_interface::get_program_data_address(&address(program)).to_bytes(),
    )
}

fn account(owner: Pubkey, slot: u64) -> Account {
    let mut account = Account::new(1, owner);
    account.slot = slot;
    account
}

fn executable(slot: u64) -> Account {
    let mut account = account(Pubkey::new(LOADER_V3_ID), slot);
    account.executable = true;
    account
}

fn fresh(account: Account) -> RemoteAccount {
    RemoteAccount::Found(ResolvedAccount::Fresh(account))
}

fn fetched(n: u8, account: RemoteAccount) -> FetchedAccount {
    FetchedAccount { pubkey: key(n), account, ata: None }
}

fn record(authority: Pubkey, delegation_slot: u64) -> DelegationRecord {
    DelegationRecord {
        authority,
        owner: key(50),
        delegation_slot,
        lamports: 3,
        commit_frequency_ms: 40,
    }
}

fn record_account(authority: Pubkey) -> Account {
    let record = dlp_api::state::DelegationRecord {
        authority: address(authority),
        owner: address(key(50)),
        delegation_slot: 2,
        lamports: 3,
        commit_frequency_ms: 40,
    };
    let mut data = vec![0; dlp_api::state::DelegationRecord::size_with_discriminator()];
    record.to_bytes_with_discriminator(&mut data).unwrap();
    let mut account = account(dlp(), 7);
    account.data = data;
    account
}

fn pair(n: u8, companion: Option<Account>) -> AccountWithCompanion {
    AccountWithCompanion {
        pubkey: key(n),
        account: account(dlp(), 7),
        companion_pubkey: record_pda(key(n)),
        companion_account: companion,
    }
}

fn program(n: u8) -> LoadedProgram {
    LoadedProgram {
        program_id: key(n),
        program_data: vec![],
        lamports: 1,
        loader: RemoteProgramLoader::V3,
        retracted: false,
        remote_slot: 7,
    }
}

fn request(n: u8, mode: AccountMode) -> AccountCloneRequest {
    let mut account = account(key(60), 7);
    account.mode = mode;
    AccountCloneRequest::plain(key(n), account)
}

fn with_actions(n: u8) -> AccountCloneRequest {
    let mut request = request(n, AccountMode::Delegated);
    request.post_delegation_mode = ClonePostDelegationMode::from_actions(DelegationActions::new(
        key(50),
        vec![Instruction {
            program_id: key(31),
            accounts: vec![AccountMeta { pubkey: key(32), is_signer: false, is_writable: true }],
            data: vec![],
        }],
    ));
    request
}

fn resolved(
    accounts_to_clone: Vec<AccountCloneRequest>,
    record_subs: Vec<Pubkey>,
) -> ResolvedDelegatedAccounts {
    ResolvedDelegatedAccounts {
        accounts_to_clone,
        record_subs,
        missing_delegation_record: vec![(key(8), 9)],
        owner_programs: vec![],
    }
}

fn resolved_programs(numbers: &[u8]) -> ResolvedPrograms {
    ResolvedPrograms {
        loaded_programs: numbers.iter().map(|n| program(*n)).collect(),
        program_data_subs: numbers.iter().map(|n| data_pda(key(*n))).collect(),
    }
}

fn pubkeys(requests: &[AccountCloneRequest]) -> Vec<Pubkey> {
    requests.iter().map(|request| request.pubkey).collect()
}

fn releases(list: &[SubscriptionRelease]) -> Vec<(Pubkey, SubscriptionReason)> {
    list.iter().map(|release| (release.pubkey, release.reason)).collect()
}

fn is_load_failure(error: &ChainlinkError, n: u8) -> bool {
    matches!(error, ChainlinkError::AccountLoadFailed(pubkey) if *pubkey == key(n))
}

const DIRECT: SubscriptionReason = SubscriptionReason::DirectAccount;

/// A fetch of four accounts, one of each kind, up to its programs.
fn up_to_programs(accounts: Vec<AccountCloneRequest>) -> ProgramsStage {
    let asked = vec![key(1), key(2), key(3), key(4)];
    let (stage, work) = start_clone(
        asked,
        vec![
            fetched(1, fresh(account(dlp(), 5))),
            fetched(2, fresh(account(key(60), 6))),
            fetched(3, fresh(executable(7))),
            fetched(4, RemoteAccount::NotFound(4)),
        ],
        None,
    );
    assert_eq!(work.owned_by_deleg.len(), 1);
    assert_eq!((work.owned_by_deleg[0].0, work.owned_by_deleg[0].2), (key(1), 5));
    assert_eq!(pubkeys(&work.plain), vec![key(2)]);
    let delegated = resolved(accounts, vec![record_pda(key(1))]);
    let (stage, programs) = stage.delegated(Ok(delegated)).unwrap();
    assert_eq!(programs.len(), 1);
    assert_eq!(programs[0].0, key(3));
    stage
}

/// The same fetch, with actions that need two accounts, up to what the bank has.
fn up_to_bank() -> BankStage {
    let stage = up_to_programs(vec![request(2, AccountMode::ReadOnly), with_actions(1)]);
    let (stage, atas) = stage.programs(Ok(resolved_programs(&[3]))).unwrap();
    assert!(atas.is_empty());
    let (stage, dependencies) = stage.atas(vec![]);
    assert_eq!(dependencies, vec![key(31), key(32)]);
    stage
}

#[test]
fn fetches_clone_what_they_found_and_give_the_rest_back() {
    let stage = up_to_programs(vec![
        request(2, AccountMode::ReadOnly),
        request(1, AccountMode::Delegated),
    ]);
    let (stage, _) = stage.programs(Ok(resolved_programs(&[3]))).unwrap();
    let (stage, dependencies) = stage.atas(vec![request(5, AccountMode::ReadOnly)]);
    assert!(dependencies.is_empty());
    let DependencyStep::Clone(stage, batches) = stage.in_bank(&vec![], &None) else {
        panic!("nothing is to be fetched");
    };
    assert_eq!(batches.programs.len(), 1);
    assert_eq!(batches.programs[0].program_id, key(3));
    assert_eq!(pubkeys(&batches.without_actions), vec![key(2), key(1), key(5)]);
    assert!(batches.with_actions.is_empty());
    let (result, given_back) = stage.cloned(Ok(())).unwrap();
    assert_eq!(result.not_found_on_chain, vec![(key(4), 4)]);
    assert_eq!(result.missing_delegation_record, vec![(key(8), 9)]);
    let given_back = releases(&given_back);
    assert!(given_back.contains(&(key(4), DIRECT)));
    assert!(given_back.contains(&(key(1), DIRECT)));
    assert!(!given_back.contains(&(key(2), DIRECT)));
    assert!(!given_back.contains(&(key(3), DIRECT)));
    assert!(given_back
        .contains(&(record_pda(key(1)), SubscriptionReason::DelegationRecord)));
    assert!(given_back.contains(&(data_pda(key(3)), SubscriptionReason::ProgramData)));
}

#[test]
fn fetches_that_fail_early_clone_nothing() {
    let (stage, _) = start_clone(vec![key(1), key(2)], vec![], None);
    let failure =
        stage.delegated(Err(ChainlinkError::AccountLoadFailed(key(1)))).err().unwrap();
    assert!(is_load_failure(&failure.error, 1));
    assert_eq!(releases(&failure.releases), vec![(key(1), DIRECT), (key(2), DIRECT)]);

    let stage = up_to_programs(vec![]);
    let failure =
        stage.programs(Err(ChainlinkError::AccountLoadFailed(key(3)))).err().unwrap();
    assert!(is_load_failure(&failure.error, 3));
    assert_eq!(
        releases(&failure.releases),
        vec![
            (key(1), DIRECT),
            (key(2), DIRECT),
            (key(3), DIRECT),
            (key(4), DIRECT),
            (record_pda(key(1)), DIRECT),
            (record_pda(key(1)), SubscriptionReason::DelegationRecord),
        ]
    );
}

#[test]
fn what_actions_need_is_fetched_first() {
    let DependencyStep::Fetch(stage, dependencies) =
        up_to_bank().in_bank(&vec![key(32)], &None)
    else {
        panic!("a program is to be fetched");
    };
    assert_eq!(dependencies, vec![key(31)]);
    let (stage, work) = stage.fetched(Ok(vec![fetched(31, fresh(executable(8)))])).unwrap();
    assert!(work.owned_by_deleg.is_empty() && work.plain.is_empty());
    let mut none = resolved(vec![], vec![]);
    none.missing_delegation_record.clear();
    let (stage, programs) = stage.delegated(Ok(none)).unwrap();
    assert_eq!(programs[0].0, key(31));
    let (stage, atas) = stage.programs(Ok(resolved_programs(&[31]))).unwrap();
    assert!(atas.is_empty());
    let (stage, batches) = stage.atas(vec![], &Some(vec![key(31)]));
    assert_eq!(batches.programs.len(), 1);
    assert_eq!(batches.programs[0].program_id, key(31));
    assert_eq!(pubkeys(&batches.without_actions), vec![key(2)]);
    assert_eq!(pubkeys(&batches.with_actions), vec![key(1)]);
    let failure = stage.cloned(Err(ChainlinkError::AccountLoadFailed(key(1)))).err().unwrap();
    assert!(is_load_failure(&failure.error, 1));
    assert!(failure.releases.is_empty());
}

#[test]
fn fetches_whose_dependencies_fail_clone_nothing() {
    let fetch = || match up_to_bank().in_bank(&vec![], &None) {
        DependencyStep::Fetch(stage, dependencies) => {
            assert_eq!(dependencies, vec![key(31), key(32)]);
            stage
        }
        DependencyStep::Clone(..) => panic!("two accounts are to be fetched"),
    };
    let failure =
        fetch().fetched(Err(ChainlinkError::AccountLoadFailed(key(31)))).err().unwrap();
    assert!(is_load_failure(&failure.error, 31));
    assert!(failure.releases.is_empty());

    let (stage, _) = fetch().fetched(Ok(vec![])).unwrap();
    let failure =
        stage.delegated(Err(ChainlinkError::AccountLoadFailed(key(32)))).err().unwrap();
    assert!(is_load_failure(&failure.error, 32));
    assert!(releases(&failure.releases).contains(&(key(32), DIRECT)));

    let (stage, _) = fetch().fetched(Ok(vec![])).unwrap();
    let unrecorded = resolved(vec![], vec![record_pda(key(32))]);
    let failure = stage.delegated(Ok(unrecorded)).err().unwrap();
    assert!(matches!(
        failure.error,
        ChainlinkError::MissingDelegationActionAccounts(missing) if missing == vec![key(8)]
    ));
    assert!(releases(&failure.releases)
        .contains(&(record_pda(key(32)), SubscriptionReason::DelegationRecord)));

    let (stage, _) = fetch().fetched(Ok(vec![])).unwrap();
    let mut one = resolved(vec![request(32, AccountMode::ReadOnly)], vec![]);
    one.missing_delegation_record.clear();
    let (stage, _) = stage.delegated(Ok(one)).unwrap();
    let failure =
        stage.programs(Err(ChainlinkError::AccountLoadFailed(key(31)))).err().unwrap();
    assert!(is_load_failure(&failure.error, 31));
    let given_back = releases(&failure.releases);
    assert!(given_back.contains(&(key(31), DIRECT)));
    assert!(!given_back.contains(&(key(32), DIRECT)));
}

#[test]
fn batches_subscribe_to_records_and_code() {
    assert_eq!(
        batch_subscriptions(&vec![key(1), key(2)]),
        vec![
            key(1),
            key(2),
            record_pda(key(1)),
            record_pda(key(2)),
            data_pda(key(1)),
            data_pda(key(2)),
        ]
    );
}

#[test]
fn batches_go_through_their_stages() {
    let start = BatchFetch {
        pubkeys: vec![key(1), key(2), key(3), key(4), key(5)],
        existing_subs: vec![key(2)],
    };
    let (stage, in_bank) = start.fetched(
        vec![
            fresh(account(dlp(), 5)),
            fresh(account(key(60), 6)),
            fresh(executable(7)),
            RemoteAccount::NotFound(4),
            RemoteAccount::Found(ResolvedAccount::Bank(key(5), 3)),
        ],
        None,
    );
    assert_eq!(in_bank, vec![(key(5), 3)]);

    let undelegating = Some(BankAccount {
        owner: key(60),
        lamports: 1,
        slot: 3,
        delegated: false,
        undelegating: true,
    });
    let checks = vec![
        BankCheck { pubkey: key(5), slot: 3, in_bank: undelegating, record: None },
        BankCheck { pubkey: key(6), slot: 3, in_bank: None, record: None },
    ];
    assert_eq!(accounts_to_refetch(&checks), vec![key(5)]);

    let (stage, to_read) =
        stage.refetched(vec![(key(5), Some(account(dlp(), 9))), (key(6), None)], Some(8));
    assert_eq!(to_read, vec![(key(1), 8), (key(5), 9)]);

    let (stage, work) = stage
        .delegated(vec![Ok(pair(1, Some(record_account(key(99))))), Ok(pair(5, None))], &key(99))
        .unwrap();
    assert_eq!(work.with_program_data, vec![(key(3), 8)]);
    assert!(work.single.is_empty());

    let code = AccountWithCompanion {
        pubkey: key(3),
        account: executable(7),
        companion_pubkey: data_pda(key(3)),
        companion_account: None,
    };
    let subs = program_data_of(&vec![code]);
    assert_eq!(subs, vec![data_pda(key(3))]);
    let (stage, cancel, clones) =
        stage.programs(&subs, vec![ProgramLoad::Read(Ok(program(3)))]).unwrap();
    assert_eq!(pubkeys(&clones.accounts), vec![key(2), key(1), key(5)]);
    assert_eq!(clones.accounts[1].account.mode, AccountMode::Delegated);
    assert_eq!(clones.programs.len(), 1);
    match cancel {
        CancelStrategy::Hybrid { new_subs, existing_subs, all } => {
            assert_eq!(
                new_subs,
                vec![
                    record_pda(key(1)),
                    record_pda(key(5)),
                    key(4),
                    data_pda(key(3)),
                ]
            );
            assert_eq!(existing_subs, vec![key(2)]);
            assert_eq!(all, vec![key(1)]);
        }
        other => panic!("{other:?}"),
    }
    let result = stage.cloned(Ok(())).unwrap();
    assert_eq!(result.not_found_on_chain, vec![(key(4), 4)]);
    assert_eq!(result.missing_delegation_record, vec![(key(5), 7)]);
}

#[test]
fn batches_end_where_they_fail() {
    let start = || {
        BatchFetch { pubkeys: vec![key(1)], existing_subs: vec![key(2)] }
            .fetched(vec![fresh(account(dlp(), 5))], None)
            .0
            .refetched(vec![], None)
            .0
    };
    let failure = start()
        .delegated(vec![Err(ChainlinkError::AccountLoadFailed(key(1)))], &key(99))
        .err()
        .unwrap();
    assert!(matches!(failure.0, ChainlinkError::DelegatedAccountResolutionsFailed(_)));
    assert!(matches!(
        failure.1,
        CancelStrategy::New { new_subs, existing_subs }
            if new_subs == vec![key(1)] && existing_subs == vec![key(2)]
    ));

    let mut broken = record_account(key(99));
    broken.data.truncate(90);
    let failure = start().delegated(vec![Ok(pair(1, Some(broken)))], &key(99)).err().unwrap();
    assert!(matches!(failure.0, ChainlinkError::InvalidDelegationRecord(..)));

    let (stage, _) = start().delegated(vec![], &key(99)).unwrap();
    let failure = stage
        .programs(
            &vec![data_pda(key(3))],
            vec![ProgramLoad::Failed(ChainlinkError::AccountLoadFailed(key(3)))],
        )
        .err()
        .unwrap();
    assert!(matches!(failure.0, ChainlinkError::ProgramAccountResolutionsFailed(_)));
    assert!(matches!(
        failure.1,
        Some(CancelStrategy::New { new_subs, .. }) if new_subs == vec![key(1), data_pda(key(3))]
    ));

    let (stage, _) = start().delegated(vec![], &key(99)).unwrap();
    let (stage, _, _) = stage.programs(&vec![], vec![]).unwrap();
    let error = stage.cloned(Err(ChainlinkError::AccountLoadFailed(key(1)))).err().unwrap();
    assert!(is_load_failure(&error, 1));
}

#[test]
fn updates_take_one_step_after_the_other() {
    let received = |source, is_dlp_owned, is_internal, interest| {
        next_update_step(UpdateState::Received { source, is_dlp_owned, is_internal, interest })
    };
    let program = SubscriptionSource::Program;
    let drop = Some(DlpProgramUpdateInterest::DropLocalDelegatedAuthoritative);
    assert!(matches!(received(program, true, false, drop), UpdateStep::ReleaseDirect));
    assert!(matches!(received(program, true, true, None), UpdateStep::ResolveCollision));
    let wanted = Some(DlpProgramUpdateInterest::ProcessUndelegating);
    assert!(matches!(received(program, true, true, wanted), UpdateStep::Discover));
    let direct = SubscriptionSource::Account;
    assert!(matches!(received(direct, true, true, None), UpdateStep::Discover));

    let next = next_update_step;
    assert!(matches!(next(UpdateState::Discovered { handled: true }), UpdateStep::Stop));
    assert!(matches!(next(UpdateState::Discovered { handled: false }), UpdateStep::CheckWatched));
    let checked = |source, is_watching, in_bank| {
        next_update_step(UpdateState::Checked { source, is_watching, in_bank })
    };
    assert!(matches!(checked(direct, true, false), UpdateStep::FindProgram));
    assert!(matches!(checked(direct, false, true), UpdateStep::RemoveStale));
    assert!(matches!(checked(direct, false, false), UpdateStep::Stop));
    assert!(matches!(checked(program, false, true), UpdateStep::FindProgram));
    assert!(matches!(
        next(UpdateState::Routed { program: Some(key(3)) }),
        UpdateStep::ReloadProgram(pubkey) if pubkey == key(3)
    ));
    assert!(matches!(next(UpdateState::Routed { program: None }), UpdateStep::Resolve));
    assert!(matches!(next(UpdateState::Resolved { found: true }), UpdateStep::Apply));
    assert!(matches!(next(UpdateState::Resolved { found: false }), UpdateStep::Stop));
}

#[test]
fn fetched_records_are_resolved() {
    let resolve = |fetched: Result<Option<RemoteAccount>, String>| {
        record_resolution(&fetched, key(1), &key(99), &[1; 32])
    };
    assert!(matches!(resolve(Err("timeout".into())), DelegationRecordResolution::Uncertain));
    assert!(matches!(resolve(Ok(None)), DelegationRecordResolution::Missing));
    assert!(matches!(
        resolve(Ok(Some(RemoteAccount::NotFound(4)))),
        DelegationRecordResolution::Missing
    ));
    assert!(matches!(
        resolve(Ok(Some(fresh(account(dlp(), 4))))),
        DelegationRecordResolution::Invalid
    ));
    assert!(matches!(
        resolve(Ok(Some(fresh(record_account(key(99)))))),
        DelegationRecordResolution::Found(found)
            if found.authority == key(99) && found.owner == key(50) && found.delegation_slot == 2
    ));
}

#[test]
fn token_accounts_stay_while_their_balance_is_delegated() {
    let kept = |record: Option<DelegationRecord>, eata_program: Pubkey| {
        is_kept_undelegating(&record, &eata_program, &key(99))
    };
    assert!(kept(Some(record(key(99), 2)), key(50)));
    assert!(!kept(Some(record(key(77), 2)), key(50)));
    assert!(!kept(Some(record(key(99), 2)), key(51)));
    assert!(!kept(None, key(50)));
}

#[test]
fn token_programs_are_not_subscribed_to() {
    let rules = DelegationRules::new(key(99), key(98));
    assert_eq!((rules.validator_pubkey, rules.eata_program), (key(99), key(98)));
    assert_eq!(
        rules.programs_not_to_subscribe,
        vec![
            Pubkey::new(TOKEN_PROGRAM_ID),
            Pubkey::new(TOKEN_2022_PROGRAM_ID),
            Pubkey::new(ASSOCIATED_TOKEN_PROGRAM_ID),
        ]
    );
}

#[test]
fn reloads_give_back_what_they_subscribed_to() {
    let reload = |of_loader_v3: bool, acquired: bool| ProgramReload {
        pubkey: key(3),
        program_data: data_pda(key(3)),
        of_loader_v3,
        acquired,
    };
    let both = vec![
        (data_pda(key(3)), DIRECT),
        (data_pda(key(3)), SubscriptionReason::ProgramData),
    ];
    assert!(matches!(reload(true, true).start(executable(7)), ReloadStep::Fetch { slot: 7 }));
    assert!(matches!(
        reload(false, false).start(executable(7)),
        ReloadStep::Load { program } if program.slot == 7
    ));

    let failed = || ChainlinkError::AccountLoadFailed(key(3));
    let given_back = reload(true, true).fetched(Err(failed())).err().unwrap();
    assert_eq!(releases(&given_back), both);
    let given_back = reload(true, false).fetched(Err(failed())).err().unwrap();
    assert!(given_back.is_empty());
    let given_back = reload(true, true).loaded(Err(failed())).err().unwrap();
    assert_eq!(releases(&given_back), both);
    assert_eq!(reload(true, true).loaded(Ok(program(3))).unwrap().program_id, key(3));

    let mut code = account(Pubkey::new(LOADER_V3_ID), 7);
    code.data = vec![5; 50];
    let pair = AccountWithCompanion {
        pubkey: key(3),
        account: executable(7),
        companion_pubkey: data_pda(key(3)),
        companion_account: Some(code),
    };
    let loadable = reload(true, true).fetched(Ok(pair)).unwrap();
    assert_eq!(loadable.header, Some(vec![5; 45]));

    let mut cache = LruMap::new(2);
    let given_back = reload(true, true).cloned(&mut cache, loadable.header, false, 4);
    assert_eq!(releases(&given_back), both);
    assert!(cache.peek(&key(3)).is_none());
    reload(true, true).cloned(&mut cache, Some(vec![5; 45]), true, 4);
    let known = cache.peek(&key(3)).unwrap();
    assert_eq!((known.verified_at, known.deferred_verify), (4, false));
    assert_eq!(known.programdata_header, Some(vec![5; 45]));
}
