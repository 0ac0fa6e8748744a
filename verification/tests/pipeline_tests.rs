//! From fetched accounts to clones.
use magicblock_chainlink::account::{
    Account, AccountMode, BankAccount, RemoteAccount, ResolvedAccount, SubscriptionReason,
};
use magicblock_chainlink::chainlink::errors::ChainlinkError;
use magicblock_chainlink::chainlink::fetch_cloner::batch::{
    accounts_in_bank, airdrop_account_if_empty, batch_cancellation, derived_subscriptions,
    forwarded_step, resolve_batch_delegated, resolve_batch_programs, resolve_forwarded_account,
    should_refetch, sort_refetched, update_action, ForwardedStep, UpdateAction,
};
use magicblock_chainlink::chainlink::fetch_cloner::cancel::CancelStrategy;
use magicblock_chainlink::chainlink::fetch_cloner::fetching::{
    delegated_failed, expect_pair, forgets_mirrored_record, programs_failed,
    resolve_account_with_companion, should_refresh_undelegating_in_bank_account,
    task_to_fetch_with_delegation_record, CloneGathering, RecordTask,
};
use magicblock_chainlink::chainlink::fetch_cloner::pipeline::{
    classify_remote_accounts, collect_delegation_action_dependencies,
    compute_subscription_releases, delegation_record_subs, order_clones, pair_programs,
    partition_not_found, plan_program_fetch, program_step, resolve_delegated_accounts,
    resolve_programs_with_program_data, BankPair, DelegatedAccount, DelegationRules,
    FetchedAccount, ProgramLoad, ProgramStep,
};
use magicblock_chainlink::chainlink::fetch_cloner::subscription::{
    program_data_releases, Acquisition, SubscriptionRelease,
};
use magicblock_chainlink::chainlink::fetch_cloner::types::{
    AccountWithCompanion, AtaInfo, FetchAndCloneResult, RefreshDecision,
    ResolvedDelegatedAccounts, ResolvedPrograms,
};
use magicblock_chainlink::chainlink::record_mirror::MirrorLookup;
use magicblock_chainlink::cloner::{
    AccountCloneRequest, AccountMeta, ClonePostDelegationMode, DelegationActions, Instruction,
    LoadedProgram, RemoteProgramLoader,
};
use magicblock_chainlink::delegation_record::{DelegationRecord, RecordError};
use magicblock_chainlink::program_ids::{
    DLP_PROGRAM_ID, LOADER_V2_ID, LOADER_V3_ID, NATIVE_LOADER_ID,
};
use magicblock_chainlink::pubkey::Pubkey;

fn key(n: u8) -> Pubkey {
    Pubkey::new([n; 32])
}

fn dlp() -> Pubkey {
    Pubkey::new(DLP_PROGRAM_ID)
}

fn address(pubkey: Pubkey) -> solana_pubkey::Pubkey {
    solana_pubkey::Pubkey::new_from_array(pubkey.bytes)
}

fn record_pda(account: Pubkey) -> Pubkey {
    Pubkey::new(
        dlp_api::pda::delegation_record_pda_from_delegated_account(&address(account)).to_bytes(),
    )
}

fn data_pda(program: Pubkey) -> Pubkey {
    Pubkey::new(
        solana_loader_v3_interface::get_program_data_address(&address(program)).to_bytes(),
    )
}

fn account(owner: Pubkey, slot: u64) -> Account {
    let mut account = Account::new(1, owner);
    account.slot = slot;
    account
}

fn fresh(account: Account) -> RemoteAccount {
    RemoteAccount::Found(ResolvedAccount::Fresh(account))
}

fn record(authority: Pubkey, delegation_slot: u64) -> DelegationRecord {
    DelegationRecord {
        authority,
        owner: key(50),
        delegation_slot,
        lamports: 3,
        commit_frequency_ms: 40,
    }
}

fn record_account(authority: Pubkey) -> Account {
    let record = dlp_api::state::DelegationRecord {
        authority: address(authority),
        owner: address(key(50)),
        delegation_slot: 2,
        lamports: 3,
        commit_frequency_ms: 40,
    };
    let mut data = vec![0; dlp_api::state::DelegationRecord::size_with_discriminator()];
    record.to_bytes_with_discriminator(&mut data).unwrap();
    let mut account = account(dlp(), 7);
    account.data = data;
    account
}

fn pair(n: u8, companion: Option<Account>) -> AccountWithCompanion {
    AccountWithCompanion {
        pubkey: key(n),
        account: account(dlp(), 7),
        companion_pubkey: record_pda(key(n)),
        companion_account: companion,
    }
}

fn rules() -> DelegationRules {
    DelegationRules {
        validator_pubkey: key(99),
        eata_program: key(98),
        programs_not_to_subscribe: vec![key(97)],
    }
}

fn program(n: u8) -> LoadedProgram {
    LoadedProgram {
        program_id: key(n),
        program_data: vec![],
        lamports: 1,
        loader: RemoteProgramLoader::V3,
        retracted: false,
        remote_slot: 7,
    }
}

fn request(n: u8, mode: AccountMode) -> AccountCloneRequest {
    let mut account = account(key(60), 7);
    account.mode = mode;
    AccountCloneRequest::plain(key(n), account)
}

fn with_actions(n: u8) -> AccountCloneRequest {
    let mut request = request(n, AccountMode::Delegated);
    request.post_delegation_mode = ClonePostDelegationMode::from_actions(DelegationActions::new(
        key(50),
        vec![Instruction {
            program_id: key(31),
            accounts: vec![
                AccountMeta { pubkey: key(32), is_signer: false, is_writable: true },
                AccountMeta { pubkey: key(31), is_signer: false, is_writable: false },
            ],
            data: vec![],
        }],
    ));
    request
}

fn pubkeys(requests: &[AccountCloneRequest]) -> Vec<Pubkey> {
    requests.iter().map(|request| request.pubkey).collect()
}

fn releases(list: &[SubscriptionRelease]) -> Vec<(Pubkey, SubscriptionReason)> {
    list.iter().map(|release| (release.pubkey, release.reason)).collect()
}

#[test]
fn fetched_accounts_are_sorted() {
    let fetched = |n: u8, account: RemoteAccount| FetchedAccount {
        pubkey: key(n),
        account,
        ata: None,
    };
    let mut executable = account(Pubkey::new(LOADER_V3_ID), 7);
    executable.executable = true;
    let mut native = account(Pubkey::new(NATIVE_LOADER_ID), 7);
    native.executable = true;
    let ata = FetchedAccount {
        pubkey: key(6),
        account: fresh(account(key(60), 8)),
        ata: Some(AtaInfo { mint: key(1), owner: key(2) }),
    };
    let lists = classify_remote_accounts(vec![
        fetched(1, RemoteAccount::NotFound(4)),
        fetched(2, fresh(account(dlp(), 5))),
        fetched(3, fresh(executable)),
        fetched(4, fresh(native)),
        fetched(5, fresh(account(key(60), 6))),
        ata,
        fetched(7, RemoteAccount::Found(ResolvedAccount::Bank(key(7), 3))),
    ]);
    assert_eq!(lists.not_found, vec![(key(1), 4)]);
    assert_eq!(lists.owned_by_deleg.len(), 1);
    assert_eq!((lists.owned_by_deleg[0].0, lists.owned_by_deleg[0].2), (key(2), 5));
    assert_eq!(lists.programs.len(), 1);
    assert_eq!(lists.programs[0].0, key(3));
    assert_eq!(pubkeys(&lists.plain), vec![key(5)]);
    assert_eq!(lists.atas.len(), 1);
    assert_eq!((lists.atas[0].pubkey, lists.atas[0].slot), (key(6), 8));
}

#[test]
fn missing_accounts_are_emptied_where_asked() {
    let parts = partition_not_found(
        Some(&vec![key(2)]),
        vec![(key(1), 4), (key(2), 4), (key(3), 5)],
    );
    assert_eq!(parts.clone_as_empty, vec![(key(2), 4)]);
    assert_eq!(parts.not_found, vec![(key(1), 4), (key(3), 5)]);
    let parts = partition_not_found(None, vec![(key(1), 4)]);
    assert!(parts.clone_as_empty.is_empty());
}

#[test]
fn delegated_accounts_become_what_their_records_say() {
    let fetched = |n: u8, companion: Option<Account>| {
        Ok(DelegatedAccount { pair: pair(n, companion), derived_eata: None })
    };
    let outcome = resolve_delegated_accounts(
        &vec![key(1), key(2), key(3)],
        vec![record_pda(key(1)), record_pda(key(2)), record_pda(key(3))],
        vec![request(9, AccountMode::ReadOnly)],
        vec![
            fetched(1, Some(record_account(key(99)))),
            fetched(2, Some(record_account(key(77)))),
            fetched(3, None),
        ],
        &rules(),
        &[1; 32],
    );
    let resolved = outcome.result.unwrap();
    let accounts = resolved.accounts_to_clone;
    assert_eq!(pubkeys(&accounts), vec![key(9), key(1), key(2), key(3)]);
    assert_eq!(accounts[1].account.mode, AccountMode::Delegated);
    assert_eq!(accounts[1].account.owner, key(50));
    assert_eq!(accounts[1].commit_frequency_ms, Some(40));
    assert_eq!(accounts[1].delegated_to_other, None);
    assert_eq!(accounts[2].account.mode, AccountMode::ReadOnly);
    assert_eq!(accounts[2].delegated_to_other, Some(key(77)));
    assert_eq!(accounts[3].account.owner, dlp());
    assert_eq!(resolved.missing_delegation_record, vec![(key(3), 7)]);
    assert_eq!(resolved.owner_programs, vec![key(50)]);
    assert_eq!(resolved.record_subs.len(), 3);
    assert_eq!(
        releases(&outcome.releases),
        vec![
            (key(1), SubscriptionReason::DirectAccount),
            (key(2), SubscriptionReason::DirectAccount),
            (key(3), SubscriptionReason::DirectAccount),
        ]
    );
}

#[test]
fn one_failed_fetch_fails_all() {
    let outcome = resolve_delegated_accounts(
        &vec![key(1)],
        vec![record_pda(key(1))],
        vec![],
        vec![
            Err(ChainlinkError::AccountLoadFailed(key(1))),
            Ok(DelegatedAccount { pair: pair(2, None), derived_eata: None }),
            Err(ChainlinkError::DisabledForNonPrimaryMode),
        ],
        &rules(),
        &[1; 32],
    );
    let expected = format!(
        "Failed to load account {}, Chainlink is disabled for non-primary mode",
        address(key(1))
    );
    assert!(matches!(
        outcome.result,
        Err(ChainlinkError::DelegatedAccountResolutionsFailed(text)) if text == expected
    ));
    assert_eq!(
        releases(&outcome.releases),
        vec![
            (key(1), SubscriptionReason::DirectAccount),
            (key(1), SubscriptionReason::DirectAccount),
            (record_pda(key(1)), SubscriptionReason::DirectAccount),
            (record_pda(key(1)), SubscriptionReason::DelegationRecord),
        ]
    );
}

#[test]
fn one_unreadable_record_fails_all() {
    let mut broken = record_account(key(99));
    broken.data.truncate(90);
    let outcome = resolve_delegated_accounts(
        &vec![key(1)],
        vec![record_pda(key(1))],
        vec![],
        vec![Ok(DelegatedAccount { pair: pair(1, Some(broken)), derived_eata: None })],
        &rules(),
        &[1; 32],
    );
    assert!(matches!(
        outcome.result,
        Err(ChainlinkError::InvalidDelegationRecord(pubkey, RecordError::TooShort))
            if pubkey == record_pda(key(1))
    ));
}

#[test]
fn records_are_where_the_delegation_program_keeps_them() {
    assert_eq!(
        delegation_record_subs(&vec![key(1), key(2)]),
        vec![record_pda(key(1)), record_pda(key(2))]
    );
    assert_eq!(
        derived_subscriptions(&vec![key(1), key(2)]),
        vec![
            record_pda(key(1)),
            record_pda(key(2)),
            data_pda(key(1)),
            data_pda(key(2)),
        ]
    );
}

#[test]
fn programs_are_fetched_with_their_code() {
    let plan = plan_program_fetch(
        vec![
            (key(1), account(Pubkey::new(LOADER_V3_ID), 5), 5),
            (key(2), account(Pubkey::new(LOADER_V2_ID), 6), 6),
        ],
        Some(3),
    );
    let keys = plan.pubkeys_to_fetch();
    assert_eq!(keys, vec![key(1), data_pda(key(1))]);
    assert_eq!(plan.program_data_subs(), vec![data_pda(key(1))]);
    assert_eq!(plan.single.len(), 1);
    assert_eq!(plan.min_context_slot, Some(5));

    let nothing = || vec![BankPair { account: None, companion: None }];
    let pairs = pair_programs(
        &plan,
        &keys,
        Ok(vec![
            fresh(account(Pubkey::new(LOADER_V3_ID), 5)),
            fresh(account(Pubkey::new(LOADER_V3_ID), 8)),
        ]),
        nothing(),
    );
    assert_eq!(pairs.len(), 1);
    for pair in pairs {
        assert!(matches!(
            program_step(pair),
            ProgramStep::Load { program_id, owner, code }
                if program_id == key(1)
                    && owner == Pubkey::new(LOADER_V3_ID)
                    && code.slot == 8
        ));
    }
    let pairs = pair_programs(&plan, &keys, Ok(vec![]), nothing());
    assert!(matches!(
        &pairs[..],
        [Err(ChainlinkError::ProgramAccountResolutionsFailed(_))]
    ));
    let pairs = pair_programs(&plan, &keys, Err("down".into()), nothing());
    assert!(matches!(
        &pairs[..],
        [Err(ChainlinkError::RemoteAccountProviderError(text))] if text == "down"
    ));
}

#[test]
fn programs_without_code_fail() {
    assert!(matches!(
        program_step(Ok(AccountWithCompanion {
            pubkey: key(1),
            account: account(Pubkey::new(LOADER_V3_ID), 5),
            companion_pubkey: data_pda(key(1)),
            companion_account: None,
        })),
        ProgramStep::WithoutCode { program_id, program_data }
            if program_id == key(1) && program_data == data_pda(key(1))
    ));
    let outcome = resolve_programs_with_program_data(
        vec![
            ProgramLoad::Read(Ok(program(2))),
            ProgramLoad::WithoutCode { program_id: key(1), program_data: data_pda(key(1)) },
        ],
        &vec![key(1)],
        vec![data_pda(key(1))],
    );
    assert!(matches!(
        outcome.result,
        Err(ChainlinkError::ProgramAccountResolutionsFailed(_))
    ));
    assert_eq!(
        releases(&outcome.releases),
        vec![
            (key(1), SubscriptionReason::DirectAccount),
            (data_pda(key(1)), SubscriptionReason::ProgramData),
        ]
    );
    let outcome = resolve_programs_with_program_data(
        vec![
            ProgramLoad::Failed(ChainlinkError::DisabledForNonPrimaryMode),
            ProgramLoad::Read(Err(ChainlinkError::AccountLoadFailed(key(3)))),
        ],
        &vec![key(1)],
        vec![],
    );
    assert!(matches!(outcome.result, Err(ChainlinkError::AccountLoadFailed(_))));
    assert!(outcome.releases.is_empty());
    let outcome = resolve_programs_with_program_data(
        vec![ProgramLoad::Read(Ok(program(2)))],
        &vec![key(2)],
        vec![data_pda(key(2))],
    );
    let resolved = outcome.result.unwrap();
    assert_eq!(resolved.loaded_programs.len(), 1);
    assert_eq!(resolved.program_data_subs, vec![data_pda(key(2))]);
}

#[test]
fn what_came_to_nothing_is_given_back() {
    let list = compute_subscription_releases(
        &vec![key(1), key(2), key(3), key(4), key(1)],
        &vec![request(2, AccountMode::ReadOnly), request(3, AccountMode::Delegated)],
        &vec![program(4)],
        &vec![key(21)],
        &vec![key(22)],
    );
    assert_eq!(
        releases(&list),
        vec![
            (key(1), SubscriptionReason::DirectAccount),
            (key(3), SubscriptionReason::DirectAccount),
            (key(21), SubscriptionReason::DelegationRecord),
            (key(22), SubscriptionReason::ProgramData),
        ]
    );
}

#[test]
fn what_actions_need_is_gathered_and_cloned_first() {
    let accounts = vec![with_actions(1), request(2, AccountMode::ReadOnly)];
    assert_eq!(collect_delegation_action_dependencies(&accounts), vec![key(31), key(32)]);

    let mut gathering = CloneGathering::new(
        &vec![key(1), key(2)],
        ResolvedDelegatedAccounts {
            accounts_to_clone: accounts,
            record_subs: vec![record_pda(key(1))],
            missing_delegation_record: vec![],
            owner_programs: vec![],
        },
        ResolvedPrograms { loaded_programs: vec![program(5)], program_data_subs: vec![key(23)] },
    );
    gathering.add_atas(vec![request(6, AccountMode::ReadOnly)]);
    let needed = gathering.dependencies_to_fetch(&vec![key(31)]);
    assert_eq!(needed, vec![key(32)]);
    gathering.dependencies_fetched(&needed);
    let more = gathering
        .add_delegated_dependencies(ResolvedDelegatedAccounts {
            accounts_to_clone: vec![request(32, AccountMode::ReadOnly)],
            record_subs: vec![key(24)],
            missing_delegation_record: vec![],
            owner_programs: vec![],
        })
        .unwrap();
    gathering.add_dependencies(
        more,
        ResolvedPrograms { loaded_programs: vec![program(8)], program_data_subs: vec![key(23)] },
        vec![],
    );
    let (batches, given_back) = gathering.finish(&Some(vec![key(8)]));
    assert_eq!(batches.programs.len(), 1);
    assert_eq!(batches.programs[0].program_id, key(8));
    assert_eq!(pubkeys(&batches.without_actions), vec![key(2), key(6), key(32)]);
    assert_eq!(pubkeys(&batches.with_actions), vec![key(1)]);
    assert!(releases(&given_back).contains(&(key(1), SubscriptionReason::DirectAccount)));
    assert!(releases(&given_back).contains(&(key(23), SubscriptionReason::ProgramData)));
    assert!(!releases(&given_back).contains(&(key(2), SubscriptionReason::DirectAccount)));
}

#[test]
fn actions_do_not_run_without_the_records_they_need() {
    let mut gathering = CloneGathering::new(
        &vec![key(1)],
        ResolvedDelegatedAccounts {
            accounts_to_clone: vec![with_actions(1)],
            record_subs: vec![],
            missing_delegation_record: vec![],
            owner_programs: vec![],
        },
        ResolvedPrograms { loaded_programs: vec![], program_data_subs: vec![] },
    );
    let (error, given_back) = gathering
        .add_delegated_dependencies(ResolvedDelegatedAccounts {
            accounts_to_clone: vec![],
            record_subs: vec![key(24)],
            missing_delegation_record: vec![(key(32), 7)],
            owner_programs: vec![],
        })
        .unwrap_err();
    assert!(matches!(
        error,
        ChainlinkError::MissingDelegationActionAccounts(missing) if missing == vec![key(32)]
    ));
    assert!(releases(&given_back).contains(&(key(24), SubscriptionReason::DelegationRecord)));
}

#[test]
fn clones_are_ordered() {
    let batches = order_clones(
        vec![with_actions(1), request(2, AccountMode::ReadOnly), with_actions(3)],
        vec![program(4)],
        &None,
    );
    assert_eq!(batches.programs.len(), 1);
    assert_eq!(pubkeys(&batches.without_actions), vec![key(2)]);
    assert_eq!(pubkeys(&batches.with_actions), vec![key(1), key(3)]);
}

#[test]
fn accounts_and_companions_are_paired() {
    let resolve = |acc: RemoteAccount, companion: RemoteAccount, bank: Option<Account>| {
        resolve_account_with_companion(key(1), key(2), acc, companion, bank, None)
    };
    let bank = || RemoteAccount::Found(ResolvedAccount::Bank(key(1), 3));
    assert!(matches!(
        resolve(RemoteAccount::NotFound(3), RemoteAccount::NotFound(3), None),
        Err(ChainlinkError::ResolvedAccountCouldNoLongerBeFound(pubkey)) if pubkey == key(1)
    ));
    assert!(matches!(
        resolve(bank(), RemoteAccount::NotFound(3), None),
        Err(ChainlinkError::ResolvedAccountCouldNoLongerBeFound(_))
    ));
    assert!(matches!(
        resolve(fresh(account(dlp(), 4)), bank(), None),
        Err(ChainlinkError::ResolvedCompanionAccountCouldNoLongerBeFound(pubkey))
            if pubkey == key(2)
    ));
    let pair =
        resolve(bank(), fresh(account(dlp(), 9)), Some(account(key(60), 3))).unwrap();
    assert_eq!(pair.account.owner, key(60));
    assert_eq!(pair.companion_account.unwrap().slot, 9);
    let pair = resolve(fresh(account(dlp(), 4)), RemoteAccount::NotFound(3), None).unwrap();
    assert!(pair.companion_account.is_none());
}

#[test]
fn pairs_are_two_accounts() {
    let pair = expect_pair(
        &key(1),
        &key(2),
        vec![RemoteAccount::NotFound(1), RemoteAccount::NotFound(2)],
    );
    assert!(matches!(
        pair,
        Ok((RemoteAccount::NotFound(1), RemoteAccount::NotFound(2)))
    ));
    let expected = format!(
        "Expected exactly 2 accounts for pubkey {} and companion {}, got 1",
        address(key(1)),
        address(key(2))
    );
    assert!(matches!(
        expect_pair(&key(1), &key(2), vec![RemoteAccount::NotFound(1)]),
        Err(ChainlinkError::UnexpectedAccountCount(text)) if text == expected
    ));
}

#[test]
fn mirrored_records_save_a_fetch() {
    let task = |slot: u64, is_record: bool| {
        task_to_fetch_with_delegation_record(
            key(1),
            account(dlp(), 5),
            5,
            8,
            MirrorLookup::Hit { data: vec![1, 2], slot },
            is_record,
        )
    };
    let RecordTask::Resolved(pair) = task(5, true) else {
        panic!("expected the mirrored record");
    };
    assert_eq!(pair.companion_pubkey, record_pda(key(1)));
    let companion = pair.companion_account.unwrap();
    assert_eq!(companion.data, vec![1, 2]);
    assert_eq!(companion.owner, dlp());
    for task in [task(6, true), task(5, false)] {
        assert!(matches!(
            task,
            RecordTask::Fetch { pubkey, delegation_record_pubkey, slot: 8 }
                if pubkey == key(1) && delegation_record_pubkey == record_pda(key(1))
        ));
    }
}

#[test]
fn undelegating_accounts_are_refreshed_once_they_are_back() {
    let decide = |eata: Option<DelegationRecord>, own: Option<DelegationRecord>| {
        should_refresh_undelegating_in_bank_account(10, eata, own, &key(98), &key(99))
    };
    assert_eq!(decide(None, None), RefreshDecision::YesAndMarkEmptyIfNotFound);
    assert_eq!(decide(None, Some(record(key(99), 10))), RefreshDecision::No);
    assert_eq!(decide(None, Some(record(key(99), 11))), RefreshDecision::Yes);
    assert_eq!(decide(None, Some(record(key(77), 5))), RefreshDecision::Yes);
    let mut eata = record(key(99), 5);
    eata.owner = key(98);
    assert_eq!(decide(Some(eata), None), RefreshDecision::No);
    assert!(!forgets_mirrored_record(RefreshDecision::No));
    assert!(forgets_mirrored_record(RefreshDecision::Yes));
}

#[test]
fn failures_give_back_what_was_subscribed_to() {
    assert_eq!(
        releases(&delegated_failed(&vec![key(1)])),
        vec![(key(1), SubscriptionReason::DirectAccount)]
    );
    assert_eq!(
        releases(&programs_failed(&vec![key(1)], &vec![key(2)])),
        vec![
            (key(1), SubscriptionReason::DirectAccount),
            (key(2), SubscriptionReason::DirectAccount),
            (key(2), SubscriptionReason::DelegationRecord),
        ]
    );
    assert_eq!(
        releases(&program_data_releases(key(3))),
        vec![
            (key(3), SubscriptionReason::DirectAccount),
            (key(3), SubscriptionReason::ProgramData),
        ]
    );
}

#[test]
fn subscriptions_that_were_had_are_rolled_back() {
    let mut acquisition =
        Acquisition::new(vec![key(1), key(2)], SubscriptionReason::DelegationRecord);
    assert_eq!(acquisition.next(), Some(key(1)));
    acquisition.succeeded();
    assert_eq!(acquisition.next(), Some(key(2)));
    assert_eq!(
        releases(&acquisition.rollback()),
        vec![(key(1), SubscriptionReason::DelegationRecord)]
    );
    acquisition.succeeded();
    assert_eq!(acquisition.next(), None);
}

#[test]
fn existing_subscriptions_are_not_cancelled() {
    let new = CancelStrategy::New {
        new_subs: vec![key(1), key(2), key(1)],
        existing_subs: vec![key(2)],
    };
    assert_eq!(new.subs_to_cancel(), vec![key(1)]);
    let hybrid = CancelStrategy::Hybrid {
        new_subs: vec![key(1), key(2)],
        existing_subs: vec![key(2), key(3)],
        all: vec![key(3), key(1)],
    };
    assert_eq!(hybrid.subs_to_cancel(), vec![key(1), key(3)]);
    let all = CancelStrategy::All(vec![key(1), key(1)]);
    assert_eq!(all.subs_to_cancel(), vec![key(1)]);
    assert!(CancelStrategy::All(vec![]).is_empty());
    assert!(!new.is_empty());
    assert_eq!(
        new.message(),
        format!(
            "New({}, {}, {}) Existing({})",
            address(key(1)),
            address(key(2)),
            address(key(1)),
            address(key(2))
        )
    );
}

#[test]
fn batches_keep_what_they_clone() {
    let strategy = batch_cancellation(
        &vec![key(1), key(2), key(3)],
        &vec![key(2)],
        &vec![request(1, AccountMode::ReadOnly), request(2, AccountMode::Delegated)],
        &vec![],
        &vec![key(21)],
        &vec![key(22)],
    );
    assert_eq!(strategy.subs_to_cancel(), vec![key(21), key(3), key(22), key(2)]);
}

#[test]
fn batches_end_with_the_first_failure() {
    let result = resolve_batch_delegated(
        &vec![key(1)],
        &vec![key(2)],
        vec![],
        vec![Err(ChainlinkError::DisabledForNonPrimaryMode)],
        &key(99),
    );
    let (error, cancel) = result.unwrap_err();
    assert!(matches!(error, ChainlinkError::DelegatedAccountResolutionsFailed(_)));
    assert_eq!(cancel.subs_to_cancel(), vec![key(1)]);

    let mut broken = record_account(key(99));
    broken.data[0] = 1;
    let result = resolve_batch_delegated(
        &vec![key(1)],
        &vec![],
        vec![],
        vec![Ok(pair(1, Some(broken)))],
        &key(99),
    );
    let (error, cancel) = result.unwrap_err();
    assert!(matches!(
        error,
        ChainlinkError::InvalidDelegationRecord(_, RecordError::WrongDiscriminator)
    ));
    assert_eq!(cancel.subs_to_cancel(), vec![key(1), record_pda(key(1))]);

    let resolved = resolve_batch_delegated(
        &vec![key(1), key(2)],
        &vec![],
        vec![request(9, AccountMode::ReadOnly)],
        vec![Ok(pair(1, Some(record_account(key(99))))), Ok(pair(2, None))],
        &key(99),
    )
    .unwrap();
    assert_eq!(pubkeys(&resolved.accounts_to_clone), vec![key(9), key(1), key(2)]);
    assert_eq!(resolved.accounts_to_clone[1].account.mode, AccountMode::Delegated);
    assert_eq!(resolved.missing_delegation_record, vec![(key(2), 7)]);
}

#[test]
fn programs_of_a_batch_fail_together() {
    let (error, cancel) = resolve_batch_programs(
        &vec![key(1)],
        &vec![],
        &vec![key(22)],
        vec![ProgramLoad::WithoutCode { program_id: key(1), program_data: key(22) }],
    )
    .unwrap_err();
    let expected = format!(
        "Failed to resolve program data account {} for program {}",
        address(key(22)),
        address(key(1))
    );
    assert!(matches!(
        error,
        ChainlinkError::ProgramAccountResolutionsFailed(text) if text == expected
    ));
    assert_eq!(cancel.unwrap().subs_to_cancel(), vec![key(1), key(22)]);
    let (_, cancel) = resolve_batch_programs(
        &vec![key(1)],
        &vec![],
        &vec![],
        vec![ProgramLoad::Read(Err(ChainlinkError::AccountLoadFailed(key(1))))],
    )
    .unwrap_err();
    assert!(cancel.is_none());
    let loaded = resolve_batch_programs(
        &vec![key(1)],
        &vec![],
        &vec![],
        vec![ProgramLoad::Read(Ok(program(1)))],
    )
    .unwrap();
    assert_eq!(loaded.len(), 1);
}

#[test]
fn accounts_of_the_bank_are_fetched_once_they_are_back() {
    let fetched = vec![
        FetchedAccount {
            pubkey: key(1),
            account: RemoteAccount::Found(ResolvedAccount::Bank(key(1), 3)),
            ata: None,
        },
        FetchedAccount { pubkey: key(2), account: RemoteAccount::NotFound(1), ata: None },
    ];
    assert_eq!(accounts_in_bank(&fetched), vec![(key(1), 3)]);
    let held = |delegated: bool, undelegating: bool| {
        Some(BankAccount { owner: key(60), lamports: 1, slot: 3, delegated, undelegating })
    };
    assert!(!should_refetch(&None, 3, &None));
    assert!(!should_refetch(&held(true, false), 3, &None));
    assert!(!should_refetch(&held(true, true), 3, &Some(record(key(99), 3))));
    assert!(should_refetch(&held(true, true), 3, &Some(record(key(99), 4))));
    assert!(should_refetch(&held(false, true), 3, &None));

    let mut owned = vec![];
    let mut plain = vec![];
    sort_refetched(key(1), account(dlp(), 4), &mut owned, &mut plain);
    sort_refetched(key(2), account(key(60), 4), &mut owned, &mut plain);
    assert_eq!(owned.len(), 1);
    assert_eq!((owned[0].0, owned[0].2), (key(1), 4));
    assert_eq!(pubkeys(&plain), vec![key(2)]);
}

#[test]
fn updates_do_not_replace_newer_accounts() {
    let held = |slot: u64, undelegating: bool| {
        Some(BankAccount { owner: key(60), lamports: 1, slot, delegated: true, undelegating })
    };
    let mut update = account(key(60), 9);
    assert_eq!(update_action(&update, &held(9, false), &None), UpdateAction::OutOfOrder);
    assert_eq!(
        update_action(&update, &held(8, true), &Some(record(key(99), 8))),
        UpdateAction::StillUndelegating
    );
    assert_eq!(
        update_action(&update, &held(8, true), &Some(record(key(99), 9))),
        UpdateAction::Clone { unsubscribe: false, executable: false }
    );
    update.mode = AccountMode::Delegated;
    update.executable = true;
    assert_eq!(
        update_action(&update, &None, &None),
        UpdateAction::Clone { unsubscribe: true, executable: true }
    );
}

#[test]
fn only_empty_accounts_are_given_lamports() {
    let held = |lamports: u64| {
        Some(BankAccount {
            owner: key(60),
            lamports,
            slot: 1,
            delegated: false,
            undelegating: false,
        })
    };
    assert!(airdrop_account_if_empty(0, &None).is_none());
    assert!(airdrop_account_if_empty(5, &held(1)).is_none());
    assert_eq!(airdrop_account_if_empty(5, &held(0)).unwrap().lamports, 5);
    assert_eq!(airdrop_account_if_empty(5, &None).unwrap().lamports, 5);
}

#[test]
fn forwarded_accounts_get_their_records() {
    assert!(matches!(
        forwarded_step(&key(1), fresh(account(dlp(), 4))),
        ForwardedStep::FetchRecord { delegation_record_pubkey, slot: 4 }
            if delegation_record_pubkey == record_pda(key(1))
    ));
    assert!(matches!(
        forwarded_step(&key(1), fresh(account(key(60), 4))),
        ForwardedStep::CloneAsIs(_)
    ));
    assert!(matches!(
        forwarded_step(&key(1), RemoteAccount::NotFound(4)),
        ForwardedStep::Nothing
    ));
    let forwarded =
        resolve_forwarded_account(pair(1, Some(record_account(key(99)))), false, &key(99));
    assert_eq!(forwarded.account.unwrap().mode, AccountMode::Delegated);
    assert_eq!(forwarded.record.unwrap().delegation_slot, 2);
    assert_eq!(forwarded.subs_to_remove, vec![record_pda(key(1)), key(1)]);
    let forwarded = resolve_forwarded_account(pair(1, None), true, &key(99));
    assert_eq!(forwarded.account.unwrap().owner, dlp());
    assert!(forwarded.subs_to_remove.is_empty());
    let mut broken = record_account(key(99));
    broken.data.clear();
    let forwarded = resolve_forwarded_account(pair(1, Some(broken)), false, &key(99));
    assert!(forwarded.account.is_none());
}

#[test]
fn results_say_what_was_missed() {
    assert_eq!(
        FetchAndCloneResult::empty().message(),
        "All accounts fetched and cloned successfully"
    );
    let result = FetchAndCloneResult {
        not_found_on_chain: vec![(key(1), 4), (key(2), 4)],
        missing_delegation_record: vec![(key(3), 5)],
    };
    assert!(!result.is_ok());
    assert_eq!(result.pubkeys_not_found_on_chain(), vec![key(1), key(2)]);
    assert_eq!(result.pubkeys_missing_delegation_record(), vec![key(3)]);
    let expected = format!(
        "Accounts not found on chain: [\"{}\", \"{}\"]\nAccounts missing delegation record: [\"{}\"]\n",
        address(key(1)),
        address(key(2)),
        address(key(3))
    );
    assert_eq!(result.message(), expected);
}
