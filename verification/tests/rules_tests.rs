//! Rules on what to clone, to check and to ask for.
use magicblock_chainlink::account::{Account, AccountMode, RemoteAccount, ResolvedAccount};
use magicblock_chainlink::chainlink::fetch_cloner::rules::{
    action_dependency_needs_fetch, authority_record_config, classify_dlp_program_update_interest,
    clone_intent_for_request, clone_remote_result_for_request,
    delegation_actions_require_risk_check, immutable_account_mode, is_empty_placeholder_account,
    is_program_allowed, program_subscription_is_too_broad, read_undelegation_requests,
    replay_gap_queries, replay_recovery_candidates, undelegation_request_config, AmlCheckStrategy, CloneIntent,
    CloneRemoteResult, DlpProgramUpdateInterest, RollupPrograms,
};
use magicblock_chainlink::cloner::{
    AccountCloneRequest, AccountMeta, ClonePostDelegationMode, DelegationActions, Instruction,
};
use magicblock_chainlink::program_ids::{
    ASSOCIATED_TOKEN_PROGRAM_ID, MAGIC_PROGRAM_ID, SYSTEM_PROGRAM_ID, TOKEN_2022_PROGRAM_ID,
    TOKEN_PROGRAM_ID,
};
use magicblock_chainlink::pubkey::Pubkey;

fn key(n: u8) -> Pubkey {
    Pubkey::new([n; 32])
}

fn rollup() -> RollupPrograms {
    RollupPrograms { eata: key(201), ephemeral_system: key(202) }
}

fn request(account: Account) -> AccountCloneRequest {
    AccountCloneRequest::plain(key(7), account)
}

fn account() -> Account {
    let mut account = Account::new(1_000_000, Pubkey::new(SYSTEM_PROGRAM_ID));
    account.data = vec![1, 2, 3, 4];
    account
}

fn empty_account() -> Account {
    let mut account = Account::new(0, Pubkey::zero());
    account.mode = AccountMode::Placeholder;
    account
}

#[test]
fn clone_request_classification() {
    let empty = request(empty_account());
    assert!(is_empty_placeholder_account(&empty.account));
    assert_eq!(clone_remote_result_for_request(&empty), CloneRemoteResult::NotFound);
    assert_eq!(clone_intent_for_request(&empty), CloneIntent::EmptyPlaceholder);

    let normal = request(account());
    assert!(!is_empty_placeholder_account(&normal.account));
    assert_eq!(clone_remote_result_for_request(&normal), CloneRemoteResult::Found);
    assert_eq!(clone_intent_for_request(&normal), CloneIntent::NormalAccount);

    let mut delegated_account = account();
    delegated_account.mode = AccountMode::Delegated;
    let delegated = request(delegated_account);
    assert_eq!(clone_intent_for_request(&delegated), CloneIntent::DelegationRecord);

    let mut dependency = request(account());
    dependency.post_delegation_mode = ClonePostDelegationMode::from_actions(
        DelegationActions::new(
            key(8),
            vec![Instruction {
                program_id: Pubkey::new(SYSTEM_PROGRAM_ID),
                accounts: vec![],
                data: vec![1],
            }],
        ),
    );
    assert_eq!(clone_intent_for_request(&dependency), CloneIntent::ActionDependency);
}

#[test]
fn post_delegation_dependency_fetch_policy() {
    assert!(!action_dependency_needs_fetch(None, 10, true));
    assert!(action_dependency_needs_fetch(None, 10, false));
    assert!(action_dependency_needs_fetch(Some((9, AccountMode::ReadOnly)), 10, true));
    assert!(!action_dependency_needs_fetch(Some((10, AccountMode::ReadOnly)), 10, true));
    assert!(!action_dependency_needs_fetch(Some((9, AccountMode::Delegated)), 10, true));
}

fn action_for_program(program_id: Pubkey) -> Instruction {
    Instruction { program_id, accounts: vec![], data: vec![] }
}

fn action_referencing(program_id: Pubkey, account: Pubkey) -> Instruction {
    Instruction {
        program_id,
        accounts: vec![AccountMeta { pubkey: account, is_signer: false, is_writable: false }],
        data: vec![],
    }
}

#[test]
fn all_signers_strategy_always_requires_check() {
    let actions = vec![action_for_program(key(1))];
    assert!(delegation_actions_require_risk_check(
        AmlCheckStrategy::AllSigners,
        &actions,
        &rollup(),
    ));
}

#[test]
fn relevant_programs_strategy_skips_unrelated_actions() {
    let actions = vec![action_for_program(key(1)), action_for_program(key(2))];
    assert!(!delegation_actions_require_risk_check(
        AmlCheckStrategy::RelevantPrograms,
        &actions,
        &rollup(),
    ));
}

#[test]
fn relevant_programs_strategy_matches_each_relevant_program() {
    for program in [
        Pubkey::new(TOKEN_PROGRAM_ID),
        Pubkey::new(TOKEN_2022_PROGRAM_ID),
        rollup().eata,
        Pubkey::new(MAGIC_PROGRAM_ID),
        Pubkey::new(SYSTEM_PROGRAM_ID),
        rollup().ephemeral_system,
    ] {
        let actions = vec![action_for_program(program)];
        assert!(delegation_actions_require_risk_check(
            AmlCheckStrategy::RelevantPrograms,
            &actions,
            &rollup(),
        ));
        let actions = vec![action_referencing(key(3), program)];
        assert!(delegation_actions_require_risk_check(
            AmlCheckStrategy::RelevantPrograms,
            &actions,
            &rollup(),
        ));
    }
}

#[test]
fn default_strategy_checks_all_signers() {
    assert_eq!(AmlCheckStrategy::default(), AmlCheckStrategy::AllSigners);
}

#[test]
fn relevant_programs_strategy_matches_native_sol_transfers() {
    let transfer = solana_system_interface::instruction::transfer(
        &solana_pubkey::Pubkey::new_from_array([1; 32]),
        &solana_pubkey::Pubkey::new_from_array([2; 32]),
        1_000,
    );
    let actions = vec![Instruction {
        program_id: Pubkey::new(transfer.program_id.to_bytes()),
        accounts: transfer
            .accounts
            .iter()
            .map(|meta| AccountMeta {
                pubkey: Pubkey::new(meta.pubkey.to_bytes()),
                is_signer: meta.is_signer,
                is_writable: meta.is_writable,
            })
            .collect(),
        data: transfer.data,
    }];
    assert!(delegation_actions_require_risk_check(
        AmlCheckStrategy::RelevantPrograms,
        &actions,
        &rollup(),
    ));
}

#[test]
fn relevant_programs_strategy_matches_when_any_action_is_relevant() {
    let actions = vec![action_for_program(key(1)), action_for_program(rollup().eata)];
    assert!(delegation_actions_require_risk_check(
        AmlCheckStrategy::RelevantPrograms,
        &actions,
        &rollup(),
    ));
}

#[test]
fn accounts_without_lamports_are_placeholders() {
    assert_eq!(immutable_account_mode(0), AccountMode::Placeholder);
    assert_eq!(immutable_account_mode(1), AccountMode::ReadOnly);
}

#[test]
fn queries_filter_by_discriminator_and_authority() {
    let query = authority_record_config(&key(5), Some(9));
    assert_eq!(query.data_size, None);
    assert!(!query.with_data);
    assert_eq!(query.min_context_slot, Some(9));
    assert_eq!(query.filters.len(), 2);
    assert_eq!(query.filters[0].offset, 0);
    assert_eq!(query.filters[0].bytes, 100u64.to_le_bytes().to_vec());
    assert_eq!(query.filters[1].offset, 8);
    assert_eq!(query.filters[1].bytes, vec![5; 32]);

    let query = undelegation_request_config();
    assert_eq!(query.data_size, Some(48));
    assert!(query.with_data);
    assert_eq!(query.filters[0].bytes, 104u64.to_le_bytes().to_vec());

    let queries = replay_gap_queries(&key(5), 9);
    assert_eq!(queries.validator_records.filters[1].bytes, vec![5; 32]);
    assert_eq!(queries.confined_records.filters[1].bytes, vec![0; 32]);
    assert!(queries.accounts.filters.is_empty());
    assert_eq!(queries.accounts.data_size, None);
    assert!(!queries.accounts.with_data);
    assert_eq!(queries.accounts.min_context_slot, Some(9));
}

#[test]
fn remote_accounts_tell_their_slot_and_state() {
    let mut account = Account::new(1, key(1));
    account.slot = 7;
    let fresh = RemoteAccount::Found(ResolvedAccount::Fresh(account));
    assert_eq!(fresh.slot(), 7);
    assert!(fresh.fresh_account().is_some_and(|account| account.owner == key(1)));
    let held = RemoteAccount::Found(ResolvedAccount::Bank(key(2), 5));
    assert_eq!(held.slot(), 5);
    assert!(held.fresh_account().is_none());
    let missing = RemoteAccount::NotFound(3);
    assert_eq!(missing.slot(), 3);
    assert!(missing.fresh_account().is_none());
}

#[test]
fn undelegation_requests_are_read_and_others_left_out() {
    let delegated = key(4);
    let mut data = 104u64.to_le_bytes().to_vec();
    data.extend_from_slice(&delegated.bytes);
    data.extend_from_slice(&77u64.to_le_bytes());
    let pda = dlp_api::pda::undelegation_request_pda_from_delegated_account(
        &solana_pubkey::Pubkey::new_from_array(delegated.bytes),
    );
    let pda = Pubkey::new(pda.to_bytes());
    let requests = read_undelegation_requests(
        &vec![(key(1), vec![0; 48]), (pda, data.clone()), (pda, vec![1, 2])],
        12,
    );
    assert_eq!(requests.len(), 1);
    assert_eq!(requests[0].request_pda, pda);
    assert_eq!(requests[0].delegated_account, delegated);
    assert_eq!(requests[0].expires_at_slot, 77);
    assert_eq!(requests[0].observed_slot, 12);
}

#[test]
fn accounts_without_a_known_record_are_recovered() {
    let pda = |n: u8| {
        let account = solana_pubkey::Pubkey::new_from_array([n; 32]);
        Pubkey::new(
            dlp_api::pda::delegation_record_pda_from_delegated_account(&account).to_bytes(),
        )
    };
    let candidates =
        replay_recovery_candidates(&vec![key(1), key(2), key(3)], &vec![pda(1), pda(3)]);
    assert_eq!(candidates, vec![key(1), key(3)]);
}

#[test]
fn program_updates_are_sorted_by_what_is_known_locally() {
    let classify = classify_dlp_program_update_interest;
    assert_eq!(
        classify(Some(AccountMode::Delegated), true, None, true),
        DlpProgramUpdateInterest::DropLocalDelegatedAuthoritative
    );
    assert_eq!(classify(Some(AccountMode::Transient), false, None, false), DlpProgramUpdateInterest::ProcessUndelegating);
    assert_eq!(classify(None, false, Some(true), false), DlpProgramUpdateInterest::ProcessAtaProjection);
    assert_eq!(classify(None, true, None, false), DlpProgramUpdateInterest::ProcessDirectlyWatched);
    assert_eq!(classify(None, false, None, false), DlpProgramUpdateInterest::DiscoverDelegatedAccount);
}

#[test]
fn only_listed_programs_are_allowed_if_there_is_a_list() {
    assert!(is_program_allowed(&None, &key(1)));
    assert!(is_program_allowed(&Some(vec![key(1)]), &key(1)));
    assert!(!is_program_allowed(&Some(vec![key(2)]), &key(1)));
    assert!(is_program_allowed(&Some(vec![]), &key(1)));
}

#[test]
fn programs_with_too_many_accounts_are_not_subscribed_to() {
    assert!(program_subscription_is_too_broad(&Pubkey::new(TOKEN_PROGRAM_ID)));
    assert!(program_subscription_is_too_broad(&Pubkey::new(TOKEN_2022_PROGRAM_ID)));
    assert!(program_subscription_is_too_broad(&Pubkey::new(ASSOCIATED_TOKEN_PROGRAM_ID)));
    assert!(!program_subscription_is_too_broad(&key(1)));
}
