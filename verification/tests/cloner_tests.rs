//! Requests to bring accounts into the bank.
use magicblock_chainlink::account::{Account, AccountMode};
use magicblock_chainlink::cloner::errors::{ClonerError, EngineError, ErrorText};
use magicblock_chainlink::cloner::{
    claims_materialization, post_finalize, resolve_program, undelegation_action,
    AccountCloneRequest, AccountMeta, ClonePostDelegationMode, CloneSourceSlots,
    DelegationActions, Instruction, LoadedProgram, RemoteProgramLoader,
};
use magicblock_chainlink::program_ids::{
    LOADER_V1_ID, LOADER_V4_ID, MAGIC_CONTEXT_ID, MAGIC_PROGRAM_ID,
};
use magicblock_chainlink::pubkey::Pubkey;

fn key(n: u8) -> Pubkey {
    Pubkey::new([n; 32])
}

fn meta(n: u8, is_writable: bool) -> AccountMeta {
    AccountMeta { pubkey: key(n), is_signer: false, is_writable }
}

fn program(loader: RemoteProgramLoader, retracted: bool) -> LoadedProgram {
    LoadedProgram {
        program_id: key(1),
        program_data: vec![1, 2, 3],
        lamports: 9,
        loader,
        retracted,
        remote_slot: 7,
    }
}

/// An error that is shown in the same way to everybody.
fn shown(text: &str) -> ErrorText {
    ErrorText { display: text.to_string(), debug: text.to_string() }
}

#[test]
fn rescue_eligibility_requires_definitive_failure() {
    let definitive = || {
        vec![
            EngineError::Sanitization(shown("sanitization")),
            EngineError::Serde(shown("rejected")),
            EngineError::TransactionExecution(shown("AccountNotFound")),
            EngineError::TransactionCompile(shown("AccountIndexOverflow")),
            EngineError::Signature(shown("NotEnoughSigners")),
            EngineError::SignatureVerification(shown("SignatureVerification")),
        ]
    };
    for error in definitive() {
        assert!(ClonerError::Engine(error).allows_rescue());
    }
    for error in definitive() {
        let error = ClonerError::Engine(error);
        assert!(
            ClonerError::FailedToCloneRegularAccount(key(1), Box::new(error)).allows_rescue()
        );
    }
    let open = || {
        vec![
            EngineError::ShuttingDown(shown("ShuttingDown")),
            EngineError::ServiceUnavailable(shown("Sequencer")),
            EngineError::Internal(shown("transaction execution failed")),
        ]
    };
    for error in open() {
        assert!(!ClonerError::Engine(error).allows_rescue());
    }
    for error in open() {
        let error = ClonerError::Engine(error);
        assert!(
            !ClonerError::FailedToCloneRegularAccount(key(1), Box::new(error)).allows_rescue()
        );
    }
    assert!(!ClonerError::TransactionError(shown("AccountNotFound")).allows_rescue());
}

#[test]
fn rescue_eligibility_rejects_task_failure() {
    let error = ClonerError::FailedToCloneRegularAccount(
        key(1),
        Box::new(ClonerError::Engine(EngineError::Task(shown("cancelled")))),
    );
    assert!(!error.allows_rescue());
}

#[test]
fn dependencies_leave_out_the_target() {
    let actions = DelegationActions::new(
        key(9),
        vec![
            Instruction {
                program_id: key(1),
                accounts: vec![meta(2, true), meta(3, false)],
                data: vec![],
            },
            Instruction { program_id: key(2), accounts: vec![meta(1, true)], data: vec![] },
        ],
    )
    .unwrap();
    assert_eq!(actions.source_program(), key(9));
    assert_eq!(
        actions.dependencies(key(2)),
        vec![(key(1), false), (key(3), false), (key(1), true)]
    );
    assert!(DelegationActions::new(key(9), vec![]).is_none());
}

#[test]
fn programs_are_owned_by_the_loader_they_run_with() {
    let request = resolve_program(program(RemoteProgramLoader::V1, false)).unwrap();
    assert_eq!(request.account.owner, Pubkey::new(LOADER_V1_ID));
    for loader in [RemoteProgramLoader::V2, RemoteProgramLoader::V3, RemoteProgramLoader::V4] {
        let request = resolve_program(program(loader, false)).unwrap();
        assert_eq!(request.account.owner, Pubkey::new(LOADER_V4_ID));
        assert_eq!(request.pubkey, key(1));
        assert_eq!(request.account.data, vec![1, 2, 3]);
        assert_eq!(request.account.lamports, 9);
        assert_eq!(request.account.slot, 7);
        assert_eq!(request.account.mode, AccountMode::ReadOnly);
        assert!(request.account.executable);
    }
    assert!(resolve_program(program(RemoteProgramLoader::V4, true)).is_none());
}

#[test]
fn accounts_of_the_rollup_are_not_replaced() {
    assert!(claims_materialization(None));
    assert!(claims_materialization(Some(AccountMode::ReadOnly)));
    assert!(!claims_materialization(Some(AccountMode::Magic)));
}

#[test]
fn source_slots_default_to_the_account() {
    let mut account = Account::new(1, key(2));
    account.slot = 8;
    let mut request = AccountCloneRequest::plain(key(1), account);
    assert_eq!(request.source_slots(), CloneSourceSlots::single(8));
    request.source_slots = Some(CloneSourceSlots::projected(5, 9));
    assert_eq!(request.source_slots(), CloneSourceSlots { data: 5, view: 9 });
    assert_eq!(CloneSourceSlots::projected(9, 5), CloneSourceSlots { data: 9, view: 9 });
}

#[test]
fn accounts_are_given_back_by_the_authority() {
    let action = undelegation_action(key(1), key(2), vec![4]);
    assert_eq!(action.program_id, Pubkey::new(MAGIC_PROGRAM_ID));
    assert_eq!(action.data, vec![4]);
    let metas: Vec<(Pubkey, bool, bool)> = action
        .accounts
        .iter()
        .map(|meta| (meta.pubkey, meta.is_signer, meta.is_writable))
        .collect();
    assert_eq!(
        metas,
        vec![
            (key(1), true, false),
            (Pubkey::new(MAGIC_CONTEXT_ID), false, true),
            (key(2), false, true),
        ]
    );
}

#[test]
fn what_runs_after_a_clone_depends_on_its_mode() {
    assert!(post_finalize(ClonePostDelegationMode::Plain, key(1), key(2), vec![]).is_none());
    let actions = DelegationActions::new(
        key(9),
        vec![Instruction { program_id: key(5), accounts: vec![], data: vec![6] }],
    );
    let mode = ClonePostDelegationMode::from_actions(actions);
    assert!(mode.has_actions());
    let after = post_finalize(mode, key(1), key(2), vec![]).unwrap();
    assert_eq!(after.source_program, key(9));
    assert_eq!(after.actions.len(), 1);
    assert_eq!(after.actions[0].program_id, key(5));
    let after = post_finalize(
        ClonePostDelegationMode::RescueUndelegate(key(8)),
        key(1),
        key(2),
        vec![7],
    )
    .unwrap();
    assert_eq!(after.source_program, key(8));
    assert_eq!(after.actions.len(), 1);
    assert_eq!(after.actions[0].data, vec![7]);
    assert_eq!(after.actions[0].accounts[2].pubkey, key(2));
}

#[test]
fn cloner_errors_say_what_happened() {
    let texts = || ErrorText { display: "it broke".to_string(), debug: "Broke(7)".to_string() };
    let one = |n: u8| solana_pubkey::Pubkey::new_from_array([n; 32]).to_string();
    for error in [
        ClonerError::BincodeError(texts()),
        ClonerError::TryFromIntError(texts()),
        ClonerError::SignerError(texts()),
        ClonerError::TransactionError(texts()),
        ClonerError::RemoteAccountProviderError(texts()),
    ] {
        assert_eq!(error.message(), "it broke");
    }
    assert_eq!(ClonerError::SignerError(texts()).debug_message(), "SignerError(Broke(7))");
    let committor = ClonerError::CommittorServiceError(texts());
    assert_eq!(committor.message(), "CommittorServiceError it broke");
    assert_eq!(committor.debug_message(), "CommittorServiceError(Broke(7))");
    let engine = || ClonerError::Engine(EngineError::Task(texts()));
    assert_eq!(engine().message(), "engine error: it broke");
    let large = ClonerError::CloneTransactionTooLarge { pubkey: key(1), size: 1300, max_size: 1232 };
    assert_eq!(
        large.message(),
        format!(
            "Clone transaction for account {} is too large: 1300 bytes (max 1232 bytes)",
            one(1)
        )
    );
    assert_eq!(
        large.debug_message(),
        format!(
            "CloneTransactionTooLarge {{ pubkey: {}, size: 1300, max_size: 1232 }}",
            one(1)
        )
    );
    let regular = ClonerError::FailedToCloneRegularAccount(key(1), Box::new(engine()));
    assert_eq!(
        regular.message(),
        format!("Failed to clone regular account {} : Engine(Broke(7))", one(1))
    );
    assert_eq!(
        ClonerError::FailedToEvictAccount(key(2), Box::new(regular)).message(),
        format!(
            "Failed to evict account {} : FailedToCloneRegularAccount({}, Engine(Broke(7)))",
            one(2),
            one(1)
        )
    );
    assert_eq!(
        ClonerError::FailedToCloneProgram(key(1), Box::new(engine())).message(),
        format!("Failed to clone program {} : Engine(Broke(7))", one(1))
    );
    assert_eq!(
        ClonerError::FailedToScheduleUndelegation(key(1), Box::new(engine())).message(),
        format!("Failed to schedule undelegation {} : Engine(Broke(7))", one(1))
    );
    assert_eq!(
        ClonerError::FailedToCreateCloneProgramTransaction(key(1), Box::new(engine())).message(),
        format!("Failed to create clone program transaction {} : Engine(Broke(7))", one(1))
    );
    assert_eq!(
        ClonerError::FailedToCloneAndScheduleUndelegation(key(1), Box::new(engine())).message(),
        format!(
            "Failed to clone and schedule undelegation for account {} : Engine(Broke(7))",
            one(1)
        )
    );
}
