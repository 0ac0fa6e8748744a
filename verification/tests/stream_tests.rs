//! The stream of confirmed records and transactions.
use base64::Engine;
use magicblock_chainlink::chainlink::record_stream::{
    handle_account_update, handle_transaction_update, parse_undelegation_request,
    payload_permit, reconnect_from_slot, recover_delegations_from_block,
    recover_delegations_from_transaction, sanitize_account_update_payload, BlockTransaction,
    CompiledInstruction, EncodedTransaction, InnerInstruction, PayloadPermit,
    TransactionBinaryEncoding, TransactionMessage, TransactionMeta, Reconnect, RecordStream, RecordStreamError, RecordStreamUpdate,
    ReplayRecoveryRange, ReplayRecoveryState, StartupBuffer, StreamAccount, StreamEvent,
    StreamTransaction, MAX_PERMITTED_DATA_LENGTH, UNDELEGATE_DISCRIMINATOR,
};
use magicblock_chainlink::delegation_record::{
    DELEGATION_RECORD_DISCRIMINATOR, DELEGATION_RECORD_SIZE, UNDELEGATION_REQUEST_DISCRIMINATOR,
};
use magicblock_chainlink::program_ids::DLP_PROGRAM_ID;
use magicblock_chainlink::pubkey::Pubkey;

const PUBKEY_LEN: usize = 32;

fn key(n: u8) -> Pubkey {
    Pubkey::new([n; 32])
}

fn request_data(delegated_account: [u8; 32]) -> Vec<u8> {
    let mut data = (UNDELEGATION_REQUEST_DISCRIMINATOR as u64).to_le_bytes().to_vec();
    data.extend_from_slice(&delegated_account);
    data.extend_from_slice(&42u64.to_le_bytes());
    data
}

fn request_pda(account: [u8; 32]) -> Vec<u8> {
    let account = solana_pubkey::Pubkey::new_from_array(account);
    dlp_api::pda::undelegation_request_pda_from_delegated_account(&account).to_bytes().to_vec()
}

fn delegate_update(
    delegated_account: [u8; 32],
    record: [u8; 32],
    inner: bool,
    discriminator: u64,
) -> StreamTransaction {
    let account_keys = vec![
        vec![9; PUBKEY_LEN],
        delegated_account.to_vec(),
        vec![7; PUBKEY_LEN],
        vec![6; PUBKEY_LEN],
        record.to_vec(),
        vec![5; PUBKEY_LEN],
        DLP_PROGRAM_ID.to_vec(),
    ];
    let instruction = CompiledInstruction {
        program_id_index: 6,
        accounts: vec![0, 1, 2, 3, 4, 5],
        data: discriminator.to_le_bytes().to_vec(),
    };
    let (instructions, inner_instructions) = if inner {
        (vec![], vec![vec![instruction]])
    } else {
        (vec![instruction], vec![])
    };
    StreamTransaction {
        failed: false,
        account_keys,
        loaded_writable_addresses: vec![],
        loaded_readonly_addresses: vec![],
        instructions,
        inner_instructions,
    }
}

fn account_event(data: Vec<u8>, slot: u64) -> StreamEvent {
    StreamEvent::Account {
        account: Some(StreamAccount { pubkey: vec![4; PUBKEY_LEN], data }),
        slot,
    }
}

#[test]
fn record_filter_is_discriminator_based() {
    let request = RecordStream::subscribe_request(Some(42));
    assert_eq!(request.accounts.len(), 2);
    for (name, discriminator) in [
        ("delegations", DELEGATION_RECORD_DISCRIMINATOR),
        ("undelegation-requests", UNDELEGATION_REQUEST_DISCRIMINATOR),
    ] {
        let filter = request.accounts.iter().find(|filter| filter.name == name).unwrap();
        assert_eq!(filter.filter.offset, 0);
        assert_eq!(filter.filter.bytes, (discriminator as u64).to_le_bytes().to_vec());
        assert_eq!(filter.owner, vec![dlp_api::id().to_string()]);
    }
    assert!(request.confirmed);
    assert_eq!(request.from_slot, Some(42));
    assert_eq!(request.transactions_name, "delegation-instructions");
    assert_eq!(request.account_include, vec![dlp_api::id().to_string()]);
    assert_eq!(request.slots_name, "slots");
    assert!(request.filter_by_commitment);
}

#[test]
fn reconnect_drops_expired_replay_anchor() {
    assert_eq!(reconnect_from_slot(100, 0), Some(68));
    assert_eq!(reconnect_from_slot(10, 4), Some(1));
    assert_eq!(reconnect_from_slot(100, 5), None);
    assert_eq!(reconnect_from_slot(100, usize::MAX), None);
}

#[test]
fn pending_recovery_ranges_merge_without_loss() {
    let mut recovery = ReplayRecoveryState::default();
    assert!(recovery.request(ReplayRecoveryRange { after_slot: 20, through_slot: 30 }));
    assert!(recovery.request(ReplayRecoveryRange { after_slot: 40, through_slot: 50 }));
    assert!(!recovery.request(ReplayRecoveryRange { after_slot: 9, through_slot: 9 }));
    assert_eq!(
        recovery.take_pending(),
        Some(ReplayRecoveryRange { after_slot: 20, through_slot: 50 })
    );
    assert_eq!(recovery.take_pending(), None);
}

#[test]
fn parses_undelegation_request() {
    let delegated_account = [7; PUBKEY_LEN];
    let data = request_data(delegated_account);
    assert_eq!(parse_undelegation_request(&data), Some((delegated_account, 42)));
}

#[test]
fn rejects_undelegation_request_with_noncanonical_pda() {
    let delegated_account = [7; PUBKEY_LEN];
    let found = handle_account_update(
        Some(StreamAccount {
            pubkey: vec![3; PUBKEY_LEN],
            data: request_data(delegated_account),
        }),
        7,
    );
    assert!(found.is_none());
    let found = handle_account_update(
        Some(StreamAccount {
            pubkey: request_pda(delegated_account),
            data: request_data(delegated_account),
        }),
        7,
    );
    assert!(matches!(
        found,
        Some(RecordStreamUpdate::UndelegationRequested {
            delegated_account: [7, ..],
            expires_at_slot: 42,
            slot: 7,
            ..
        })
    ));
}

#[test]
fn observes_top_level_and_cpi_delegate_variants() {
    let mut stream = RecordStream::new();
    for (inner, discriminator) in [(false, 0), (true, 19)] {
        let step = stream.handle_update(StreamEvent::Transaction {
            transaction: Some(delegate_update([1; 32], [2; 32], inner, discriminator)),
            slot: 7,
        });
        assert!(step.proceed);
        assert_eq!(step.deliver.len(), 1);
        assert!(matches!(
            step.deliver[0],
            RecordStreamUpdate::DelegationObserved {
                delegated_account,
                record,
                slot: 7,
            } if delegated_account == [1; 32] && record == [2; 32]
        ));
    }
    assert_eq!(stream.slot, 7);
}

#[test]
fn failed_transactions_and_other_instructions_say_nothing() {
    let mut failed = delegate_update([1; 32], [2; 32], false, 0);
    failed.failed = true;
    assert!(handle_transaction_update(Some(failed), 7).is_empty());
    let other = delegate_update([1; 32], [2; 32], false, 1);
    assert!(handle_transaction_update(Some(other), 7).is_empty());
    assert!(handle_transaction_update(None, 7).is_empty());
}

/// The bytes of a version 0 transaction with one signature, one address table lookup, and these
/// addresses and instructions.
fn transaction_bytes(keys: &[Pubkey], instructions: &[(u8, Vec<u8>, Vec<u8>)]) -> Vec<u8> {
    let mut bytes = vec![1];
    bytes.extend([0; 64]);
    bytes.extend([0x80, 1, 0, 1]);
    bytes.push(keys.len() as u8);
    for key in keys {
        bytes.extend(key.bytes);
    }
    bytes.extend([0; 32]);
    bytes.push(instructions.len() as u8);
    for (program, accounts, data) in instructions {
        bytes.push(*program);
        bytes.push(accounts.len() as u8);
        bytes.extend(accounts);
        bytes.push(data.len() as u8);
        bytes.extend(data);
    }
    bytes.push(1);
    bytes.extend([23; 32]);
    bytes.extend([2, 0, 1, 0]);
    bytes
}

fn base64_transaction(bytes: Vec<u8>) -> EncodedTransaction {
    EncodedTransaction::Binary(
        base64::engine::general_purpose::STANDARD.encode(bytes),
        TransactionBinaryEncoding::Base64,
    )
}

fn address_texts(keys: &[Pubkey]) -> Vec<String> {
    keys.iter()
        .map(|key| solana_pubkey::Pubkey::new_from_array(key.bytes).to_string())
        .collect()
}

#[test]
fn recovers_cpi_delegation_with_alt_accounts_from_block() {
    let delegated_account = key(21);
    let record = key(22);
    let transactions = vec![BlockTransaction {
        transaction: base64_transaction(transaction_bytes(
            &[key(20), Pubkey::new(DLP_PROGRAM_ID)],
            &[],
        )),
        meta: Some(TransactionMeta {
            failed: false,
            loaded_writable: address_texts(&[delegated_account, record]),
            loaded_readonly: vec![],
            inner_instructions: vec![vec![InnerInstruction::Compiled {
                program_id_index: 1,
                accounts: vec![0, 2, 0, 0, 3],
                data: bs58::encode(0u64.to_le_bytes()).into_string(),
            }]],
        }),
    }];

    let recovered = recover_delegations_from_block(&transactions, 42);
    assert_eq!(recovered.len(), 1);
    assert_eq!(recovered[0].delegated_account, delegated_account);
    assert_eq!(recovered[0].record, record);
    assert_eq!(recovered[0].slot, 42);
}

#[test]
fn top_level_delegations_are_recovered_from_either_text_form() {
    let bytes = || {
        transaction_bytes(
            &[key(20), Pubkey::new(DLP_PROGRAM_ID)],
            &[
                (1, vec![0, 2, 0, 0, 3], 0u64.to_le_bytes().to_vec()),
                (1, vec![0, 3, 0, 0, 2], 19u64.to_le_bytes().to_vec()),
                (1, vec![0, 2, 0, 0, 3], 7u64.to_le_bytes().to_vec()),
            ],
        )
    };
    let meta = |failed| {
        Some(TransactionMeta {
            failed,
            loaded_writable: address_texts(&[key(21)]),
            loaded_readonly: address_texts(&[key(22)]),
            inner_instructions: vec![],
        })
    };
    let base58 = || bs58::encode(bytes()).into_string();
    let transactions = vec![
        BlockTransaction { transaction: base64_transaction(bytes()), meta: meta(false) },
        BlockTransaction { transaction: EncodedTransaction::LegacyBinary(base58()), meta: meta(false) },
        BlockTransaction {
            transaction: EncodedTransaction::Binary(base58(), TransactionBinaryEncoding::Base58),
            meta: meta(true),
        },
        BlockTransaction { transaction: EncodedTransaction::LegacyBinary(base58()), meta: None },
        BlockTransaction { transaction: EncodedTransaction::Json, meta: meta(false) },
        BlockTransaction { transaction: EncodedTransaction::Accounts, meta: meta(false) },
    ];
    let found: Vec<(Pubkey, Pubkey, u64)> = recover_delegations_from_block(&transactions, 9)
        .iter()
        .map(|found| (found.delegated_account, found.record, found.slot))
        .collect();
    let both = [(key(21), key(22), 9), (key(22), key(21), 9)];
    assert_eq!(found, [both, both].concat());
}

#[test]
fn a_transaction_is_decoded_whole_or_not_at_all() {
    let keys = [key(20), Pubkey::new(DLP_PROGRAM_ID)];
    let bytes = transaction_bytes(&keys, &[(1, vec![0], vec![5, 6])]);
    let message = base64_transaction(bytes.clone()).decode().unwrap();
    assert_eq!(message.static_account_keys, keys);
    assert_eq!(message.instructions.len(), 1);
    assert_eq!(message.instructions[0].program_id_index, 1);
    assert_eq!(message.instructions[0].accounts, [0]);
    assert_eq!(message.instructions[0].data, [5, 6]);

    assert!(base64_transaction(bytes[..bytes.len() - 1].to_vec()).decode().is_none());
    assert!(EncodedTransaction::LegacyBinary("0OIl".into()).decode().is_none());
    let mut two_signers = bytes;
    two_signers[66] = 2;
    assert!(base64_transaction(two_signers).decode().is_none());
}

#[test]
fn block_texts_that_cannot_be_read_recover_nothing() {
    let message = TransactionMessage {
        static_account_keys: vec![key(20), Pubkey::new(DLP_PROGRAM_ID)],
        instructions: vec![],
    };
    let meta = TransactionMeta {
        failed: false,
        loaded_writable: vec!["not an address".into(), "0OIl".into()],
        loaded_readonly: vec![],
        inner_instructions: vec![vec![
            InnerInstruction::Compiled {
                program_id_index: 1,
                accounts: vec![0, 2, 0, 0, 3],
                data: bs58::encode(0u64.to_le_bytes()).into_string(),
            },
            InnerInstruction::Compiled {
                program_id_index: 1,
                accounts: vec![0, 1, 0, 0, 1],
                data: "0OIl".into(),
            },
            InnerInstruction::Parsed,
        ]],
    };
    assert!(recover_delegations_from_transaction(&message, &meta, 42).is_empty());
    assert!(recover_delegations_from_block(&vec![], 42).is_empty());
}

#[test]
fn startup_requires_confirmed_slot_replay_anchor() {
    let mut buffer = StartupBuffer::new();
    let delegate = || StreamEvent::Transaction {
        transaction: Some(delegate_update([1; 32], [2; 32], false, 0)),
        slot: 7,
    };
    assert!(matches!(buffer.push(Some(Ok(delegate()))), Ok(None)));
    assert!(matches!(
        buffer.push(Some(Ok(StreamEvent::Slot { slot: 8, confirmed: true }))),
        Ok(Some(8))
    ));
    assert_eq!(buffer.updates.len(), 2);

    let mut buffer = StartupBuffer::new();
    assert!(matches!(buffer.push(Some(Ok(delegate()))), Ok(None)));
    assert!(matches!(
        buffer.push(None),
        Err(RecordStreamError::Connection("stream closed before confirmed-slot barrier"))
    ));
    let mut buffer = StartupBuffer::new();
    assert!(matches!(
        buffer.push(Some(Err("down".into()))),
        Err(RecordStreamError::Laserstream(message)) if message == "down"
    ));
}

#[test]
fn pending_record_payload_preserves_action_bytes() {
    let payload_len = DELEGATION_RECORD_SIZE + 64;
    let mut stream = RecordStream::new();
    let step = stream.handle_update(account_event(vec![0; payload_len], 7));
    assert_eq!(step.deliver.len(), 1);
    assert!(matches!(
        &step.deliver[0],
        RecordStreamUpdate::Record { data, .. } if data.len() == payload_len
    ));
}

#[test]
fn payloads_larger_than_an_account_are_dropped() {
    let (event, left) =
        sanitize_account_update_payload(account_event(vec![0; MAX_PERMITTED_DATA_LENGTH + 1], 7));
    assert_eq!(left, 0);
    assert!(matches!(
        event,
        StreamEvent::Account { account: Some(account), slot: 7 } if account.data.is_empty()
    ));
    let (event, left) = sanitize_account_update_payload(account_event(vec![1, 2], 7));
    assert_eq!(left, 2);
    assert!(matches!(
        event,
        StreamEvent::Account { account: Some(account), slot: 7 } if account.data == vec![1, 2]
    ));
}

#[test]
fn payloads_are_paid_for() {
    let record = |len: usize| RecordStreamUpdate::Record {
        record: [1; 32],
        data: vec![0; len],
        slot: 1,
    };
    assert!(matches!(payload_permit(&record(0)), PayloadPermit::Free));
    assert!(matches!(payload_permit(&record(4)), PayloadPermit::Bytes(4)));
    assert!(matches!(
        payload_permit(&RecordStreamUpdate::SlotAdvanced(1)),
        PayloadPermit::Free
    ));
}

#[test]
fn resolves_alt_loaded_undelegation_accounts() {
    let transaction = StreamTransaction {
        failed: false,
        account_keys: vec![vec![9; PUBKEY_LEN]],
        loaded_writable_addresses: vec![vec![3; PUBKEY_LEN]],
        loaded_readonly_addresses: vec![DLP_PROGRAM_ID.to_vec()],
        instructions: vec![CompiledInstruction {
            program_id_index: 2,
            accounts: vec![0, 0, 0, 0, 0, 0, 1],
            data: UNDELEGATE_DISCRIMINATOR.to_le_bytes().to_vec(),
        }],
        inner_instructions: vec![],
    };
    let mut stream = RecordStream::new();
    let step = stream
        .handle_update(StreamEvent::Transaction { transaction: Some(transaction), slot: 8 });
    assert_eq!(step.deliver.len(), 1);
    assert!(matches!(
        step.deliver[0],
        RecordStreamUpdate::RecordUndelegated { record, slot: 8 } if record == [3; 32]
    ));
}

#[test]
fn late_update_interrupts_before_delivery() {
    let mut stream = RecordStream::new();
    let step = stream.handle_update(StreamEvent::Slot { slot: 100, confirmed: true });
    assert!(step.proceed);
    assert!(matches!(step.deliver[..], [RecordStreamUpdate::SlotAdvanced(100)]));
    let step = stream.handle_update(account_event(vec![1], 40));
    assert!(!step.proceed);
    assert!(matches!(
        step.deliver[..],
        [RecordStreamUpdate::SyncInterrupted, RecordStreamUpdate::Record { slot: 40, .. }]
    ));
    assert_eq!(stream.slot, 40);
    assert_eq!(stream.last_confirmed_slot, 39);
}

#[test]
fn stream_error_interrupts_before_reconnect() {
    let mut stream = RecordStream::new();
    stream.watermark = 100;
    let step = stream.handle_update(StreamEvent::Error);
    assert!(!step.proceed);
    assert_eq!(stream.watermark, 0);
    assert_eq!(stream.continuity_epoch, 1);
    assert!(matches!(step.deliver[..], [RecordStreamUpdate::SyncInterrupted]));
}

#[test]
fn slots_that_are_not_confirmed_are_no_barrier() {
    let mut stream = RecordStream::new();
    let step = stream.handle_update(StreamEvent::Slot { slot: 5, confirmed: false });
    assert!(step.proceed && step.deliver.is_empty());
    assert_eq!(stream.watermark, 0);
    let step = stream.handle_update(StreamEvent::Other);
    assert!(step.proceed && step.deliver.is_empty());
}

#[test]
fn pauses_double_up_to_a_minute() {
    let mut reconnect = Reconnect::new();
    let pauses: Vec<u64> = (0..8).map(|_| reconnect.failed()).collect();
    assert_eq!(pauses, vec![1, 2, 4, 8, 16, 32, 60, 60]);
    assert_eq!(reconnect.replay_failures, 8);
}

#[test]
fn without_replay_the_gap_is_asked_for() {
    let mut stream = RecordStream::new();
    stream.watermark = 9;
    stream.last_confirmed_slot = 9;
    assert_eq!(stream.reconnected(Some(3), 20), None);
    assert_eq!(stream.watermark, 0);
    assert_eq!(
        stream.reconnected(None, 20),
        Some(ReplayRecoveryRange { after_slot: 9, through_slot: 20 })
    );
}
