//! Delegation records, their actions, and what they make of an account.
use dlp_api::args::{
    EncryptedBuffer, MaybeEncryptedAccountMeta, MaybeEncryptedInstruction, MaybeEncryptedIxData,
    MaybeEncryptedPubkey, PostDelegationActions,
};
use magicblock_chainlink::account::{Account, AccountMode, RemoteAccount, ResolvedAccount};
use magicblock_chainlink::chainlink::account_still_undelegating_on_chain::account_still_undelegating_on_chain;
use magicblock_chainlink::chainlink::errors::ChainlinkError;
use magicblock_chainlink::chainlink::fetch_cloner::delegation::{
    apply_delegation_record_to_account, drops_record_subscription, get_delegated_to_other,
    parse_delegation_record, parse_raw_eata_pda, raw_eata_parties, read_fetched_record,
    record_with_actions, ActionsFailure,
};
use magicblock_chainlink::cloner::Instruction;
use magicblock_chainlink::delegation_record::{
    dlp_program_update_step, fetched_record_header, is_delegated_to_validator_or_confined,
    parse_delegation_record_header, read_record, read_undelegation_request,
    should_forward_dlp_program_update, DelegationRecord, DlpProgramUpdate, FetchError,
    RecordError,
};
use magicblock_chainlink::program_ids::{DLP_PROGRAM_ID, SYSTEM_PROGRAM_ID};
use magicblock_chainlink::pubkey::Pubkey;
use solana_keypair::Keypair;
use solana_signer::Signer;

fn key(n: u8) -> Pubkey {
    Pubkey::new([n; 32])
}

fn create_delegation_record(delegation_slot: u64) -> DelegationRecord {
    DelegationRecord {
        authority: Pubkey::zero(),
        owner: Pubkey::zero(),
        delegation_slot,
        lamports: 1000,
        commit_frequency_ms: 100,
    }
}

fn record_of(authority: Pubkey) -> DelegationRecord {
    DelegationRecord {
        authority,
        owner: key(77),
        delegation_slot: 42,
        lamports: 1_000_000,
        commit_frequency_ms: 1_000,
    }
}

fn serialize(record: &DelegationRecord) -> Vec<u8> {
    let record = dlp_api::state::DelegationRecord {
        authority: solana_pubkey::Pubkey::new_from_array(record.authority.bytes),
        owner: solana_pubkey::Pubkey::new_from_array(record.owner.bytes),
        delegation_slot: record.delegation_slot,
        lamports: record.lamports,
        commit_frequency_ms: record.commit_frequency_ms,
    };
    let mut data = vec![0; dlp_api::state::DelegationRecord::size_with_discriminator()];
    record.to_bytes_with_discriminator(&mut data).unwrap();
    data
}

fn serialize_record_with_actions(authority: Pubkey, actions: PostDelegationActions) -> Vec<u8> {
    let mut data = serialize(&DelegationRecord {
        authority,
        owner: key(88),
        delegation_slot: 1,
        lamports: 1_000_000,
        commit_frequency_ms: 1000,
    });
    data.extend_from_slice(&borsh::to_vec(&actions).unwrap());
    data
}

fn pubkey_of(keypair: &Keypair) -> Pubkey {
    Pubkey::new(keypair.pubkey().to_bytes())
}

fn assert_record(record: &DelegationRecord, expected: &DelegationRecord) {
    assert_eq!(record.authority, expected.authority);
    assert_eq!(record.owner, expected.owner);
    assert_eq!(record.delegation_slot, expected.delegation_slot);
    assert_eq!(record.lamports, expected.lamports);
    assert_eq!(record.commit_frequency_ms, expected.commit_frequency_ms);
}

fn assert_action(
    action: &Instruction,
    program_id: Pubkey,
    accounts: &[(Pubkey, bool, bool)],
    data: &[u8],
) {
    assert_eq!(action.program_id, program_id);
    assert_eq!(action.accounts.len(), accounts.len());
    for (meta, expected) in action.accounts.iter().zip(accounts) {
        assert_eq!((meta.pubkey, meta.is_signer, meta.is_writable), *expected);
    }
    assert_eq!(action.data, data);
}

#[test]
fn test_account_was_undelegated_and_remained_so() {
    assert!(!account_still_undelegating_on_chain(false, 100, &None));
}

#[test]
fn test_account_was_undelegated_and_redelegated_to_us() {
    let deleg_record = Some(create_delegation_record(101));
    assert!(!account_still_undelegating_on_chain(true, 100, &deleg_record));
}

#[test]
fn test_account_was_undelegated_and_redelegated_to_another() {
    let deleg_record = Some(create_delegation_record(90));
    assert!(!account_still_undelegating_on_chain(false, 100, &deleg_record));
}

#[test]
fn test_account_undelegation_pending() {
    let deleg_record = Some(create_delegation_record(99));
    assert!(account_still_undelegating_on_chain(true, 100, &deleg_record));
}

#[test]
fn parses_post_delegation_actions_cleartext() {
    let signer = key(1);
    let program_id = key(2);
    let account = key(3);
    let validator = Keypair::new();
    let payload = serialize_record_with_actions(
        pubkey_of(&validator),
        PostDelegationActions {
            inserted_signers: 0,
            inserted_non_signers: 0,
            signers: vec![signer.bytes, program_id.bytes, account.bytes],
            non_signers: vec![],
            instructions: vec![MaybeEncryptedInstruction {
                program_id: 1,
                accounts: vec![
                    MaybeEncryptedAccountMeta::ClearText(
                        dlp_api::compact::AccountMeta::new_readonly(0, true),
                    ),
                    MaybeEncryptedAccountMeta::ClearText(dlp_api::compact::AccountMeta::new(
                        2, false,
                    )),
                ],
                data: MaybeEncryptedIxData {
                    prefix: vec![7, 8, 9],
                    suffix: EncryptedBuffer::default(),
                },
            }],
        },
    );

    let (_, actions) = parse_delegation_record(
        &payload,
        key(9),
        &pubkey_of(&validator),
        validator.secret_bytes(),
    )
    .unwrap();

    let actions = actions.unwrap();
    assert_eq!(actions.len(), 1);
    assert_action(
        &actions[0],
        program_id,
        &[(signer, true, false), (account, false, true)],
        &[7, 8, 9],
    );
}

#[test]
fn decrypts_encrypted_post_delegation_actions() {
    let validator = Keypair::new();
    let signer = key(1);
    let program_id = key(2);
    let account = key(3);
    let encrypted_program_id = dlp_api::encryption::encrypt_ed25519_recipient(
        &program_id.bytes,
        &pubkey_of(&validator).bytes,
    )
    .unwrap();
    let encrypted_suffix = dlp_api::encryption::encrypt_ed25519_recipient(
        &[3, 4, 5],
        &pubkey_of(&validator).bytes,
    )
    .unwrap();
    let payload = serialize_record_with_actions(
        pubkey_of(&validator),
        PostDelegationActions {
            inserted_signers: 0,
            inserted_non_signers: 0,
            signers: vec![signer.bytes, account.bytes],
            non_signers: vec![MaybeEncryptedPubkey::Encrypted(EncryptedBuffer::new(
                encrypted_program_id,
            ))],
            instructions: vec![MaybeEncryptedInstruction {
                program_id: 2,
                accounts: vec![
                    MaybeEncryptedAccountMeta::ClearText(
                        dlp_api::compact::AccountMeta::new_readonly(0, true),
                    ),
                    MaybeEncryptedAccountMeta::ClearText(dlp_api::compact::AccountMeta::new(
                        1, false,
                    )),
                ],
                data: MaybeEncryptedIxData {
                    prefix: vec![1, 2],
                    suffix: EncryptedBuffer::new(encrypted_suffix),
                },
            }],
        },
    );

    let (_, actions) = parse_delegation_record(
        &payload,
        key(9),
        &pubkey_of(&validator),
        validator.secret_bytes(),
    )
    .unwrap();

    let actions = actions.unwrap();
    assert_eq!(actions.len(), 1);
    assert_action(
        &actions[0],
        program_id,
        &[(signer, true, false), (account, false, true)],
        &[1, 2, 3, 4, 5],
    );
}

#[test]
fn fails_when_encrypted_actions_have_wrong_validator_keypair() {
    let validator = Keypair::new();
    let wrong_validator = Keypair::new();
    let encrypted_program_id = dlp_api::encryption::encrypt_ed25519_recipient(
        &key(2).bytes,
        &pubkey_of(&validator).bytes,
    )
    .unwrap();
    let payload = serialize_record_with_actions(
        pubkey_of(&validator),
        PostDelegationActions {
            inserted_signers: 0,
            inserted_non_signers: 0,
            signers: vec![],
            non_signers: vec![MaybeEncryptedPubkey::Encrypted(EncryptedBuffer::new(
                encrypted_program_id,
            ))],
            instructions: vec![],
        },
    );

    let (_record, actions) = parse_delegation_record(
        &payload,
        key(9),
        &pubkey_of(&wrong_validator),
        wrong_validator.secret_bytes(),
    )
    .unwrap();

    assert!(actions.is_none());
}

#[test]
fn bytes_that_are_no_actions_are_an_error() {
    let validator = Keypair::new();
    let mut data = serialize(&record_of(pubkey_of(&validator)));
    data.push(1);
    let error = parse_delegation_record(
        &data,
        key(9),
        &pubkey_of(&validator),
        validator.secret_bytes(),
    )
    .unwrap_err();
    assert!(matches!(
        error,
        ChainlinkError::InvalidDelegationActions(pubkey, ref message)
            if pubkey == key(9)
                && message
                    == "Failed to deserialize PostDelegationActions: Unexpected length of input"
    ));
}

#[test]
fn actions_for_the_wrong_key_are_an_error() {
    let validator = Keypair::new();
    let other = Keypair::new();
    let encrypted = dlp_api::encryption::encrypt_ed25519_recipient(
        &key(2).bytes,
        &pubkey_of(&other).bytes,
    )
    .unwrap();
    let payload = serialize_record_with_actions(
        pubkey_of(&validator),
        PostDelegationActions {
            inserted_signers: 0,
            inserted_non_signers: 0,
            signers: vec![],
            non_signers: vec![MaybeEncryptedPubkey::Encrypted(EncryptedBuffer::new(encrypted))],
            instructions: vec![],
        },
    );
    let error = parse_delegation_record(
        &payload,
        key(9),
        &pubkey_of(&validator),
        validator.secret_bytes(),
    )
    .unwrap_err();
    assert!(matches!(
        error,
        ChainlinkError::InvalidDelegationActions(_, ref message)
            if message.starts_with("Failed to parse/decrypt PostDelegationActions: ")
    ));
}

#[test]
fn broken_records_say_what_is_wrong() {
    let secret = [1; 32];
    assert!(matches!(
        parse_delegation_record(&[1, 2, 3], key(9), &key(1), &secret),
        Err(ChainlinkError::InvalidDelegationRecord(pubkey, RecordError::TooShort))
            if pubkey == key(9)
    ));
    let mut data = serialize(&record_of(key(1)));
    data[0] ^= 0xff;
    assert!(matches!(
        parse_delegation_record(&data, key(9), &key(1), &secret),
        Err(ChainlinkError::InvalidDelegationRecord(_, RecordError::WrongDiscriminator))
    ));
    assert!(matches!(read_record(&data), Err(RecordError::WrongDiscriminator)));
    assert!(matches!(read_record(&data[..95]), Err(RecordError::TooShort)));
}

#[test]
fn decryption_results_are_passed_on() {
    let found = record_with_actions(record_of(key(1)), key(9), Ok(vec![]));
    let (record, actions) = found.unwrap();
    assert_record(&record, &record_of(key(1)));
    assert!(actions.unwrap().is_empty());
    assert!(matches!(
        record_with_actions(
            record_of(key(1)),
            key(9),
            Err(ActionsFailure::Unreadable("no".to_string()))
        ),
        Err(ChainlinkError::InvalidDelegationActions(pubkey, ref message))
            if pubkey == key(9)
                && message == "Failed to deserialize PostDelegationActions: no"
    ));
    assert!(matches!(
        record_with_actions(
            record_of(key(1)),
            key(9),
            Err(ActionsFailure::Undecrypted("no".to_string()))
        ),
        Err(ChainlinkError::InvalidDelegationActions(pubkey, ref message))
            if pubkey == key(9)
                && message == "Failed to parse/decrypt PostDelegationActions: no"
    ));
}

#[test]
fn predicate_matrix() {
    let validator_pubkey = key(1);
    assert!(is_delegated_to_validator_or_confined(&validator_pubkey, &validator_pubkey));
    assert!(is_delegated_to_validator_or_confined(&Pubkey::zero(), &validator_pubkey));
    assert!(!is_delegated_to_validator_or_confined(&key(2), &validator_pubkey));
}

#[test]
fn parse_header_accepts_trailing_bytes() {
    let record = DelegationRecord {
        authority: key(1),
        owner: key(2),
        delegation_slot: 9,
        lamports: 11,
        commit_frequency_ms: 7,
    };
    let mut data = serialize(&record);
    data.extend_from_slice(&[1, 2, 3, 4]);
    assert_record(&parse_delegation_record_header(&data).unwrap(), &record);
}

#[test]
fn record_layout_is_that_of_the_delegation_program() {
    let record = record_of(key(5));
    let data = serialize(&record);
    assert_eq!(data.len(), magicblock_chainlink::delegation_record::DELEGATION_RECORD_SIZE);
    assert_record(&read_record(&data).unwrap(), &record);
    assert!(parse_delegation_record_header(&data[1..]).is_none());
}

#[test]
fn undelegation_request_layout_is_that_of_the_delegation_program() {
    let request = dlp_api::state::UndelegationRequest {
        delegated_account: solana_pubkey::Pubkey::new_from_array([4; 32]),
        expires_at_slot: 0x0102_0304_0506_0708,
    };
    let mut data = vec![0; dlp_api::state::UndelegationRequest::size_with_discriminator()];
    request.to_bytes_with_discriminator(&mut data).unwrap();
    assert_eq!(data.len(), magicblock_chainlink::delegation_record::UNDELEGATION_REQUEST_SIZE);
    let read = read_undelegation_request(&data).unwrap();
    assert_eq!(read.delegated_account, key(4));
    assert_eq!(read.expires_at_slot, 0x0102_0304_0506_0708);
    assert!(read_undelegation_request(&data[..47]).is_none());
}

#[test]
fn fetched_headers_are_missing_short_or_broken() {
    let record = record_of(key(1));
    let data = serialize(&record);
    assert!(matches!(fetched_record_header(None), Ok(None)));
    assert!(matches!(fetched_record_header(Some(&vec![1, 2, 3])), Ok(None)));
    let mut broken = data.clone();
    broken[0] ^= 0xff;
    assert!(matches!(fetched_record_header(Some(&broken)), Err(FetchError::Deserialize)));
    assert_record(&fetched_record_header(Some(&data)).unwrap().unwrap(), &record);
}

#[test]
fn should_forward_dlp_program_update_matrix() {
    let dlp = Pubkey::new(DLP_PROGRAM_ID);
    assert!(matches!(dlp_program_update_step(&dlp, false), DlpProgramUpdate::FetchRecord));
    assert!(matches!(dlp_program_update_step(&dlp, true), DlpProgramUpdate::Drop));
    let validator = key(1);
    assert!(should_forward_dlp_program_update(&validator, &Ok(Some(record_of(validator)))));
    assert!(!should_forward_dlp_program_update(&validator, &Ok(Some(record_of(key(2))))));
    assert!(should_forward_dlp_program_update(&validator, &Ok(Some(record_of(Pubkey::zero())))));
    assert!(should_forward_dlp_program_update(&validator, &Ok(None)));
    assert!(should_forward_dlp_program_update(&validator, &Err(FetchError::Transport)));
}

#[test]
fn records_give_accounts_their_owner_and_mode() {
    let validator = key(1);
    let dlp = Pubkey::new(DLP_PROGRAM_ID);
    let mut account = Account::new(5, dlp);
    let frequency =
        apply_delegation_record_to_account(&validator, false, &mut account, &record_of(validator));
    assert_eq!(frequency, Some(1_000));
    assert_eq!(account.owner, key(77));
    assert_eq!(account.mode, AccountMode::Delegated);
    assert!(!account.confined);

    let mut account = Account::new(5, dlp);
    let frequency =
        apply_delegation_record_to_account(&validator, false, &mut account, &record_of(key(2)));
    assert_eq!(frequency, None);
    assert_eq!(account.mode, AccountMode::ReadOnly);

    let mut account = Account::new(5, dlp);
    apply_delegation_record_to_account(
        &validator,
        false,
        &mut account,
        &record_of(Pubkey::zero()),
    );
    assert!(account.confined);
    assert_eq!(account.mode, AccountMode::Delegated);

    let mut account = Account::new(5, dlp);
    let frequency =
        apply_delegation_record_to_account(&validator, true, &mut account, &record_of(validator));
    assert_eq!(frequency, None);
    assert_eq!(account.mode, AccountMode::ReadOnly);
}

#[test]
fn one_validator_runs_an_account() {
    let validator = key(1);
    assert_eq!(get_delegated_to_other(&validator, &record_of(validator)), None);
    assert_eq!(get_delegated_to_other(&validator, &record_of(Pubkey::zero())), None);
    assert_eq!(get_delegated_to_other(&validator, &record_of(key(2))), Some(key(2)));
}

#[test]
fn token_holders_are_told_by_their_layout() {
    let mut data = vec![0; 72];
    data[..32].copy_from_slice(&[5; 32]);
    data[32..64].copy_from_slice(&[6; 32]);
    assert_eq!(raw_eata_parties(&data), Some((key(5), key(6))));
    assert!(raw_eata_parties(&data[..71]).is_none());
    let program = key(9);
    assert_eq!(
        parse_raw_eata_pda(&key(3), &data, &program, &program, Some(key(3))),
        Some((key(5), key(6)))
    );
    assert!(parse_raw_eata_pda(&key(3), &data, &program, &program, Some(key(4))).is_none());
    assert!(parse_raw_eata_pda(&key(3), &data, &program, &program, None).is_none());
    assert!(parse_raw_eata_pda(&key(3), &data, &key(8), &program, Some(key(3))).is_none());
}

#[test]
fn fetched_records_are_read_if_they_are_there() {
    let secret = [1; 32];
    let mut account = Account::new(1, Pubkey::new(DLP_PROGRAM_ID));
    account.data = serialize(&record_of(key(1)));
    let found = Some(RemoteAccount::Found(ResolvedAccount::Fresh(account)));
    let (record, actions) = read_fetched_record(&found, key(9), &key(1), &secret).unwrap();
    assert_record(&record, &record_of(key(1)));
    assert!(actions.is_none());
    assert!(read_fetched_record(&None, key(9), &key(1), &secret).is_none());
    assert!(
        read_fetched_record(&Some(RemoteAccount::NotFound(3)), key(9), &key(1), &secret).is_none()
    );
    let plain = Account::new(1, Pubkey::new(SYSTEM_PROGRAM_ID));
    let found = Some(RemoteAccount::Found(ResolvedAccount::Fresh(plain)));
    assert!(read_fetched_record(&found, key(9), &key(1), &secret).is_none());
}

#[test]
fn record_subscriptions_that_were_not_there_are_dropped() {
    assert!(drops_record_subscription(false, false));
    assert!(!drops_record_subscription(true, false));
}
