//! Addresses, lists of them and the texts they stand in.
use magicblock_chainlink::chainlink::blacklisted_accounts::{
    blacklisted_accounts, native_program_accounts, sysvar_accounts,
};
use magicblock_chainlink::chainlink::fetch_cloner::program_loader::PROGRAMDATA_HEADER_LEN;
use magicblock_chainlink::chainlink::record_stream::MAX_PERMITTED_DATA_LENGTH;
use magicblock_chainlink::program_ids;
use magicblock_chainlink::pubkey::{contains_key, copy_keys, extend_distinct, insert_key, Pubkey};
use magicblock_chainlink::sorting::{address_before, insert_text, sort_addresses, text_before};
use magicblock_chainlink::text::{decimal, join_messages};

fn key(n: u8) -> Pubkey {
    Pubkey::new([n; 32])
}

fn text(bytes: [u8; 32]) -> String {
    bs58::encode(bytes).into_string()
}

#[test]
fn program_addresses_are_those_of_the_chain() {
    let ids = [
        (program_ids::SYSTEM_PROGRAM_ID, solana_sdk_ids::system_program::ID),
        (program_ids::NATIVE_LOADER_ID, solana_sdk_ids::native_loader::ID),
        (program_ids::LOADER_V1_ID, solana_sdk_ids::bpf_loader_deprecated::ID),
        (program_ids::LOADER_V2_ID, solana_sdk_ids::bpf_loader::ID),
        (program_ids::LOADER_V3_ID, solana_sdk_ids::bpf_loader_upgradeable::ID),
        (program_ids::LOADER_V4_ID, solana_sdk_ids::loader_v4::ID),
        (program_ids::ADDRESS_LOOKUP_TABLE_ID, solana_sdk_ids::address_lookup_table::ID),
        (program_ids::COMPUTE_BUDGET_ID, solana_sdk_ids::compute_budget::ID),
        (program_ids::CONFIG_PROGRAM_ID, solana_sdk_ids::config::ID),
        (program_ids::ED25519_PROGRAM_ID, solana_sdk_ids::ed25519_program::ID),
        (program_ids::INCINERATOR_ID, solana_sdk_ids::incinerator::ID),
        (program_ids::SECP256K1_PROGRAM_ID, solana_sdk_ids::secp256k1_program::ID),
        (program_ids::STAKE_PROGRAM_ID, solana_sdk_ids::stake::ID),
        (program_ids::STAKE_CONFIG_ID, solana_sdk_ids::stake::config::ID),
        (program_ids::VOTE_PROGRAM_ID, solana_sdk_ids::vote::ID),
        (program_ids::SYSVAR_ID, solana_sdk_ids::sysvar::ID),
        (program_ids::SYSVAR_CLOCK_ID, solana_sdk_ids::sysvar::clock::ID),
        (program_ids::SYSVAR_EPOCH_REWARDS_ID, solana_sdk_ids::sysvar::epoch_rewards::ID),
        (program_ids::SYSVAR_EPOCH_SCHEDULE_ID, solana_sdk_ids::sysvar::epoch_schedule::ID),
        (program_ids::SYSVAR_FEES_ID, solana_sdk_ids::sysvar::fees::ID),
        (program_ids::SYSVAR_INSTRUCTIONS_ID, solana_sdk_ids::sysvar::instructions::ID),
        (program_ids::SYSVAR_LAST_RESTART_SLOT_ID, solana_sdk_ids::sysvar::last_restart_slot::ID),
        (
            program_ids::SYSVAR_RECENT_BLOCKHASHES_ID,
            solana_sdk_ids::sysvar::recent_blockhashes::ID,
        ),
        (program_ids::SYSVAR_RENT_ID, solana_sdk_ids::sysvar::rent::ID),
        (program_ids::SYSVAR_REWARDS_ID, solana_sdk_ids::sysvar::rewards::ID),
        (program_ids::SYSVAR_SLOT_HASHES_ID, solana_sdk_ids::sysvar::slot_hashes::ID),
        (program_ids::SYSVAR_SLOT_HISTORY_ID, solana_sdk_ids::sysvar::slot_history::ID),
        (program_ids::SYSVAR_STAKE_HISTORY_ID, solana_sdk_ids::sysvar::stake_history::ID),
    ];
    for (ours, theirs) in ids {
        assert_eq!(ours, theirs.to_bytes());
    }
    assert_eq!(program_ids::DLP_PROGRAM_ID, dlp_api::id().to_bytes());
}

#[test]
fn token_and_rollup_addresses_read_as_they_are_written() {
    assert_eq!(
        text(program_ids::TOKEN_PROGRAM_ID),
        "TokenkegQfeZyiNwAJbNbGKPFXCWuBvf9Ss623VQ5DA"
    );
    assert_eq!(
        text(program_ids::TOKEN_2022_PROGRAM_ID),
        "TokenzQdBNbLqP5VEhdkAS6EPFLC1PHnBqCXEpPxuEb"
    );
    assert_eq!(
        text(program_ids::ASSOCIATED_TOKEN_PROGRAM_ID),
        "ATokenGPvbdGVxr1b2hvZbsiqW5xWH25efTNsLJA8knL"
    );
    assert_eq!(
        text(program_ids::NATIVE_MINT_ID),
        "So11111111111111111111111111111111111111112"
    );
    assert_eq!(
        text(program_ids::MAGIC_PROGRAM_ID),
        "Magic11111111111111111111111111111111111111"
    );
    assert_eq!(
        text(program_ids::MAGIC_CONTEXT_ID),
        "MagicContext1111111111111111111111111111111"
    );
}

#[test]
fn limits_are_those_of_the_chain() {
    assert_eq!(
        PROGRAMDATA_HEADER_LEN,
        solana_loader_v3_interface::state::UpgradeableLoaderState::size_of_programdata_metadata()
    );
    assert_eq!(
        MAX_PERMITTED_DATA_LENGTH as u64,
        solana_system_interface::MAX_PERMITTED_DATA_LENGTH
    );
}

#[test]
fn sysvars_programs_and_special_accounts_are_never_cloned() {
    let list = blacklisted_accounts(&key(1), &key(2));
    assert_eq!(sysvar_accounts().len(), 13);
    assert_eq!(native_program_accounts().len(), 15);
    assert_eq!(list.len(), 13 + 15 + 6);
    for account in sysvar_accounts().iter().chain(native_program_accounts().iter()) {
        assert!(contains_key(&list, account));
    }
    for account in [
        key(1),
        key(2),
        Pubkey::new(program_ids::NATIVE_MINT_ID),
        Pubkey::new(program_ids::MAGIC_PROGRAM_ID),
        Pubkey::new(program_ids::MAGIC_CONTEXT_ID),
        Pubkey::new(program_ids::STAKE_CONFIG_ID),
    ] {
        assert!(contains_key(&list, &account));
    }
    assert!(!contains_key(&list, &key(3)));
    // An account that is on the list for two reasons is there once.
    let same = blacklisted_accounts(&key(1), &key(1));
    assert_eq!(same.len(), 13 + 15 + 5);
}

#[test]
fn lists_of_addresses_hold_each_once() {
    let mut keys = vec![key(1)];
    assert!(!insert_key(&mut keys, key(1)));
    assert!(insert_key(&mut keys, key(2)));
    extend_distinct(&mut keys, &vec![key(2), key(3), key(3)]);
    assert_eq!(keys, vec![key(1), key(2), key(3)]);
    assert_eq!(copy_keys(&keys), keys);
}

#[test]
fn addresses_and_texts_are_sorted() {
    let sorted = sort_addresses(&vec![key(3), key(1), key(2), key(1)]);
    assert_eq!(sorted, vec![key(1), key(2), key(3)]);
    assert!(address_before(&key(1), &key(2)));
    assert!(!address_before(&key(2), &key(2)));

    let mut texts: Vec<String> = Vec::new();
    for word in ["b", "a", "c", "a", "ab"] {
        insert_text(&mut texts, word.to_string());
    }
    assert_eq!(texts, vec!["a", "ab", "b", "c"]);
    assert!(text_before("a", "ab"));
}

#[test]
fn numbers_are_written_in_decimal() {
    assert_eq!(decimal(0), "0");
    assert_eq!(decimal(907), "907");
    assert_eq!(decimal(u64::MAX), "18446744073709551615");
}

#[test]
fn messages_are_joined() {
    let texts = vec!["a".to_string(), "b".to_string()];
    let joined = join_messages(&texts);
    assert!(joined.starts_with('a') && joined.ends_with('b'));
    assert_eq!(join_messages(&vec!["a".to_string()]), "a");
    assert_eq!(join_messages(&vec![]), "");
}
