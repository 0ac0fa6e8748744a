//! The mirror of delegation records.
use magicblock_chainlink::chainlink::record_mirror::{
    resolve_endpoint, DelegationRecordMirror, Endpoint, MirrorEvent, MirrorLookup, RecordEntry,
    RecordMirrorLookupOutcome, RecordSyncConfig,
};
use magicblock_chainlink::chainlink::record_stream::RecordStreamUpdate;
use magicblock_chainlink::delegation_record::DELEGATION_RECORD_SIZE;
use magicblock_chainlink::pubkey::Pubkey;

fn key(n: u8) -> Pubkey {
    Pubkey::new([n; 32])
}

fn delegation_record_data(authority: Pubkey) -> Vec<u8> {
    let record = dlp_api::state::DelegationRecord {
        authority: solana_pubkey::Pubkey::new_from_array(authority.bytes),
        owner: solana_pubkey::Pubkey::new_from_array([50; 32]),
        delegation_slot: 1,
        lamports: 1_000_000,
        commit_frequency_ms: 1_000,
    };
    let mut data = vec![0; dlp_api::state::DelegationRecord::size_with_discriminator()];
    record.to_bytes_with_discriminator(&mut data).unwrap();
    data
}

fn record_pda(account: Pubkey) -> Pubkey {
    let account = solana_pubkey::Pubkey::new_from_array(account.bytes);
    Pubkey::new(
        dlp_api::pda::delegation_record_pda_from_delegated_account(&account).to_bytes(),
    )
}

fn requested(account: Pubkey) -> RecordStreamUpdate {
    RecordStreamUpdate::UndelegationRequested {
        request_pda: [60; 32],
        delegated_account: account.bytes,
        expires_at_slot: 10,
        slot: 2,
    }
}

#[test]
fn hit_requires_entry_slot_or_live_watermark() {
    let mut mirror = DelegationRecordMirror::with_capacity(16, None);
    let record = key(1);
    mirror.insert(record, 50, Some(vec![1]));
    assert!(matches!(mirror.get(&record, 100), MirrorLookup::Miss));
    assert!(matches!(mirror.get(&record, 40), MirrorLookup::Hit { .. }));
    mirror.apply(RecordStreamUpdate::SlotAdvanced(120));
    assert!(matches!(mirror.get(&record, 100), MirrorLookup::Hit { slot: 50, .. }));
    assert!(matches!(mirror.get(&record, 121), MirrorLookup::Miss));
}

#[test]
fn updates_are_monotonic_and_tombstones_are_not_negative_answers() {
    let mut mirror = DelegationRecordMirror::with_capacity(16, None);
    let record = key(1);
    mirror.insert(record, 50, Some(vec![1]));
    mirror.insert(record, 40, Some(vec![9]));
    let MirrorLookup::Hit { data, slot } = mirror.get(&record, 40) else {
        panic!("expected mirror hit");
    };
    assert_eq!((data, slot), (vec![1], 50));
    mirror.insert(record, 60, None);
    assert!(matches!(mirror.get(&record, 40), MirrorLookup::Tombstone { slot: 60 }));
}

#[test]
fn conflicting_same_slot_updates_require_rpc_confirmation() {
    let mut mirror = DelegationRecordMirror::with_capacity(16, None);
    let record = key(1);
    mirror.insert(record, 50, Some(vec![1]));
    mirror.insert(record, 50, None);
    mirror.insert(record, 50, Some(vec![2]));
    assert!(matches!(mirror.get(&record, 50), MirrorLookup::Tombstone { slot: 50 }));
}

#[test]
fn interruption_clears_entries_and_watermark() {
    let mut mirror = DelegationRecordMirror::with_capacity(16, None);
    let record = key(1);
    mirror.insert(record, 50, Some(vec![1]));
    mirror.apply(RecordStreamUpdate::SlotAdvanced(120));
    mirror.apply(RecordStreamUpdate::SyncInterrupted);
    assert!(matches!(mirror.get(&record, 1), MirrorLookup::Miss));
    mirror.insert(record, 130, Some(vec![2]));
    assert!(matches!(mirror.get(&record, 140), MirrorLookup::Miss));
}

#[test]
fn eviction_degrades_to_miss() {
    let mut mirror = DelegationRecordMirror::with_capacity(2, None);
    let (a, b, c) = (key(1), key(2), key(3));
    mirror.insert(a, 10, Some(vec![1]));
    mirror.insert(b, 11, Some(vec![2]));
    mirror.insert(c, 12, Some(vec![3]));
    assert!(matches!(mirror.get(&a, 5), MirrorLookup::Miss));
    assert!(matches!(mirror.get(&b, 5), MirrorLookup::Hit { .. }));
    assert!(matches!(mirror.get(&c, 5), MirrorLookup::Hit { .. }));
}

#[test]
fn retained_record_data_is_byte_bounded() {
    let mut mirror = DelegationRecordMirror::with_capacity(3, None);
    let record_size = dlp_api::state::DelegationRecord::size_with_discriminator();
    assert_eq!(record_size, DELEGATION_RECORD_SIZE);
    let (a, b, c, oversized) = (key(1), key(2), key(3), key(4));
    mirror.insert(a, 10, Some(vec![1; record_size]));
    mirror.insert(b, 11, Some(vec![2; record_size]));
    mirror.insert(c, 12, Some(vec![3; record_size.saturating_add(1)]));
    mirror.insert(oversized, 13, Some(vec![4; record_size.saturating_mul(3).saturating_add(1)]));

    assert!(mirror.retained_data_bytes() <= mirror.max_retained_data_bytes());
    assert!(!mirror.contains(&a));
    assert!(mirror.contains(&b));
    assert!(mirror.contains(&c));
    assert!(!mirror.contains(&oversized));
}

#[test]
fn endpoint_and_api_key_overrides_are_independent() {
    let endpoints = vec![Endpoint::Grpc {
        url: "https://configured.example".into(),
        label: "configured".into(),
        api_key: "configured-key".into(),
    }];
    let mut config = RecordSyncConfig {
        enabled: true,
        endpoint: Some("https://override.example/".into()),
        api_key: None,
        capacity: 16,
    };
    assert_eq!(
        resolve_endpoint(&config, &endpoints),
        Some(("https://override.example/".into(), "configured-key".into()))
    );

    config.endpoint = None;
    config.api_key = Some("override-key".into());
    assert_eq!(
        resolve_endpoint(&config, &endpoints),
        Some(("https://configured.example".into(), "override-key".into()))
    );
}

#[test]
fn without_a_stream_source_both_settings_are_needed() {
    let endpoints = vec![
        Endpoint::Rpc { url: "https://rpc.example".into(), label: "rpc".into() },
        Endpoint::WebSocket { url: "wss://ws.example".into(), label: "ws".into() },
    ];
    let mut config = RecordSyncConfig {
        enabled: true,
        endpoint: Some("https://own.example".into()),
        api_key: None,
        capacity: 16,
    };
    assert_eq!(resolve_endpoint(&config, &endpoints), None);
    config.api_key = Some("own".into());
    assert_eq!(
        resolve_endpoint(&config, &endpoints),
        Some(("https://own.example".into(), "own".into()))
    );
}

#[test]
fn discoveries_are_handed_on_in_order() {
    let mut mirror = DelegationRecordMirror::with_capacity(16, None);
    for slot in 0..4 {
        let event = mirror.consume(RecordStreamUpdate::DelegationObserved {
            delegated_account: [1; 32],
            record: [2; 32],
            slot,
        });
        let MirrorEvent::Discovered(found) = event else {
            panic!("expected a discovery");
        };
        assert_eq!(found.delegated_account, key(1));
        assert_eq!(found.record, key(2));
        assert_eq!(found.slot, slot);
    }
}

#[test]
fn undelegation_requests_require_local_mirrored_authority() {
    let validator = key(9);
    let mut mirror = DelegationRecordMirror::with_capacity(16, Some(validator));

    let foreign = key(1);
    mirror.insert(record_pda(foreign), 2, Some(delegation_record_data(key(8))));
    assert!(matches!(mirror.consume(requested(foreign)), MirrorEvent::Nothing));

    let local = key(2);
    mirror.insert(record_pda(local), 1, Some(delegation_record_data(validator)));
    let MirrorEvent::UndelegationRequested(request) = mirror.consume(requested(local)) else {
        panic!("expected a request");
    };
    assert_eq!(request.delegated_account, local);
    assert_eq!(request.request_pda, key(60));
    assert_eq!(request.expires_at_slot, 10);
    assert_eq!(request.observed_slot, 2);

    let confined = key(3);
    mirror.insert(record_pda(confined), 2, Some(delegation_record_data(Pubkey::zero())));
    assert!(matches!(
        mirror.consume(requested(confined)),
        MirrorEvent::UndelegationRequested(request) if request.delegated_account == confined
    ));
}

#[test]
fn unmirrored_undelegation_request_falls_back_to_verification() {
    let mut mirror = DelegationRecordMirror::with_capacity(16, Some(key(9)));
    assert!(matches!(
        mirror.consume(requested(key(1))),
        MirrorEvent::UndelegationRequested(request) if request.delegated_account == key(1)
    ));
}

#[test]
fn stale_foreign_authority_falls_back_to_verification() {
    let mut mirror = DelegationRecordMirror::with_capacity(16, Some(key(9)));
    mirror.insert(record_pda(key(2)), 1, Some(delegation_record_data(key(8))));
    assert!(matches!(
        mirror.consume(requested(key(2))),
        MirrorEvent::UndelegationRequested(request) if request.delegated_account == key(2)
    ));
}

#[test]
fn lookups_say_why_they_miss() {
    let mut mirror = DelegationRecordMirror::with_capacity(16, None);
    assert!(matches!(
        mirror.lookup(&key(1), 1),
        (MirrorLookup::Miss, Some(RecordMirrorLookupOutcome::Miss))
    ));
    mirror.insert(key(1), 5, Some(vec![1]));
    assert!(matches!(
        mirror.lookup(&key(1), 6),
        (MirrorLookup::Miss, Some(RecordMirrorLookupOutcome::Stale))
    ));
    mirror.insert(key(1), 7, None);
    assert!(matches!(
        mirror.lookup(&key(1), 6),
        (MirrorLookup::Tombstone { slot: 7 }, Some(RecordMirrorLookupOutcome::Tombstone))
    ));
}

#[test]
fn what_is_forgotten_is_missed() {
    let mut mirror = DelegationRecordMirror::with_capacity(16, None);
    mirror.insert(key(1), 5, Some(vec![1]));
    assert!(matches!(mirror.probe(&key(1), 5), MirrorLookup::Hit { slot: 5, .. }));
    mirror.invalidate(&key(1));
    assert!(matches!(mirror.probe(&key(1), 5), MirrorLookup::Miss));
    assert_eq!(mirror.retained_data_bytes(), 0);
}

#[test]
fn completeness_follows_the_confirmed_slots() {
    let mut mirror = DelegationRecordMirror::with_capacity(16, None);
    assert!(!mirror.is_complete_through(1));
    mirror.apply(RecordStreamUpdate::SlotAdvanced(10));
    assert!(mirror.is_complete_through(10));
    assert!(!mirror.is_complete_through(11));
    mirror.apply(RecordStreamUpdate::SyncTerminated);
    assert!(!mirror.is_complete_through(1));
}

#[test]
fn records_and_undelegations_are_mirrored() {
    let mut mirror = DelegationRecordMirror::with_capacity(16, None);
    mirror.apply(RecordStreamUpdate::Record { record: [1; 32], data: vec![7, 8], slot: 3 });
    assert!(matches!(
        mirror.get(&key(1), 3),
        MirrorLookup::Hit { data, slot: 3 } if data == vec![7, 8]
    ));
    mirror.apply(RecordStreamUpdate::RecordUndelegated { record: [1; 32], slot: 4 });
    assert!(matches!(mirror.get(&key(1), 3), MirrorLookup::Tombstone { slot: 4 }));
}

#[test]
fn the_least_recently_used_records_make_room() {
    let entry = |slot: u64, retained: usize| {
        let mut entry = RecordEntry::new(slot, Some(vec![1]));
        entry.retained = retained;
        entry
    };
    let mut mirror = DelegationRecordMirror::with_capacity(3, None);
    let room = mirror.max_retained_data_bytes();
    mirror.put_entry(key(1), entry(1, 100));
    mirror.put_entry(key(2), entry(1, 100));
    mirror.put_entry(key(3), entry(1, room - 100));
    assert!(!mirror.contains(&key(1)));
    assert!(mirror.contains(&key(2)) && mirror.contains(&key(3)));
    assert_eq!(mirror.retained_data_bytes(), room);

    // Nothing but what was known about its own record leaves for an entry that is too large.
    mirror.put_entry(key(4), entry(2, room + 1));
    assert!(mirror.contains(&key(2)) && mirror.contains(&key(3)));
    assert!(!mirror.contains(&key(4)));
    mirror.put_entry(key(2), entry(2, room + 1));
    assert!(!mirror.contains(&key(2)) && mirror.contains(&key(3)));
    assert_eq!(mirror.retained_data_bytes(), room - 100);
}
