//! Accounts that look like the delegation program's own.
use magicblock_chainlink::account::AccountMode;
use magicblock_chainlink::chainlink::errors::ChainlinkError;
use magicblock_chainlink::chainlink::fetch_cloner::collision::{
    attempt_outcome, collision_overflow_action, collision_recheck_action, collision_record,
    keeps_undelegating, recheck_delay_secs, recheck_next, rechecks_after,
    resolve_internal_dlp_collision, settled_locally, take_candidate,
    try_enqueue_collision_recheck, CollisionCloneOutcome, CollisionRecheckAction,
    CollisionRecheckEnqueue, CollisionStep, DelegationRecordResolution, RecheckNext,
};
use magicblock_chainlink::chainlink::fetch_cloner::types::FetchAndCloneResult;
use magicblock_chainlink::chainlink::record_mirror::MirrorLookup;
use magicblock_chainlink::delegation_record::DelegationRecord;
use magicblock_chainlink::lru_map::LruMap;
use magicblock_chainlink::pubkey::Pubkey;

fn key(n: u8) -> Pubkey {
    Pubkey::new([n; 32])
}

fn record_pda(account: Pubkey) -> Pubkey {
    let account = solana_pubkey::Pubkey::new_from_array(account.bytes);
    Pubkey::new(
        dlp_api::pda::delegation_record_pda_from_delegated_account(&account).to_bytes(),
    )
}

fn record(authority: Pubkey, delegation_slot: u64) -> DelegationRecord {
    DelegationRecord {
        authority,
        owner: key(50),
        delegation_slot,
        lamports: 1,
        commit_frequency_ms: 1,
    }
}

#[test]
fn collision_recheck_waits_for_slot_completeness() {
    assert_eq!(
        collision_recheck_action(&MirrorLookup::Miss, false),
        CollisionRecheckAction::Wait
    );
    assert_eq!(
        collision_recheck_action(&MirrorLookup::Miss, true),
        CollisionRecheckAction::Resolve
    );
    assert_eq!(
        collision_recheck_action(&MirrorLookup::Tombstone { slot: 1 }, false),
        CollisionRecheckAction::Discard
    );
    assert_eq!(
        collision_overflow_action(&MirrorLookup::Miss, true),
        CollisionRecheckAction::Discard
    );
    assert_eq!(
        collision_overflow_action(&MirrorLookup::Miss, false),
        CollisionRecheckAction::Resolve
    );
    assert_eq!(
        collision_overflow_action(&MirrorLookup::Tombstone { slot: 1 }, false),
        CollisionRecheckAction::Discard
    );
}

#[test]
fn collision_recheck_capacity_never_evicts_a_candidate() {
    let mut rechecks = LruMap::new(1);
    let first = key(1);
    let first_record = record_pda(first);
    assert_eq!(
        try_enqueue_collision_recheck(&mut rechecks, first_record, first, 1, 1),
        CollisionRecheckEnqueue::Inserted
    );

    let second = key(2);
    assert_eq!(
        try_enqueue_collision_recheck(&mut rechecks, record_pda(second), second, 2, 1),
        CollisionRecheckEnqueue::Full
    );
    assert_eq!(rechecks.peek(&first_record), Some(&(first, 1)));

    assert_eq!(
        try_enqueue_collision_recheck(&mut rechecks, first_record, first, 3, 1),
        CollisionRecheckEnqueue::Updated
    );
    assert_eq!(rechecks.peek(&first_record), Some(&(first, 3)));
}

#[test]
fn candidates_are_taken_for_their_slot() {
    let mut rechecks = LruMap::new(4);
    try_enqueue_collision_recheck(&mut rechecks, key(10), key(1), 5, 4);
    assert!(!take_candidate(&mut rechecks, &key(10), 4));
    assert!(take_candidate(&mut rechecks, &key(10), 5));
    assert!(!take_candidate(&mut rechecks, &key(10), 5));
}

#[test]
fn delays_grow_and_stay() {
    let delays: Vec<u64> = (0..5).map(recheck_delay_secs).collect();
    assert_eq!(delays, vec![2, 8, 30, 30, 30]);
}

#[test]
fn rechecks_go_on_until_something_is_known() {
    assert!(matches!(
        recheck_next(CollisionRecheckAction::Wait, true, 0),
        RecheckNext::Again { probe_count: 1 }
    ));
    assert!(matches!(
        recheck_next(CollisionRecheckAction::Resolve, true, 0),
        RecheckNext::Resolve
    ));
    assert!(matches!(
        recheck_next(CollisionRecheckAction::Discard, true, 0),
        RecheckNext::Done
    ));
}

#[test]
fn a_newer_local_account_settles_a_collision() {
    assert!(settled_locally(Some((9, AccountMode::Delegated)), 5));
    assert!(!settled_locally(None, 5));
}

#[test]
fn records_decide_whose_account_it_is() {
    let validator = key(9);
    let found = collision_record(
        DelegationRecordResolution::Found(record(validator, 3)),
        &validator,
    );
    assert_eq!(found.unwrap().delegation_slot, 3);
    assert_eq!(
        collision_record(DelegationRecordResolution::Found(record(key(8), 3)), &validator)
            .unwrap_err(),
        CollisionCloneOutcome::Settled
    );
    assert_eq!(
        collision_record(DelegationRecordResolution::Missing, &validator).unwrap_err(),
        CollisionCloneOutcome::Terminal
    );
    assert_eq!(
        collision_record(DelegationRecordResolution::Invalid, &validator).unwrap_err(),
        CollisionCloneOutcome::Terminal
    );
    assert_eq!(
        collision_record(DelegationRecordResolution::Uncertain, &validator).unwrap_err(),
        CollisionCloneOutcome::Retry
    );
}

#[test]
fn accounts_on_their_way_back_are_kept() {
    assert!(keeps_undelegating(Some((5, AccountMode::Transient)), &record(key(9), 4)));
    assert!(!keeps_undelegating(Some((5, AccountMode::Transient)), &record(key(9), 6)));
    assert!(!keeps_undelegating(Some((5, AccountMode::Delegated)), &record(key(9), 4)));
    assert!(!keeps_undelegating(None, &record(key(9), 4)));
}

#[test]
fn failed_attempts_are_repeated_and_then_given_up() {
    let failed = Err(ChainlinkError::DisabledForNonPrimaryMode);
    assert_eq!(
        attempt_outcome(0, &failed, &key(1), None, 5, &record(key(9), 5)),
        Some(CollisionCloneOutcome::Retry)
    );
    let nothing = Ok(FetchAndCloneResult::empty());
    assert_eq!(attempt_outcome(0, &nothing, &key(1), None, 5, &record(key(9), 5)), None);
    assert_eq!(
        attempt_outcome(2, &nothing, &key(1), None, 5, &record(key(9), 5)),
        Some(CollisionCloneOutcome::Retry)
    );
    let missing = Ok(FetchAndCloneResult {
        not_found_on_chain: vec![(key(1), 5)],
        missing_delegation_record: vec![],
    });
    assert_eq!(
        attempt_outcome(0, &missing, &key(1), None, 5, &record(key(9), 5)),
        Some(CollisionCloneOutcome::Terminal)
    );
    let done = attempt_outcome(
        0,
        &Ok(FetchAndCloneResult::empty()),
        &key(1),
        Some((5, AccountMode::Delegated)),
        5,
        &record(key(9), 5),
    );
    assert_eq!(done, Some(CollisionCloneOutcome::Settled));
}

#[test]
fn the_mirror_tells_collisions_apart() {
    assert!(matches!(
        resolve_internal_dlp_collision(&Some(MirrorLookup::Hit { data: vec![], slot: 1 })),
        CollisionStep::Clone
    ));
    assert!(matches!(
        resolve_internal_dlp_collision(&Some(MirrorLookup::Tombstone { slot: 1 })),
        CollisionStep::Drop
    ));
    assert!(matches!(
        resolve_internal_dlp_collision(&Some(MirrorLookup::Miss)),
        CollisionStep::Recheck
    ));
    assert!(matches!(resolve_internal_dlp_collision(&None), CollisionStep::Drop));
    assert!(rechecks_after(CollisionCloneOutcome::Retry));
    assert!(!rechecks_after(CollisionCloneOutcome::Settled));
    assert!(!rechecks_after(CollisionCloneOutcome::Terminal));
}
