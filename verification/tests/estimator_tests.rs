//! Counts of the different accounts that are asked for.
use std::collections::hash_map::DefaultHasher;
use std::hash::Hasher;

use magicblock_chainlink::chainlink::unique_pubkey_estimator::{
    HllSketch, SeriesSketch, UniquePubkeyEstimator, UniquePubkeySeries, UniquePubkeyStage,
    UniquePubkeyWindow,
};
use magicblock_chainlink::pubkey::Pubkey;

fn pubkey_from_u64(value: u64) -> Pubkey {
    let mut bytes = [0; 32];
    bytes[..8].copy_from_slice(&value.to_le_bytes());
    Pubkey::new(bytes)
}

/// The number of different hashes that registers stand for.
fn estimate(registers: &[u8]) -> f64 {
    let m = registers.len() as f64;
    let alpha = 0.7213 / (1.0 + 1.079 / m);
    let sum: f64 = registers.iter().map(|register| 2f64.powi(-(*register as i32))).sum();
    let zero = registers.iter().filter(|register| **register == 0).count();
    let raw = alpha * m * m / sum;
    if raw <= 2.5 * m && zero > 0 {
        m * (m / zero as f64).ln()
    } else {
        raw
    }
}

fn estimate_of(
    sketches: &[SeriesSketch],
    origin: &str,
    stage: UniquePubkeyStage,
    window: UniquePubkeyWindow,
) -> u64 {
    let found = sketches
        .iter()
        .find(|one| {
            one.origin_label == origin && one.stage_label == stage.value() && one.window == window
        })
        .unwrap();
    estimate(found.sketch.registers()).round() as u64
}

fn many(count: u64) -> UniquePubkeyEstimator {
    let mut estimator = UniquePubkeyEstimator::new();
    for value in 0..count {
        estimator.observe_at("get_account", "bank_miss", &pubkey_from_u64(value), 0);
    }
    estimator
}

#[test]
fn hll_estimate_for_known_set_is_within_reasonable_error() {
    let estimator = many(10_000);
    let sketches = estimator.force_export_for_tests(0);
    let estimate = estimate(sketches[0].sketch.registers());
    let error_ratio = ((estimate - 10_000.0) / 10_000.0).abs();
    assert!(error_ratio <= 0.10);
}

#[test]
fn bucket_rotation_drops_old_window_entries() {
    let mut estimator = UniquePubkeyEstimator::new();
    let stage = UniquePubkeyStage::RequestedByRpc;
    estimator.observe_at("get_account", stage.value(), &pubkey_from_u64(1), 0);
    estimator.observe_at("get_account", stage.value(), &pubkey_from_u64(2), 120);
    let sketches = estimator.force_export_for_tests(120);
    assert!(estimate_of(&sketches, "get_account", stage, UniquePubkeyWindow::OneMinute) >= 1);
    assert!(estimate_of(&sketches, "get_account", stage, UniquePubkeyWindow::FiveMinutes) >= 2);
}

#[test]
fn send_transaction_origin_does_not_include_signature() {
    let mut estimator = UniquePubkeyEstimator::new();
    let stage = UniquePubkeyStage::RemoteFetch;
    estimator.observe_at("send_transaction", stage.value(), &pubkey_from_u64(10), 0);
    estimator.observe_at("send_transaction", stage.value(), &pubkey_from_u64(11), 0);
    let sketches = estimator.force_export_for_tests(0);
    assert_eq!(
        estimate_of(&sketches, "send_transaction", stage, UniquePubkeyWindow::OneMinute),
        2
    );
}

#[test]
fn ranks_count_from_the_highest_remaining_bit() {
    let rank = |hash: u64| {
        let sketch = HllSketch::new().insert_hash(hash);
        sketch.registers()[(hash % 4096) as usize]
    };
    assert_eq!(rank(5), 52);
    assert_eq!(rank(4096 + 5), 52);
    assert_eq!(rank(2 * 4096 + 5), 51);
    assert_eq!(rank(u64::MAX), 1);
    assert_eq!(rank(1 << 62), 2);
}

#[test]
fn merging_keeps_the_higher_ranks() {
    let a = HllSketch::new().insert_hash(5).insert_hash(2 * 4096 + 6);
    let b = HllSketch::new().insert_hash(2 * 4096 + 5).insert_hash(7);
    let both = a.merge(&b);
    assert_eq!(both.registers()[5], 52);
    assert_eq!(both.registers()[6], 51);
    assert_eq!(both.registers()[7], 52);
    assert_eq!(both.registers().iter().filter(|rank| **rank > 0).count(), 3);
}

#[test]
fn repeats_and_order_do_not_count() {
    let ab = UniquePubkeySeries::new("o", "s").observe_hash(3, 11).observe_hash(3, 12);
    let ba = UniquePubkeySeries::new("o", "s")
        .observe_hash(3, 12)
        .observe_hash(3, 11)
        .observe_hash(3, 11);
    assert_eq!(ab.window_sketch(3, 1).registers(), ba.window_sketch(3, 1).registers());
}

#[test]
fn an_hour_later_a_minute_starts_anew() {
    let series = UniquePubkeySeries::new("o", "s").observe_hash(3, 11).observe_hash(63, 12);
    let sketch = series.window_sketch(63, 60);
    assert_eq!(sketch.registers()[11], 0);
    assert_eq!(sketch.registers()[12], 52);
    assert_eq!(series.window_sketch(64, 1).registers()[12], 0);
    assert_eq!(series.window_sketch(64, 2).registers()[12], 52);
}

#[test]
fn exports_come_every_fifteen_seconds() {
    let mut estimator = UniquePubkeyEstimator::new();
    assert!(estimator.observe_hash_at("o", "s", 1, 14).is_none());
    assert!(estimator.observe_hash_at("o", "s", 1, 15).is_some());
    assert!(estimator.observe_hash_at("o", "s", 1, 29).is_none());
    assert!(estimator.observe_hash_at("o", "s", 1, 3).is_none());
    assert_eq!(estimator.observe_hash_at("o", "t", 1, 30).unwrap().len(), 6);
}

#[test]
fn series_are_kept_apart() {
    let mut estimator = UniquePubkeyEstimator::new();
    estimator.observe_hash_at("o", "s", 1, 0);
    estimator.observe_hash_at("o", "t", 2, 0);
    estimator.observe_hash_at("p", "s", 3, 0);
    estimator.observe_hash_at("o", "s", 4, 0);
    let sketches = estimator.force_export_for_tests(0);
    assert_eq!(sketches.len(), 9);
    let found = sketches
        .iter()
        .find(|one| {
            one.origin_label == "o"
                && one.stage_label == "s"
                && one.window == UniquePubkeyWindow::OneHour
        })
        .unwrap();
    let set: Vec<usize> = (0..4096).filter(|i| found.sketch.registers()[*i] > 0).collect();
    assert_eq!(set, vec![1, 4]);
}

#[test]
fn stages_have_different_names() {
    let stages = [
        UniquePubkeyStage::RequestedByRpc,
        UniquePubkeyStage::BankMiss,
        UniquePubkeyStage::RemoteFetch,
        UniquePubkeyStage::RemoteNotFound,
        UniquePubkeyStage::SubscriptionAlreadyPresent,
        UniquePubkeyStage::SubscriptionAdded,
        UniquePubkeyStage::SubscriptionEvicted,
        UniquePubkeyStage::CompanionFetch,
    ];
    for (i, stage) in stages.iter().enumerate() {
        for other in stages.iter().skip(i + 1) {
            assert_ne!(stage.value(), other.value());
        }
    }
    assert_eq!(UniquePubkeyStage::SubscriptionEvicted.value(), "subscription_evicted");
    assert_eq!(UniquePubkeyWindow::FiveMinutes.minutes(), 5);
}

#[test]
fn different_addresses_have_different_hashes() {
    let estimator = many(2);
    let sketches = estimator.force_export_for_tests(0);
    let set = sketches[0].sketch.registers().iter().filter(|rank| **rank > 0).count();
    assert_eq!(set, 2);
}

#[test]
fn the_bytes_of_an_address_are_hashed() {
    let address = pubkey_from_u64(7);
    let mut hasher = DefaultHasher::new();
    hasher.write(&address.bytes);
    let hash = hasher.finish();
    let mut by_address = UniquePubkeyEstimator::new();
    by_address.observe_at("o", "s", &address, 0);
    let mut by_hash = UniquePubkeyEstimator::new();
    by_hash.observe_hash_at("o", "s", hash, 0);
    let by_address = by_address.force_export_for_tests(0);
    let by_hash = by_hash.force_export_for_tests(0);
    assert_eq!(by_address[0].sketch.registers(), by_hash[0].sketch.registers());
    assert!(by_address[0].sketch.registers()[(hash % 4096) as usize] > 0);
}

#[test]
fn an_address_counts_once_in_a_minute() {
    let mut estimator = many(2);
    let before = estimator.force_export_for_tests(0);
    estimator.observe_at("get_account", "bank_miss", &pubkey_from_u64(1), 1);
    estimator.observe_at("get_account", "bank_miss", &pubkey_from_u64(0), 2);
    let after = estimator.force_export_for_tests(0);
    assert_eq!(before.len(), after.len());
    for (before, after) in before.iter().zip(&after) {
        assert_eq!(before.sketch.registers(), after.sketch.registers());
    }
}
