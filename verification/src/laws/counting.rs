//! What holds of the counts of accounts that are asked for.
use vstd::prelude::*;
use vstd::arithmetic::power2::{lemma_pow2_unfold, pow2};
use crate::chainlink::unique_pubkey_estimator::{
    bit_length, hash_rank, in_window, window_registers, with_observation, HllSketch, SeriesSketch,
    SeriesView, UniquePubkeyEstimator, UniquePubkeySeries, UniquePubkeyWindow,
};

verus! {

proof fn lemma_bits(number: nat)
    requires
        number > 0,
    ensures
        bit_length(number) > 0,
        pow2((bit_length(number) - 1) as nat) <= number < pow2(bit_length(number)),
    decreases number,
{
    vstd::arithmetic::power2::lemma2_to64();
    if number == 1 {
        assert(bit_length(0) == 0);
        assert(bit_length(1) == 1);
    } else {
        lemma_bits(number / 2);
        let bits = bit_length(number / 2);
        lemma_pow2_unfold(bits);
        lemma_pow2_unfold((bits + 1) as nat);
    }
}

/// The rank of a hash tells how many zeros its upper bits begin with: what is left of the hash
/// without the bits that choose the register has so many bits.
pub proof fn law_ranks_count_zeros(hash: u64)
    ensures
        hash / 4096 == 0 ==> hash_rank(hash) == 52,
        hash / 4096 > 0 ==> {
            let rank = hash_rank(hash) as int;
            &&& 1 <= rank <= 52
            &&& pow2((52 - rank) as nat) <= (hash / 4096) as nat
            &&& ((hash / 4096) as nat) < pow2((53 - rank) as nat)
        },
{
    let rest = (hash / 4096) as nat;
    if rest > 0 {
        lemma_bits(rest);
        let bits = bit_length(rest);
        assert(rest < 0x10_0000_0000_0000) by {
            assert(hash <= 0xffff_ffff_ffff_ffff);
        }
        if bits > 52 {
            vstd::arithmetic::power2::lemma2_to64();
            vstd::arithmetic::power2::lemma2_to64_rest();
            if bits > 53 {
                vstd::arithmetic::power2::lemma_pow2_strictly_increases(52, (bits - 1) as nat);
            }
            assert(pow2(52) == 0x10_0000_0000_0000);
        }
    }
}

/// A hash raises the one register that its lowest bits choose to its rank, unless that is as
/// high already, and no other.
pub proof fn law_hashes_raise_one_register(sketch: HllSketch, hash: u64, k: int, r: HllSketch)
    requires
        call_ensures(HllSketch::insert_hash, (sketch, hash), r),
        sketch.ranks().len() == 4096,
        0 <= k < 4096,
    ensures
        r.ranks().len() == 4096,
        k != hash % 4096 ==> r.ranks()[k] == sketch.ranks()[k],
        k == hash % 4096 ==> {
            &&& r.ranks()[k] >= sketch.ranks()[k]
            &&& r.ranks()[k] >= hash_rank(hash)
            &&& r.ranks()[k] == sketch.ranks()[k] || r.ranks()[k] == hash_rank(hash)
        },
{
}

/// Two sketches together have, in each register, the higher of both.
pub proof fn law_merged_sketches_have_both(a: HllSketch, b: HllSketch, k: int, r: HllSketch)
    requires
        call_ensures(HllSketch::merge, (a, &b), r),
        0 <= k < a.ranks().len(),
    ensures
        r.ranks().len() == a.ranks().len(),
        r.ranks()[k] >= a.ranks()[k] && r.ranks()[k] >= b.ranks()[k],
        r.ranks()[k] == a.ranks()[k] || r.ranks()[k] == b.ranks()[k],
{
}

/// A new sketch is of nothing.
pub proof fn law_new_sketches_are_empty(r: HllSketch, k: int)
    requires
        call_ensures(HllSketch::new, (), r),
        0 <= k < 4096,
    ensures
        r.ranks().len() == 4096,
        r.ranks()[k] == 0,
{
}

proof fn lemma_window(buckets: Seq<(u64, Seq<u8>)>, now: u64, minutes: u64, i: int, k: int)
    requires
        0 <= i < buckets.len(),
        0 <= k < 4096,
        forall|j: int| 0 <= j < buckets.len() ==> (#[trigger] buckets[j]).1.len() == 4096,
        in_window(buckets[i].0, now, minutes),
    ensures
        window_registers(buckets, now, minutes)[k] >= buckets[i].1[k],
    decreases buckets.len(),
{
    let short = buckets.drop_last();
    lemma_window_len(short, now, minutes);
    if i < short.len() {
        assert forall|j: int| 0 <= j < short.len() implies (#[trigger] short[j]).1.len() == 4096 by {
            assert(short[j] == buckets[j]);
        }
        assert(short[i] == buckets[i]);
        lemma_window(short, now, minutes, i, k);
    }
}

proof fn lemma_window_len(buckets: Seq<(u64, Seq<u8>)>, now: u64, minutes: u64)
    ensures
        window_registers(buckets, now, minutes).len() == 4096,
    decreases buckets.len(),
{
    if buckets.len() > 0 {
        lemma_window_len(buckets.drop_last(), now, minutes);
    }
}

proof fn lemma_window_source(buckets: Seq<(u64, Seq<u8>)>, now: u64, minutes: u64, k: int)
    requires
        0 <= k < 4096,
    ensures
        window_registers(buckets, now, minutes)[k] == 0 || exists|i: int|
            0 <= i < buckets.len() && in_window((#[trigger] buckets[i]).0, now, minutes)
                && buckets[i].1[k] == window_registers(buckets, now, minutes)[k],
    decreases buckets.len(),
{
    if buckets.len() > 0 {
        let short = buckets.drop_last();
        lemma_window_len(short, now, minutes);
        lemma_window_source(short, now, minutes, k);
        let front = window_registers(short, now, minutes)[k];
        let all = window_registers(buckets, now, minutes)[k];
        assert(buckets[buckets.len() - 1] == buckets.last());
        if all == front && all != 0 {
            let i = choose|i: int|
                0 <= i < short.len() && in_window((#[trigger] short[i]).0, now, minutes)
                    && short[i].1[k] == front;
            assert(buckets[i] == short[i]);
        }
    }
}

/// The sketch of a window has all that was counted in a minute of the window, that is, one that
/// is less than so many minutes ago, and nothing else.
pub proof fn law_windows_have_their_minutes(
    series: UniquePubkeySeries,
    now: u64,
    minutes: u64,
    i: int,
    k: int,
    r: HllSketch,
)
    requires
        call_ensures(UniquePubkeySeries::window_sketch, (&series, now, minutes), r),
        0 <= i < series.views().len(),
        0 <= k < 4096,
        forall|j: int| 0 <= j < series.views().len() ==> (#[trigger] series.views()[j]).1.len() == 4096,
    ensures
        now - series.views()[i].0 < minutes && minutes > 0 ==> r.ranks()[k]
            >= series.views()[i].1[k],
        r.ranks()[k] == 0 || exists|j: int|
            0 <= j < series.views().len() && now - (#[trigger] series.views()[j]).0 < minutes
                && series.views()[j].1[k] == r.ranks()[k],
{
    let buckets = series.views();
    if now - buckets[i].0 < minutes && minutes > 0 {
        lemma_window(buckets, now, minutes, i, k);
    }
    lemma_window_source(buckets, now, minutes, k);
    if r.ranks()[k] != 0 {
        let j = choose|j: int|
            0 <= j < buckets.len() && in_window((#[trigger] buckets[j]).0, now, minutes)
                && buckets[j].1[k] == r.ranks()[k];
        assert(now - buckets[j].0 < minutes);
    }
}

/// A hash is counted in the sketch of its minute; the sketches of other minutes of the hour stay
/// as they are.
pub proof fn law_hashes_are_counted_in_their_minute(
    series: UniquePubkeySeries,
    minute: u64,
    hash: u64,
    i: int,
    r: UniquePubkeySeries,
)
    requires
        call_ensures(UniquePubkeySeries::observe_hash, (series, minute, hash), r),
        series.views().len() == 60,
        0 <= i < 60,
        forall|j: int| 0 <= j < 60 ==> (#[trigger] series.views()[j]).1.len() == 4096,
    ensures
        r.origin() == series.origin(),
        r.stage() == series.stage(),
        i != minute % 60 ==> r.views()[i] == series.views()[i],
        i == minute % 60 ==> {
            &&& r.views()[i].0 == minute
            &&& r.views()[i].1.len() == 4096
            &&& r.views()[i].1[(hash % 4096) as int] >= hash_rank(hash)
            &&& series.views()[i].0 == minute ==> r.views()[i].1[(hash % 4096) as int]
                >= series.views()[i].1[(hash % 4096) as int]
            &&& series.views()[i].0 != minute ==> r.views()[i].1[(hash % 4096) as int]
                == hash_rank(hash)
            &&& forall|k: int|
                0 <= k < 4096 && k != hash % 4096 ==> #[trigger] r.views()[i].1[k] == (
                if series.views()[i].0 == minute {
                    series.views()[i].1[k]
                } else {
                    0
                })
        },
{
    law_ranks_count_zeros(hash);
}

/// The windows are of one minute, five minutes and an hour.
pub proof fn law_windows_have_lengths(one: u64, five: u64, hour: u64)
    requires
        call_ensures(UniquePubkeyWindow::minutes, (&UniquePubkeyWindow::OneMinute,), one),
        call_ensures(UniquePubkeyWindow::minutes, (&UniquePubkeyWindow::FiveMinutes,), five),
        call_ensures(UniquePubkeyWindow::minutes, (&UniquePubkeyWindow::OneHour,), hour),
    ensures
        one == 1,
        five == 5,
        hour == 60,
{
}

proof fn lemma_others_stay(
    series: Seq<SeriesView>,
    origin: Seq<char>,
    stage: Seq<char>,
    minute: u64,
    hash: u64,
    i: int,
)
    requires
        0 <= i < series.len(),
        series[i].origin != origin || series[i].stage != stage,
    ensures
        with_observation(series, origin, stage, minute, hash).contains(series[i]),
    decreases series.len(),
{
    let short = series.drop_last();
    let all = with_observation(series, origin, stage, minute, hash);
    if series.last().origin == origin && series.last().stage == stage {
        assert(short[i] == series[i]);
        assert(all[i] == series[i]);
    } else if i < series.len() - 1 {
        assert(short[i] == series[i]);
        lemma_others_stay(short, origin, stage, minute, hash, i);
        let front = with_observation(short, origin, stage, minute, hash);
        let n = choose|n: int| 0 <= n < front.len() && front[n] == series[i];
        assert(all[n] == series[i]);
    } else {
        assert(all.last() == series[i]);
        assert(all[all.len() - 1] == series[i]);
    }
}

proof fn lemma_counted(
    series: Seq<SeriesView>,
    origin: Seq<char>,
    stage: Seq<char>,
    minute: u64,
    hash: u64,
)
    ensures
        exists|n: int|
            0 <= n < with_observation(series, origin, stage, minute, hash).len() && (
            #[trigger] with_observation(series, origin, stage, minute, hash)[n]).origin == origin
                && with_observation(series, origin, stage, minute, hash)[n].stage == stage,
        with_observation(series, origin, stage, minute, hash).len() >= series.len(),
        with_observation(series, origin, stage, minute, hash).len() <= series.len() + 1,
    decreases series.len(),
{
    let all = with_observation(series, origin, stage, minute, hash);
    if series.len() == 0 {
        assert(all[0].origin == origin);
    } else if series.last().origin == origin && series.last().stage == stage {
        assert(all[all.len() - 1].origin == origin);
    } else {
        let short = series.drop_last();
        lemma_counted(short, origin, stage, minute, hash);
        let front = with_observation(short, origin, stage, minute, hash);
        let n = choose|n: int|
            0 <= n < front.len() && (#[trigger] front[n]).origin == origin && front[n].stage
                == stage;
        assert(all[n] == front[n]);
    }
}

/// A question is counted for its origin and stage; all others stay as they are. Sketches are
/// handed out at most every fifteen seconds, for each origin and stage and each window.
pub proof fn law_questions_are_counted(
    estimator: &mut UniquePubkeyEstimator,
    origin: &str,
    stage: &str,
    hash: u64,
    now: u64,
    i: int,
    r: Option<Vec<SeriesSketch>>,
)
    requires
        call_ensures(
            UniquePubkeyEstimator::observe_hash_at,
            (estimator, origin, stage, hash, now),
            r,
        ),
    ensures
        exists|n: int|
            0 <= n < final(estimator).views().len() && (
            #[trigger] final(estimator).views()[n]).origin == origin@ && final(
                estimator).views()[n].stage == stage@,
        final(estimator).views().len() <= old(estimator).views().len() + 1,
        0 <= i < old(estimator).views().len() && (old(estimator).views()[i].origin != origin@
            || old(estimator).views()[i].stage != stage@) ==> final(estimator).views().contains(
            old(estimator).views()[i],
        ),
        r is Some <==> now >= old(estimator).last_export() + 15,
        r is Some ==> final(estimator).last_export() == now,
        r is None ==> final(estimator).last_export() == old(estimator).last_export(),
        r matches Some(sketches) ==> sketches@.len() == 3 * final(estimator).views().len(),
        r matches Some(sketches) ==> (0 <= i < final(estimator).views().len() ==> {
            &&& sketches@[3 * i].window == UniquePubkeyWindow::OneMinute
            &&& sketches@[3 * i + 1].window == UniquePubkeyWindow::FiveMinutes
            &&& sketches@[3 * i + 2].window == UniquePubkeyWindow::OneHour
            &&& sketches@[3 * i].origin_label@ == final(estimator).views()[i].origin
            &&& sketches@[3 * i + 1].stage_label@ == final(estimator).views()[i].stage
        }),
{
    if r is Some && 0 <= i < final(estimator).views().len() {
        let sketches = (r->0)@;
        assert((3 * i) / 3 == i && (3 * i) % 3 == 0);
        assert((3 * i + 1) / 3 == i && (3 * i + 1) % 3 == 1);
        assert((3 * i + 2) / 3 == i && (3 * i + 2) % 3 == 2);
        assert(sketches[3 * i].window == UniquePubkeyWindow::OneMinute);
        assert(sketches[3 * i + 1].window == UniquePubkeyWindow::FiveMinutes);
        assert(sketches[3 * i + 2].window == UniquePubkeyWindow::OneHour);
    }
    let before = old(estimator).views();
    lemma_counted(before, origin@, stage@, now / 60, hash);
    if 0 <= i < before.len() && (before[i].origin != origin@ || before[i].stage != stage@) {
        lemma_others_stay(before, origin@, stage@, now / 60, hash, i);
    }
}

/// An export has, for each origin and stage, the sketches of all three windows, and each of them
/// has all that was counted in the minutes of its window.
pub proof fn law_exports_have_all_windows(
    estimator: UniquePubkeyEstimator,
    now: u64,
    n: int,
    i: int,
    k: int,
    r: Vec<SeriesSketch>,
)
    requires
        call_ensures(UniquePubkeyEstimator::force_export_for_tests, (&estimator, now), r),
        0 <= n < estimator.views().len(),
        0 <= i < estimator.views()[n].buckets.len(),
        0 <= k < 4096,
        forall|j: int|
            0 <= j < estimator.views()[n].buckets.len() ==> (
            #[trigger] estimator.views()[n].buckets[j]).1.len() == 4096,
    ensures
        r@.len() == 3 * estimator.views().len(),
        r@[3 * n].window == UniquePubkeyWindow::OneMinute,
        r@[3 * n + 1].window == UniquePubkeyWindow::FiveMinutes,
        r@[3 * n + 2].window == UniquePubkeyWindow::OneHour,
        r@[3 * n].origin_label@ == estimator.views()[n].origin,
        r@[3 * n + 1].stage_label@ == estimator.views()[n].stage,
        ({
            let bucket = estimator.views()[n].buckets[i];
            &&& now / 60 - bucket.0 < 1 ==> r@[3 * n].sketch.ranks()[k] >= bucket.1[k]
            &&& now / 60 - bucket.0 < 5 ==> r@[3 * n + 1].sketch.ranks()[k] >= bucket.1[k]
            &&& now / 60 - bucket.0 < 60 ==> r@[3 * n + 2].sketch.ranks()[k] >= bucket.1[k]
        }),
{
    let buckets = estimator.views()[n].buckets;
    let minute = now / 60;
    assert((3 * n) / 3 == n && (3 * n) % 3 == 0);
    assert((3 * n + 1) / 3 == n && (3 * n + 1) % 3 == 1);
    assert((3 * n + 2) / 3 == n && (3 * n + 2) % 3 == 2);
    assert(r@[3 * n].window == UniquePubkeyWindow::OneMinute);
    assert(r@[3 * n + 1].window == UniquePubkeyWindow::FiveMinutes);
    assert(r@[3 * n + 2].window == UniquePubkeyWindow::OneHour);
    if minute - buckets[i].0 < 1 {
        lemma_window(buckets, minute, 1, i, k);
    }
    if minute - buckets[i].0 < 5 {
        lemma_window(buckets, minute, 5, i, k);
    }
    if minute - buckets[i].0 < 60 {
        lemma_window(buckets, minute, 60, i, k);
    }
}

} // verus!
