//! How many different accounts are asked for, by where the question comes from and how far it
//! gets.
//!
//! Addresses are hashed into sketches, one for each minute of the last hour. The sketches of a
//! window are merged, and the number of different addresses is estimated from the result.
use vstd::prelude::*;
use crate::pubkey::Pubkey;

verus! {

/// The registers of a sketch.
pub const HLL_REGISTER_COUNT: usize = 4096;

/// The bits of a hash that do not choose a register.
pub const HLL_REMAINING_BITS: u8 = 52;

/// The seconds that one sketch is for.
pub const BUCKET_SECONDS: u64 = 60;

/// The sketches of an hour.
pub const BUCKET_COUNT: usize = 60;

/// The fewest seconds between two exports.
pub const EXPORT_INTERVAL_SECONDS: u64 = 15;

/// How far the question for an account got.
#[derive(Clone, Copy, Debug, PartialEq, Eq, Structural)]
pub enum UniquePubkeyStage {
    RequestedByRpc,
    BankMiss,
    RemoteFetch,
    RemoteNotFound,
    SubscriptionAlreadyPresent,
    SubscriptionAdded,
    SubscriptionEvicted,
    CompanionFetch,
}

impl UniquePubkeyStage {
    /// The name of the stage.
    pub open spec fn label(&self) -> Seq<char> {
        match self {
            UniquePubkeyStage::RequestedByRpc => "requested_by_rpc"@,
            UniquePubkeyStage::BankMiss => "bank_miss"@,
            UniquePubkeyStage::RemoteFetch => "remote_fetch"@,
            UniquePubkeyStage::RemoteNotFound => "remote_not_found"@,
            UniquePubkeyStage::SubscriptionAlreadyPresent => "subscription_already_present"@,
            UniquePubkeyStage::SubscriptionAdded => "subscription_added"@,
            UniquePubkeyStage::SubscriptionEvicted => "subscription_evicted"@,
            UniquePubkeyStage::CompanionFetch => "companion_fetch"@,
        }
    }

    /// The name of the stage.
    pub fn value(&self) -> (r: &'static str)
        ensures
            r@ == self.label(),
    {
        match self {
            UniquePubkeyStage::RequestedByRpc => "requested_by_rpc",
            UniquePubkeyStage::BankMiss => "bank_miss",
            UniquePubkeyStage::RemoteFetch => "remote_fetch",
            UniquePubkeyStage::RemoteNotFound => "remote_not_found",
            UniquePubkeyStage::SubscriptionAlreadyPresent => "subscription_already_present",
            UniquePubkeyStage::SubscriptionAdded => "subscription_added",
            UniquePubkeyStage::SubscriptionEvicted => "subscription_evicted",
            UniquePubkeyStage::CompanionFetch => "companion_fetch",
        }
    }
}

/// No two stages have the same name.
pub proof fn law_stage_labels_are_distinct(a: UniquePubkeyStage, b: UniquePubkeyStage)
    requires
        a.label() == b.label(),
    ensures
        a == b,
{
    reveal_strlit("requested_by_rpc");
    reveal_strlit("bank_miss");
    reveal_strlit("remote_fetch");
    reveal_strlit("remote_not_found");
    reveal_strlit("subscription_already_present");
    reveal_strlit("subscription_added");
    reveal_strlit("subscription_evicted");
    reveal_strlit("companion_fetch");
    assert("requested_by_rpc"@.len() == 16 && "requested_by_rpc"@[2] == 'q');
    assert("bank_miss"@.len() == 9);
    assert("remote_fetch"@.len() == 12);
    assert("remote_not_found"@.len() == 16 && "remote_not_found"@[2] == 'm');
    assert("subscription_already_present"@.len() == 28);
    assert("subscription_added"@.len() == 18);
    assert("subscription_evicted"@.len() == 20);
    assert("companion_fetch"@.len() == 15);
}

/// How many minutes back a count reaches.
#[derive(Clone, Copy, Debug, PartialEq, Eq, Structural)]
pub enum UniquePubkeyWindow {
    OneMinute,
    FiveMinutes,
    OneHour,
}

impl UniquePubkeyWindow {
    /// The minutes of the window.
    pub open spec fn length(&self) -> u64 {
        match self {
            UniquePubkeyWindow::OneMinute => 1,
            UniquePubkeyWindow::FiveMinutes => 5,
            UniquePubkeyWindow::OneHour => 60,
        }
    }

    /// The minutes of the window.
    pub fn minutes(&self) -> (r: u64)
        ensures
            r == self.length(),
    {
        match self {
            UniquePubkeyWindow::OneMinute => 1,
            UniquePubkeyWindow::FiveMinutes => 5,
            UniquePubkeyWindow::OneHour => 60,
        }
    }
}

/// How many bits it takes to write a number.
pub open spec fn bit_length(number: nat) -> nat
    decreases number,
{
    if number == 0 {
        0
    } else {
        1 + bit_length(number / 2)
    }
}

/// The rank of a hash: where the highest of its remaining bits that is set stands, counted from
/// the top; the number of those bits if none is set.
pub open spec fn hash_rank(hash: u64) -> u8 {
    let remainder = (hash / 4096) as nat;
    if remainder == 0 {
        HLL_REMAINING_BITS
    } else {
        (HLL_REMAINING_BITS + 1 - bit_length(remainder)) as u8
    }
}

/// A number below `2 * bound` takes at most one bit more than one below `bound`.
proof fn lemma_bit_length(number: nat, bits: nat, bound: nat)
    requires
        number < bound,
        bound == vstd::arithmetic::power2::pow2(bits),
    ensures
        bit_length(number) <= bits,
    decreases bits,
{
    if number > 0 {
        if bits == 0 {
            vstd::arithmetic::power2::lemma2_to64();
        } else {
            vstd::arithmetic::power2::lemma_pow2_unfold(bits);
            lemma_bit_length(number / 2, (bits - 1) as nat, bound / 2);
        }
    }
}

fn rank_of(hash: u64) -> (r: u8)
    ensures
        r == hash_rank(hash),
        1 <= r <= HLL_REMAINING_BITS,
{
    let remainder: u64 = hash / 4096;
    if remainder == 0 {
        return HLL_REMAINING_BITS;
    }
    proof {
        vstd::arithmetic::power2::lemma2_to64();
        vstd::arithmetic::power2::lemma2_to64_rest();
        lemma_bit_length(remainder as nat, 52, 4503599627370496);
    }
    let mut left: u64 = remainder;
    let mut bits: u8 = 0;
    while left > 0
        invariant
            bits + bit_length(left as nat) == bit_length(remainder as nat),
            bit_length(remainder as nat) <= 52,
        decreases left,
    {
        left = left / 2;
        bits = bits + 1;
    }
    HLL_REMAINING_BITS + 1 - bits
}

/// A sketch of a set of addresses: for each register the highest rank of the hashes that fall
/// into it, zero if there are none.
#[derive(Debug)]
pub struct HllSketch {
    registers: Vec<u8>,
}

/// The registers of a sketch of nothing.
pub open spec fn no_registers() -> Seq<u8> {
    Seq::new(HLL_REGISTER_COUNT as nat, |i: int| 0u8)
}

/// The higher of two ranks.
pub open spec fn higher(a: u8, b: u8) -> u8 {
    if a >= b {
        a
    } else {
        b
    }
}

/// Registers after one more hash.
pub open spec fn with_hash(registers: Seq<u8>, hash: u64) -> Seq<u8> {
    let at = (hash % 4096) as int;
    registers.update(at, higher(registers[at], hash_rank(hash)))
}

/// The registers of two sketches together.
pub open spec fn merged(a: Seq<u8>, b: Seq<u8>) -> Seq<u8> {
    Seq::new(a.len(), |i: int| higher(a[i], b[i]))
}

impl HllSketch {
    /// The registers.
    pub closed spec fn ranks(&self) -> Seq<u8> {
        self.registers@
    }

    #[verifier::type_invariant]
    spec fn wf(&self) -> bool {
        self.registers@.len() == HLL_REGISTER_COUNT
    }

    /// A sketch of nothing.
    pub fn new() -> (r: HllSketch)
        ensures
            r.ranks() == no_registers(),
    {
        let mut registers: Vec<u8> = Vec::new();
        let mut i: usize = 0;
        while i < HLL_REGISTER_COUNT
            invariant
                i <= HLL_REGISTER_COUNT,
                registers@.len() == i,
                forall|j: int| 0 <= j < i ==> registers@[j] == 0,
            decreases HLL_REGISTER_COUNT - i,
        {
            registers.push(0);
            i = i + 1;
        }
        assert(registers@ =~= no_registers());
        HllSketch { registers }
    }

    /// The registers.
    pub fn registers(&self) -> (r: &Vec<u8>)
        ensures
            r@ == self.ranks(),
            r@.len() == HLL_REGISTER_COUNT,
    {
        proof {
            use_type_invariant(self);
        }
        &self.registers
    }

    /// Adds a hash to the set.
    pub fn insert_hash(self, hash: u64) -> (r: HllSketch)
        ensures
            r.ranks() == with_hash(self.ranks(), hash),
    {
        proof {
            use_type_invariant(&self);
        }
        let at = (hash % 4096) as usize;
        let rank = rank_of(hash);
        let mut registers = self.registers;
        if registers[at] < rank {
            registers.set(at, rank);
        }
        assert(registers@ =~= with_hash(self.ranks(), hash));
        HllSketch { registers }
    }

    /// Adds another set to the set.
    pub fn merge(self, other: &HllSketch) -> (r: HllSketch)
        ensures
            r.ranks() == merged(self.ranks(), other.ranks()),
    {
        proof {
            use_type_invariant(&self);
            use_type_invariant(other);
        }
        let ghost before = self.ranks();
        let mut registers = self.registers;
        let mut i: usize = 0;
        while i < registers.len()
            invariant
                i <= registers.len(),
                registers@.len() == HLL_REGISTER_COUNT,
                before.len() == HLL_REGISTER_COUNT,
                other.registers@.len() == HLL_REGISTER_COUNT,
                forall|j: int|
                    0 <= j < i ==> registers@[j] == higher(before[j], other.registers@[j]),
                forall|j: int| i <= j < HLL_REGISTER_COUNT ==> registers@[j] == before[j],
            decreases registers.len() - i,
        {
            if registers[i] < other.registers[i] {
                registers.set(i, other.registers[i]);
            }
            i = i + 1;
        }
        assert(registers@ =~= merged(before, other.ranks()));
        HllSketch { registers }
    }
}

/// The sketch of one minute.
#[derive(Debug)]
pub struct MinuteBucket {
    pub epoch_minute: u64,
    pub sketch: HllSketch,
}

/// The sketches of the last hour, for one origin and one stage.
#[derive(Debug)]
pub struct UniquePubkeySeries {
    origin_label: String,
    stage_label: String,
    buckets: Vec<MinuteBucket>,
}

/// The minutes and registers of sketches.
pub open spec fn bucket_views(buckets: Seq<MinuteBucket>) -> Seq<(u64, Seq<u8>)> {
    buckets.map_values(|bucket: MinuteBucket| (bucket.epoch_minute, bucket.sketch.ranks()))
}

/// The sketches after one more hash in a minute: the sketch that is an hour old makes room.
pub open spec fn observed(
    buckets: Seq<(u64, Seq<u8>)>,
    epoch_minute: u64,
    hash: u64,
) -> Seq<(u64, Seq<u8>)> {
    let at = (epoch_minute % 60) as int;
    let kept = if buckets[at].0 == epoch_minute {
        buckets[at].1
    } else {
        no_registers()
    };
    buckets.update(at, (epoch_minute, with_hash(kept, hash)))
}

/// Whether a minute lies in a window that ends now.
pub open spec fn in_window(epoch_minute: u64, now_epoch_minute: u64, window_minutes: u64) -> bool {
    (if now_epoch_minute >= epoch_minute {
        now_epoch_minute - epoch_minute
    } else {
        0
    }) < window_minutes
}

/// The registers of all sketches of a window together.
pub open spec fn window_registers(
    buckets: Seq<(u64, Seq<u8>)>,
    now_epoch_minute: u64,
    window_minutes: u64,
) -> Seq<u8>
    decreases buckets.len(),
{
    if buckets.len() == 0 {
        no_registers()
    } else {
        let front = window_registers(buckets.drop_last(), now_epoch_minute, window_minutes);
        if in_window(buckets.last().0, now_epoch_minute, window_minutes) {
            merged(front, buckets.last().1)
        } else {
            front
        }
    }
}

impl UniquePubkeySeries {
    /// The minutes and registers of the sketches.
    pub closed spec fn views(&self) -> Seq<(u64, Seq<u8>)> {
        bucket_views(self.buckets@)
    }

    /// Where the questions come from.
    pub closed spec fn origin(&self) -> Seq<char> {
        self.origin_label@
    }

    /// How far they got.
    pub closed spec fn stage(&self) -> Seq<char> {
        self.stage_label@
    }

    #[verifier::type_invariant]
    spec fn wf(&self) -> bool {
        self.buckets@.len() == BUCKET_COUNT
    }

    /// Nothing was asked for.
    pub fn new(origin_label: &str, stage_label: &str) -> (r: UniquePubkeySeries)
        ensures
            r.origin() == origin_label@,
            r.stage() == stage_label@,
            r.views() == Seq::new(BUCKET_COUNT as nat, |i: int| (0u64, no_registers())),
    {
        let mut buckets: Vec<MinuteBucket> = Vec::new();
        while buckets.len() < BUCKET_COUNT
            invariant
                buckets@.len() <= BUCKET_COUNT,
                forall|j: int|
                    0 <= j < buckets@.len() ==> (#[trigger] buckets@[j]).epoch_minute == 0
                        && buckets@[j].sketch.ranks() == no_registers(),
            decreases BUCKET_COUNT - buckets.len(),
        {
            buckets.push(MinuteBucket { epoch_minute: 0, sketch: HllSketch::new() });
        }
        let r = UniquePubkeySeries {
            origin_label: String::from_str(origin_label),
            stage_label: String::from_str(stage_label),
            buckets,
        };
        assert(r.views() =~= Seq::new(BUCKET_COUNT as nat, |i: int| (0u64, no_registers())));
        r
    }

    /// Adds a hash to the sketch of a minute.
    pub fn observe_hash(self, epoch_minute: u64, pubkey_hash: u64) -> (r: UniquePubkeySeries)
        ensures
            r.views() == observed(self.views(), epoch_minute, pubkey_hash),
            r.origin() == self.origin(),
            r.stage() == self.stage(),
    {
        proof {
            use_type_invariant(&self);
        }
        let ghost before = self.views();
        let at = (epoch_minute % 60) as usize;
        let mut buckets = self.buckets;
        let empty = MinuteBucket { epoch_minute: 0, sketch: HllSketch::new() };
        let bucket = crate::lists::take_at(&mut buckets, at, empty);
        let kept = if bucket.epoch_minute == epoch_minute {
            bucket.sketch
        } else {
            HllSketch::new()
        };
        buckets.set(at, MinuteBucket { epoch_minute, sketch: kept.insert_hash(pubkey_hash) });
        let r = UniquePubkeySeries {
            origin_label: self.origin_label,
            stage_label: self.stage_label,
            buckets,
        };
        assert(r.views() =~= observed(before, epoch_minute, pubkey_hash));
        r
    }

    /// The sketch of all that was asked for in a window.
    pub fn window_sketch(&self, now_epoch_minute: u64, window_minutes: u64) -> (r: HllSketch)
        ensures
            r.ranks() == window_registers(self.views(), now_epoch_minute, window_minutes),
    {
        proof {
            use_type_invariant(self);
        }
        let mut sketch = HllSketch::new();
        let mut i: usize = 0;
        while i < self.buckets.len()
            invariant
                i <= self.buckets.len(),
                sketch.ranks() == window_registers(
                    self.views().take(i as int),
                    now_epoch_minute,
                    window_minutes,
                ),
            decreases self.buckets.len() - i,
        {
            let minute = self.buckets[i].epoch_minute;
            let age: u64 = if now_epoch_minute >= minute {
                now_epoch_minute - minute
            } else {
                0
            };
            if age < window_minutes {
                sketch = sketch.merge(&self.buckets[i].sketch);
            }
            i = i + 1;
            proof {
                let longer = self.views().take(i as int);
                assert(longer.drop_last() =~= self.views().take(i - 1));
                assert(longer.last() == self.views()[i - 1]);
            }
        }
        assert(self.views().take(self.buckets@.len() as int) =~= self.views());
        sketch
    }
}

/// The same hash twice in the same minute counts once.
pub proof fn law_repeats_count_once(buckets: Seq<(u64, Seq<u8>)>, epoch_minute: u64, hash: u64)
    requires
        buckets_sound(buckets),
    ensures
        observed(observed(buckets, epoch_minute, hash), epoch_minute, hash) == observed(
            buckets,
            epoch_minute,
            hash,
        ),
{
    let once = observed(buckets, epoch_minute, hash);
    let at = (epoch_minute % 60) as int;
    assert(with_hash(once[at].1, hash) =~= once[at].1);
    assert(observed(once, epoch_minute, hash) =~= once);
}

/// The order in which hashes are counted in a minute does not matter.
pub proof fn law_order_does_not_count(
    buckets: Seq<(u64, Seq<u8>)>,
    epoch_minute: u64,
    a: u64,
    b: u64,
)
    requires
        buckets_sound(buckets),
    ensures
        observed(observed(buckets, epoch_minute, a), epoch_minute, b) == observed(
            observed(buckets, epoch_minute, b),
            epoch_minute,
            a,
        ),
{
    let at = (epoch_minute % 60) as int;
    let kept = if buckets[at].0 == epoch_minute {
        buckets[at].1
    } else {
        no_registers()
    };
    assert(with_hash(with_hash(kept, a), b) =~= with_hash(with_hash(kept, b), a));
    assert(observed(observed(buckets, epoch_minute, a), epoch_minute, b) =~= observed(
        observed(buckets, epoch_minute, b),
        epoch_minute,
        a,
    ));
}

/// What was asked for in a minute outside the window does not count.
pub proof fn law_old_minutes_do_not_count(
    buckets: Seq<(u64, Seq<u8>)>,
    i: int,
    registers: Seq<u8>,
    now_epoch_minute: u64,
    window_minutes: u64,
)
    requires
        0 <= i < buckets.len(),
        !in_window(buckets[i].0, now_epoch_minute, window_minutes),
    ensures
        window_registers(
            buckets.update(i, (buckets[i].0, registers)),
            now_epoch_minute,
            window_minutes,
        ) == window_registers(buckets, now_epoch_minute, window_minutes),
    decreases buckets.len(),
{
    let changed = buckets.update(i, (buckets[i].0, registers));
    if i < buckets.len() - 1 {
        law_old_minutes_do_not_count(
            buckets.drop_last(),
            i,
            registers,
            now_epoch_minute,
            window_minutes,
        );
        assert(changed.drop_last() =~= buckets.drop_last().update(i, (buckets[i].0, registers)));
    } else {
        assert(changed.drop_last() =~= buckets.drop_last());
    }
}

/// The sketches of the last hour, with where the questions come from and how far they got.
#[verifier::ext_equal]
pub struct SeriesView {
    pub origin: Seq<char>,
    pub stage: Seq<char>,
    pub buckets: Seq<(u64, Seq<u8>)>,
}

/// Sketches of nothing for an hour.
pub open spec fn no_buckets() -> Seq<(u64, Seq<u8>)> {
    Seq::new(BUCKET_COUNT as nat, |i: int| (0u64, no_registers()))
}

/// All sketches after one more hash for an origin and a stage in a minute.
pub open spec fn with_observation(
    series: Seq<SeriesView>,
    origin: Seq<char>,
    stage: Seq<char>,
    epoch_minute: u64,
    hash: u64,
) -> Seq<SeriesView>
    decreases series.len(),
{
    if series.len() == 0 {
        seq![SeriesView { origin, stage, buckets: observed(no_buckets(), epoch_minute, hash) }]
    } else if series.last().origin == origin && series.last().stage == stage {
        series.drop_last().push(
            SeriesView {
                origin,
                stage,
                buckets: observed(series.last().buckets, epoch_minute, hash),
            },
        )
    } else {
        with_observation(series.drop_last(), origin, stage, epoch_minute, hash).push(series.last())
    }
}

/// There is a sketch for each minute of an hour, and each has all its registers.
pub open spec fn buckets_sound(buckets: Seq<(u64, Seq<u8>)>) -> bool {
    &&& buckets.len() == BUCKET_COUNT
    &&& forall|i: int|
        0 <= i < buckets.len() ==> (#[trigger] buckets[i]).1.len() == HLL_REGISTER_COUNT
}

/// All sketches are there with all their registers.
pub open spec fn sketches_sound(series: Seq<SeriesView>) -> bool {
    forall|i: int| 0 <= i < series.len() ==> buckets_sound((#[trigger] series[i]).buckets)
}

/// Counting keeps all sketches with all their registers; an estimator starts without any.
pub proof fn law_sketches_stay_sound(
    series: Seq<SeriesView>,
    origin: Seq<char>,
    stage: Seq<char>,
    epoch_minute: u64,
    hash: u64,
)
    requires
        sketches_sound(series),
    ensures
        sketches_sound(with_observation(series, origin, stage, epoch_minute, hash)),
    decreases series.len(),
{
    if series.len() > 0 {
        let front = series.drop_last();
        assert forall|i: int| 0 <= i < front.len() implies buckets_sound(
            (#[trigger] front[i]).buckets,
        ) by {
            assert(front[i] == series[i]);
        }
        assert(buckets_sound(series[series.len() - 1].buckets));
        law_sketches_stay_sound(front, origin, stage, epoch_minute, hash);
    }
}

/// Counting a hash again in the same minute changes nothing.
proof fn lemma_observed_again(
    series: Seq<SeriesView>,
    origin: Seq<char>,
    stage: Seq<char>,
    epoch_minute: u64,
    hash: u64,
)
    requires
        sketches_sound(series),
    ensures
        ({
            let once = with_observation(series, origin, stage, epoch_minute, hash);
            with_observation(once, origin, stage, epoch_minute, hash) == once
        }),
    decreases series.len(),
{
    let once = with_observation(series, origin, stage, epoch_minute, hash);
    let twice = with_observation(once, origin, stage, epoch_minute, hash);
    if series.len() == 0 {
        law_repeats_count_once(no_buckets(), epoch_minute, hash);
        assert(twice =~= once);
    } else {
        let front = series.drop_last();
        assert forall|i: int| 0 <= i < front.len() implies buckets_sound(
            (#[trigger] front[i]).buckets,
        ) by {
            assert(front[i] == series[i]);
        }
        if series.last().origin == origin && series.last().stage == stage {
            assert(buckets_sound(series[series.len() - 1].buckets));
            law_repeats_count_once(series.last().buckets, epoch_minute, hash);
            assert(once.drop_last() =~= front);
            assert(twice =~= once);
        } else {
            lemma_observed_again(front, origin, stage, epoch_minute, hash);
            let rest = with_observation(front, origin, stage, epoch_minute, hash);
            assert(once.drop_last() =~= rest);
            assert(once.last() == series.last());
        }
    }
}

/// No origin and stage have more than one series.
pub open spec fn one_series_each(series: Seq<SeriesView>) -> bool {
    forall|i: int, j: int|
        0 <= i < j < series.len() ==> (#[trigger] series[i]).origin != (#[trigger] series[j]).origin
            || series[i].stage != series[j].stage
}

/// Sketches of one origin and stage are kept together.
pub proof fn law_one_series_each(
    series: Seq<SeriesView>,
    origin: Seq<char>,
    stage: Seq<char>,
    epoch_minute: u64,
    hash: u64,
)
    requires
        one_series_each(series),
    ensures
        one_series_each(with_observation(series, origin, stage, epoch_minute, hash)),
        forall|i: int|
            0 <= i < with_observation(series, origin, stage, epoch_minute, hash).len() ==> {
                let one = #[trigger] with_observation(series, origin, stage, epoch_minute, hash)[i];
                one.origin == origin && one.stage == stage || exists|j: int|
                    0 <= j < series.len() && #[trigger] series[j] == one
            },
    decreases series.len(),
{
    if series.len() > 0 {
        let front = series.drop_last();
        assert(one_series_each(front));
        law_one_series_each(front, origin, stage, epoch_minute, hash);
        let all = with_observation(series, origin, stage, epoch_minute, hash);
        if series.last().origin == origin && series.last().stage == stage {
            assert forall|i: int| 0 <= i < all.len() implies {
                let one = #[trigger] all[i];
                one.origin == origin && one.stage == stage || exists|j: int|
                    0 <= j < series.len() && #[trigger] series[j] == one
            } by {
                if i < front.len() {
                    assert(series[i] == all[i]);
                }
            }
        } else {
            let rest = with_observation(front, origin, stage, epoch_minute, hash);
            assert forall|i: int| 0 <= i < all.len() implies {
                let one = #[trigger] all[i];
                one.origin == origin && one.stage == stage || exists|j: int|
                    0 <= j < series.len() && #[trigger] series[j] == one
            } by {
                if i < rest.len() {
                    assert(rest[i] == all[i]);
                    if !(rest[i].origin == origin && rest[i].stage == stage) {
                        let j = choose|j: int|
                            0 <= j < front.len() && #[trigger] front[j] == rest[i];
                        assert(series[j] == all[i]);
                    }
                } else {
                    assert(series[series.len() - 1] == all[i]);
                }
            }
            assert forall|i: int, j: int| 0 <= i < j < all.len() implies (
            #[trigger] all[i]).origin != (#[trigger] all[j]).origin || all[i].stage
                != all[j].stage by {
                if j < rest.len() {
                    assert(rest[i] == all[i]);
                    assert(rest[j] == all[j]);
                } else {
                    assert(rest[i] == all[i]);
                    assert(all[j] == series.last());
                    if !(rest[i].origin == origin && rest[i].stage == stage) {
                        let k = choose|k: int|
                            0 <= k < front.len() && #[trigger] front[k] == rest[i];
                        assert(series[k] == all[i]);
                        assert(series[series.len() - 1] == all[j]);
                    }
                }
            }
        }
    }
}

/// The sketch of a window, for one origin and one stage.
#[derive(Debug)]
pub struct SeriesSketch {
    pub origin_label: String,
    pub stage_label: String,
    pub window: UniquePubkeyWindow,
    pub sketch: HllSketch,
}

/// A window of those that are counted.
pub open spec fn window_at(i: int) -> UniquePubkeyWindow {
    if i == 0 {
        UniquePubkeyWindow::OneMinute
    } else if i == 1 {
        UniquePubkeyWindow::FiveMinutes
    } else {
        UniquePubkeyWindow::OneHour
    }
}

/// The `i`th sketch of an export.
pub open spec fn exports(
    sketch: SeriesSketch,
    series: SeriesView,
    window: UniquePubkeyWindow,
    now_epoch_minute: u64,
) -> bool {
    &&& sketch.origin_label@ == series.origin
    &&& sketch.stage_label@ == series.stage
    &&& sketch.window == window
    &&& sketch.sketch.ranks() == window_registers(
        series.buckets,
        now_epoch_minute,
        window.length(),
    )
}

/// How many different accounts were asked for, by origin and stage.
#[derive(Debug)]
pub struct UniquePubkeyEstimator {
    series: Vec<UniquePubkeySeries>,
    last_export_epoch_seconds: u64,
}

/// Whether it is time for another export.
pub open spec fn export_due(last_epoch_seconds: u64, now_epoch_seconds: u64) -> bool {
    now_epoch_seconds >= last_epoch_seconds + EXPORT_INTERVAL_SECONDS
}

/// The hash that `std::collections::hash_map::DefaultHasher` gives for an address.
pub uninterp spec fn address_hash(address: Seq<u8>) -> u64;

/// `std::hash::Hash::hash` of a `solana_pubkey::Pubkey`, which hands the bytes of the address
/// and nothing else to the hasher, with a hasher of
/// `std::collections::hash_map::DefaultHasher::new`, of which all are alike: the hash depends on
/// the bytes alone.
#[verifier::external_body]
fn hash_pubkey(pubkey: &Pubkey) -> (r: u64)
    ensures
        r == address_hash(pubkey@),
{
    let mut hasher = std::collections::hash_map::DefaultHasher::new();
    std::hash::Hash::hash(&solana_pubkey::Pubkey::new_from_array(pubkey.bytes), &mut hasher);
    std::hash::Hasher::finish(&hasher)
}

/// Counting an address again in the same minute, for the same origin and stage, changes no
/// sketch.
pub proof fn law_addresses_count_once(
    series: Seq<SeriesView>,
    origin: Seq<char>,
    stage: Seq<char>,
    epoch_minute: u64,
    address: Seq<u8>,
)
    requires
        sketches_sound(series),
    ensures
        ({
            let hash = address_hash(address);
            let once = with_observation(series, origin, stage, epoch_minute, hash);
            with_observation(once, origin, stage, epoch_minute, hash) == once
        }),
{
    lemma_observed_again(series, origin, stage, epoch_minute, address_hash(address));
}

impl UniquePubkeyEstimator {
    /// The sketches of the last hour.
    pub closed spec fn views(&self) -> Seq<SeriesView> {
        self.series@.map_values(
            |one: UniquePubkeySeries|
                SeriesView { origin: one.origin(), stage: one.stage(), buckets: one.views() },
        )
    }

    /// When the last export was.
    pub closed spec fn last_export(&self) -> u64 {
        self.last_export_epoch_seconds
    }

    /// Nothing was asked for.
    pub fn new() -> (r: UniquePubkeyEstimator)
        ensures
            r.views() == Seq::<SeriesView>::empty(),
            r.last_export() == 0,
    {
        let r = UniquePubkeyEstimator { series: Vec::new(), last_export_epoch_seconds: 0 };
        assert(r.views() =~= Seq::<SeriesView>::empty());
        r
    }

    /// Whether it is time for another export, which is then taken to be made.
    fn should_export(&mut self, now_epoch_seconds: u64) -> (r: bool)
        ensures
            r == export_due(old(self).last_export(), now_epoch_seconds),
            final(self).views() == old(self).views(),
            final(self).last_export() == if r {
                now_epoch_seconds
            } else {
                old(self).last_export()
            },
    {
        if now_epoch_seconds < self.last_export_epoch_seconds || now_epoch_seconds
            - self.last_export_epoch_seconds < EXPORT_INTERVAL_SECONDS {
            return false;
        }
        self.last_export_epoch_seconds = now_epoch_seconds;
        true
    }

    /// Counts a hash, and hands out the sketches if it is time for another export.
    pub fn observe_hash_at(
        &mut self,
        origin_label: &str,
        stage_label: &str,
        pubkey_hash: u64,
        now_epoch_seconds: u64,
    ) -> (r: Option<Vec<SeriesSketch>>)
        ensures
            final(self).views() == with_observation(
                old(self).views(),
                origin_label@,
                stage_label@,
                now_epoch_seconds / BUCKET_SECONDS,
                pubkey_hash,
            ),
            final(self).last_export() == if r is Some {
                now_epoch_seconds
            } else {
                old(self).last_export()
            },
            (r is Some) == export_due(old(self).last_export(), now_epoch_seconds),
            r matches Some(sketches) ==> sketches@.len() == 3 * final(self).views().len()
                && forall|i: int|
                0 <= i < sketches@.len() ==> exports(
                    #[trigger] sketches@[i],
                    final(self).views()[i / 3],
                    window_at(i % 3),
                    now_epoch_seconds / BUCKET_SECONDS,
                ),
    {
        let ghost before = self.views();
        let export = self.should_export(now_epoch_seconds);
        let minute = now_epoch_seconds / BUCKET_SECONDS;
        let origin = String::from_str(origin_label);
        let stage = String::from_str(stage_label);
        let ghost views = self.views();
        let ghost count = self.series@.len() as int;
        let mut i: usize = self.series.len();
        assert(views.skip(count) =~= Seq::<SeriesView>::empty());
        assert(views.take(count) =~= views);
        let mut found = false;
        while i > 0 && !found
            invariant
                i <= count,
                count == self.series@.len(),
                views.len() == count,
                views == before,
                self.views() == views,
                origin@ == origin_label@,
                stage@ == stage_label@,
                found ==> i < count && views[i as int].origin == origin@ && views[i as int].stage
                    == stage@,
                !found ==> with_observation(views, origin@, stage@, minute, pubkey_hash)
                    == with_observation(
                    views.take(i as int),
                    origin@,
                    stage@,
                    minute,
                    pubkey_hash,
                ) + views.skip(i as int),
                found ==> with_observation(views, origin@, stage@, minute, pubkey_hash)
                    == with_observation(
                    views.take(i + 1),
                    origin@,
                    stage@,
                    minute,
                    pubkey_hash,
                ) + views.skip(i + 1),
                self.last_export() == if export {
                    now_epoch_seconds
                } else {
                    old(self).last_export()
                },
            decreases i,
        {
            i = i - 1;
            assert(views[i as int].origin == self.series@[i as int].origin());
            if self.series[i].origin_label == origin && self.series[i].stage_label == stage {
                found = true;
            } else {
                proof {
                    let longer = views.take(i + 1);
                    assert(longer.drop_last() =~= views.take(i as int));
                    assert(longer.last() == views[i as int]);
                    assert(with_observation(longer, origin@, stage@, minute, pubkey_hash)
                        + views.skip(i + 1) =~= with_observation(
                        views.take(i as int),
                        origin@,
                        stage@,
                        minute,
                        pubkey_hash,
                    ) + views.skip(i as int));
                }
            }
        }
        let empty = UniquePubkeySeries::new(origin_label, stage_label);
        if found {
            let one = crate::lists::take_at(&mut self.series, i, empty);
            let changed = one.observe_hash(minute, pubkey_hash);
            self.series.set(i, changed);
            proof {
                let longer = views.take(i + 1);
                assert(longer.drop_last() =~= views.take(i as int));
                assert(longer.last() == views[i as int]);
                assert(self.views() =~= with_observation(
                    longer,
                    origin@,
                    stage@,
                    minute,
                    pubkey_hash,
                ) + views.skip(i + 1));
            }
        } else {
            let first = empty.observe_hash(minute, pubkey_hash);
            self.series.insert(0, first);
            proof {
                assert(views.take(0) =~= Seq::<SeriesView>::empty());
                assert(views.skip(0) =~= views);
                assert(self.views() =~= seq![
                    SeriesView {
                        origin: origin@,
                        stage: stage@,
                        buckets: observed(no_buckets(), minute, pubkey_hash),
                    },
                ] + views);
            }
        }
        if export {
            Some(self.collect_series_sketches(minute))
        } else {
            None
        }
    }

    /// Counts an address, and hands out the sketches if it is time for another export.
    pub fn observe_at(
        &mut self,
        origin_label: &str,
        stage_label: &str,
        pubkey: &Pubkey,
        now_epoch_seconds: u64,
    ) -> (r: Option<Vec<SeriesSketch>>)
        ensures
            final(self).views() == with_observation(
                old(self).views(),
                origin_label@,
                stage_label@,
                now_epoch_seconds / BUCKET_SECONDS,
                address_hash(pubkey@),
            ),
            final(self).last_export() == if r is Some {
                now_epoch_seconds
            } else {
                old(self).last_export()
            },
            (r is Some) == export_due(old(self).last_export(), now_epoch_seconds),
            r matches Some(sketches) ==> sketches@.len() == 3 * final(self).views().len()
                && forall|i: int|
                0 <= i < sketches@.len() ==> exports(
                    #[trigger] sketches@[i],
                    final(self).views()[i / 3],
                    window_at(i % 3),
                    now_epoch_seconds / BUCKET_SECONDS,
                ),
    {
        let hash = hash_pubkey(pubkey);
        self.observe_hash_at(origin_label, stage_label, hash, now_epoch_seconds)
    }

    /// The sketches of all windows, for each origin and stage.
    fn collect_series_sketches(&self, now_epoch_minute: u64) -> (r: Vec<SeriesSketch>)
        ensures
            r@.len() == 3 * self.views().len(),
            forall|i: int|
                0 <= i < r@.len() ==> exports(
                    #[trigger] r@[i],
                    self.views()[i / 3],
                    window_at(i % 3),
                    now_epoch_minute,
                ),
    {
        let mut sketches: Vec<SeriesSketch> = Vec::new();
        let mut i: usize = 0;
        while i < self.series.len()
            invariant
                i <= self.series@.len(),
                self.views().len() == self.series@.len(),
                sketches@.len() == 3 * i,
                forall|k: int|
                    0 <= k < sketches@.len() ==> exports(
                        #[trigger] sketches@[k],
                        self.views()[k / 3],
                        window_at(k % 3),
                        now_epoch_minute,
                    ),
            decreases self.series.len() - i,
        {
            let ghost start = sketches@;
            sketches.push(series_sketch(&self.series[i], UniquePubkeyWindow::OneMinute, now_epoch_minute));
            sketches.push(series_sketch(&self.series[i], UniquePubkeyWindow::FiveMinutes, now_epoch_minute));
            sketches.push(series_sketch(&self.series[i], UniquePubkeyWindow::OneHour, now_epoch_minute));
            proof {
                assert forall|k: int| 0 <= k < sketches@.len() implies exports(
                    #[trigger] sketches@[k],
                    self.views()[k / 3],
                    window_at(k % 3),
                    now_epoch_minute,
                ) by {
                    if k < start.len() {
                        assert(sketches@[k] == start[k]);
                    } else {
                        assert(k / 3 == i);
                        assert(self.views()[i as int].buckets == self.series@[i as int].views());
                    }
                }
            }
            i = i + 1;
        }
        sketches
    }

    /// The sketches of all windows, for each origin and stage.
    pub fn force_export_for_tests(&self, now_epoch_seconds: u64) -> (r: Vec<SeriesSketch>)
        ensures
            r@.len() == 3 * self.views().len(),
            forall|i: int|
                0 <= i < r@.len() ==> exports(
                    #[trigger] r@[i],
                    self.views()[i / 3],
                    window_at(i % 3),
                    now_epoch_seconds / BUCKET_SECONDS,
                ),
    {
        self.collect_series_sketches(now_epoch_seconds / BUCKET_SECONDS)
    }
}

fn series_sketch(
    series: &UniquePubkeySeries,
    window: UniquePubkeyWindow,
    now_epoch_minute: u64,
) -> (r: SeriesSketch)
    ensures
        exports(
            r,
            (SeriesView {
                origin: series.origin(),
                stage: series.stage(),
                buckets: series.views(),
            }),
            window,
            now_epoch_minute,
        ),
{
    SeriesSketch {
        origin_label: String::from_str(series.origin_label.as_str()),
        stage_label: String::from_str(series.stage_label.as_str()),
        window,
        sketch: series.window_sketch(now_epoch_minute, window.minutes()),
    }
}

} // verus!
