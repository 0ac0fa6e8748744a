//! What holds of work that is under way, and of who waits for it.
use vstd::prelude::*;
use crate::chainlink::errors::ChainlinkError;
use crate::chainlink::fetch_cloner::pending::{
    among, clone_guard_dropped, complete_fetches, law_awaiting_are_told, pick_other, pick_to_await,
    pick_to_fetch, pick_waiter_for, plan_fetches, with_awaiting, with_opened, without_keys,
    AskedAccount, DedupPlan, PendingClaim, PendingEntries, PendingFailure, PendingTable,
};
use crate::chainlink::fetch_cloner::subscription::{Acquisition, SubscriptionRelease};
use crate::account::SubscriptionReason;
use crate::lists::{lemma_picked_contains, picked};
use crate::program_ids::DLP_PROGRAM_ID;
use crate::pubkey::Pubkey;

verus! {

/// Whoever asks first owns the work, whoever asks meanwhile joins it under its generation and
/// deadline, and either way waits.
pub proof fn law_work_has_one_owner(
    table: &mut PendingTable,
    pubkey: Pubkey,
    generation: u64,
    waiter: u64,
    now: u64,
    budget: u64,
    other: [u8; 32],
    r: PendingClaim,
)
    requires
        now + budget <= u64::MAX,
        call_ensures(
            PendingTable::claim_or_join_pending,
            (table, &pubkey, generation, waiter, now, budget),
            r,
        ),
    ensures
        r is Created <==> !old(table).entries().contains_key(pubkey.bytes),
        r is Created ==> r == (PendingClaim::Created {
            generation,
            deadline: (now + budget) as u64,
        }),
        final(table).entries().contains_key(pubkey.bytes),
        final(table).entries()[pubkey.bytes].2.contains(waiter),
        ({
            let entry = final(table).entries()[pubkey.bytes];
            match r {
                PendingClaim::Created { generation: g, deadline: d } => entry.0 == g && entry.1
                    == d && entry.2 == seq![waiter],
                PendingClaim::Joined { generation: g, deadline: d } => {
                    let before = old(table).entries()[pubkey.bytes];
                    &&& before.0 == g && before.1 == d
                    &&& entry.0 == g && entry.1 == d
                    &&& forall|w: u64| #[trigger] before.2.contains(w) ==> entry.2.contains(w)
                },
            }
        }),
        other != pubkey.bytes ==> (final(table).entries().contains_key(other)
            <==> old(table).entries().contains_key(other)),
        other != pubkey.bytes && old(table).entries().contains_key(other) ==> final(
            table).entries()[other] == old(table).entries()[other],
{
    let after = final(table).entries();
    if old(table).entries().contains_key(pubkey.bytes) {
        let before = old(table).entries()[pubkey.bytes];
        let list = after[pubkey.bytes].2;
        if !before.2.contains(waiter) {
            assert(list == before.2.push(waiter));
            assert(list[list.len() - 1] == waiter);
            assert forall|w: u64| #[trigger] before.2.contains(w) implies list.contains(w) by {
                let i = choose|i: int| 0 <= i < before.2.len() && before.2[i] == w;
                assert(list[i] == w);
            }
        }
    } else {
        assert(after[pubkey.bytes].2[0] == waiter);
    }
}

/// Work ends exactly for its own generation; then all who wait are told, and nobody else's work
/// is touched.
pub proof fn law_work_ends(
    table: &mut PendingTable,
    pubkey: Pubkey,
    generation: u64,
    other: [u8; 32],
    r: Vec<u64>,
)
    requires
        call_ensures(PendingTable::finish_pending, (table, &pubkey, generation), r),
    ensures
        ({
            let before = old(table).entries();
            let mine = before.contains_key(pubkey.bytes) && before[pubkey.bytes].0 == generation;
            &&& mine ==> r@ == before[pubkey.bytes].2 && !final(table).entries().contains_key(
                pubkey.bytes,
            )
            &&& !mine ==> r@.len() == 0 && final(table).entries() == before
            &&& other != pubkey.bytes && before.contains_key(other) ==> final(
                table).entries().contains_key(other) && final(table).entries()[other]
                == before[other]
        }),
{
}

/// One who goes away is no longer waited with; all others still wait.
pub proof fn law_others_keep_waiting(
    table: &mut PendingTable,
    pubkey: Pubkey,
    generation: u64,
    waiter: u64,
    other: u64,
)
    requires
        call_ensures(PendingTable::abandon, (table, &pubkey, generation, waiter), ()),
        old(table).entries().contains_key(pubkey.bytes),
    ensures
        ({
            let before = old(table).entries()[pubkey.bytes];
            let after = final(table).entries()[pubkey.bytes];
            &&& final(table).entries().contains_key(pubkey.bytes)
            &&& after.0 == before.0 && after.1 == before.1
            &&& before.0 == generation ==> !after.2.contains(waiter)
            &&& before.0 != generation ==> after.2 == before.2
            &&& other != waiter ==> (after.2.contains(other) <==> before.2.contains(other))
        }),
{
    let before = old(table).entries()[pubkey.bytes];
    lemma_picked_contains(before.2, pick_other(waiter), other);
    lemma_picked_contains(before.2, pick_other(waiter), waiter);
    if before.2.contains(other) && other != waiter {
        let i = choose|i: int| 0 <= i < before.2.len() && before.2[i] == other;
        assert(pick_other(waiter)(before.2[i]) == Some(other));
    }
    if picked(before.2, pick_other(waiter)).contains(other) {
        let i = choose|i: int|
            0 <= i < before.2.len() && pick_other(waiter)(#[trigger] before.2[i]) == Some(other);
        assert(before.2[i] == other);
    }
}

/// Closing ends whatever work there is and tells all who wait for it.
pub proof fn law_closed_work_is_told(table: &mut PendingTable, pubkey: Pubkey, r: Vec<u64>)
    requires
        call_ensures(PendingTable::close, (table, &pubkey), r),
    ensures
        !final(table).entries().contains_key(pubkey.bytes),
        old(table).entries().contains_key(pubkey.bytes) ==> r@ == old(
            table).entries()[pubkey.bytes].2,
        !old(table).entries().contains_key(pubkey.bytes) ==> r@.len() == 0,
{
}

/// An owner who lets go without having ended the work ends it, and those who wait are told; one
/// who has ended it changes nothing.
pub proof fn law_dropped_work_is_told(
    table: &mut PendingTable,
    pubkey: Pubkey,
    generation: u64,
    dismissed: bool,
    r: Vec<u64>,
)
    requires
        call_ensures(PendingTable::guard_dropped, (table, &pubkey, generation, dismissed), r),
    ensures
        dismissed ==> r@.len() == 0 && final(table).entries() == old(table).entries(),
        !dismissed && old(table).entries().contains_key(pubkey.bytes) && old(
            table).entries()[pubkey.bytes].0 == generation ==> r@ == old(
            table).entries()[pubkey.bytes].2 && !final(table).entries().contains_key(pubkey.bytes),
        !dismissed && old(table).entries().contains_key(pubkey.bytes) && old(
            table).entries()[pubkey.bytes].0 != generation ==> r@.len() == 0 && final(
            table).entries() == old(table).entries(),
{
}

/// The same of a clone.
pub proof fn law_dropped_clones_are_told(
    table: &mut PendingTable,
    pubkey: Pubkey,
    dismissed: bool,
    r: Vec<u64>,
)
    requires
        call_ensures(clone_guard_dropped, (table, &pubkey, dismissed), r),
    ensures
        dismissed ==> r@.len() == 0 && final(table).entries() == old(table).entries(),
        !dismissed ==> !final(table).entries().contains_key(pubkey.bytes),
        !dismissed && old(table).entries().contains_key(pubkey.bytes) ==> r@ == old(
            table).entries()[pubkey.bytes].2,
{
}

/// Whether an account needs nothing: it is never cloned, or the bank has it and it is either
/// delegated or watched.
pub open spec fn is_in_order(asked: AskedAccount, blacklist: Seq<Pubkey>) -> bool {
    ||| blacklist.contains(asked.pubkey)
    ||| asked.in_bank matches Some(held) && (held.owner.bytes == DLP_PROGRAM_ID || held.delegated
        || asked.is_watching)
}

/// An account that is asked for is fetched exactly if it is not in order and nobody is at it;
/// if somebody is, the one who asks waits.
pub proof fn law_accounts_are_fetched_or_awaited(
    table: &mut PendingTable,
    asked: Vec<AskedAccount>,
    blacklist: Vec<Pubkey>,
    i: int,
    r: DedupPlan,
)
    requires
        call_ensures(plan_fetches, (table, &asked, &blacklist), r),
        0 <= i < asked@.len(),
    ensures
        ({
            let one = asked@[i];
            let busy = old(table).entries().contains_key(one.pubkey.bytes);
            let in_order = is_in_order(one, blacklist@);
            &&& !in_order && !busy ==> r.fetch_new@.contains(one.pubkey) && final(
                table).entries().contains_key(one.pubkey.bytes)
            &&& !in_order && busy ==> r.await_pending@.contains((one.pubkey, one.waiter))
            &&& busy ==> !r.fetch_new@.contains(one.pubkey)
            &&& !busy ==> !r.await_pending@.contains((one.pubkey, one.waiter))
            &&& !in_order && busy ==> final(table).entries().contains_key(one.pubkey.bytes)
                && final(table).entries()[one.pubkey.bytes].2.contains(one.waiter)
        }),
{
    let before = old(table).entries();
    let one = asked@[i];
    let fetch = pick_to_fetch(blacklist@, before);
    let wait = pick_to_await(blacklist@, before);
    lemma_picked_contains(asked@, fetch, one.pubkey);
    lemma_picked_contains(asked@, wait, (one.pubkey, one.waiter));
    if !is_in_order(one, blacklist@) {
        if before.contains_key(one.pubkey.bytes) {
            assert(wait(one) == Some((one.pubkey, one.waiter)));
        } else {
            assert(fetch(one) == Some(one.pubkey));
            assert(r.fetch_new@.contains(one.pubkey));
            lemma_opened_contains(
                with_awaiting(before, r.await_pending@),
                r.fetch_new@,
                one.pubkey,
            );
        }
    }
    if r.fetch_new@.contains(one.pubkey) {
        let j = choose|j: int|
            0 <= j < asked@.len() && fetch(#[trigger] asked@[j]) == Some(one.pubkey);
        assert(asked@[j].pubkey == one.pubkey);
    }
    if r.await_pending@.contains((one.pubkey, one.waiter)) {
        let j = choose|j: int|
            0 <= j < asked@.len() && wait(#[trigger] asked@[j]) == Some((one.pubkey, one.waiter));
        assert(asked@[j].pubkey == one.pubkey);
    }
    if !is_in_order(one, blacklist@) && before.contains_key(one.pubkey.bytes) {
        let key = one.pubkey.bytes;
        let waiting = with_awaiting(before, r.await_pending@);
        assert forall|n: int| 0 <= n < r.fetch_new@.len() implies (
        #[trigger] r.fetch_new@[n]).bytes != key by {
            assert(r.fetch_new@.contains(r.fetch_new@[n]));
            lemma_picked_contains(asked@, fetch, r.fetch_new@[n]);
        }
        lemma_opened_keeps(waiting, r.fetch_new@, key);
        let list = r.await_pending@;
        let n = choose|n: int| 0 <= n < list.len() && list[n] == (one.pubkey, one.waiter);
        let mine = picked(list, pick_waiter_for(key));
        lemma_picked_contains(list, pick_waiter_for(key), one.waiter);
        assert(pick_waiter_for(key)(list[n]) == Some(one.waiter));
        let m = choose|m: int| 0 <= m < mine.len() && mine[m] == one.waiter;
        let all = waiting[key].2;
        assert(all[before[key].2.len() + m] == one.waiter);
    }
}

proof fn lemma_opened_keeps(entries: PendingEntries, keys: Seq<Pubkey>, key: [u8; 32])
    requires
        forall|n: int| 0 <= n < keys.len() ==> (#[trigger] keys[n]).bytes != key,
    ensures
        with_opened(entries, keys).contains_key(key) <==> entries.contains_key(key),
        with_opened(entries, keys)[key] == entries[key],
    decreases keys.len(),
{
    if keys.len() > 0 {
        assert(keys[keys.len() - 1].bytes != key);
        assert forall|n: int| 0 <= n < keys.drop_last().len() implies (
        #[trigger] keys.drop_last()[n]).bytes != key by {
            assert(keys[n].bytes != key);
        }
        lemma_opened_keeps(entries, keys.drop_last(), key);
    }
}

proof fn lemma_opened_contains(entries: PendingEntries, keys: Seq<Pubkey>, key: Pubkey)
    requires
        keys.contains(key),
    ensures
        with_opened(entries, keys).contains_key(key.bytes),
    decreases keys.len(),
{
    if keys.last() != key {
        let i = choose|i: int| 0 <= i < keys.len() && keys[i] == key;
        assert(keys.drop_last()[i] == key);
        lemma_opened_contains(entries, keys.drop_last(), key);
    }
}

/// An account that is in order is neither fetched nor awaited.
pub proof fn law_accounts_in_order_are_left_alone(
    table: &mut PendingTable,
    asked: Vec<AskedAccount>,
    blacklist: Vec<Pubkey>,
    i: int,
    r: DedupPlan,
)
    requires
        call_ensures(plan_fetches, (table, &asked, &blacklist), r),
        0 <= i < asked@.len(),
        is_in_order(asked@[i], blacklist@),
        forall|j: int|
            0 <= j < asked@.len() && j != i ==> (#[trigger] asked@[j]).pubkey != asked@[i].pubkey,
    ensures
        !r.fetch_new@.contains(asked@[i].pubkey),
{
    let fetch = pick_to_fetch(blacklist@, old(table).entries());
    lemma_picked_contains(asked@, fetch, asked@[i].pubkey);
    if r.fetch_new@.contains(asked@[i].pubkey) {
        let j = choose|j: int|
            0 <= j < asked@.len() && fetch(#[trigger] asked@[j]) == Some(asked@[i].pubkey);
        assert(asked@[j].pubkey == asked@[i].pubkey);
        assert(j == i);
    }
}

/// Whoever waits for an account is told when its fetch ends, and then nobody is at it.
pub proof fn law_ended_fetches_are_told(
    table: &mut PendingTable,
    fetched: Vec<Pubkey>,
    i: int,
    waiter: u64,
    r: Vec<u64>,
)
    requires
        call_ensures(complete_fetches, (table, &fetched), r),
        0 <= i < fetched@.len(),
    ensures
        !final(table).entries().contains_key(fetched@[i].bytes),
        old(table).entries().contains_key(fetched@[i].bytes) && old(
            table).entries()[fetched@[i].bytes].2.contains(waiter) ==> r@.contains(waiter),
{
    lemma_gone(old(table).entries(), fetched@, i);
    if old(table).entries().contains_key(fetched@[i].bytes) && old(
        table).entries()[fetched@[i].bytes].2.contains(waiter) {
        assert(among(fetched@, fetched@[i].bytes));
        law_awaiting_are_told(old(table).entries(), fetched@, fetched@[i].bytes, waiter);
    }
}

proof fn lemma_gone(entries: PendingEntries, keys: Seq<Pubkey>, i: int)
    requires
        0 <= i < keys.len(),
    ensures
        !without_keys(entries, keys).contains_key(keys[i].bytes),
    decreases keys.len(),
{
    if i < keys.len() - 1 {
        assert(keys.drop_last()[i] == keys[i]);
        lemma_gone(entries, keys.drop_last(), i);
    }
}

/// Those who waited in vain learn why.
pub proof fn law_failures_are_told(
    pubkey: Pubkey,
    message: String,
    failed: ChainlinkError,
    timed_out: ChainlinkError,
    cancelled: ChainlinkError,
)
    requires
        call_ensures(
            PendingFailure::into_chainlink_error,
            (PendingFailure::OwnerFailed(message), pubkey),
            failed,
        ),
        call_ensures(
            PendingFailure::into_chainlink_error,
            (PendingFailure::TimedOut, pubkey),
            timed_out,
        ),
        call_ensures(
            PendingFailure::into_chainlink_error,
            (PendingFailure::Cancelled, pubkey),
            cancelled,
        ),
    ensures
        failed == ChainlinkError::PendingRequestOwnerFailed(pubkey, message),
        timed_out == ChainlinkError::PendingRequestTimeout(pubkey),
        cancelled == ChainlinkError::PendingRequestCancelled(pubkey),
{
}

/// Subscriptions are taken one after the other in their order.
pub proof fn law_subscriptions_are_taken_in_order(acquisition: Acquisition, r: Option<Pubkey>)
    requires
        acquisition.wf(),
        call_ensures(Acquisition::next, (&acquisition,), r),
        acquisition.had().len() < acquisition.wanted().len(),
    ensures
        r == Some(acquisition.wanted()[acquisition.had().len() as int]),
{
    let n = acquisition.had().len() as int;
    assert(acquisition.had() != acquisition.wanted());
    assert(r is Some);
    let taken = acquisition.had().push(r->0);
    assert(taken[n] == r->0);
    assert(acquisition.wanted().take(n + 1)[n] == acquisition.wanted()[n]);
}

/// If one subscription cannot be had, exactly those that were had are given back, each for its
/// reason.
pub proof fn law_taken_subscriptions_are_given_back(
    acquisition: Acquisition,
    i: int,
    r: Vec<SubscriptionRelease>,
)
    requires
        acquisition.wf(),
        call_ensures(Acquisition::rollback, (&acquisition,), r),
    ensures
        r@.len() == acquisition.had().len(),
        0 <= i < r@.len() ==> r@[i].pubkey == acquisition.had()[i] && r@[i].reason
            == acquisition.reason(),
{
}

/// A new acquisition had nothing yet, and wants all that it was made for.
pub proof fn law_acquisitions_start(
    pubkeys: Vec<Pubkey>,
    reason: SubscriptionReason,
    r: Acquisition,
)
    requires
        call_ensures(Acquisition::new, (pubkeys, reason), r),
    ensures
        r.had().len() == 0,
        r.wanted() == pubkeys@,
        r.reason() == reason,
{
}

/// Each success adds one to what was had.
pub proof fn law_acquisitions_go_on(acquisition: &mut Acquisition)
    requires
        old(acquisition).wf(),
        old(acquisition).had().len() < old(acquisition).wanted().len(),
        call_ensures(Acquisition::succeeded, (acquisition,), ()),
    ensures
        final(acquisition).had().len() == old(acquisition).had().len() + 1,
        final(acquisition).wanted() == old(acquisition).wanted(),
        final(acquisition).reason() == old(acquisition).reason(),
        final(acquisition).had().last() == old(acquisition).wanted()[old(
            acquisition).had().len() as int],
{
}

/// Waiting for work that is under way adds a waiter and changes nothing else; there is nothing
/// to wait for if no work is under way.
pub proof fn law_waiters_join(
    table: &mut PendingTable,
    pubkey: Pubkey,
    waiter: u64,
    other: [u8; 32],
    r: bool,
)
    requires
        call_ensures(PendingTable::join, (table, &pubkey, waiter), r),
    ensures
        r <==> old(table).entries().contains_key(pubkey.bytes),
        r ==> final(table).entries()[pubkey.bytes].2.contains(waiter),
        final(table).entries().contains_key(other) <==> old(table).entries().contains_key(other),
        other != pubkey.bytes ==> final(table).entries()[other] == old(table).entries()[other],
        final(table).entries()[pubkey.bytes].0 == old(table).entries()[pubkey.bytes].0,
        final(table).entries()[pubkey.bytes].1 == old(table).entries()[pubkey.bytes].1,
{
    if r {
        let waiters = final(table).entries()[pubkey.bytes].2;
        assert(waiters[waiters.len() - 1] == waiter);
    }
}

} // verus!
