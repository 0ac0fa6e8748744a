//! Fetches and clones that are under way, and who waits for them.
//!
//! Whoever asks first for an account owns the work on it; whoever asks meanwhile waits. The
//! entries are kept in an `scc::HashMap`; a waiter is known by its number.
use vstd::prelude::*;
use crate::account::BankAccount;
use crate::chainlink::errors::ChainlinkError;
use crate::chainlink::fetch_cloner::types::FetchAndCloneResult;
use crate::lists::{lemma_picked_step, picked};
use crate::program_ids::DLP_PROGRAM_ID;
use crate::pubkey::{contains_key, Pubkey};

verus! {

/// Work on an account: its generation, its deadline and who waits for it.
pub type PendingEntries = Map<[u8; 32], (u64, u64, Seq<u64>)>;

/// `scc::HashMap` with its key, value and hasher types.
#[verifier::external_type_specification]
#[verifier::external_body]
#[verifier::reject_recursive_types(K)]
#[verifier::reject_recursive_types(V)]
#[verifier::reject_recursive_types(H)]
pub struct ExHashMap<K, V, H: std::hash::BuildHasher>(scc::HashMap<K, V, H>);

/// The entries of a map: for each address a generation, a deadline and the waiters.
pub uninterp spec fn map_entries(map: scc::HashMap<[u8; 32], (u64, u64, Vec<u64>)>) -> Map<
    [u8; 32],
    (u64, u64, Seq<u64>),
>;

/// No work at all.
pub open spec fn no_entries() -> PendingEntries {
    Map::empty()
}

/// `scc::HashMap::new`: a map without entries.
#[verifier::external_body]
fn map_new() -> (r: scc::HashMap<[u8; 32], (u64, u64, Vec<u64>)>)
    ensures
        map_entries(r) == no_entries(),
{
    scc::HashMap::new()
}

/// `scc::HashMap::insert`: adds an entry unless the key has one. Returns whether it did.
#[verifier::external_body]
fn map_insert(
    map: &mut scc::HashMap<[u8; 32], (u64, u64, Vec<u64>)>,
    key: [u8; 32],
    value: (u64, u64, Vec<u64>),
) -> (r: bool)
    ensures
        r == !map_entries(*old(map)).contains_key(key),
        map_entries(*final(map)) == if r {
            map_entries(*old(map)).insert(key, (value.0, value.1, value.2@))
        } else {
            map_entries(*old(map))
        },
{
    map.insert(key, value).is_ok()
}

/// `scc::HashMap::remove`: takes out the entry of a key, if it has one.
#[verifier::external_body]
fn map_remove(
    map: &mut scc::HashMap<[u8; 32], (u64, u64, Vec<u64>)>,
    key: &[u8; 32],
) -> (r: Option<(u64, u64, Vec<u64>)>)
    ensures
        r is Some <==> map_entries(*old(map)).contains_key(*key),
        r matches Some(value) ==> map_entries(*old(map))[*key] == (value.0, value.1, value.2@),
        map_entries(*final(map)) == map_entries(*old(map)).remove(*key),
{
    map.remove(key).map(|entry| entry.1)
}

/// `scc::HashMap::contains`: whether a key has an entry.
#[verifier::external_body]
fn map_contains(
    map: &scc::HashMap<[u8; 32], (u64, u64, Vec<u64>)>,
    key: &[u8; 32],
) -> (r: bool)
    ensures
        r == map_entries(*map).contains_key(*key),
{
    map.contains(key)
}

/// Work that is under way, by account.
pub struct PendingTable {
    map: scc::HashMap<[u8; 32], (u64, u64, Vec<u64>)>,
}

/// A claim on the work on an account.
#[derive(Clone, Copy, Debug, PartialEq, Eq, Structural)]
pub enum PendingClaim {
    /// Nobody was at it: the claimer owns it.
    Created { generation: u64, deadline: u64 },
    /// Somebody is: the claimer waits.
    Joined { generation: u64, deadline: u64 },
}

/// The list with a number that it holds at most once.
pub open spec fn with_waiter(waiters: Seq<u64>, waiter: u64) -> Seq<u64> {
    if waiters.contains(waiter) {
        waiters
    } else {
        waiters.push(waiter)
    }
}

/// Picks the other waiters.
pub open spec fn pick_other(waiter: u64) -> spec_fn(u64) -> Option<u64> {
    |other: u64|
        if other == waiter {
            None
        } else {
            Some(other)
        }
}

/// The entries after a claim on `key`.
pub open spec fn claimed(
    entries: PendingEntries,
    key: [u8; 32],
    generation: u64,
    deadline: u64,
    waiter: u64,
) -> PendingEntries {
    if entries.contains_key(key) {
        let entry = entries[key];
        entries.insert(key, (entry.0, entry.1, with_waiter(entry.2, waiter)))
    } else {
        entries.insert(key, (generation, deadline, seq![waiter]))
    }
}

/// Whether the work on `key` is of this generation.
pub open spec fn is_current(entries: PendingEntries, key: [u8; 32], generation: u64) -> bool {
    entries.contains_key(key) && entries[key].0 == generation
}

/// The entries after the work of one generation on `key` ended.
pub open spec fn finished(entries: PendingEntries, key: [u8; 32], generation: u64) -> PendingEntries {
    if is_current(entries, key, generation) {
        entries.remove(key)
    } else {
        entries
    }
}

/// Who is told that the work of one generation on `key` ended.
pub open spec fn told(entries: PendingEntries, key: [u8; 32], generation: u64) -> Seq<u64> {
    if is_current(entries, key, generation) {
        entries[key].2
    } else {
        Seq::empty()
    }
}

/// The entries after a waiter for one generation of work on `key` went away.
pub open spec fn abandoned(
    entries: PendingEntries,
    key: [u8; 32],
    generation: u64,
    waiter: u64,
) -> PendingEntries {
    if is_current(entries, key, generation) {
        let entry = entries[key];
        entries.insert(key, (entry.0, entry.1, picked(entry.2, pick_other(waiter))))
    } else {
        entries
    }
}

fn add_waiter(waiters: &mut Vec<u64>, waiter: u64)
    ensures
        final(waiters)@ == with_waiter(old(waiters)@, waiter),
{
    let mut i: usize = 0;
    while i < waiters.len()
        invariant
            i <= waiters.len(),
            waiters@ == old(waiters)@,
            forall|j: int| 0 <= j < i ==> waiters@[j] != waiter,
        decreases waiters.len() - i,
    {
        if waiters[i] == waiter {
            return;
        }
        i = i + 1;
    }
    waiters.push(waiter);
}

fn other_waiters(waiters: &Vec<u64>, waiter: u64) -> (r: Vec<u64>)
    ensures
        r@ == picked(waiters@, pick_other(waiter)),
{
    let mut others: Vec<u64> = Vec::new();
    let mut i: usize = 0;
    while i < waiters.len()
        invariant
            i <= waiters.len(),
            others@ == picked(waiters@.take(i as int), pick_other(waiter)),
        decreases waiters.len() - i,
    {
        proof {
            lemma_picked_step(waiters@, i as int, pick_other(waiter));
        }
        if waiters[i] != waiter {
            others.push(waiters[i]);
        }
        i = i + 1;
    }
    assert(waiters@.take(waiters@.len() as int) =~= waiters@);
    others
}

impl PendingTable {
    /// The work that is under way.
    pub closed spec fn entries(&self) -> PendingEntries {
        map_entries(self.map)
    }

    /// No work is under way.
    pub fn new() -> (r: PendingTable)
        ensures
            r.entries() == no_entries(),
    {
        PendingTable { map: map_new() }
    }

    /// Whether work on an account is under way.
    pub fn contains(&self, pubkey: &Pubkey) -> (r: bool)
        ensures
            r == self.entries().contains_key(pubkey.bytes),
    {
        map_contains(&self.map, &pubkey.bytes)
    }

    /// Claims the work on an account, or joins those who wait for it. Either way the claimer
    /// waits, until `total_budget` after the first claim.
    pub fn claim_or_join_pending(
        &mut self,
        pubkey: &Pubkey,
        generation: u64,
        waiter: u64,
        now: u64,
        total_budget: u64,
    ) -> (r: PendingClaim)
        requires
            now + total_budget <= u64::MAX,
        ensures
            final(self).entries() == claimed(
                old(self).entries(),
                pubkey.bytes,
                generation,
                (now + total_budget) as u64,
                waiter,
            ),
            r == if old(self).entries().contains_key(pubkey.bytes) {
                PendingClaim::Joined {
                    generation: old(self).entries()[pubkey.bytes].0,
                    deadline: old(self).entries()[pubkey.bytes].1,
                }
            } else {
                PendingClaim::Created { generation, deadline: (now + total_budget) as u64 }
            },
    {
        let ghost before = self.entries();
        match map_remove(&mut self.map, &pubkey.bytes) {
            Some((current, deadline, mut waiters)) => {
                add_waiter(&mut waiters, waiter);
                map_insert(&mut self.map, pubkey.bytes, (current, deadline, waiters));
                assert(self.entries() =~= claimed(
                    before,
                    pubkey.bytes,
                    generation,
                    (now + total_budget) as u64,
                    waiter,
                ));
                PendingClaim::Joined { generation: current, deadline }
            },
            None => {
                let deadline = now + total_budget;
                let mut waiters: Vec<u64> = Vec::new();
                waiters.push(waiter);
                assert(waiters@ =~= seq![waiter]);
                map_insert(&mut self.map, pubkey.bytes, (generation, deadline, waiters));
                assert(self.entries() =~= before.insert(
                    pubkey.bytes,
                    (generation, deadline, seq![waiter]),
                ));
                PendingClaim::Created { generation, deadline }
            },
        }
    }

    /// Ends the work of one generation on an account and returns who has to be told. Work that
    /// is of another generation goes on.
    pub fn finish_pending(&mut self, pubkey: &Pubkey, generation: u64) -> (r: Vec<u64>)
        ensures
            final(self).entries() == finished(old(self).entries(), pubkey.bytes, generation),
            r@ == told(old(self).entries(), pubkey.bytes, generation),
    {
        let ghost before = self.entries();
        match map_remove(&mut self.map, &pubkey.bytes) {
            Some((current, deadline, waiters)) => {
                if current == generation {
                    waiters
                } else {
                    map_insert(&mut self.map, pubkey.bytes, (current, deadline, waiters));
                    assert(self.entries() =~= before);
                    Vec::new()
                }
            },
            None => {
                assert(self.entries() =~= before);
                Vec::new()
            },
        }
    }

    /// Notes that a waiter for one generation of work on an account went away.
    pub fn abandon(&mut self, pubkey: &Pubkey, generation: u64, waiter: u64)
        ensures
            final(self).entries() == abandoned(
                old(self).entries(),
                pubkey.bytes,
                generation,
                waiter,
            ),
    {
        let ghost before = self.entries();
        match map_remove(&mut self.map, &pubkey.bytes) {
            Some((current, deadline, waiters)) => {
                if current == generation {
                    let others = other_waiters(&waiters, waiter);
                    map_insert(&mut self.map, pubkey.bytes, (current, deadline, others));
                } else {
                    map_insert(&mut self.map, pubkey.bytes, (current, deadline, waiters));
                }
                assert(self.entries() =~= abandoned(before, pubkey.bytes, generation, waiter));
            },
            None => {
                assert(self.entries() =~= before);
            },
        }
    }

    /// Ends whatever work is under way on an account and returns who has to be told.
    pub fn close(&mut self, pubkey: &Pubkey) -> (r: Vec<u64>)
        ensures
            final(self).entries() == old(self).entries().remove(pubkey.bytes),
            r@ == if old(self).entries().contains_key(pubkey.bytes) {
                old(self).entries()[pubkey.bytes].2
            } else {
                Seq::empty()
            },
    {
        match map_remove(&mut self.map, &pubkey.bytes) {
            Some((_, _, waiters)) => waiters,
            None => Vec::new(),
        }
    }

    /// Starts work on an account that nobody waits for yet.
    pub fn open(&mut self, pubkey: &Pubkey)
        ensures
            final(self).entries() == old(self).entries().insert(
                pubkey.bytes,
                (0u64, 0u64, Seq::<u64>::empty()),
            ),
    {
        let ghost before = self.entries();
        self.close(pubkey);
        let waiters: Vec<u64> = Vec::new();
        map_insert(&mut self.map, pubkey.bytes, (0, 0, waiters));
        assert(self.entries() =~= before.insert(
            pubkey.bytes,
            (0u64, 0u64, Seq::<u64>::empty()),
        ));
    }

    /// Adds a waiter to work that is under way. Returns whether there is any.
    pub fn join(&mut self, pubkey: &Pubkey, waiter: u64) -> (r: bool)
        ensures
            r == old(self).entries().contains_key(pubkey.bytes),
            final(self).entries() == if r {
                let entry = old(self).entries()[pubkey.bytes];
                old(self).entries().insert(
                    pubkey.bytes,
                    (entry.0, entry.1, entry.2.push(waiter)),
                )
            } else {
                old(self).entries()
            },
    {
        let ghost before = self.entries();
        match map_remove(&mut self.map, &pubkey.bytes) {
            Some((generation, deadline, mut waiters)) => {
                waiters.push(waiter);
                map_insert(&mut self.map, pubkey.bytes, (generation, deadline, waiters));
                assert(self.entries() =~= before.insert(
                    pubkey.bytes,
                    (generation, deadline, before[pubkey.bytes].2.push(waiter)),
                ));
                true
            },
            None => {
                assert(self.entries() =~= before);
                false
            },
        }
    }

    /// What happens when the owner of work lets go of it: if it has not ended the work, the
    /// work of its generation ends, and those who wait have to be told that it was dropped.
    pub fn guard_dropped(&mut self, pubkey: &Pubkey, generation: u64, dismissed: bool) -> (r: Vec<
        u64,
    >)
        ensures
            final(self).entries() == if dismissed {
                old(self).entries()
            } else {
                finished(old(self).entries(), pubkey.bytes, generation)
            },
            r@ == if dismissed {
                Seq::empty()
            } else {
                told(old(self).entries(), pubkey.bytes, generation)
            },
    {
        if dismissed {
            Vec::new()
        } else {
            self.finish_pending(pubkey, generation)
        }
    }
}

/// Whoever claims work and does not go away is told when the work ends.
pub proof fn law_waiters_are_told(
    entries: PendingEntries,
    key: [u8; 32],
    generation: u64,
    deadline: u64,
    waiter: u64,
)
    ensures
        ({
            let after = claimed(entries, key, generation, deadline, waiter);
            &&& after.contains_key(key)
            &&& told(after, key, after[key].0).contains(waiter)
            &&& !finished(after, key, after[key].0).contains_key(key)
        }),
{
    let after = claimed(entries, key, generation, deadline, waiter);
    let waiters = after[key].2;
    if entries.contains_key(key) {
        if !entries[key].2.contains(waiter) {
            assert(waiters.last() == waiter);
        }
    } else {
        assert(waiters[0] == waiter);
    }
}

/// Work that was taken up anew is not ended, and its waiters are neither told nor lost, by
/// somebody who still holds on to work of an earlier generation.
pub proof fn law_stale_owners_change_nothing(
    entries: PendingEntries,
    key: [u8; 32],
    generation: u64,
    waiter: u64,
)
    requires
        !is_current(entries, key, generation),
    ensures
        finished(entries, key, generation) == entries,
        told(entries, key, generation).len() == 0,
        abandoned(entries, key, generation, waiter) == entries,
{
}

/// How work ended, for those who waited.
#[derive(Debug)]
pub enum PendingTerminal {
    Success(FetchAndCloneResult),
    Failed(PendingFailure),
}

/// Why work failed.
#[derive(Debug)]
pub enum PendingFailure {
    OwnerFailed(String),
    TimedOut,
    Cancelled,
}

impl PendingFailure {
    /// The error for those who waited.
    pub fn into_chainlink_error(self, pubkey: Pubkey) -> (r: ChainlinkError)
        ensures
            r == match self {
                PendingFailure::OwnerFailed(message) => ChainlinkError::PendingRequestOwnerFailed(
                    pubkey,
                    message,
                ),
                PendingFailure::TimedOut => ChainlinkError::PendingRequestTimeout(pubkey),
                PendingFailure::Cancelled => ChainlinkError::PendingRequestCancelled(pubkey),
            },
    {
        match self {
            PendingFailure::OwnerFailed(message) => ChainlinkError::PendingRequestOwnerFailed(
                pubkey,
                message,
            ),
            PendingFailure::TimedOut => ChainlinkError::PendingRequestTimeout(pubkey),
            PendingFailure::Cancelled => ChainlinkError::PendingRequestCancelled(pubkey),
        }
    }
}

/// Whether an error tells those who waited what became of the work.
pub open spec fn is_pending_request_error(error: ChainlinkError) -> bool {
    ||| error is PendingRequestTimeout
    ||| error is PendingRequestOwnerDropped
    ||| error is PendingRequestOwnerDisappeared
    ||| error is PendingRequestOwnerFailed
}

/// A copy of an error for one more of those who waited.
pub fn clone_pending_request_error(error: &ChainlinkError) -> (r: ChainlinkError)
    requires
        is_pending_request_error(*error),
    ensures
        match *error {
            ChainlinkError::PendingRequestTimeout(_) => r == *error,
            ChainlinkError::PendingRequestOwnerDropped(_) => r == *error,
            ChainlinkError::PendingRequestOwnerDisappeared(pubkey, message) => {
                r matches ChainlinkError::PendingRequestOwnerDisappeared(copied, text) && copied
                    == pubkey && text@ == message@
            },
            ChainlinkError::PendingRequestOwnerFailed(pubkey, message) => {
                r matches ChainlinkError::PendingRequestOwnerFailed(copied, text) && copied
                    == pubkey && text@ == message@
            },
            _ => true,
        },
{
    match error {
        ChainlinkError::PendingRequestTimeout(pubkey) => ChainlinkError::PendingRequestTimeout(
            *pubkey,
        ),
        ChainlinkError::PendingRequestOwnerDropped(
            pubkey,
        ) => ChainlinkError::PendingRequestOwnerDropped(*pubkey),
        ChainlinkError::PendingRequestOwnerDisappeared(
            pubkey,
            message,
        ) => ChainlinkError::PendingRequestOwnerDisappeared(
            *pubkey,
            String::from_str(message.as_str()),
        ),
        ChainlinkError::PendingRequestOwnerFailed(
            pubkey,
            message,
        ) => ChainlinkError::PendingRequestOwnerFailed(*pubkey, String::from_str(message.as_str())),
        _ => ChainlinkError::DisabledForNonPrimaryMode,
    }
}

/// An account that is asked for, and what is known about it here.
#[derive(Clone, Copy, Debug)]
pub struct AskedAccount {
    pub pubkey: Pubkey,
    pub in_bank: Option<BankAccount>,
    pub is_watching: bool,
    /// The number of the one who asks, in case it has to wait.
    pub waiter: u64,
}

/// Whether an account needs nothing: it is never cloned, or the bank has it in a state that is
/// kept up to date.
pub open spec fn needs_nothing(asked: AskedAccount, blacklist: Seq<Pubkey>) -> bool {
    blacklist.contains(asked.pubkey) || (asked.in_bank matches Some(held) && (held.owner.bytes
        == DLP_PROGRAM_ID || held.delegated || asked.is_watching))
}

fn check_needs_nothing(asked: &AskedAccount, blacklist: &Vec<Pubkey>) -> (r: bool)
    ensures
        r == needs_nothing(*asked, blacklist@),
{
    if contains_key(blacklist, &asked.pubkey) {
        return true;
    }
    match asked.in_bank {
        Some(held) => held.owner.is(&DLP_PROGRAM_ID) || held.delegated || asked.is_watching,
        None => false,
    }
}

/// Picks the accounts to fetch: those that need it and that nobody is at.
pub open spec fn pick_to_fetch(blacklist: Seq<Pubkey>, entries: PendingEntries) -> spec_fn(
    AskedAccount,
) -> Option<Pubkey> {
    |asked: AskedAccount|
        if needs_nothing(asked, blacklist) || entries.contains_key(asked.pubkey.bytes) {
            None
        } else {
            Some(asked.pubkey)
        }
}

/// Picks the accounts to wait for: those that need a fetch and that somebody is at.
pub open spec fn pick_to_await(blacklist: Seq<Pubkey>, entries: PendingEntries) -> spec_fn(
    AskedAccount,
) -> Option<(Pubkey, u64)> {
    |asked: AskedAccount|
        if !needs_nothing(asked, blacklist) && entries.contains_key(asked.pubkey.bytes) {
            Some((asked.pubkey, asked.waiter))
        } else {
            None
        }
}

/// Picks who waits for `key`.
pub open spec fn pick_waiter_for(key: [u8; 32]) -> spec_fn((Pubkey, u64)) -> Option<u64> {
    |awaited: (Pubkey, u64)|
        if awaited.0.bytes == key {
            Some(awaited.1)
        } else {
            None
        }
}

/// What is fetched, and what is waited for.
#[derive(Debug)]
pub struct DedupPlan {
    pub fetch_new: Vec<Pubkey>,
    pub await_pending: Vec<(Pubkey, u64)>,
}

/// The entries with those who wait now.
pub open spec fn with_awaiting(entries: PendingEntries, awaited: Seq<(Pubkey, u64)>) -> PendingEntries {
    Map::new(
        |key: [u8; 32]| entries.contains_key(key),
        |key: [u8; 32]|
            (
                entries[key].0,
                entries[key].1,
                entries[key].2 + picked(awaited, pick_waiter_for(key)),
            ),
    )
}

/// The entries with fetches of `keys` that nobody waits for yet.
pub open spec fn with_opened(entries: PendingEntries, keys: Seq<Pubkey>) -> PendingEntries
    decreases keys.len(),
{
    if keys.len() == 0 {
        entries
    } else {
        with_opened(entries, keys.drop_last()).insert(
            keys.last().bytes,
            (0u64, 0u64, Seq::<u64>::empty()),
        )
    }
}

/// Decides which accounts are fetched, so that no account is fetched twice at the same time:
/// one that somebody is at already is waited for.
pub fn plan_fetches(
    table: &mut PendingTable,
    asked: &Vec<AskedAccount>,
    blacklist: &Vec<Pubkey>,
) -> (r: DedupPlan)
    ensures
        r.fetch_new@ == picked(asked@, pick_to_fetch(blacklist@, old(table).entries())),
        r.await_pending@ == picked(asked@, pick_to_await(blacklist@, old(table).entries())),
        final(table).entries() == with_opened(
            with_awaiting(old(table).entries(), r.await_pending@),
            r.fetch_new@,
        ),
{
    let ghost before = table.entries();
    let ghost fetch = pick_to_fetch(blacklist@, before);
    let ghost wait = pick_to_await(blacklist@, before);
    let mut fetch_new: Vec<Pubkey> = Vec::new();
    let mut await_pending: Vec<(Pubkey, u64)> = Vec::new();
    let mut i: usize = 0;
    proof {
        assert forall|key: [u8; 32]| before.contains_key(key) implies #[trigger] with_awaiting(
            before,
            await_pending@,
        )[key] == before[key] by {
            assert(before[key].2 + picked(await_pending@, pick_waiter_for(key)) =~= before[key].2);
        }
        assert(with_awaiting(before, await_pending@) =~= before);
    }
    while i < asked.len()
        invariant
            i <= asked.len(),
            fetch == pick_to_fetch(blacklist@, before),
            wait == pick_to_await(blacklist@, before),
            fetch_new@ == picked(asked@.take(i as int), fetch),
            await_pending@ == picked(asked@.take(i as int), wait),
            table.entries() == with_awaiting(before, await_pending@),
        decreases asked.len() - i,
    {
        proof {
            lemma_picked_step(asked@, i as int, fetch);
            lemma_picked_step(asked@, i as int, wait);
        }
        let one = asked[i];
        if !check_needs_nothing(&one, blacklist) {
            let ghost awaited = await_pending@;
            if table.join(&one.pubkey, one.waiter) {
                await_pending.push((one.pubkey, one.waiter));
                proof {
                    let longer = awaited.push((one.pubkey, one.waiter));
                    assert(longer.drop_last() =~= awaited);
                    assert forall|key: [u8; 32]| before.contains_key(key) implies (
                    #[trigger] with_awaiting(before, longer)[key]) == table.entries()[key] by {
                        assert(before[key].2 + picked(longer, pick_waiter_for(key)) =~= if key
                            == one.pubkey.bytes {
                            (before[key].2 + picked(awaited, pick_waiter_for(key))).push(
                                one.waiter,
                            )
                        } else {
                            before[key].2 + picked(awaited, pick_waiter_for(key))
                        });
                    }
                    assert(table.entries() =~= with_awaiting(before, longer));
                }
            } else {
                fetch_new.push(one.pubkey);
            }
        }
        i = i + 1;
    }
    assert(asked@.take(asked@.len() as int) =~= asked@);
    let ghost waiting = table.entries();
    let mut k: usize = 0;
    while k < fetch_new.len()
        invariant
            k <= fetch_new.len(),
            table.entries() == with_opened(waiting, fetch_new@.take(k as int)),
        decreases fetch_new.len() - k,
    {
        table.open(&fetch_new[k]);
        k = k + 1;
        assert(fetch_new@.take(k as int).drop_last() =~= fetch_new@.take(k - 1));
    }
    assert(fetch_new@.take(fetch_new@.len() as int) =~= fetch_new@);
    DedupPlan { fetch_new, await_pending }
}

/// The entries without those of `keys`.
pub open spec fn without_keys(entries: PendingEntries, keys: Seq<Pubkey>) -> PendingEntries
    decreases keys.len(),
{
    if keys.len() == 0 {
        entries
    } else {
        without_keys(entries, keys.drop_last()).remove(keys.last().bytes)
    }
}

/// Who waits for `keys`, each key counted once.
pub open spec fn waiting_for(entries: PendingEntries, keys: Seq<Pubkey>) -> Seq<u64>
    decreases keys.len(),
{
    if keys.len() == 0 {
        Seq::empty()
    } else {
        let rest = without_keys(entries, keys.drop_last());
        waiting_for(entries, keys.drop_last()) + if rest.contains_key(keys.last().bytes) {
            rest[keys.last().bytes].2
        } else {
            Seq::empty()
        }
    }
}

/// Ends fetches, whether they succeeded or not, and returns who has to be told.
pub fn complete_fetches(table: &mut PendingTable, fetched: &Vec<Pubkey>) -> (r: Vec<u64>)
    ensures
        final(table).entries() == without_keys(old(table).entries(), fetched@),
        r@ == waiting_for(old(table).entries(), fetched@),
{
    let ghost before = table.entries();
    let mut waiters: Vec<u64> = Vec::new();
    let mut i: usize = 0;
    while i < fetched.len()
        invariant
            i <= fetched.len(),
            table.entries() == without_keys(before, fetched@.take(i as int)),
            waiters@ == waiting_for(before, fetched@.take(i as int)),
        decreases fetched.len() - i,
    {
        let mut more = table.close(&fetched[i]);
        waiters.append(&mut more);
        i = i + 1;
        assert(fetched@.take(i as int).drop_last() =~= fetched@.take(i - 1));
    }
    assert(fetched@.take(fetched@.len() as int) =~= fetched@);
    waiters
}

/// The address is that of one of the keys.
pub open spec fn among(keys: Seq<Pubkey>, key: [u8; 32]) -> bool {
    exists|i: int| 0 <= i < keys.len() && (#[trigger] keys[i]).bytes == key
}

proof fn lemma_among_step(keys: Seq<Pubkey>, key: [u8; 32])
    requires
        keys.len() > 0,
    ensures
        among(keys, key) <==> among(keys.drop_last(), key) || keys.last().bytes == key,
{
    let front = keys.drop_last();
    if among(keys, key) {
        let i = choose|i: int| 0 <= i < keys.len() && (#[trigger] keys[i]).bytes == key;
        if i < front.len() {
            assert(front[i].bytes == key);
        }
    }
    if among(front, key) {
        let i = choose|i: int| 0 <= i < front.len() && (#[trigger] front[i]).bytes == key;
        assert(keys[i].bytes == key);
    }
    if keys.last().bytes == key {
        assert(keys[keys.len() - 1].bytes == key);
    }
}

/// While an account is being fetched, whoever asks for it waits and does not fetch it too;
/// once the fetch ended, it can be fetched again.
pub proof fn law_accounts_are_fetched_once(
    entries: PendingEntries,
    keys: Seq<Pubkey>,
    asked: AskedAccount,
    blacklist: Seq<Pubkey>,
)
    requires
        among(keys, asked.pubkey.bytes),
    ensures
        pick_to_fetch(blacklist, with_opened(entries, keys))(asked) is None,
        !needs_nothing(asked, blacklist) ==> pick_to_await(blacklist, with_opened(entries, keys))(
            asked,
        ) is Some,
        !without_keys(with_opened(entries, keys), keys).contains_key(asked.pubkey.bytes),
{
    lemma_opened(entries, keys, asked.pubkey.bytes);
    lemma_without(with_opened(entries, keys), keys, asked.pubkey.bytes);
}

proof fn lemma_opened(entries: PendingEntries, keys: Seq<Pubkey>, key: [u8; 32])
    ensures
        with_opened(entries, keys).contains_key(key) <==> entries.contains_key(key) || among(
            keys,
            key,
        ),
    decreases keys.len(),
{
    if keys.len() > 0 {
        lemma_opened(entries, keys.drop_last(), key);
        lemma_among_step(keys, key);
    }
}

proof fn lemma_without(entries: PendingEntries, keys: Seq<Pubkey>, key: [u8; 32])
    ensures
        without_keys(entries, keys).contains_key(key) <==> entries.contains_key(key) && !among(
            keys,
            key,
        ),
        !among(keys, key) && entries.contains_key(key) ==> without_keys(entries, keys)[key]
            == entries[key],
    decreases keys.len(),
{
    if keys.len() > 0 {
        lemma_without(entries, keys.drop_last(), key);
        lemma_among_step(keys, key);
    }
}

/// Whoever waits for an account is told when its fetch ended, however it ended.
pub proof fn law_awaiting_are_told(
    entries: PendingEntries,
    keys: Seq<Pubkey>,
    key: [u8; 32],
    waiter: u64,
)
    requires
        entries.contains_key(key),
        entries[key].2.contains(waiter),
        among(keys, key),
    ensures
        waiting_for(entries, keys).contains(waiter),
    decreases keys.len(),
{
    if keys.len() > 0 {
        let front = keys.drop_last();
        let told_before = waiting_for(entries, front);
        let told = waiting_for(entries, keys);
        lemma_among_step(keys, key);
        if among(front, key) {
            law_awaiting_are_told(entries, front, key, waiter);
            let i = choose|i: int| 0 <= i < told_before.len() && told_before[i] == waiter;
            assert(told[i] == waiter);
        } else {
            lemma_without(entries, front, key);
            let waiters = entries[key].2;
            let i = choose|i: int| 0 <= i < waiters.len() && waiters[i] == waiter;
            assert(told[told_before.len() + i] == waiter);
        }
    }
}

/// How a clone ended, for those who waited.
#[derive(Clone, Copy, Debug, PartialEq, Eq, Structural)]
pub enum CloneCompletion {
    Success,
    Failed,
}

/// What happens when the owner of a clone lets go of it: if it has not told those who wait,
/// they have to be told that it failed.
pub fn clone_guard_dropped(table: &mut PendingTable, pubkey: &Pubkey, dismissed: bool) -> (r: Vec<
    u64,
>)
    ensures
        final(table).entries() == if dismissed {
            old(table).entries()
        } else {
            old(table).entries().remove(pubkey.bytes)
        },
        r@ == if !dismissed && old(table).entries().contains_key(pubkey.bytes) {
            old(table).entries()[pubkey.bytes].2
        } else {
            Seq::empty()
        },
{
    if dismissed {
        Vec::new()
    } else {
        table.close(pubkey)
    }
}

} // verus!
