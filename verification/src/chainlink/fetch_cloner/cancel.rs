//! Which subscriptions are given up.
use vstd::prelude::*;
use crate::lists::{lemma_picked_contains, lemma_picked_step, picked};
use crate::pubkey::{
    append_keys, contains_key, distinct_keys, extend_distinct, lemma_distinct_keys, Pubkey,
};
use crate::text::{
    address_texts, addresses_to_texts, concat3, concat5, join_messages, joined,
};

verus! {

/// Which subscriptions to give up.
#[derive(Debug)]
pub enum CancelStrategy {
    /// These.
    All(Vec<Pubkey>),
    /// The new ones that did not exist before.
    New { new_subs: Vec<Pubkey>, existing_subs: Vec<Pubkey> },
    /// The new ones that did not exist before, and those in `all` whether they did or not.
    Hybrid { new_subs: Vec<Pubkey>, existing_subs: Vec<Pubkey>, all: Vec<Pubkey> },
}

/// Picks what is not among `existing`.
pub open spec fn pick_not_in(existing: Seq<Pubkey>) -> spec_fn(Pubkey) -> Option<Pubkey> {
    |pubkey: Pubkey|
        if existing.contains(pubkey) {
            None
        } else {
            Some(pubkey)
        }
}

/// The addresses that are not among `existing`.
pub fn keys_not_in(keys: &Vec<Pubkey>, existing: &Vec<Pubkey>) -> (r: Vec<Pubkey>)
    ensures
        r@ == picked(keys@, pick_not_in(existing@)),
{
    let mut r: Vec<Pubkey> = Vec::new();
    let mut i: usize = 0;
    while i < keys.len()
        invariant
            i <= keys.len(),
            r@ == picked(keys@.take(i as int), pick_not_in(existing@)),
        decreases keys.len() - i,
    {
        proof {
            lemma_picked_step(keys@, i as int, pick_not_in(existing@));
        }
        if !contains_key(existing, &keys[i]) {
            r.push(keys[i]);
        }
        i = i + 1;
    }
    assert(keys@.take(keys@.len() as int) =~= keys@);
    r
}

/// Each address once.
pub fn distinct(keys: &Vec<Pubkey>) -> (r: Vec<Pubkey>)
    ensures
        r@ == distinct_keys(keys@),
{
    let mut r: Vec<Pubkey> = Vec::new();
    extend_distinct(&mut r, keys);
    assert(Seq::<Pubkey>::empty() + keys@ =~= keys@);
    r
}

/// Addresses with commas between them.
pub open spec fn address_list(keys: Seq<Pubkey>) -> Seq<char> {
    joined(address_texts(keys), ", "@)
}

fn list_addresses(keys: &Vec<Pubkey>) -> (r: String)
    ensures
        r@ == address_list(keys@),
{
    let texts = addresses_to_texts(keys);
    join_messages(&texts)
}

impl CancelStrategy {
    /// The subscriptions to give up, each once.
    pub open spec fn cancelled(&self) -> Seq<Pubkey> {
        match self {
            CancelStrategy::All(keys) => distinct_keys(keys@),
            CancelStrategy::New { new_subs, existing_subs } => distinct_keys(
                picked(new_subs@, pick_not_in(existing_subs@)),
            ),
            CancelStrategy::Hybrid { new_subs, existing_subs, all } => distinct_keys(
                picked(new_subs@, pick_not_in(existing_subs@)) + all@,
            ),
        }
    }

    /// Whether the strategy names no subscription at all.
    pub open spec fn names_nothing(&self) -> bool {
        match self {
            CancelStrategy::All(keys) => keys@.len() == 0,
            CancelStrategy::New { new_subs, existing_subs } => new_subs@.len() == 0
                && existing_subs@.len() == 0,
            CancelStrategy::Hybrid { new_subs, existing_subs, all } => new_subs@.len() == 0
                && existing_subs@.len() == 0 && all@.len() == 0,
        }
    }

    /// Whether the strategy names no subscription at all.
    pub fn is_empty(&self) -> (r: bool)
        ensures
            r == self.names_nothing(),
    {
        match self {
            CancelStrategy::All(keys) => keys.len() == 0,
            CancelStrategy::New { new_subs, existing_subs } => new_subs.len() == 0
                && existing_subs.len() == 0,
            CancelStrategy::Hybrid { new_subs, existing_subs, all } => new_subs.len() == 0
                && existing_subs.len() == 0 && all.len() == 0,
        }
    }

    /// The subscriptions to give up, each once.
    pub fn subs_to_cancel(&self) -> (r: Vec<Pubkey>)
        ensures
            r@ == self.cancelled(),
    {
        match self {
            CancelStrategy::All(keys) => distinct(keys),
            CancelStrategy::New { new_subs, existing_subs } => {
                let new = keys_not_in(new_subs, existing_subs);
                distinct(&new)
            },
            CancelStrategy::Hybrid { new_subs, existing_subs, all } => {
                let mut new = keys_not_in(new_subs, existing_subs);
                append_keys(&mut new, all);
                distinct(&new)
            },
        }
    }

    /// What the strategy says.
    pub open spec fn text(&self) -> Seq<char> {
        match self {
            CancelStrategy::All(keys) => "All("@ + address_list(keys@) + ")"@,
            CancelStrategy::New { new_subs, existing_subs } => "New("@ + address_list(new_subs@)
                + ") Existing("@ + address_list(existing_subs@) + ")"@,
            CancelStrategy::Hybrid { new_subs, existing_subs, all } => "Hybrid(New: "@
                + address_list(new_subs@) + ", Existing: "@ + address_list(existing_subs@) + (
            ", All: "@ + address_list(all@) + ")"@),
        }
    }

    /// What the strategy says.
    pub fn message(&self) -> (r: String)
        ensures
            r@ == self.text(),
    {
        match self {
            CancelStrategy::All(keys) => concat3("All(", list_addresses(keys).as_str(), ")"),
            CancelStrategy::New { new_subs, existing_subs } => concat5(
                "New(",
                list_addresses(new_subs).as_str(),
                ") Existing(",
                list_addresses(existing_subs).as_str(),
                ")",
            ),
            CancelStrategy::Hybrid { new_subs, existing_subs, all } => {
                let end = concat3(", All: ", list_addresses(all).as_str(), ")");
                concat5(
                    "Hybrid(New: ",
                    list_addresses(new_subs).as_str(),
                    ", Existing: ",
                    list_addresses(existing_subs).as_str(),
                    end.as_str(),
                )
            },
        }
    }
}

/// A subscription that existed before is only given up if it is named outright; a new one
/// always is; and nothing else is given up.
pub proof fn law_existing_subscriptions_stay(strategy: CancelStrategy, pubkey: Pubkey)
    ensures
        strategy.cancelled().no_duplicates(),
        strategy.cancelled().contains(pubkey) <==> match strategy {
            CancelStrategy::All(keys) => keys@.contains(pubkey),
            CancelStrategy::New { new_subs, existing_subs } => new_subs@.contains(pubkey)
                && !existing_subs@.contains(pubkey),
            CancelStrategy::Hybrid { new_subs, existing_subs, all } => all@.contains(pubkey) || (
            new_subs@.contains(pubkey) && !existing_subs@.contains(pubkey)),
        },
{
    match strategy {
        CancelStrategy::All(keys) => {
            lemma_distinct_keys(keys@);
        },
        CancelStrategy::New { new_subs, existing_subs } => {
            let fresh = picked(new_subs@, pick_not_in(existing_subs@));
            lemma_distinct_keys(fresh);
            lemma_fresh(new_subs@, existing_subs@, pubkey);
        },
        CancelStrategy::Hybrid { new_subs, existing_subs, all } => {
            let fresh = picked(new_subs@, pick_not_in(existing_subs@));
            lemma_distinct_keys(fresh + all@);
            lemma_fresh(new_subs@, existing_subs@, pubkey);
            lemma_concat_contains(fresh, all@, pubkey);
        },
    }
}

/// What is picked from new subscriptions is what did not exist before.
pub proof fn lemma_fresh(new_subs: Seq<Pubkey>, existing_subs: Seq<Pubkey>, pubkey: Pubkey)
    ensures
        picked(new_subs, pick_not_in(existing_subs)).contains(pubkey) <==> new_subs.contains(pubkey)
            && !existing_subs.contains(pubkey),
{
    lemma_picked_contains(new_subs, pick_not_in(existing_subs), pubkey);
    if new_subs.contains(pubkey) && !existing_subs.contains(pubkey) {
        let i = choose|i: int| 0 <= i < new_subs.len() && new_subs[i] == pubkey;
        assert(pick_not_in(existing_subs)(new_subs[i]) == Some(pubkey));
    }
}

/// What two lists hold together.
pub proof fn lemma_concat_contains(a: Seq<Pubkey>, b: Seq<Pubkey>, pubkey: Pubkey)
    ensures
        (a + b).contains(pubkey) <==> a.contains(pubkey) || b.contains(pubkey),
{
    let all = a + b;
    if all.contains(pubkey) {
        let i = choose|i: int| 0 <= i < all.len() && all[i] == pubkey;
        if i < a.len() {
            assert(a[i] == pubkey);
        } else {
            assert(b[i - a.len()] == pubkey);
        }
    }
    if a.contains(pubkey) {
        let i = choose|i: int| 0 <= i < a.len() && a[i] == pubkey;
        assert(all[i] == pubkey);
    }
    if b.contains(pubkey) {
        let i = choose|i: int| 0 <= i < b.len() && b[i] == pubkey;
        assert(all[a.len() + i] == pubkey);
    }
}

} // verus!
