//! What is handed from one step of a fetch to the next.
use vstd::prelude::*;
use crate::account::Account;
use crate::cloner::{AccountCloneRequest, LoadedProgram};
use crate::pubkey::Pubkey;
use crate::text::{address_text, address_to_text};

verus! {

/// An account together with the account that says more about it.
#[derive(Debug)]
pub struct AccountWithCompanion {
    pub pubkey: Pubkey,
    pub account: Account,
    pub companion_pubkey: Pubkey,
    pub companion_account: Option<Account>,
}

/// Whether an account that the bank holds has to be fetched again.
#[derive(Clone, Copy, Debug, PartialEq, Eq, Structural)]
pub enum RefreshDecision {
    No,
    Yes,
    /// Yes, and if the chain does not have it, an empty one takes its place.
    YesAndMarkEmptyIfNotFound,
}

/// A token account's mint and wallet.
#[derive(Clone, Copy, Debug, PartialEq, Eq)]
pub struct AtaInfo {
    pub mint: Pubkey,
    pub owner: Pubkey,
}

/// A token account and what it is a token account of.
#[derive(Debug)]
pub struct AtaAccount {
    pub pubkey: Pubkey,
    pub account: Account,
    pub info: AtaInfo,
    pub slot: u64,
}

/// Fetched accounts by what has to be done with them.
#[derive(Debug)]
pub struct ClassifiedAccounts {
    pub not_found: Vec<(Pubkey, u64)>,
    pub plain: Vec<AccountCloneRequest>,
    pub owned_by_deleg: Vec<(Pubkey, Account, u64)>,
    pub programs: Vec<(Pubkey, Account, u64)>,
    pub atas: Vec<AtaAccount>,
}

/// Delegated accounts with what their delegation records say.
#[derive(Debug)]
pub struct ResolvedDelegatedAccounts {
    pub accounts_to_clone: Vec<AccountCloneRequest>,
    pub record_subs: Vec<Pubkey>,
    pub missing_delegation_record: Vec<(Pubkey, u64)>,
    /// The programs that owned the accounts before, each once.
    pub owner_programs: Vec<Pubkey>,
}

/// Programs with their code.
#[derive(Debug)]
pub struct ResolvedPrograms {
    pub loaded_programs: Vec<LoadedProgram>,
    pub program_data_subs: Vec<Pubkey>,
}

/// Accounts that the chain does not have.
#[derive(Debug)]
pub struct PartitionedNotFound {
    /// Those that an empty account takes the place of.
    pub clone_as_empty: Vec<(Pubkey, u64)>,
    /// The others.
    pub not_found: Vec<(Pubkey, u64)>,
}

/// What a fetch could not find.
#[derive(Debug)]
pub struct FetchAndCloneResult {
    pub not_found_on_chain: Vec<(Pubkey, u64)>,
    pub missing_delegation_record: Vec<(Pubkey, u64)>,
}

/// The addresses of a list of addresses with slots.
pub open spec fn keys_of(list: Seq<(Pubkey, u64)>) -> Seq<Pubkey> {
    list.map_values(|entry: (Pubkey, u64)| entry.0)
}

/// The addresses of a list of addresses with slots.
pub fn collect_keys(list: &Vec<(Pubkey, u64)>) -> (r: Vec<Pubkey>)
    ensures
        r@ == keys_of(list@),
{
    let mut r: Vec<Pubkey> = Vec::new();
    let mut i: usize = 0;
    while i < list.len()
        invariant
            i <= list.len(),
            r@.len() == i,
            forall|j: int| 0 <= j < i ==> r@[j] == list@[j].0,
        decreases list.len() - i,
    {
        r.push(list[i].0);
        i = i + 1;
    }
    assert(r@ =~= keys_of(list@));
    r
}

/// Addresses in quotes, with commas between them.
pub open spec fn quoted_list(list: Seq<(Pubkey, u64)>) -> Seq<char>
    decreases list.len(),
{
    if list.len() == 0 {
        Seq::empty()
    } else {
        let front = quoted_list(list.drop_last());
        let separator = if list.len() == 1 {
            ""@
        } else {
            ", "@
        };
        front + separator + "\""@ + address_text(list.last().0@) + "\""@
    }
}

fn append_quoted_list(text: &mut String, list: &Vec<(Pubkey, u64)>)
    ensures
        final(text)@ == old(text)@ + quoted_list(list@),
{
    let ghost before = text@;
    let mut i: usize = 0;
    assert(text@ =~= before + quoted_list(list@.take(0)));
    while i < list.len()
        invariant
            i <= list.len(),
            text@ == before + quoted_list(list@.take(i as int)),
        decreases list.len() - i,
    {
        if i == 0 {
            text.append("");
        } else {
            text.append(", ");
        }
        text.append("\"");
        text.append(address_to_text(&list[i].0).as_str());
        text.append("\"");
        i = i + 1;
        proof {
            let longer = list@.take(i as int);
            assert(longer.drop_last() =~= list@.take(i - 1));
            assert(longer.last() == list@[i - 1]);
            assert(text@ =~= before + quoted_list(longer));
        }
    }
    assert(list@.take(list@.len() as int) =~= list@);
}

impl FetchAndCloneResult {
    /// Nothing was missed.
    pub fn empty() -> (r: FetchAndCloneResult)
        ensures
            r.not_found_on_chain@.len() == 0,
            r.missing_delegation_record@.len() == 0,
    {
        FetchAndCloneResult {
            not_found_on_chain: Vec::new(),
            missing_delegation_record: Vec::new(),
        }
    }

    /// The addresses that the chain does not have.
    pub fn pubkeys_not_found_on_chain(&self) -> (r: Vec<Pubkey>)
        ensures
            r@ == keys_of(self.not_found_on_chain@),
    {
        collect_keys(&self.not_found_on_chain)
    }

    /// The addresses of accounts without a delegation record.
    pub fn pubkeys_missing_delegation_record(&self) -> (r: Vec<Pubkey>)
        ensures
            r@ == keys_of(self.missing_delegation_record@),
    {
        collect_keys(&self.missing_delegation_record)
    }

    /// Whether nothing was missed.
    pub open spec fn complete(&self) -> bool {
        self.not_found_on_chain@.len() == 0 && self.missing_delegation_record@.len() == 0
    }

    /// Whether nothing was missed.
    pub fn is_ok(&self) -> (r: bool)
        ensures
            r == self.complete(),
    {
        self.not_found_on_chain.len() == 0 && self.missing_delegation_record.len() == 0
    }

    /// What the result says.
    pub open spec fn text(&self) -> Seq<char> {
        if self.complete() {
            "All accounts fetched and cloned successfully"@
        } else {
            let not_found = if self.not_found_on_chain@.len() == 0 {
                Seq::empty()
            } else {
                "Accounts not found on chain: ["@ + quoted_list(self.not_found_on_chain@) + "]\n"@
            };
            let missing = if self.missing_delegation_record@.len() == 0 {
                Seq::empty()
            } else {
                "Accounts missing delegation record: ["@ + quoted_list(
                    self.missing_delegation_record@,
                ) + "]\n"@
            };
            not_found + missing
        }
    }

    /// What the result says.
    pub fn message(&self) -> (r: String)
        ensures
            r@ == self.text(),
    {
        if self.is_ok() {
            return String::from_str("All accounts fetched and cloned successfully");
        }
        let mut text = String::new();
        if self.not_found_on_chain.len() > 0 {
            text.append("Accounts not found on chain: [");
            append_quoted_list(&mut text, &self.not_found_on_chain);
            text.append("]\n");
        }
        let ghost first = text@;
        if self.missing_delegation_record.len() > 0 {
            text.append("Accounts missing delegation record: [");
            append_quoted_list(&mut text, &self.missing_delegation_record);
            text.append("]\n");
        }
        assert(text@ =~= self.text());
        text
    }
}

} // verus!
