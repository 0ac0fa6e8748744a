//! Accounts that the chain keeps in compressed form.
use vstd::prelude::*;
use crate::account::{effective_slot, later, slot_for, Account, AccountMode};
use crate::chainlink::fetch_cloner::pipeline::plain_request;
use crate::cloner::AccountCloneRequest;
use crate::lists::{lemma_picked_step, picked};
use crate::pubkey::Pubkey;

verus! {

/// What the record of a compressed account says.
#[derive(Debug)]
pub struct CompressedDelegationRecord {
    pub authority: Pubkey,
    pub owner: Pubkey,
    pub delegation_slot: u64,
    pub lamports: u64,
    pub data: Vec<u8>,
}

/// The account that a compressed record stands for, as of `slot`. The rollup runs it if the
/// record names this validator.
pub open spec fn expanded(record: CompressedDelegationRecord, slot: u64, validator: Pubkey) -> Account {
    Account {
        lamports: record.lamports,
        data: record.data,
        owner: record.owner,
        executable: false,
        slot,
        mode: if record.authority == validator {
            AccountMode::Delegated
        } else {
            AccountMode::ReadOnly
        },
        confined: false,
        compressed: true,
    }
}

fn expand(record: CompressedDelegationRecord, slot: u64, validator: &Pubkey) -> (r: Account)
    ensures
        r == expanded(record, slot, *validator),
{
    Account {
        lamports: record.lamports,
        data: record.data,
        owner: record.owner,
        executable: false,
        slot,
        mode: if record.authority == *validator {
            AccountMode::Delegated
        } else {
            AccountMode::ReadOnly
        },
        confined: false,
        compressed: true,
    }
}

/// The account that a compressed record stands for, with the slot of its delegation; nothing
/// if there is no record to be read.
pub fn try_decompress_compressed_delegation(
    record: Option<CompressedDelegationRecord>,
    account_slot: u64,
    min_context_slot: u64,
    validator_pubkey: &Pubkey,
) -> (r: Option<(Account, u64)>)
    ensures
        r == match record {
            None => None,
            Some(record) => Some(
                (
                    expanded(
                        record,
                        slot_for(Some(min_context_slot), account_slot),
                        *validator_pubkey,
                    ),
                    record.delegation_slot,
                ),
            ),
        },
{
    match record {
        None => None,
        Some(record) => {
            let delegation_slot = record.delegation_slot;
            let slot = later(min_context_slot, account_slot);
            Some((expand(record, slot, validator_pubkey), delegation_slot))
        },
    }
}

/// A compressed account with what its record was read as.
#[derive(Debug)]
pub struct CompressedAccount {
    pub pubkey: Pubkey,
    pub record: Option<CompressedDelegationRecord>,
    pub slot: u64,
}

/// Picks the requests for the accounts whose records could be read.
pub open spec fn pick_expanded(min: Option<u64>, validator: Pubkey) -> spec_fn(
    CompressedAccount,
) -> Option<AccountCloneRequest> {
    |account: CompressedAccount|
        match account.record {
            Some(record) => Some(
                plain_request(
                    account.pubkey,
                    expanded(record, slot_for(min, account.slot), validator),
                ),
            ),
            None => None,
        }
}

/// The requests for compressed accounts; those whose records cannot be read are left out.
pub fn resolve_compressed_accounts(
    compressed_accounts: Vec<CompressedAccount>,
    min_context_slot: Option<u64>,
    validator_pubkey: &Pubkey,
) -> (r: Vec<AccountCloneRequest>)
    ensures
        r@ == picked(compressed_accounts@, pick_expanded(min_context_slot, *validator_pubkey)),
{
    let ghost all = compressed_accounts@;
    let ghost pick = pick_expanded(min_context_slot, *validator_pubkey);
    let mut requests: Vec<AccountCloneRequest> = Vec::new();
    for account in it: compressed_accounts
        invariant
            it.seq() == all,
            pick == pick_expanded(min_context_slot, *validator_pubkey),
            requests@ == picked(all.take(it.index() as int), pick),
    {
        proof {
            lemma_picked_step(all, it.index() as int, pick);
        }
        let slot = effective_slot(min_context_slot, account.slot);
        if let Some(record) = account.record {
            requests.push(
                AccountCloneRequest::plain(
                    account.pubkey,
                    expand(record, slot, validator_pubkey),
                ),
            );
        }
    }
    assert(all.take(all.len() as int) =~= all);
    requests
}

} // verus!
