//! Whether an account that is on its way back to the chain has arrived there.
use vstd::prelude::*;
use crate::delegation_record::DelegationRecord;

verus! {

/// Whether the undelegation of an account is still going on, seen from the chain: the account
/// is still delegated to this validator, and by a delegation that is no newer than the state
/// that the bank holds. Without a record the delegation counts as made at slot 0.
pub open spec fn still_undelegating(
    is_delegated_to_us_on_chain: bool,
    remote_slot_in_bank: u64,
    deleg_record: Option<DelegationRecord>,
) -> bool {
    is_delegated_to_us_on_chain && match deleg_record {
        Some(record) => record.delegation_slot <= remote_slot_in_bank,
        None => true,
    }
}

/// Tells whether an account that is undelegating is still doing so. If it is, the bank's
/// version stays. Otherwise it was undelegated, and perhaps delegated anew to this or to
/// another validator, and the chain's version takes its place.
pub fn account_still_undelegating_on_chain(
    is_delegated_to_us_on_chain: bool,
    remote_slot_in_bank: u64,
    deleg_record: &Option<DelegationRecord>,
) -> (r: bool)
    ensures
        r == still_undelegating(is_delegated_to_us_on_chain, remote_slot_in_bank, *deleg_record),
{
    if is_delegated_to_us_on_chain {
        let delegation_slot = match deleg_record {
            Some(record) => record.delegation_slot,
            None => 0,
        };
        delegation_slot <= remote_slot_in_bank
    } else {
        false
    }
}

} // verus!
