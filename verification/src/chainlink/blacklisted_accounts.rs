//! Accounts that are never cloned.
use vstd::prelude::*;
use crate::program_ids::{
    ADDRESS_LOOKUP_TABLE_ID, COMPUTE_BUDGET_ID, CONFIG_PROGRAM_ID, ED25519_PROGRAM_ID,
    INCINERATOR_ID, LOADER_V1_ID, LOADER_V2_ID, LOADER_V3_ID, LOADER_V4_ID, MAGIC_CONTEXT_ID,
    MAGIC_PROGRAM_ID, NATIVE_LOADER_ID, NATIVE_MINT_ID, SECP256K1_PROGRAM_ID, STAKE_CONFIG_ID,
    STAKE_PROGRAM_ID, SYSTEM_PROGRAM_ID, SYSVAR_CLOCK_ID, SYSVAR_EPOCH_REWARDS_ID,
    SYSVAR_EPOCH_SCHEDULE_ID, SYSVAR_FEES_ID, SYSVAR_ID, SYSVAR_INSTRUCTIONS_ID,
    SYSVAR_LAST_RESTART_SLOT_ID, SYSVAR_RECENT_BLOCKHASHES_ID, SYSVAR_RENT_ID,
    SYSVAR_REWARDS_ID, SYSVAR_SLOT_HASHES_ID, SYSVAR_SLOT_HISTORY_ID, SYSVAR_STAKE_HISTORY_ID,
    TOKEN_PROGRAM_ID, VOTE_PROGRAM_ID,
};
use crate::pubkey::{distinct_keys, extend_distinct, Pubkey};

verus! {

/// The sysvars and the program that owns them.
pub open spec fn sysvars() -> Seq<Pubkey> {
    seq![
        Pubkey { bytes: SYSVAR_ID },
        Pubkey { bytes: SYSVAR_CLOCK_ID },
        Pubkey { bytes: SYSVAR_EPOCH_REWARDS_ID },
        Pubkey { bytes: SYSVAR_EPOCH_SCHEDULE_ID },
        Pubkey { bytes: SYSVAR_FEES_ID },
        Pubkey { bytes: SYSVAR_INSTRUCTIONS_ID },
        Pubkey { bytes: SYSVAR_LAST_RESTART_SLOT_ID },
        Pubkey { bytes: SYSVAR_RECENT_BLOCKHASHES_ID },
        Pubkey { bytes: SYSVAR_RENT_ID },
        Pubkey { bytes: SYSVAR_REWARDS_ID },
        Pubkey { bytes: SYSVAR_SLOT_HASHES_ID },
        Pubkey { bytes: SYSVAR_SLOT_HISTORY_ID },
        Pubkey { bytes: SYSVAR_STAKE_HISTORY_ID },
    ]
}

/// The programs that every validator has.
pub open spec fn native_programs() -> Seq<Pubkey> {
    seq![
        Pubkey { bytes: ADDRESS_LOOKUP_TABLE_ID },
        Pubkey { bytes: LOADER_V2_ID },
        Pubkey { bytes: LOADER_V3_ID },
        Pubkey { bytes: LOADER_V1_ID },
        Pubkey { bytes: COMPUTE_BUDGET_ID },
        Pubkey { bytes: CONFIG_PROGRAM_ID },
        Pubkey { bytes: ED25519_PROGRAM_ID },
        Pubkey { bytes: INCINERATOR_ID },
        Pubkey { bytes: LOADER_V4_ID },
        Pubkey { bytes: NATIVE_LOADER_ID },
        Pubkey { bytes: SECP256K1_PROGRAM_ID },
        Pubkey { bytes: STAKE_PROGRAM_ID },
        Pubkey { bytes: SYSTEM_PROGRAM_ID },
        Pubkey { bytes: VOTE_PROGRAM_ID },
        Pubkey { bytes: TOKEN_PROGRAM_ID },
    ]
}

/// The other accounts that are never cloned.
pub open spec fn other_blacklisted(validator_id: Pubkey, faucet_id: Pubkey) -> Seq<Pubkey> {
    seq![
        Pubkey { bytes: STAKE_CONFIG_ID },
        Pubkey { bytes: NATIVE_MINT_ID },
        Pubkey { bytes: MAGIC_PROGRAM_ID },
        Pubkey { bytes: MAGIC_CONTEXT_ID },
        validator_id,
        faucet_id,
    ]
}

fn push_id(keys: &mut Vec<Pubkey>, bytes: [u8; 32])
    ensures
        final(keys)@ == old(keys)@.push(Pubkey { bytes }),
{
    keys.push(Pubkey { bytes });
}

/// The sysvars and the program that owns them.
pub fn sysvar_accounts() -> (r: Vec<Pubkey>)
    ensures
        r@ == sysvars(),
{
    let mut keys: Vec<Pubkey> = Vec::new();
    push_id(&mut keys, SYSVAR_ID);
    push_id(&mut keys, SYSVAR_CLOCK_ID);
    push_id(&mut keys, SYSVAR_EPOCH_REWARDS_ID);
    push_id(&mut keys, SYSVAR_EPOCH_SCHEDULE_ID);
    push_id(&mut keys, SYSVAR_FEES_ID);
    push_id(&mut keys, SYSVAR_INSTRUCTIONS_ID);
    push_id(&mut keys, SYSVAR_LAST_RESTART_SLOT_ID);
    push_id(&mut keys, SYSVAR_RECENT_BLOCKHASHES_ID);
    push_id(&mut keys, SYSVAR_RENT_ID);
    push_id(&mut keys, SYSVAR_REWARDS_ID);
    push_id(&mut keys, SYSVAR_SLOT_HASHES_ID);
    push_id(&mut keys, SYSVAR_SLOT_HISTORY_ID);
    push_id(&mut keys, SYSVAR_STAKE_HISTORY_ID);
    assert(keys@ =~= sysvars());
    keys
}

/// The programs that every validator has.
pub fn native_program_accounts() -> (r: Vec<Pubkey>)
    ensures
        r@ == native_programs(),
{
    let mut keys: Vec<Pubkey> = Vec::new();
    push_id(&mut keys, ADDRESS_LOOKUP_TABLE_ID);
    push_id(&mut keys, LOADER_V2_ID);
    push_id(&mut keys, LOADER_V3_ID);
    push_id(&mut keys, LOADER_V1_ID);
    push_id(&mut keys, COMPUTE_BUDGET_ID);
    push_id(&mut keys, CONFIG_PROGRAM_ID);
    push_id(&mut keys, ED25519_PROGRAM_ID);
    push_id(&mut keys, INCINERATOR_ID);
    push_id(&mut keys, LOADER_V4_ID);
    push_id(&mut keys, NATIVE_LOADER_ID);
    push_id(&mut keys, SECP256K1_PROGRAM_ID);
    push_id(&mut keys, STAKE_PROGRAM_ID);
    push_id(&mut keys, SYSTEM_PROGRAM_ID);
    push_id(&mut keys, VOTE_PROGRAM_ID);
    push_id(&mut keys, TOKEN_PROGRAM_ID);
    assert(keys@ =~= native_programs());
    keys
}

/// The accounts that are never cloned, each once: sysvars, native programs, the native mint,
/// the accounts of the rollup itself, the validator and the faucet.
pub fn blacklisted_accounts(validator_id: &Pubkey, faucet_id: &Pubkey) -> (r: Vec<Pubkey>)
    ensures
        r@ == distinct_keys(
            sysvars() + native_programs() + other_blacklisted(*validator_id, *faucet_id),
        ),
{
    let mut keys = sysvar_accounts();
    let mut programs = native_program_accounts();
    keys.append(&mut programs);
    push_id(&mut keys, STAKE_CONFIG_ID);
    push_id(&mut keys, NATIVE_MINT_ID);
    push_id(&mut keys, MAGIC_PROGRAM_ID);
    push_id(&mut keys, MAGIC_CONTEXT_ID);
    keys.push(*validator_id);
    keys.push(*faucet_id);
    assert(keys@ =~= sysvars() + native_programs() + other_blacklisted(*validator_id, *faucet_id));
    let mut distinct: Vec<Pubkey> = Vec::new();
    extend_distinct(&mut distinct, &keys);
    assert(Seq::<Pubkey>::empty() + keys@ =~= keys@);
    distinct
}

} // verus!
