//! Transfers of nothing.
use vstd::prelude::*;
use crate::bytes::le_value;
use crate::program_ids::SYSTEM_PROGRAM_ID;
use crate::pubkey::Pubkey;

verus! {

/// An instruction of a transaction: its program and its data.
#[derive(Debug)]
pub struct ProgramInstruction {
    pub program_id: Pubkey,
    pub data: Vec<u8>,
}

/// What the data of an instruction to the system program transfer: they begin with the number
/// of the transfer instruction, four bytes, and the lamports, eight bytes, the lowest first.
pub open spec fn transferred(data: Seq<u8>) -> Option<u64> {
    if data.len() >= 12 && data[0] == 2 && data[1] == 0 && data[2] == 0 && data[3] == 0 {
        Some(le_value(data, 4) as u64)
    } else {
        None
    }
}

/// `wincode::deserialize` of `solana_system_interface::instruction::SystemInstruction`: the
/// lamports if the data are a transfer, whatever follows it, and nothing if they are another
/// instruction or none.
#[verifier::external_body]
fn transfer_lamports(data: &[u8]) -> (r: Option<u64>)
    ensures
        r == transferred(data@),
{
    match wincode::deserialize::<solana_system_interface::instruction::SystemInstruction>(data) {
        Ok(solana_system_interface::instruction::SystemInstruction::Transfer { lamports }) =>
            Some(lamports),
        _ => None,
    }
}

/// Whether a transaction does nothing but transfer no lamports.
pub fn is_noop_system_transfer(instructions: &Vec<ProgramInstruction>) -> (r: bool)
    ensures
        r == (instructions@.len() == 1 && instructions@[0].program_id.bytes == SYSTEM_PROGRAM_ID
            && transferred(instructions@[0].data@) == Some(0u64)),
{
    if instructions.len() != 1 {
        return false;
    }
    if !instructions[0].program_id.is(&SYSTEM_PROGRAM_ID) {
        return false;
    }
    match transfer_lamports(instructions[0].data.as_slice()) {
        Some(lamports) => lamports == 0,
        None => false,
    }
}

} // verus!
