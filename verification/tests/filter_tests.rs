//! Transfers of nothing.
use magicblock_chainlink::filters::noop_system_transfer::{
    is_noop_system_transfer, ProgramInstruction,
};
use magicblock_chainlink::program_ids::SYSTEM_PROGRAM_ID;
use magicblock_chainlink::pubkey::Pubkey;

fn address(n: u8) -> solana_pubkey::Pubkey {
    solana_pubkey::Pubkey::new_from_array([n; 32])
}

fn transfer(lamports: u64) -> ProgramInstruction {
    let ix = solana_system_interface::instruction::transfer(&address(1), &address(2), lamports);
    ProgramInstruction { program_id: Pubkey::new(ix.program_id.to_bytes()), data: ix.data }
}

#[test]
fn test_zero_lamports_transfer() {
    assert!(is_noop_system_transfer(&vec![transfer(0)]));
}

#[test]
fn test_nonzero_lamports_transfer() {
    assert!(!is_noop_system_transfer(&vec![transfer(1000)]));
}

#[test]
fn test_multiple_instructions() {
    let ix = solana_system_interface::instruction::allocate(&address(1), 1024);
    let allocate =
        ProgramInstruction { program_id: Pubkey::new(ix.program_id.to_bytes()), data: ix.data };
    assert!(!is_noop_system_transfer(&vec![transfer(0), allocate]));
}

#[test]
fn test_no_instructions() {
    assert!(!is_noop_system_transfer(&vec![]));
}

#[test]
fn test_non_system_instruction() {
    let instruction = ProgramInstruction { program_id: Pubkey::new([9; 32]), data: vec![] };
    assert!(!is_noop_system_transfer(&vec![instruction]));
}

fn system(data: Vec<u8>) -> Vec<ProgramInstruction> {
    vec![ProgramInstruction { program_id: Pubkey::new(SYSTEM_PROGRAM_ID), data }]
}

#[test]
fn transfers_are_told_by_their_bytes() {
    let zero = vec![2, 0, 0, 0, 0, 0, 0, 0, 0, 0, 0, 0];
    assert!(is_noop_system_transfer(&system(zero.clone())));
    let mut longer = zero.clone();
    longer.push(7);
    assert!(is_noop_system_transfer(&system(longer)));
    assert!(!is_noop_system_transfer(&system(zero[..11].to_vec())));
    for at in 0..12 {
        let mut other = zero.clone();
        other[at] += 1;
        assert!(!is_noop_system_transfer(&system(other)));
    }
}

#[test]
fn transfers_through_another_program_do_not_count() {
    let mut instruction = transfer(0);
    instruction.program_id = Pubkey::new([9; 32]);
    assert!(!is_noop_system_transfer(&vec![instruction]));
}
