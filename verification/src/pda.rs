//! Addresses that programs derive from other addresses.
use vstd::prelude::*;
use crate::pubkey::Pubkey;

verus! {

/// What `dlp_api::pda::delegation_record_pda_from_delegated_account` derives.
pub uninterp spec fn delegation_record_address(account: Seq<u8>) -> Seq<u8>;

/// What `dlp_api::pda::undelegation_request_pda_from_delegated_account` derives.
pub uninterp spec fn undelegation_request_address(account: Seq<u8>) -> Seq<u8>;

/// What `dlp_api::pda::magic_fee_vault_pda_from_validator` derives.
pub uninterp spec fn magic_fee_vault_address(validator: Seq<u8>) -> Seq<u8>;

/// What `solana_loader_v3_interface::get_program_data_address` derives.
pub uninterp spec fn program_data_address(program: Seq<u8>) -> Seq<u8>;

/// `dlp_api::pda::delegation_record_pda_from_delegated_account`: where the delegation record
/// of `account` is kept. The address is a hash of the account's, so only its name is given.
#[verifier::external_body]
pub(crate) fn delegation_record_pda(account: &Pubkey) -> (r: Pubkey)
    ensures
        r@ == delegation_record_address(account@),
{
    let account = solana_pubkey::Pubkey::new_from_array(account.bytes);
    Pubkey { bytes: dlp_api::pda::delegation_record_pda_from_delegated_account(&account).to_bytes() }
}

/// `dlp_api::pda::undelegation_request_pda_from_delegated_account`: where a request to
/// undelegate `account` is kept.
#[verifier::external_body]
pub(crate) fn undelegation_request_pda(account: &Pubkey) -> (r: Pubkey)
    ensures
        r@ == undelegation_request_address(account@),
{
    let account = solana_pubkey::Pubkey::new_from_array(account.bytes);
    Pubkey {
        bytes: dlp_api::pda::undelegation_request_pda_from_delegated_account(&account).to_bytes(),
    }
}

/// `dlp_api::pda::magic_fee_vault_pda_from_validator`: the fee vault of `validator`.
#[verifier::external_body]
pub(crate) fn magic_fee_vault_pda(validator: &Pubkey) -> (r: Pubkey)
    ensures
        r@ == magic_fee_vault_address(validator@),
{
    let validator = solana_pubkey::Pubkey::new_from_array(validator.bytes);
    Pubkey { bytes: dlp_api::pda::magic_fee_vault_pda_from_validator(&validator).to_bytes() }
}

/// `solana_loader_v3_interface::get_program_data_address`: where the upgradeable loader
/// keeps the code of `program`.
#[verifier::external_body]
pub(crate) fn program_data_pda(program: &Pubkey) -> (r: Pubkey)
    ensures
        r@ == program_data_address(program@),
{
    let program = solana_pubkey::Pubkey::new_from_array(program.bytes);
    Pubkey { bytes: solana_loader_v3_interface::get_program_data_address(&program).to_bytes() }
}

} // verus!
