//! Delegation records and undelegation requests as the delegation program stores them.
use vstd::prelude::*;
use crate::bytes::{has_discriminator, le_value, read_u64, starts_with_discriminator};
use crate::program_ids::DLP_PROGRAM_ID;
use crate::pubkey::{address_at, read_address, zero_pubkey, Pubkey};

verus! {

/// The bytes of a delegation record, its discriminator included.
pub const DELEGATION_RECORD_SIZE: usize = 96;

/// The discriminator of a delegation record.
pub const DELEGATION_RECORD_DISCRIMINATOR: u8 = 100;

/// The bytes of an undelegation request, its discriminator included.
pub const UNDELEGATION_REQUEST_SIZE: usize = 48;

/// The discriminator of an undelegation request.
pub const UNDELEGATION_REQUEST_DISCRIMINATOR: u8 = 104;

/// Who may run a delegated account, and what it was before its delegation.
#[derive(Clone, Copy, Debug, PartialEq, Eq)]
pub struct DelegationRecord {
    /// The validator that the account is delegated to; all zero if it is confined.
    pub authority: Pubkey,
    /// The program that owned the account when it was delegated.
    pub owner: Pubkey,
    /// The slot at which the delegation was made.
    pub delegation_slot: u64,
    /// The lamports at the delegation or at the last finalized state.
    pub lamports: u64,
    /// How often the state is to be committed.
    pub commit_frequency_ms: u64,
}

/// Why bytes are not a delegation record.
#[derive(Clone, Copy, Debug, PartialEq, Eq, Structural)]
pub enum RecordError {
    /// There are too few of them.
    TooShort,
    /// They start with something else than the record's discriminator.
    WrongDiscriminator,
}

/// Whether `data` begins with a whole delegation record.
pub open spec fn is_record(data: Seq<u8>) -> bool {
    data.len() >= DELEGATION_RECORD_SIZE && starts_with_discriminator(
        data,
        DELEGATION_RECORD_DISCRIMINATOR,
    )
}

/// Whether `record` is what the bytes of a delegation record say.
pub open spec fn record_reads(data: Seq<u8>, record: DelegationRecord) -> bool {
    &&& record.authority@ == address_at(data, 8)
    &&& record.owner@ == address_at(data, 40)
    &&& record.delegation_slot == le_value(data, 72)
    &&& record.lamports == le_value(data, 80)
    &&& record.commit_frequency_ms == le_value(data, 88)
}

/// Reads the record at the start of `data`; what follows it does not matter.
pub fn read_record(data: &[u8]) -> (r: Result<DelegationRecord, RecordError>)
    ensures
        r is Ok <==> is_record(data@),
        r matches Ok(record) ==> record_reads(data@, record),
        r == Err::<DelegationRecord, RecordError>(RecordError::TooShort) <==> data@.len()
            < DELEGATION_RECORD_SIZE,
{
    if data.len() < DELEGATION_RECORD_SIZE {
        return Err(RecordError::TooShort);
    }
    if !has_discriminator(data, DELEGATION_RECORD_DISCRIMINATOR) {
        return Err(RecordError::WrongDiscriminator);
    }
    Ok(
        DelegationRecord {
            authority: read_address(data, 8),
            owner: read_address(data, 40),
            delegation_slot: read_u64(data, 72),
            lamports: read_u64(data, 80),
            commit_frequency_ms: read_u64(data, 88),
        },
    )
}

/// Whether a record with this authority lets `validator` run the account: it names the
/// validator, or nobody, which confines the account.
pub open spec fn delegated_to_validator_or_confined(authority: Pubkey, validator: Pubkey) -> bool {
    authority == validator || authority@ == zero_pubkey()
}

/// Tests whether a record with this authority lets the validator run the account.
pub fn is_delegated_to_validator_or_confined(
    authority: &Pubkey,
    validator_pubkey: &Pubkey,
) -> (r: bool)
    ensures
        r == delegated_to_validator_or_confined(*authority, *validator_pubkey),
{
    *authority == *validator_pubkey || authority.is_zero()
}

/// The record at the start of `data`, if there is a whole one.
pub fn parse_delegation_record_header(data: &[u8]) -> (r: Option<DelegationRecord>)
    ensures
        r is Some <==> is_record(data@),
        r matches Some(record) ==> record_reads(data@, record),
{
    match read_record(data) {
        Ok(record) => Some(record),
        Err(_) => None,
    }
}

/// Why no delegation record could be had.
#[derive(Clone, Copy, Debug, PartialEq, Eq, Structural)]
pub enum FetchError {
    /// The chain could not be asked.
    Transport,
    /// What the chain holds is no delegation record.
    Deserialize,
}

/// What a fetch of a record account found: nothing if there is no such account or too little
/// in it, and an error if what is there is no record.
pub fn fetched_record_header(account_data: Option<&Vec<u8>>) -> (r: Result<
    Option<DelegationRecord>,
    FetchError,
>)
    ensures
        account_data is None ==> r == Ok::<_, FetchError>(None::<DelegationRecord>),
        account_data matches Some(data) ==> match r {
            Ok(None) => data@.len() < DELEGATION_RECORD_SIZE,
            Ok(Some(record)) => is_record(data@) && record_reads(data@, record),
            Err(error) => error == FetchError::Deserialize && data@.len()
                >= DELEGATION_RECORD_SIZE && !is_record(data@),
        },
{
    match account_data {
        None => Ok(None),
        Some(data) => match read_record(data.as_slice()) {
            Ok(record) => Ok(Some(record)),
            Err(RecordError::TooShort) => Ok(None),
            Err(RecordError::WrongDiscriminator) => Err(FetchError::Deserialize),
        },
    }
}

/// What to do with an update that arrived for an account of the delegation program.
#[derive(Clone, Copy, Debug, PartialEq, Eq, Structural)]
pub enum DlpProgramUpdate {
    /// Leave it out.
    Drop,
    /// Fetch the account's delegation record first.
    FetchRecord,
}

/// The first look at a program update: only an account of the delegation program that is
/// none of its internal ones is worth a look at its delegation record.
pub fn dlp_program_update_step(owner: &Pubkey, is_internal: bool) -> (r: DlpProgramUpdate)
    ensures
        r == if owner.bytes == DLP_PROGRAM_ID && !is_internal {
            DlpProgramUpdate::FetchRecord
        } else {
            DlpProgramUpdate::Drop
        },
{
    if !owner.is(&DLP_PROGRAM_ID) || is_internal {
        DlpProgramUpdate::Drop
    } else {
        DlpProgramUpdate::FetchRecord
    }
}

/// Whether a program update goes on once its delegation record was asked for. It goes on
/// without a record, because the update may have been faster than the record; it stops at a
/// malformed record and at one that names another validator.
pub fn should_forward_dlp_program_update(
    validator_pubkey: &Pubkey,
    fetched: &Result<Option<DelegationRecord>, FetchError>,
) -> (r: bool)
    ensures
        r == match *fetched {
            Ok(Some(record)) => delegated_to_validator_or_confined(
                record.authority,
                *validator_pubkey,
            ),
            Ok(None) => true,
            Err(error) => error == FetchError::Transport,
        },
{
    match fetched {
        Ok(Some(record)) => is_delegated_to_validator_or_confined(
            &record.authority,
            validator_pubkey,
        ),
        Ok(None) => true,
        Err(FetchError::Transport) => true,
        Err(FetchError::Deserialize) => false,
    }
}

/// A request, as the delegation program stores it, to give an account back.
#[derive(Clone, Copy, Debug, PartialEq, Eq)]
pub struct UndelegationRequest {
    pub delegated_account: Pubkey,
    /// The first slot at which the request may be enforced.
    pub expires_at_slot: u64,
}

/// Whether `data` begins with a whole undelegation request.
pub open spec fn is_undelegation_request(data: Seq<u8>) -> bool {
    data.len() >= UNDELEGATION_REQUEST_SIZE && starts_with_discriminator(
        data,
        UNDELEGATION_REQUEST_DISCRIMINATOR,
    )
}

/// Whether `request` is what the bytes of an undelegation request say.
pub open spec fn undelegation_request_reads(data: Seq<u8>, request: UndelegationRequest) -> bool {
    &&& request.delegated_account@ == address_at(data, 8)
    &&& request.expires_at_slot == le_value(data, 40)
}

/// Reads the undelegation request at the start of `data`, if there is one.
pub fn read_undelegation_request(data: &[u8]) -> (r: Option<UndelegationRequest>)
    ensures
        r is Some <==> is_undelegation_request(data@),
        r matches Some(request) ==> undelegation_request_reads(data@, request),
{
    if data.len() < UNDELEGATION_REQUEST_SIZE || !has_discriminator(
        data,
        UNDELEGATION_REQUEST_DISCRIMINATOR,
    ) {
        return None;
    }
    Some(
        UndelegationRequest {
            delegated_account: read_address(data, 8),
            expires_at_slot: read_u64(data, 40),
        },
    )
}

} // verus!
