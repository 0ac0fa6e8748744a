//! What a delegation record says about an account.
use vstd::prelude::*;
use vstd::slice::slice_subrange;
use crate::account::{Account, AccountMode, RemoteAccount, ResolvedAccount};
use crate::chainlink::errors::ChainlinkError;
use crate::chainlink::fetch_cloner::ownership::is_actions_error;
use crate::cloner::{AccountMeta, Instruction};
use crate::delegation_record::{
    delegated_to_validator_or_confined, is_delegated_to_validator_or_confined, is_record,
    read_record, record_reads, DelegationRecord, RecordError, DELEGATION_RECORD_SIZE,
};
use crate::pubkey::{
    address_at, lemma_pubkey_bytes_determine, read_address, zero_pubkey, Pubkey,
};
use crate::text::concat2;

verus! {

/// An instruction as plain values: its program, the accounts it names with whether they sign
/// and are written to, and its data.
pub open spec fn instruction_view(instruction: Instruction) -> (
    Seq<u8>,
    Seq<(Seq<u8>, bool, bool)>,
    Seq<u8>,
) {
    (
        instruction.program_id@,
        instruction.accounts@.map_values(
            |meta: AccountMeta| (meta.pubkey@, meta.is_signer, meta.is_writable),
        ),
        instruction.data@,
    )
}

/// Instructions as plain values.
pub open spec fn instruction_views(instructions: Seq<Instruction>) -> Seq<
    (Seq<u8>, Seq<(Seq<u8>, bool, bool)>, Seq<u8>),
> {
    instructions.map_values(|instruction: Instruction| instruction_view(instruction))
}

/// The instructions that `dlp_api::args::PostDelegationActions` with these bytes hold for the
/// owner of this secret key.
pub uninterp spec fn decrypted_actions(data: Seq<u8>, secret: Seq<u8>) -> Seq<
    (Seq<u8>, Seq<(Seq<u8>, bool, bool)>, Seq<u8>),
>;

/// The text of the error that `borsh::from_slice` gives for these bytes as
/// `dlp_api::args::PostDelegationActions`, if they are none.
pub uninterp spec fn actions_read_error(data: Seq<u8>) -> Option<Seq<char>>;

/// Why the instructions after a delegation record could not be had, in the words of the crate
/// that reports it.
#[derive(Debug)]
pub enum ActionsFailure {
    /// The bytes are no actions.
    Unreadable(String),
    /// The actions do not fit together, or are not for the owner of the secret key.
    Undecrypted(String),
}

impl ActionsFailure {
    /// What the failure says.
    pub open spec fn text(&self) -> Seq<char> {
        match self {
            ActionsFailure::Unreadable(error) => {
                "Failed to deserialize PostDelegationActions: "@ + error@
            },
            ActionsFailure::Undecrypted(error) => {
                "Failed to parse/decrypt PostDelegationActions: "@ + error@
            },
        }
    }

    /// What the failure says.
    pub fn message(&self) -> (r: String)
        ensures
            r@ == self.text(),
    {
        match self {
            ActionsFailure::Unreadable(error) => concat2(
                "Failed to deserialize PostDelegationActions: ",
                error.as_str(),
            ),
            ActionsFailure::Undecrypted(error) => concat2(
                "Failed to parse/decrypt PostDelegationActions: ",
                error.as_str(),
            ),
        }
    }
}

/// `borsh::from_slice` of `dlp_api::args::PostDelegationActions`, then
/// `dlp_api::decrypt::Decrypt::decrypt_with_keypair`: the instructions that the bytes hold for
/// the owner of the secret key. Whether the bytes are actions, and what is wrong with them if
/// not, depends on the bytes alone. Whether actions can be decrypted also depends on whether the
/// library that decrypts can be initialised, so nothing more is said about that failure.
#[verifier::external_body]
fn decrypt_actions(data: &[u8], secret: &[u8; 32]) -> (r: Result<Vec<Instruction>, ActionsFailure>)
    ensures
        match r {
            Ok(list) => actions_read_error(data@) is None && instruction_views(list@)
                == decrypted_actions(data@, secret@),
            Err(ActionsFailure::Unreadable(error)) => actions_read_error(data@) == Some(error@),
            Err(ActionsFailure::Undecrypted(_)) => actions_read_error(data@) is None,
        },
{
    let actions: dlp_api::args::PostDelegationActions = borsh::from_slice(data).map_err(
        |err| ActionsFailure::Unreadable(err.to_string()))?;
    let keypair = solana_keypair::Keypair::new_from_array(*secret);
    let list = dlp_api::Decrypt::decrypt_with_keypair(actions, &keypair).map_err(
        |err| ActionsFailure::Undecrypted(err.to_string()))?;
    let meta = |m: solana_instruction::AccountMeta| AccountMeta {
        pubkey: Pubkey { bytes: m.pubkey.to_bytes() },
        is_signer: m.is_signer,
        is_writable: m.is_writable,
    };
    Ok(list.into_iter().map(|ix| Instruction {
        program_id: Pubkey { bytes: ix.program_id.to_bytes() },
        accounts: ix.accounts.into_iter().map(meta).collect(), data: ix.data }).collect())
}

/// A record with what decrypting its actions gave.
pub fn record_with_actions(
    record: DelegationRecord,
    delegation_record_pubkey: Pubkey,
    decrypted: Result<Vec<Instruction>, ActionsFailure>,
) -> (r: Result<(DelegationRecord, Option<Vec<Instruction>>), ChainlinkError>)
    ensures
        match decrypted {
            Ok(instructions) => r == Ok::<_, ChainlinkError>((record, Some(instructions))),
            Err(failure) => r matches Err(error) && is_actions_error(
                error,
                delegation_record_pubkey,
                failure.text(),
            ),
        },
{
    match decrypted {
        Ok(instructions) => Ok((record, Some(instructions))),
        Err(failure) => Err(
            ChainlinkError::InvalidDelegationActions(delegation_record_pubkey, failure.message()),
        ),
    }
}

/// Whether the bytes after a record are actions for this validator: those for another one are
/// of no use here and may be encrypted for somebody else.
pub open spec fn has_actions_for(data: Seq<u8>, validator: Seq<u8>) -> bool {
    data.len() > DELEGATION_RECORD_SIZE && address_at(data, 8) == validator
}

/// What is wrong with the actions for this validator after a record, if they cannot be read.
pub open spec fn actions_error(data: Seq<u8>, validator: Seq<u8>) -> Option<Seq<char>> {
    if has_actions_for(data, validator) {
        actions_read_error(data.skip(DELEGATION_RECORD_SIZE as int))
    } else {
        None
    }
}

/// Whether `parsed` is what reading `data` as a delegation record with actions may give. Bytes
/// that are no record give an error that says why, and so do actions that cannot be read; a
/// record without actions for this validator is always read. Whether actions that can be read
/// can be decrypted is left open.
pub open spec fn record_parse(
    data: Seq<u8>,
    record_pubkey: Pubkey,
    validator: Pubkey,
    secret: Seq<u8>,
    parsed: Result<(DelegationRecord, Option<Vec<Instruction>>), ChainlinkError>,
) -> bool {
    match parsed {
        Ok((record, actions)) => {
            &&& is_record(data)
            &&& record_reads(data, record)
            &&& actions_error(data, validator@) is None
            &&& actions is Some <==> has_actions_for(data, validator@)
            &&& actions matches Some(instructions) ==> instruction_views(instructions@)
                == decrypted_actions(data.skip(DELEGATION_RECORD_SIZE as int), secret)
        },
        Err(error) => if data.len() < DELEGATION_RECORD_SIZE {
            error == ChainlinkError::InvalidDelegationRecord(record_pubkey, RecordError::TooShort)
        } else if !is_record(data) {
            error == ChainlinkError::InvalidDelegationRecord(
                record_pubkey,
                RecordError::WrongDiscriminator,
            )
        } else {
            &&& has_actions_for(data, validator@)
            &&& exists|failure: ActionsFailure|
                {
                    &&& #[trigger] is_actions_error(error, record_pubkey, failure.text())
                    &&& match failure {
                        ActionsFailure::Unreadable(text) => actions_error(data, validator@)
                            == Some(text@),
                        ActionsFailure::Undecrypted(_) => actions_error(data, validator@) is None,
                    }
                }
        },
    }
}

/// Reads a delegation record and the actions that follow it. `secret` is the secret key of the
/// validator.
pub fn parse_delegation_record(
    data: &[u8],
    delegation_record_pubkey: Pubkey,
    validator_pubkey: &Pubkey,
    secret: &[u8; 32],
) -> (r: Result<(DelegationRecord, Option<Vec<Instruction>>), ChainlinkError>)
    ensures
        record_parse(data@, delegation_record_pubkey, *validator_pubkey, secret@, r),
{
    let record = match read_record(data) {
        Ok(record) => record,
        Err(error) => {
            return Err(ChainlinkError::InvalidDelegationRecord(delegation_record_pubkey, error));
        },
    };
    if data.len() <= DELEGATION_RECORD_SIZE {
        return Ok((record, None));
    }
    if record.authority != *validator_pubkey {
        proof {
            if record.authority@ == validator_pubkey@ {
                lemma_pubkey_bytes_determine(record.authority, *validator_pubkey);
            }
        }
        return Ok((record, None));
    }
    let rest = slice_subrange(data, DELEGATION_RECORD_SIZE, data.len());
    assert(rest@ =~= data@.skip(DELEGATION_RECORD_SIZE as int));
    let decrypted = decrypt_actions(rest, secret);
    let r = record_with_actions(record, delegation_record_pubkey, decrypted);
    assert(decrypted matches Err(failure) ==> is_actions_error(
        r->Err_0,
        delegation_record_pubkey,
        failure.text(),
    ));
    r
}

/// The account with what its delegation record says of it. An account that holds a wallet's
/// tokens for the rollup is not itself run by the rollup.
pub open spec fn account_with_record(
    account: Account,
    record: DelegationRecord,
    validator: Pubkey,
    is_raw_eata: bool,
) -> Account {
    (Account {
        owner: record.owner,
        confined: record.authority@ == zero_pubkey(),
        ..account
    }).with_delegated(
        delegated_to_validator_or_confined(record.authority, validator) && !is_raw_eata,
    )
}

/// How often an account with this record is to be committed: as the record says if the rollup
/// runs it.
pub open spec fn record_commit_frequency(
    record: DelegationRecord,
    validator: Pubkey,
    is_raw_eata: bool,
) -> Option<u64> {
    if delegated_to_validator_or_confined(record.authority, validator) && !is_raw_eata {
        Some(record.commit_frequency_ms)
    } else {
        None
    }
}

/// Gives an account the owner, the confinement and the delegation that its record says, and
/// tells how often it is to be committed.
pub fn apply_delegation_record_to_account(
    validator_pubkey: &Pubkey,
    is_raw_eata: bool,
    account: &mut Account,
    delegation_record: &DelegationRecord,
) -> (r: Option<u64>)
    ensures
        *final(account) == account_with_record(
            *old(account),
            *delegation_record,
            *validator_pubkey,
            is_raw_eata,
        ),
        final(account).lamports == old(account).lamports,
        final(account).data == old(account).data,
        final(account).executable == old(account).executable,
        final(account).slot == old(account).slot,
        final(account).compressed == old(account).compressed,
        r == record_commit_frequency(*delegation_record, *validator_pubkey, is_raw_eata),
{
    let is_confined = delegation_record.authority.is_zero();
    let is_delegated_to_us = is_delegated_to_validator_or_confined(
        &delegation_record.authority,
        validator_pubkey,
    );
    account.owner = delegation_record.owner;
    account.confined = is_confined;
    account.set_delegated(is_delegated_to_us && !is_raw_eata);
    if is_delegated_to_us && !is_raw_eata {
        Some(delegation_record.commit_frequency_ms)
    } else {
        None
    }
}

/// The fewest bytes of an account that holds a wallet's tokens for the rollup.
pub const RAW_EATA_SIZE: usize = 72;

/// The wallet and the mint that the bytes of a token-holding account name, if they are such.
pub fn raw_eata_parties(data: &[u8]) -> (r: Option<(Pubkey, Pubkey)>)
    ensures
        r is Some <==> data@.len() >= RAW_EATA_SIZE,
        r matches Some((wallet_owner, mint)) ==> wallet_owner@ == address_at(data@, 0) && mint@
            == address_at(data@, 32),
{
    if data.len() < RAW_EATA_SIZE {
        None
    } else {
        Some((read_address(data, 0), read_address(data, 32)))
    }
}

/// Whether an account is one that holds a wallet's tokens for the rollup: its program keeps
/// such accounts, and its address is the one derived of the parties that it names.
pub open spec fn is_raw_eata_account(
    account_pubkey: Pubkey,
    data: Seq<u8>,
    owner_program: Pubkey,
    eata_program: Pubkey,
    derived_eata: Option<Pubkey>,
) -> bool {
    owner_program == eata_program && data.len() >= RAW_EATA_SIZE && derived_eata == Some(
        account_pubkey,
    )
}

/// The wallet and the mint of a token-holding account. `derived_eata` is the address derived
/// of what `raw_eata_parties` reads from its data.
pub fn parse_raw_eata_pda(
    account_pubkey: &Pubkey,
    data: &[u8],
    owner_program: &Pubkey,
    eata_program: &Pubkey,
    derived_eata: Option<Pubkey>,
) -> (r: Option<(Pubkey, Pubkey)>)
    ensures
        r is Some <==> is_raw_eata_account(
            *account_pubkey,
            data@,
            *owner_program,
            *eata_program,
            derived_eata,
        ),
        r matches Some((wallet_owner, mint)) ==> wallet_owner@ == address_at(data@, 0) && mint@
            == address_at(data@, 32),
{
    if *owner_program != *eata_program {
        return None;
    }
    match derived_eata {
        Some(derived) => if derived == *account_pubkey {
            raw_eata_parties(data)
        } else {
            None
        },
        None => None,
    }
}

/// The other validator that a record names, if it names one.
pub open spec fn delegated_to_other(record: DelegationRecord, validator: Pubkey) -> Option<
    Pubkey,
> {
    if delegated_to_validator_or_confined(record.authority, validator) {
        None
    } else {
        Some(record.authority)
    }
}

/// Tells which other validator an account is delegated to; nobody if it is delegated to this
/// one or confined.
pub fn get_delegated_to_other(
    validator_pubkey: &Pubkey,
    delegation_record: &DelegationRecord,
) -> (r: Option<Pubkey>)
    ensures
        r == delegated_to_other(*delegation_record, *validator_pubkey),
{
    if is_delegated_to_validator_or_confined(&delegation_record.authority, validator_pubkey) {
        None
    } else {
        Some(delegation_record.authority)
    }
}

/// An account is never both delegated to another validator and run, and so committed, here.
/// One that is neither holds a wallet's tokens for the rollup.
pub proof fn law_one_validator_runs_an_account(
    account: Account,
    record: DelegationRecord,
    validator: Pubkey,
    is_raw_eata: bool,
)
    ensures
        record_commit_frequency(record, validator, is_raw_eata) is Some ==> delegated_to_other(
            record,
            validator,
        ) is None,
        record_commit_frequency(record, validator, is_raw_eata) is Some <==> account_with_record(
            account,
            record,
            validator,
            is_raw_eata,
        ).mode == AccountMode::Delegated,
        delegated_to_other(record, validator) is None ==> is_raw_eata || record_commit_frequency(
            record,
            validator,
            is_raw_eata,
        ) is Some,
        account_with_record(account, record, validator, is_raw_eata).confined
            ==> delegated_to_other(record, validator) is None,
{
}

/// Whether a subscription that was only made to fetch a delegation record is dropped again: if
/// it was not there before, and the record was not cloned in the meantime.
pub fn drops_record_subscription(was_watching: bool, in_bank: bool) -> (r: bool)
    ensures
        r == (!was_watching && !in_bank),
{
    !was_watching && !in_bank
}

/// What a fetch of a delegation record found: nothing if there is no such account on chain or
/// what it holds cannot be read.
pub fn read_fetched_record(
    fetched: &Option<RemoteAccount>,
    delegation_record_pubkey: Pubkey,
    validator_pubkey: &Pubkey,
    secret: &[u8; 32],
) -> (r: Option<(DelegationRecord, Option<Vec<Instruction>>)>)
    ensures
        match *fetched {
            Some(RemoteAccount::Found(ResolvedAccount::Fresh(account))) => match r {
                Some(parsed) => record_parse(
                    account.data@,
                    delegation_record_pubkey,
                    *validator_pubkey,
                    secret@,
                    Ok(parsed),
                ),
                None => exists|error: ChainlinkError| #[trigger]
                    record_parse(
                        account.data@,
                        delegation_record_pubkey,
                        *validator_pubkey,
                        secret@,
                        Err(error),
                    ),
            },
            _ => r is None,
        },
{
    match fetched {
        Some(RemoteAccount::Found(ResolvedAccount::Fresh(account))) => {
            match parse_delegation_record(
                account.data.as_slice(),
                delegation_record_pubkey,
                validator_pubkey,
                secret,
            ) {
                Ok(parsed) => Some(parsed),
                Err(_) => None,
            }
        },
        _ => None,
    }
}

} // verus!
