//! What can go wrong while accounts are fetched and cloned.
use vstd::prelude::*;
use crate::cloner::errors::ClonerError;
use crate::delegation_record::RecordError;
use crate::pubkey::Pubkey;
use crate::text::{
    address_text, address_texts, address_to_text, addresses_to_texts, concat2, concat3, concat4,
    concat5, decimal, decimal_text, join_messages, joined, text_views,
};

verus! {

/// Why accounts could not be fetched or cloned.
#[derive(Debug)]
pub enum ChainlinkError {
    RemoteAccountProviderError(String),
    JoinError(String),
    ClonerError(ClonerError),
    InvalidDelegationRecord(Pubkey, RecordError),
    InvalidDelegationActions(Pubkey, String),
    InvalidTokenAccount(Pubkey, String),
    DelegatedAccountResolutionsFailed(String),
    ResolvedAccountCouldNoLongerBeFound(Pubkey),
    ResolvedCompanionAccountCouldNoLongerBeFound(Pubkey),
    /// With how the provider's error is shown to developers.
    FailedToSubscribeToAccount(Pubkey, String),
    FailedToResolveProgramDataAccount(Pubkey, Pubkey),
    ProgramAccountResolutionsFailed(String),
    UnexpectedAccountCount(String),
    MissingDelegationActionAccounts(Vec<Pubkey>),
    PendingRequestTimeout(Pubkey),
    PendingRequestCancelled(Pubkey),
    PendingRequestOwnerDisappeared(Pubkey, String),
    PendingRequestOwnerDropped(Pubkey),
    MissingPendingRequestOwner(Pubkey),
    PendingRequestOwnerFailed(Pubkey, String),
    AccountLoadFailed(Pubkey),
    EnsureAccountsTimeout(u64),
    RangeRisk(String),
    FailedToScheduleUndelegationAfterAmlRejection(Pubkey, String),
    DisabledForNonPrimaryMode,
}

/// The name of a decoding error.
pub open spec fn record_error_text(error: RecordError) -> Seq<char> {
    match error {
        RecordError::TooShort => "InvalidAccountData"@,
        RecordError::WrongDiscriminator => "Custom(39)"@,
    }
}

fn record_error_name(error: RecordError) -> (r: &'static str)
    ensures
        r@ == record_error_text(error),
{
    match error {
        RecordError::TooShort => "InvalidAccountData",
        RecordError::WrongDiscriminator => "Custom(39)",
    }
}

impl ChainlinkError {
    /// What the error says.
    pub open spec fn text(&self) -> Seq<char> {
        match self {
            ChainlinkError::RemoteAccountProviderError(message) => {
                "Remote account provider error: "@ + message@
            },
            ChainlinkError::JoinError(message) => "JoinError: "@ + message@,
            ChainlinkError::ClonerError(error) => "Cloner error: "@ + error.text(),
            ChainlinkError::InvalidDelegationRecord(pubkey, error) => {
                "Delegation record could not be decoded: "@ + address_text(pubkey@) + " ("@
                    + record_error_text(*error) + ")"@
            },
            ChainlinkError::InvalidDelegationActions(pubkey, message) => {
                "Delegation actions could not be decoded: "@ + address_text(pubkey@) + " ("@
                    + message@ + ")"@
            },
            ChainlinkError::InvalidTokenAccount(pubkey, message) => {
                "Invalid token account "@ + address_text(pubkey@) + ": "@ + message@
            },
            ChainlinkError::DelegatedAccountResolutionsFailed(message) => {
                "Failed to resolve one or more accounts "@ + message@
                    + " when getting delegation records"@
            },
            ChainlinkError::ResolvedAccountCouldNoLongerBeFound(pubkey) => {
                "Failed to find account that was just resolved "@ + address_text(pubkey@)
            },
            ChainlinkError::ResolvedCompanionAccountCouldNoLongerBeFound(pubkey) => {
                "Failed to find companion account that was just resolved "@
                    + address_text(pubkey@)
            },
            ChainlinkError::FailedToSubscribeToAccount(pubkey, message) => {
                "Failed to subscribe to account "@ + address_text(pubkey@) + ": "@ + message@
            },
            ChainlinkError::FailedToResolveProgramDataAccount(data, program) => {
                "Failed to resolve program data account "@ + address_text(data@)
                    + " for program "@ + address_text(program@)
            },
            ChainlinkError::ProgramAccountResolutionsFailed(message) => {
                "Failed to resolve/deserialize one or more accounts "@ + message@
                    + " when getting programs"@
            },
            ChainlinkError::UnexpectedAccountCount(message) => {
                "Unexpected number of accounts returned when fetching account with companion: "@
                    + message@
            },
            ChainlinkError::MissingDelegationActionAccounts(pubkeys) => {
                "Missing accounts required by delegation actions: ["@
                    + joined(address_texts(pubkeys@), ", "@) + "]"@
            },
            ChainlinkError::PendingRequestTimeout(pubkey) => {
                "timeout waiting for pending request for "@ + address_text(pubkey@)
            },
            ChainlinkError::PendingRequestCancelled(pubkey) => {
                "pending request cancelled for "@ + address_text(pubkey@)
            },
            ChainlinkError::PendingRequestOwnerDisappeared(pubkey, message) => {
                "pending request owner disappeared for "@ + address_text(pubkey@) + ": "@
                    + message@
            },
            ChainlinkError::PendingRequestOwnerDropped(pubkey) => {
                "pending request owner dropped for "@ + address_text(pubkey@)
            },
            ChainlinkError::MissingPendingRequestOwner(pubkey) => {
                "missing pending request owner for "@ + address_text(pubkey@)
            },
            ChainlinkError::PendingRequestOwnerFailed(pubkey, message) => {
                "pending request owner failed for "@ + address_text(pubkey@) + ": "@ + message@
            },
            ChainlinkError::AccountLoadFailed(pubkey) => {
                "Failed to load account "@ + address_text(pubkey@)
            },
            ChainlinkError::EnsureAccountsTimeout(secs) => {
                "Timed out ensuring accounts after "@ + decimal_text(*secs as nat) + " seconds"@
            },
            ChainlinkError::RangeRisk(message) => {
                "Failed to perform Range risk check: "@ + message@
            },
            ChainlinkError::FailedToScheduleUndelegationAfterAmlRejection(pubkey, message) => {
                "Failed to schedule undelegation for "@ + address_text(pubkey@)
                    + " after AML rejection: "@ + message@
            },
            ChainlinkError::DisabledForNonPrimaryMode => {
                "Chainlink is disabled for non-primary mode"@
            },
        }
    }

    /// What the error says.
    pub fn message(&self) -> (r: String)
        ensures
            r@ == self.text(),
    {
        match self {
            ChainlinkError::RemoteAccountProviderError(message) => concat2(
                "Remote account provider error: ",
                message.as_str(),
            ),
            ChainlinkError::JoinError(message) => concat2("JoinError: ", message.as_str()),
            ChainlinkError::ClonerError(error) => concat2(
                "Cloner error: ",
                error.message().as_str(),
            ),
            ChainlinkError::InvalidDelegationRecord(pubkey, error) => concat5(
                "Delegation record could not be decoded: ",
                address_to_text(pubkey).as_str(),
                " (",
                record_error_name(*error),
                ")",
            ),
            ChainlinkError::InvalidDelegationActions(pubkey, message) => concat5(
                "Delegation actions could not be decoded: ",
                address_to_text(pubkey).as_str(),
                " (",
                message.as_str(),
                ")",
            ),
            ChainlinkError::InvalidTokenAccount(pubkey, message) => concat4(
                "Invalid token account ",
                address_to_text(pubkey).as_str(),
                ": ",
                message.as_str(),
            ),
            ChainlinkError::DelegatedAccountResolutionsFailed(message) => concat3(
                "Failed to resolve one or more accounts ",
                message.as_str(),
                " when getting delegation records",
            ),
            ChainlinkError::ResolvedAccountCouldNoLongerBeFound(pubkey) => concat2(
                "Failed to find account that was just resolved ",
                address_to_text(pubkey).as_str(),
            ),
            ChainlinkError::ResolvedCompanionAccountCouldNoLongerBeFound(pubkey) => concat2(
                "Failed to find companion account that was just resolved ",
                address_to_text(pubkey).as_str(),
            ),
            ChainlinkError::FailedToSubscribeToAccount(pubkey, message) => concat4(
                "Failed to subscribe to account ",
                address_to_text(pubkey).as_str(),
                ": ",
                message.as_str(),
            ),
            ChainlinkError::FailedToResolveProgramDataAccount(data, program) => concat4(
                "Failed to resolve program data account ",
                address_to_text(data).as_str(),
                " for program ",
                address_to_text(program).as_str(),
            ),
            ChainlinkError::ProgramAccountResolutionsFailed(message) => concat3(
                "Failed to resolve/deserialize one or more accounts ",
                message.as_str(),
                " when getting programs",
            ),
            ChainlinkError::UnexpectedAccountCount(message) => concat2(
                "Unexpected number of accounts returned when fetching account with companion: ",
                message.as_str(),
            ),
            ChainlinkError::MissingDelegationActionAccounts(pubkeys) => {
                let texts = addresses_to_texts(pubkeys);
                concat3(
                    "Missing accounts required by delegation actions: [",
                    join_messages(&texts).as_str(),
                    "]",
                )
            },
            ChainlinkError::PendingRequestTimeout(pubkey) => concat2(
                "timeout waiting for pending request for ",
                address_to_text(pubkey).as_str(),
            ),
            ChainlinkError::PendingRequestCancelled(pubkey) => concat2(
                "pending request cancelled for ",
                address_to_text(pubkey).as_str(),
            ),
            ChainlinkError::PendingRequestOwnerDisappeared(pubkey, message) => concat4(
                "pending request owner disappeared for ",
                address_to_text(pubkey).as_str(),
                ": ",
                message.as_str(),
            ),
            ChainlinkError::PendingRequestOwnerDropped(pubkey) => concat2(
                "pending request owner dropped for ",
                address_to_text(pubkey).as_str(),
            ),
            ChainlinkError::MissingPendingRequestOwner(pubkey) => concat2(
                "missing pending request owner for ",
                address_to_text(pubkey).as_str(),
            ),
            ChainlinkError::PendingRequestOwnerFailed(pubkey, message) => concat4(
                "pending request owner failed for ",
                address_to_text(pubkey).as_str(),
                ": ",
                message.as_str(),
            ),
            ChainlinkError::AccountLoadFailed(pubkey) => concat2(
                "Failed to load account ",
                address_to_text(pubkey).as_str(),
            ),
            ChainlinkError::EnsureAccountsTimeout(secs) => concat3(
                "Timed out ensuring accounts after ",
                decimal(*secs).as_str(),
                " seconds",
            ),
            ChainlinkError::RangeRisk(message) => concat2(
                "Failed to perform Range risk check: ",
                message.as_str(),
            ),
            ChainlinkError::FailedToScheduleUndelegationAfterAmlRejection(pubkey, message) => concat4(
                "Failed to schedule undelegation for ",
                address_to_text(pubkey).as_str(),
                " after AML rejection: ",
                message.as_str(),
            ),
            ChainlinkError::DisabledForNonPrimaryMode => String::from_str(
                "Chainlink is disabled for non-primary mode",
            ),
        }
    }
}

/// What the errors of a list say.
pub open spec fn error_texts(errors: Seq<ChainlinkError>) -> Seq<Seq<char>> {
    errors.map_values(|error: ChainlinkError| error.text())
}

/// What the errors of a list say, as one text.
pub fn join_errors(errors: &Vec<ChainlinkError>) -> (r: String)
    ensures
        r@ == joined(error_texts(errors@), ", "@),
{
    let mut texts: Vec<String> = Vec::new();
    let mut i: usize = 0;
    while i < errors.len()
        invariant
            i <= errors.len(),
            text_views(texts@) == error_texts(errors@.take(i as int)),
        decreases errors.len() - i,
    {
        let ghost before = texts@;
        texts.push(errors[i].message());
        i = i + 1;
        assert(text_views(texts@) =~= text_views(before).push(texts@.last()@));
        assert(error_texts(errors@.take(i as int)) =~= error_texts(errors@.take(i - 1)).push(
            errors@[i - 1].text(),
        ));
    }
    assert(errors@.take(errors@.len() as int) =~= errors@);
    join_messages(&texts)
}

} // verus!
