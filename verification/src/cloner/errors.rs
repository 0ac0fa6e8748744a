//! What can go wrong while an account is brought into the bank.
use vstd::prelude::*;
use crate::pubkey::Pubkey;
use crate::text::{
    address_text, address_to_text, concat2, concat3, concat4, concat5, decimal, decimal_text,
};

verus! {

/// How an error that another library or service reported is shown: to users, and to
/// developers.
#[derive(Debug)]
pub struct ErrorText {
    pub display: String,
    pub debug: String,
}

/// What the engine reports, with how it shows it.
#[derive(Debug)]
pub enum EngineError {
    TransactionExecution(ErrorText),
    TransactionCompile(ErrorText),
    Sanitization(ErrorText),
    Signature(ErrorText),
    SignatureVerification(ErrorText),
    Serde(ErrorText),
    ShuttingDown(ErrorText),
    ServiceUnavailable(ErrorText),
    Task(ErrorText),
    Internal(ErrorText),
}

impl EngineError {
    /// Whether the error proves that nothing was done.
    pub open spec fn definitive(&self) -> bool {
        ||| self is TransactionExecution
        ||| self is TransactionCompile
        ||| self is Sanitization
        ||| self is Signature
        ||| self is SignatureVerification
        ||| self is Serde
    }

    /// How the error is shown.
    pub open spec fn texts(&self) -> ErrorText {
        match self {
            EngineError::TransactionExecution(texts) => *texts,
            EngineError::TransactionCompile(texts) => *texts,
            EngineError::Sanitization(texts) => *texts,
            EngineError::Signature(texts) => *texts,
            EngineError::SignatureVerification(texts) => *texts,
            EngineError::Serde(texts) => *texts,
            EngineError::ShuttingDown(texts) => *texts,
            EngineError::ServiceUnavailable(texts) => *texts,
            EngineError::Task(texts) => *texts,
            EngineError::Internal(texts) => *texts,
        }
    }

    /// How the error is shown.
    pub fn shown(&self) -> (r: &ErrorText)
        ensures
            *r == self.texts(),
    {
        match self {
            EngineError::TransactionExecution(texts) => texts,
            EngineError::TransactionCompile(texts) => texts,
            EngineError::Sanitization(texts) => texts,
            EngineError::Signature(texts) => texts,
            EngineError::SignatureVerification(texts) => texts,
            EngineError::Serde(texts) => texts,
            EngineError::ShuttingDown(texts) => texts,
            EngineError::ServiceUnavailable(texts) => texts,
            EngineError::Task(texts) => texts,
            EngineError::Internal(texts) => texts,
        }
    }
}

/// Why an account was not brought into the bank.
#[derive(Debug)]
pub enum ClonerError {
    BincodeError(ErrorText),
    TryFromIntError(ErrorText),
    SignerError(ErrorText),
    TransactionError(ErrorText),
    RemoteAccountProviderError(ErrorText),
    CommittorServiceError(ErrorText),
    Engine(EngineError),
    CloneTransactionTooLarge { pubkey: Pubkey, size: usize, max_size: usize },
    FailedToCloneRegularAccount(Pubkey, Box<ClonerError>),
    FailedToCreateCloneProgramTransaction(Pubkey, Box<ClonerError>),
    FailedToCloneProgram(Pubkey, Box<ClonerError>),
    FailedToCloneAndScheduleUndelegation(Pubkey, Box<ClonerError>),
    FailedToEvictAccount(Pubkey, Box<ClonerError>),
    FailedToScheduleUndelegation(Pubkey, Box<ClonerError>),
}

impl ClonerError {
    /// How the error is shown to developers: its name, and what it holds in brackets.
    pub open spec fn debug_text(&self) -> Seq<char>
        decreases self,
    {
        match self {
            ClonerError::BincodeError(texts) => "BincodeError("@ + texts.debug@ + ")"@,
            ClonerError::TryFromIntError(texts) => "TryFromIntError("@ + texts.debug@ + ")"@,
            ClonerError::SignerError(texts) => "SignerError("@ + texts.debug@ + ")"@,
            ClonerError::TransactionError(texts) => "TransactionError("@ + texts.debug@ + ")"@,
            ClonerError::RemoteAccountProviderError(texts) => {
                "RemoteAccountProviderError("@ + texts.debug@ + ")"@
            },
            ClonerError::CommittorServiceError(texts) => {
                "CommittorServiceError("@ + texts.debug@ + ")"@
            },
            ClonerError::Engine(error) => "Engine("@ + error.texts().debug@ + ")"@,
            ClonerError::CloneTransactionTooLarge { pubkey, size, max_size } => {
                "CloneTransactionTooLarge { pubkey: "@ + address_text(pubkey@) + ", size: "@
                    + decimal_text(*size as nat) + ", max_size: "@ + decimal_text(
                    *max_size as nat,
                ) + " }"@
            },
            ClonerError::FailedToCloneRegularAccount(pubkey, error) => {
                "FailedToCloneRegularAccount("@ + address_text(pubkey@) + ", "@
                    + error.debug_text() + ")"@
            },
            ClonerError::FailedToCreateCloneProgramTransaction(pubkey, error) => {
                "FailedToCreateCloneProgramTransaction("@ + address_text(pubkey@) + ", "@
                    + error.debug_text() + ")"@
            },
            ClonerError::FailedToCloneProgram(pubkey, error) => {
                "FailedToCloneProgram("@ + address_text(pubkey@) + ", "@ + error.debug_text()
                    + ")"@
            },
            ClonerError::FailedToCloneAndScheduleUndelegation(pubkey, error) => {
                "FailedToCloneAndScheduleUndelegation("@ + address_text(pubkey@) + ", "@
                    + error.debug_text() + ")"@
            },
            ClonerError::FailedToEvictAccount(pubkey, error) => {
                "FailedToEvictAccount("@ + address_text(pubkey@) + ", "@ + error.debug_text()
                    + ")"@
            },
            ClonerError::FailedToScheduleUndelegation(pubkey, error) => {
                "FailedToScheduleUndelegation("@ + address_text(pubkey@) + ", "@
                    + error.debug_text() + ")"@
            },
        }
    }

    /// How the error is shown to developers.
    pub fn debug_message(&self) -> (r: String)
        ensures
            r@ == self.debug_text(),
        decreases self,
    {
        match self {
            ClonerError::BincodeError(texts) => concat3("BincodeError(", texts.debug.as_str(), ")"),
            ClonerError::TryFromIntError(texts) => concat3(
                "TryFromIntError(",
                texts.debug.as_str(),
                ")",
            ),
            ClonerError::SignerError(texts) => concat3("SignerError(", texts.debug.as_str(), ")"),
            ClonerError::TransactionError(texts) => concat3(
                "TransactionError(",
                texts.debug.as_str(),
                ")",
            ),
            ClonerError::RemoteAccountProviderError(texts) => concat3(
                "RemoteAccountProviderError(",
                texts.debug.as_str(),
                ")",
            ),
            ClonerError::CommittorServiceError(texts) => concat3(
                "CommittorServiceError(",
                texts.debug.as_str(),
                ")",
            ),
            ClonerError::Engine(error) => concat3("Engine(", error.shown().debug.as_str(), ")"),
            ClonerError::CloneTransactionTooLarge { pubkey, size, max_size } => {
                let front = concat5(
                    "CloneTransactionTooLarge { pubkey: ",
                    address_to_text(pubkey).as_str(),
                    ", size: ",
                    decimal(*size as u64).as_str(),
                    ", max_size: ",
                );
                concat3(front.as_str(), decimal(*max_size as u64).as_str(), " }")
            },
            ClonerError::FailedToCloneRegularAccount(pubkey, error) => concat5(
                "FailedToCloneRegularAccount(",
                address_to_text(pubkey).as_str(),
                ", ",
                error.debug_message().as_str(),
                ")",
            ),
            ClonerError::FailedToCreateCloneProgramTransaction(pubkey, error) => concat5(
                "FailedToCreateCloneProgramTransaction(",
                address_to_text(pubkey).as_str(),
                ", ",
                error.debug_message().as_str(),
                ")",
            ),
            ClonerError::FailedToCloneProgram(pubkey, error) => concat5(
                "FailedToCloneProgram(",
                address_to_text(pubkey).as_str(),
                ", ",
                error.debug_message().as_str(),
                ")",
            ),
            ClonerError::FailedToCloneAndScheduleUndelegation(pubkey, error) => concat5(
                "FailedToCloneAndScheduleUndelegation(",
                address_to_text(pubkey).as_str(),
                ", ",
                error.debug_message().as_str(),
                ")",
            ),
            ClonerError::FailedToEvictAccount(pubkey, error) => concat5(
                "FailedToEvictAccount(",
                address_to_text(pubkey).as_str(),
                ", ",
                error.debug_message().as_str(),
                ")",
            ),
            ClonerError::FailedToScheduleUndelegation(pubkey, error) => concat5(
                "FailedToScheduleUndelegation(",
                address_to_text(pubkey).as_str(),
                ", ",
                error.debug_message().as_str(),
                ")",
            ),
        }
    }

    /// What the error says. One that has another error for its cause shows that as to
    /// developers.
    pub open spec fn text(&self) -> Seq<char> {
        match self {
            ClonerError::BincodeError(texts) => texts.display@,
            ClonerError::TryFromIntError(texts) => texts.display@,
            ClonerError::SignerError(texts) => texts.display@,
            ClonerError::TransactionError(texts) => texts.display@,
            ClonerError::RemoteAccountProviderError(texts) => texts.display@,
            ClonerError::CommittorServiceError(texts) => {
                "CommittorServiceError "@ + texts.display@
            },
            ClonerError::Engine(error) => "engine error: "@ + error.texts().display@,
            ClonerError::CloneTransactionTooLarge { pubkey, size, max_size } => {
                "Clone transaction for account "@ + address_text(pubkey@) + " is too large: "@
                    + decimal_text(*size as nat) + " bytes (max "@ + decimal_text(
                    *max_size as nat,
                ) + " bytes)"@
            },
            ClonerError::FailedToCloneRegularAccount(pubkey, error) => {
                "Failed to clone regular account "@ + address_text(pubkey@) + " : "@
                    + error.debug_text()
            },
            ClonerError::FailedToCreateCloneProgramTransaction(pubkey, error) => {
                "Failed to create clone program transaction "@ + address_text(pubkey@) + " : "@
                    + error.debug_text()
            },
            ClonerError::FailedToCloneProgram(pubkey, error) => {
                "Failed to clone program "@ + address_text(pubkey@) + " : "@
                    + error.debug_text()
            },
            ClonerError::FailedToCloneAndScheduleUndelegation(pubkey, error) => {
                "Failed to clone and schedule undelegation for account "@
                    + address_text(pubkey@) + " : "@ + error.debug_text()
            },
            ClonerError::FailedToEvictAccount(pubkey, error) => {
                "Failed to evict account "@ + address_text(pubkey@) + " : "@
                    + error.debug_text()
            },
            ClonerError::FailedToScheduleUndelegation(pubkey, error) => {
                "Failed to schedule undelegation "@ + address_text(pubkey@) + " : "@
                    + error.debug_text()
            },
        }
    }

    /// What the error says.
    pub fn message(&self) -> (r: String)
        ensures
            r@ == self.text(),
    {
        match self {
            ClonerError::BincodeError(texts) => String::from_str(texts.display.as_str()),
            ClonerError::TryFromIntError(texts) => String::from_str(texts.display.as_str()),
            ClonerError::SignerError(texts) => String::from_str(texts.display.as_str()),
            ClonerError::TransactionError(texts) => String::from_str(texts.display.as_str()),
            ClonerError::RemoteAccountProviderError(texts) => String::from_str(
                texts.display.as_str(),
            ),
            ClonerError::CommittorServiceError(texts) => concat2(
                "CommittorServiceError ",
                texts.display.as_str(),
            ),
            ClonerError::Engine(error) => concat2(
                "engine error: ",
                error.shown().display.as_str(),
            ),
            ClonerError::CloneTransactionTooLarge { pubkey, size, max_size } => {
                let front = concat5(
                    "Clone transaction for account ",
                    address_to_text(pubkey).as_str(),
                    " is too large: ",
                    decimal(*size as u64).as_str(),
                    " bytes (max ",
                );
                concat3(front.as_str(), decimal(*max_size as u64).as_str(), " bytes)")
            },
            ClonerError::FailedToCloneRegularAccount(pubkey, error) => concat4(
                "Failed to clone regular account ",
                address_to_text(pubkey).as_str(),
                " : ",
                error.debug_message().as_str(),
            ),
            ClonerError::FailedToCreateCloneProgramTransaction(pubkey, error) => concat4(
                "Failed to create clone program transaction ",
                address_to_text(pubkey).as_str(),
                " : ",
                error.debug_message().as_str(),
            ),
            ClonerError::FailedToCloneProgram(pubkey, error) => concat4(
                "Failed to clone program ",
                address_to_text(pubkey).as_str(),
                " : ",
                error.debug_message().as_str(),
            ),
            ClonerError::FailedToCloneAndScheduleUndelegation(pubkey, error) => concat4(
                "Failed to clone and schedule undelegation for account ",
                address_to_text(pubkey).as_str(),
                " : ",
                error.debug_message().as_str(),
            ),
            ClonerError::FailedToEvictAccount(pubkey, error) => concat4(
                "Failed to evict account ",
                address_to_text(pubkey).as_str(),
                " : ",
                error.debug_message().as_str(),
            ),
            ClonerError::FailedToScheduleUndelegation(pubkey, error) => concat4(
                "Failed to schedule undelegation ",
                address_to_text(pubkey).as_str(),
                " : ",
                error.debug_message().as_str(),
            ),
        }
    }

    /// Whether an account may be rescued after this error: it was rejected or its transaction
    /// failed for certain. Any other error leaves open whether it was cloned.
    pub open spec fn rescue_allowed(&self) -> bool
        decreases self,
    {
        match self {
            ClonerError::FailedToCloneRegularAccount(_, error) => error.rescue_allowed(),
            ClonerError::Engine(error) => error.definitive(),
            _ => false,
        }
    }

    /// Whether an account may be rescued after this error.
    pub fn allows_rescue(&self) -> (r: bool)
        ensures
            r == self.rescue_allowed(),
        decreases self,
    {
        match self {
            ClonerError::FailedToCloneRegularAccount(_, error) => error.allows_rescue(),
            ClonerError::Engine(error) => match error {
                EngineError::TransactionExecution(_) => true,
                EngineError::TransactionCompile(_) => true,
                EngineError::Sanitization(_) => true,
                EngineError::Signature(_) => true,
                EngineError::SignatureVerification(_) => true,
                EngineError::Serde(_) => true,
                _ => false,
            },
            _ => false,
        }
    }
}

} // verus!
