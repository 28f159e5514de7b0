//! The failures a request can end in.

use cosmwasm_std::StdError;
use vstd::prelude::*;
use vstd::std_specs::convert::FromSpecImpl;
use vstd::string::to_string_from_display_ensures;

verus! {

/// The error type of the host's standard library, carried through unchanged.
#[verifier::external_type_specification]
#[verifier::external_body]
pub struct ExStdError(StdError);

/// What went wrong, without the detail that the host attached to it.
#[derive(Clone, Copy, Debug, PartialEq, Eq, Structural)]
pub enum ErrorKind {
    /// The storage, or the decoding of what it holds, failed.
    Std,
    /// An address string was rejected by the host.
    InvalidIdentity,
    /// The caller is not the owner.
    Unauthorized,
    /// The caller is not a writer at present.
    NotAWriter,
    /// The caller has registered a message before.
    MessageAlreadyExists,
}

/// A failure as the model of the registry names it: one of the registry's own refusals,
/// or a failure of the storage, which is then told with what the storage gave. The reason
/// that the host gives for rejecting an address is not part of it.
pub enum Failure {
    Std(StdError),
    InvalidIdentity,
    Unauthorized,
    NotAWriter,
    MessageAlreadyExists,
}

/// Every failure of the registry.
#[derive(Debug)]
pub enum ContractError {
    /// A failure of the host's storage, handed on as it came.
    Std(StdError),
    /// An address string did not pass the host's validation; the host's reason is kept.
    InvalidIdentity(StdError),
    /// An action reserved for the owner was attempted by someone else.
    Unauthorized {},
    /// A message was submitted by an identity that is not an approved writer.
    NotAWriter {},
    /// The writer already has a message; messages are never replaced.
    MessageAlreadyExists {},
}

impl ContractError {
    /// The kind of this error.
    pub open spec fn error_kind(&self) -> ErrorKind {
        match self {
            ContractError::Std(_) => ErrorKind::Std,
            ContractError::InvalidIdentity(_) => ErrorKind::InvalidIdentity,
            ContractError::Unauthorized {  } => ErrorKind::Unauthorized,
            ContractError::NotAWriter {  } => ErrorKind::NotAWriter,
            ContractError::MessageAlreadyExists {  } => ErrorKind::MessageAlreadyExists,
        }
    }

    /// This error as the model names it.
    pub open spec fn failure(&self) -> Failure {
        match self {
            ContractError::Std(e) => Failure::Std(*e),
            ContractError::InvalidIdentity(_) => Failure::InvalidIdentity,
            ContractError::Unauthorized {  } => Failure::Unauthorized,
            ContractError::NotAWriter {  } => Failure::NotAWriter,
            ContractError::MessageAlreadyExists {  } => Failure::MessageAlreadyExists,
        }
    }

    /// The kind of this error.
    #[verifier::when_used_as_spec(error_kind)]
    pub fn kind(&self) -> (k: ErrorKind)
        ensures
            k == self.error_kind(),
    {
        match self {
            ContractError::Std(_) => ErrorKind::Std,
            ContractError::InvalidIdentity(_) => ErrorKind::InvalidIdentity,
            ContractError::Unauthorized {  } => ErrorKind::Unauthorized,
            ContractError::NotAWriter {  } => ErrorKind::NotAWriter,
            ContractError::MessageAlreadyExists {  } => ErrorKind::MessageAlreadyExists,
        }
    }

    /// Whether `text` is the message of this error: a fixed sentence for the registry's own
    /// failures, and the host's own rendering of its error otherwise.
    pub open spec fn has_message(&self, text: String) -> bool {
        match self {
            ContractError::Std(e) => to_string_from_display_ensures::<StdError>(e, text),
            ContractError::InvalidIdentity(e) => to_string_from_display_ensures::<StdError>(
                e,
                text,
            ),
            ContractError::Unauthorized {  } => text@ == "Unauthorized"@,
            ContractError::NotAWriter {  } => text@ == "Address is not an approved writer"@,
            ContractError::MessageAlreadyExists {  } => text@
                == "Message already exists for this writer"@,
        }
    }

    /// The message of this error, for people to read.
    pub fn message(&self) -> (text: String)
        ensures
            self.has_message(text),
    {
        match self {
            ContractError::Std(e) => e.to_string(),
            ContractError::InvalidIdentity(e) => e.to_string(),
            ContractError::Unauthorized {  } => "Unauthorized".to_owned(),
            ContractError::NotAWriter {  } => "Address is not an approved writer".to_owned(),
            ContractError::MessageAlreadyExists {  } => "Message already exists for this writer"
                .to_owned(),
        }
    }
}

/// What a call into the storage comes to: the value that it gave, or
/// [`ContractError::Std`] with the failure that it ended in.
pub fn from_storage<T>(outcome: Result<T, StdError>) -> (r: Result<T, ContractError>)
    ensures
        r == match outcome {
            Ok(value) => Ok::<T, ContractError>(value),
            Err(e) => Err(ContractError::Std(e)),
        },
{
    match outcome {
        Ok(value) => Ok(value),
        Err(e) => Err(ContractError::from(e)),
    }
}

impl From<StdError> for ContractError {
    /// A storage failure becomes [`ContractError::Std`], with nothing added or lost.
    fn from(source: StdError) -> (e: ContractError) {
        ContractError::Std(source)
    }
}

impl FromSpecImpl<StdError> for ContractError {
    open spec fn obeys_from_spec() -> bool {
        true
    }

    open spec fn from_spec(source: StdError) -> ContractError {
        ContractError::Std(source)
    }
}

} // verus!
