//! Why an operation of a role was refused.

use vstd::prelude::*;
use vstd::string::StringExecFns;

verus! {

/// A reference to something that the role does not hold. The caller can
/// recover by fetching or creating what is missing and asking again.
#[derive(Clone, Copy, Debug, PartialEq, Eq, Structural)]
pub enum Error {
    SchemaNotFound,
    CredentialDefinitionNotFound,
    CorrectnessProofNotFound,
    RevocationRegistryDefinitionNotFound,
}

/// The words that describe `error`.
pub open spec fn message_text(error: Error) -> Seq<char> {
    match error {
        Error::SchemaNotFound => "Schema not found"@,
        Error::CredentialDefinitionNotFound => "Credential definition not found"@,
        Error::CorrectnessProofNotFound => "Correctness proof not found"@,
        Error::RevocationRegistryDefinitionNotFound => "Revocation registry definition not found"@,
    }
}

impl Error {
    /// The error in words.
    pub fn message(&self) -> (text: String)
        ensures
            text@ == message_text(*self),
    {
        match self {
            Error::SchemaNotFound => String::from_str("Schema not found"),
            Error::CredentialDefinitionNotFound => String::from_str(
                "Credential definition not found",
            ),
            Error::CorrectnessProofNotFound => String::from_str("Correctness proof not found"),
            Error::RevocationRegistryDefinitionNotFound => String::from_str(
                "Revocation registry definition not found",
            ),
        }
    }
}

} // verus!
