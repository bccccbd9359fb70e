//! The identifiers under which artifacts are published and looked up.
//!
//! An identifier is an opaque text. Whether a text has the shape that the
//! credential library accepts is for the caller to settle before an artifact
//! is made under it: nothing here reads inside one.

use crate::registry::Record;
use vstd::prelude::*;
use vstd::string::StringExecFns;

verus! {

/// Names the party that issues schemas, credential definitions and registries.
#[derive(Clone, Debug, PartialEq, Eq)]
pub struct IssuerId(pub String);

/// Names a schema.
#[derive(Clone, Debug, PartialEq, Eq)]
pub struct SchemaId(pub String);

/// Names a credential definition.
#[derive(Clone, Debug, PartialEq, Eq)]
pub struct CredentialDefinitionId(pub String);

/// Names a revocation registry definition.
#[derive(Clone, Debug, PartialEq, Eq)]
pub struct RevocationRegistryDefinitionId(pub String);

impl View for IssuerId {
    type V = Seq<char>;

    open spec fn view(&self) -> Seq<char> {
        self.0@
    }
}

impl View for SchemaId {
    type V = Seq<char>;

    open spec fn view(&self) -> Seq<char> {
        self.0@
    }
}

impl View for CredentialDefinitionId {
    type V = Seq<char>;

    open spec fn view(&self) -> Seq<char> {
        self.0@
    }
}

impl View for RevocationRegistryDefinitionId {
    type V = Seq<char>;

    open spec fn view(&self) -> Seq<char> {
        self.0@
    }
}

impl Record for IssuerId {
    fn duplicate(&self) -> (copy: Self) {
        IssuerId(self.0.clone())
    }
}

impl Record for SchemaId {
    fn duplicate(&self) -> (copy: Self) {
        SchemaId(self.0.clone())
    }
}

impl Record for CredentialDefinitionId {
    fn duplicate(&self) -> (copy: Self) {
        CredentialDefinitionId(self.0.clone())
    }
}

impl Record for RevocationRegistryDefinitionId {
    fn duplicate(&self) -> (copy: Self) {
        RevocationRegistryDefinitionId(self.0.clone())
    }
}

impl IssuerId {
    /// The identifier with the text `id`, taken as it is.
    pub fn new_unchecked(id: &str) -> (made: Self)
        ensures
            made@ == id@,
    {
        IssuerId(String::from_str(id))
    }
}

impl SchemaId {
    /// The identifier with the text `id`, taken as it is.
    pub fn new_unchecked(id: &str) -> (made: Self)
        ensures
            made@ == id@,
    {
        SchemaId(String::from_str(id))
    }
}

impl CredentialDefinitionId {
    /// The identifier with the text `id`, taken as it is.
    pub fn new_unchecked(id: &str) -> (made: Self)
        ensures
            made@ == id@,
    {
        CredentialDefinitionId(String::from_str(id))
    }
}

impl RevocationRegistryDefinitionId {
    /// The identifier with the text `id`, taken as it is.
    pub fn new_unchecked(id: &str) -> (made: Self)
        ensures
            made@ == id@,
    {
        RevocationRegistryDefinitionId(String::from_str(id))
    }
}

/// The copy of an optional registry identifier.
pub fn duplicate_registry_id(id: &Option<RevocationRegistryDefinitionId>) -> (copy: Option<
    RevocationRegistryDefinitionId,
>)
    ensures
        registry_id_text(copy) == registry_id_text(*id),
{
    match id {
        Some(id) => Some(id.duplicate()),
        None => None,
    }
}

/// The text of an optional registry identifier.
pub open spec fn registry_id_text(id: Option<RevocationRegistryDefinitionId>) -> Option<Seq<char>> {
    match id {
        Some(id) => Some(id@),
        None => None,
    }
}

} // verus!
