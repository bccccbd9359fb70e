//! The artifacts that the roles create, publish and exchange.
//!
//! Each holds, as plain values, what the bookkeeping reads of it. What only
//! the credential library can interpret (keys, proofs, signatures,
//! accumulators) is carried along in `material`, in the library's own
//! encoding, and never read here.

use crate::ids::{
    duplicate_registry_id, registry_id_text, CredentialDefinitionId, IssuerId,
    RevocationRegistryDefinitionId, SchemaId,
};
use crate::registry::Record;
use vstd::prelude::*;

verus! {

/// The copy of a list of texts.
pub fn duplicate_texts(texts: &Vec<String>) -> (copy: Vec<String>)
    ensures
        copy.deep_view() == texts.deep_view(),
{
    let mut copy: Vec<String> = Vec::new();
    let mut i: usize = 0;
    while i < texts.len()
        invariant
            i <= texts@.len(),
            copy@.len() == i,
            forall|j: int| 0 <= j < i ==> (#[trigger] copy@[j])@ == texts@[j]@,
        decreases texts@.len() - i,
    {
        copy.push(texts[i].clone());
        i = i + 1;
    }
    assert(copy.deep_view() =~= texts.deep_view());
    copy
}

/// The signature scheme of a credential definition.
#[derive(Clone, Copy, Debug, PartialEq, Eq, Structural)]
pub enum SignatureType {
    CL,
}

/// The kind of accumulator behind a revocation registry.
#[allow(non_camel_case_types)]
#[derive(Clone, Copy, Debug, PartialEq, Eq, Structural)]
pub enum RegistryType {
    CL_ACCUM,
}

/// The names of the attributes that a kind of credential carries.
#[derive(Clone, Debug, PartialEq, Eq)]
pub struct Schema {
    pub name: String,
    pub version: String,
    pub issuer_id: IssuerId,
    pub attr_names: Vec<String>,
}

/// The model of `Schema` that contracts speak of.
pub struct SchemaView {
    pub name: Seq<char>,
    pub version: Seq<char>,
    pub issuer_id: Seq<char>,
    pub attr_names: Seq<Seq<char>>,
}

impl View for Schema {
    type V = SchemaView;

    open spec fn view(&self) -> SchemaView {
        SchemaView {
            name: self.name@,
            version: self.version@,
            issuer_id: self.issuer_id@,
            attr_names: self.attr_names.deep_view(),
        }
    }
}

impl Record for Schema {
    fn duplicate(&self) -> (copy: Self) {
        Schema {
            name: self.name.clone(),
            version: self.version.clone(),
            issuer_id: self.issuer_id.duplicate(),
            attr_names: duplicate_texts(&self.attr_names),
        }
    }
}

/// The public half of an issuer's signing key for one schema.
#[derive(Clone, Debug, PartialEq, Eq)]
pub struct CredentialDefinition {
    pub schema_id: SchemaId,
    pub issuer_id: IssuerId,
    pub tag: String,
    pub support_revocation: bool,
    pub material: String,
}

/// The model of `CredentialDefinition` that contracts speak of.
pub struct CredentialDefinitionView {
    pub schema_id: Seq<char>,
    pub issuer_id: Seq<char>,
    pub tag: Seq<char>,
    pub support_revocation: bool,
    pub material: Seq<char>,
}

impl View for CredentialDefinition {
    type V = CredentialDefinitionView;

    open spec fn view(&self) -> CredentialDefinitionView {
        CredentialDefinitionView {
            schema_id: self.schema_id@,
            issuer_id: self.issuer_id@,
            tag: self.tag@,
            support_revocation: self.support_revocation,
            material: self.material@,
        }
    }
}

impl Record for CredentialDefinition {
    fn duplicate(&self) -> (copy: Self) {
        CredentialDefinition {
            schema_id: self.schema_id.duplicate(),
            issuer_id: self.issuer_id.duplicate(),
            tag: self.tag.clone(),
            support_revocation: self.support_revocation,
            material: self.material.clone(),
        }
    }
}

/// The private half of a credential definition. It stays with the issuer.
#[derive(Debug)]
pub struct CredentialDefinitionPrivate {
    pub material: String,
}

impl View for CredentialDefinitionPrivate {
    type V = Seq<char>;

    open spec fn view(&self) -> Seq<char> {
        self.material@
    }
}

/// Shows that a credential definition's public key is well formed.
#[derive(Clone, Debug, PartialEq, Eq)]
pub struct CredentialKeyCorrectnessProof {
    pub material: String,
}

impl View for CredentialKeyCorrectnessProof {
    type V = Seq<char>;

    open spec fn view(&self) -> Seq<char> {
        self.material@
    }
}

/// Declares a revocation registry: how many credentials it can hold and
/// where its tails file lies.
#[derive(Clone, Debug, PartialEq, Eq)]
pub struct RevocationRegistryDefinition {
    pub issuer_id: IssuerId,
    pub cred_def_id: CredentialDefinitionId,
    pub tag: String,
    pub max_cred_num: u32,
    pub tails_location: String,
    pub tails_hash: String,
    pub material: String,
}

/// The model of `RevocationRegistryDefinition` that contracts speak of.
pub struct RevocationRegistryDefinitionView {
    pub issuer_id: Seq<char>,
    pub cred_def_id: Seq<char>,
    pub tag: Seq<char>,
    pub max_cred_num: u32,
    pub tails_location: Seq<char>,
    pub tails_hash: Seq<char>,
    pub material: Seq<char>,
}

impl View for RevocationRegistryDefinition {
    type V = RevocationRegistryDefinitionView;

    open spec fn view(&self) -> RevocationRegistryDefinitionView {
        RevocationRegistryDefinitionView {
            issuer_id: self.issuer_id@,
            cred_def_id: self.cred_def_id@,
            tag: self.tag@,
            max_cred_num: self.max_cred_num,
            tails_location: self.tails_location@,
            tails_hash: self.tails_hash@,
            material: self.material@,
        }
    }
}

impl Record for RevocationRegistryDefinition {
    fn duplicate(&self) -> (copy: Self) {
        RevocationRegistryDefinition {
            issuer_id: self.issuer_id.duplicate(),
            cred_def_id: self.cred_def_id.duplicate(),
            tag: self.tag.clone(),
            max_cred_num: self.max_cred_num,
            tails_location: self.tails_location.clone(),
            tails_hash: self.tails_hash.clone(),
            material: self.material.clone(),
        }
    }
}

/// The private accumulator material of a revocation registry.
#[derive(Debug)]
pub struct RevocationRegistryDefinitionPrivate {
    pub material: String,
}

impl View for RevocationRegistryDefinitionPrivate {
    type V = Seq<char>;

    open spec fn view(&self) -> Seq<char> {
        self.material@
    }
}

/// A snapshot, at one timestamp, of which indices of a registry are revoked.
/// A later state of the registry is another snapshot, never a change to this one.
#[derive(Clone, Debug, PartialEq, Eq)]
pub struct RevocationStatusList {
    pub rev_reg_def_id: RevocationRegistryDefinitionId,
    pub timestamp: Option<u64>,
    pub material: String,
}

/// The model of `RevocationStatusList` that contracts speak of.
pub struct RevocationStatusListView {
    pub rev_reg_def_id: Seq<char>,
    pub timestamp: Option<u64>,
    pub material: Seq<char>,
}

impl View for RevocationStatusList {
    type V = RevocationStatusListView;

    open spec fn view(&self) -> RevocationStatusListView {
        RevocationStatusListView {
            rev_reg_def_id: self.rev_reg_def_id@,
            timestamp: self.timestamp,
            material: self.material@,
        }
    }
}

impl Record for RevocationStatusList {
    fn duplicate(&self) -> (copy: Self) {
        RevocationStatusList {
            rev_reg_def_id: self.rev_reg_def_id.duplicate(),
            timestamp: self.timestamp,
            material: self.material.clone(),
        }
    }
}

/// An issuer's offer to issue a credential under one credential definition.
#[derive(Clone, Debug, PartialEq, Eq)]
pub struct CredentialOffer {
    pub schema_id: SchemaId,
    pub cred_def_id: CredentialDefinitionId,
    pub material: String,
}

/// The model of `CredentialOffer` that contracts speak of.
pub struct CredentialOfferView {
    pub schema_id: Seq<char>,
    pub cred_def_id: Seq<char>,
    pub material: Seq<char>,
}

impl View for CredentialOffer {
    type V = CredentialOfferView;

    open spec fn view(&self) -> CredentialOfferView {
        CredentialOfferView {
            schema_id: self.schema_id@,
            cred_def_id: self.cred_def_id@,
            material: self.material@,
        }
    }
}

/// A prover's blinded request for the credential of an offer.
#[derive(Clone, Debug, PartialEq, Eq)]
pub struct CredentialRequest {
    pub material: String,
}

impl View for CredentialRequest {
    type V = Seq<char>;

    open spec fn view(&self) -> Seq<char> {
        self.material@
    }
}

/// What the prover keeps of a request to unblind the credential issued to it.
#[derive(Clone, Debug, PartialEq, Eq)]
pub struct CredentialRequestMetadata {
    pub material: String,
}

impl View for CredentialRequestMetadata {
    type V = Seq<char>;

    open spec fn view(&self) -> Seq<char> {
        self.material@
    }
}

/// The secret that binds all of a prover's credentials to one holder.
#[derive(Debug)]
pub struct LinkSecret {
    pub material: String,
}

impl View for LinkSecret {
    type V = Seq<char>;

    open spec fn view(&self) -> Seq<char> {
        self.material@
    }
}

/// A number used once, which ties a presentation to the request it answers.
#[derive(Clone, Debug, PartialEq, Eq)]
pub struct Nonce {
    pub value: String,
}

impl View for Nonce {
    type V = Seq<char>;

    open spec fn view(&self) -> Seq<char> {
        self.value@
    }
}

/// A credential in the legacy encoding.
#[derive(Clone, Debug, PartialEq, Eq)]
pub struct Credential {
    pub schema_id: SchemaId,
    pub cred_def_id: CredentialDefinitionId,
    pub rev_reg_id: Option<RevocationRegistryDefinitionId>,
    pub material: String,
}

/// The model of `Credential` that contracts speak of.
pub struct CredentialView {
    pub schema_id: Seq<char>,
    pub cred_def_id: Seq<char>,
    pub rev_reg_id: Option<Seq<char>>,
    pub material: Seq<char>,
}

impl View for Credential {
    type V = CredentialView;

    open spec fn view(&self) -> CredentialView {
        CredentialView {
            schema_id: self.schema_id@,
            cred_def_id: self.cred_def_id@,
            rev_reg_id: registry_id_text(self.rev_reg_id),
            material: self.material@,
        }
    }
}

impl Record for Credential {
    fn duplicate(&self) -> (copy: Self) {
        Credential {
            schema_id: self.schema_id.duplicate(),
            cred_def_id: self.cred_def_id.duplicate(),
            rev_reg_id: duplicate_registry_id(&self.rev_reg_id),
            material: self.material.clone(),
        }
    }
}

/// The witness that a credential was not revoked as of one status list.
#[derive(Clone, Debug, PartialEq, Eq)]
pub struct CredentialRevocationState {
    pub timestamp: u64,
    pub material: String,
}

/// The model of `CredentialRevocationState` that contracts speak of.
pub struct CredentialRevocationStateView {
    pub timestamp: u64,
    pub material: Seq<char>,
}

impl View for CredentialRevocationState {
    type V = CredentialRevocationStateView;

    open spec fn view(&self) -> CredentialRevocationStateView {
        CredentialRevocationStateView { timestamp: self.timestamp, material: self.material@ }
    }
}

/// The registry, index and status list that bind a credential to a
/// revocation registry when it is signed.
#[derive(Debug)]
pub struct CredentialRevocationConfig<'a> {
    pub reg_def: &'a RevocationRegistryDefinition,
    pub reg_def_private: &'a RevocationRegistryDefinitionPrivate,
    pub registry_idx: u32,
    pub status_list: &'a RevocationStatusList,
}

/// The model of `CredentialRevocationConfig` that contracts speak of.
pub struct CredentialRevocationConfigView {
    pub reg_def: RevocationRegistryDefinitionView,
    pub reg_def_private: Seq<char>,
    pub registry_idx: u32,
    pub status_list: RevocationStatusListView,
}

impl<'a> View for CredentialRevocationConfig<'a> {
    type V = CredentialRevocationConfigView;

    open spec fn view(&self) -> CredentialRevocationConfigView {
        CredentialRevocationConfigView {
            reg_def: self.reg_def@,
            reg_def_private: self.reg_def_private@,
            registry_idx: self.registry_idx,
            status_list: self.status_list@,
        }
    }
}

} // verus!
