//! What a verifier asks for, what a prover answers with, and which of its
//! credentials a prover puts into the answer.

use crate::attribute::{CredentialAttributeValue, CredentialAttributeValueView};
use crate::ids::{
    duplicate_registry_id, registry_id_text, CredentialDefinitionId,
    RevocationRegistryDefinitionId, SchemaId,
};
use crate::model::{CredentialRevocationState, CredentialRevocationStateView, Nonce};
use crate::registry::{Record, Registry};
use vstd::prelude::*;

verus! {

/// One attribute that a verifier asks to see, under the name `referent` by
/// which the answer refers to it.
#[derive(Clone, Debug, PartialEq, Eq)]
pub struct RequestedAttribute {
    pub referent: String,
    pub name: String,
}

/// How a predicate compares an attribute's value with its bound.
#[derive(Clone, Copy, Debug, PartialEq, Eq, Structural)]
pub enum PredicateType {
    GE,
    LE,
    GT,
    LT,
}

/// One predicate that a verifier asks to have proved of an attribute,
/// without seeing the attribute's value.
#[derive(Clone, Debug, PartialEq, Eq)]
pub struct RequestedPredicate {
    pub referent: String,
    pub name: String,
    pub p_type: PredicateType,
    pub p_value: i32,
}

/// The model of `RequestedPredicate` that contracts speak of.
pub struct RequestedPredicateView {
    pub referent: Seq<char>,
    pub name: Seq<char>,
    pub p_type: PredicateType,
    pub p_value: i32,
}

/// The span of time within which a credential must be shown not to have
/// been revoked. An open end is `None`.
#[derive(Clone, Copy, Debug, PartialEq, Eq, Structural)]
pub struct NonRevokedInterval {
    pub from: Option<u64>,
    pub to: Option<u64>,
}

/// What a verifier asks of a prover. The nonce is fresh for every request.
#[derive(Clone, Debug, PartialEq, Eq)]
pub struct PresentationRequest {
    pub nonce: Nonce,
    pub name: String,
    pub version: String,
    pub requested_attributes: Vec<RequestedAttribute>,
    pub requested_predicates: Vec<RequestedPredicate>,
    pub non_revoked: Option<NonRevokedInterval>,
}

/// The model of `PresentationRequest` that contracts speak of.
pub struct PresentationRequestView {
    pub nonce: Seq<char>,
    pub name: Seq<char>,
    pub version: Seq<char>,
    pub requested_attributes: Seq<(Seq<char>, Seq<char>)>,
    pub requested_predicates: Seq<RequestedPredicateView>,
    pub non_revoked: Option<NonRevokedInterval>,
}

impl View for RequestedPredicate {
    type V = RequestedPredicateView;

    open spec fn view(&self) -> RequestedPredicateView {
        RequestedPredicateView {
            referent: self.referent@,
            name: self.name@,
            p_type: self.p_type,
            p_value: self.p_value,
        }
    }
}

impl View for PresentationRequest {
    type V = PresentationRequestView;

    open spec fn view(&self) -> PresentationRequestView {
        PresentationRequestView {
            nonce: self.nonce@,
            name: self.name@,
            version: self.version@,
            requested_attributes: Seq::new(
                self.requested_attributes@.len(),
                |i: int| (self.requested_attributes@[i].referent@, self.requested_attributes@[i].name@),
            ),
            requested_predicates: Seq::new(
                self.requested_predicates@.len(),
                |i: int| self.requested_predicates@[i]@,
            ),
            non_revoked: self.non_revoked,
        }
    }
}

/// An attribute's value as a legacy presentation reveals it.
#[derive(Clone, Debug, PartialEq, Eq)]
pub struct AttributeValue {
    pub raw: String,
    pub encoded: String,
}

/// The model of `AttributeValue` that contracts speak of.
pub struct AttributeValueView {
    pub raw: Seq<char>,
    pub encoded: Seq<char>,
}

impl View for AttributeValue {
    type V = AttributeValueView;

    open spec fn view(&self) -> AttributeValueView {
        AttributeValueView { raw: self.raw@, encoded: self.encoded@ }
    }
}

/// One revealed attribute of a legacy presentation, and the sub-proof that backs it.
#[derive(Clone, Debug, PartialEq, Eq)]
pub struct RevealedAttributeInfo {
    pub sub_proof_index: u32,
    pub raw: String,
    pub encoded: String,
}

/// The model of `RevealedAttributeInfo` that contracts speak of.
pub struct RevealedAttributeInfoView {
    pub sub_proof_index: u32,
    pub raw: Seq<char>,
    pub encoded: Seq<char>,
}

impl View for RevealedAttributeInfo {
    type V = RevealedAttributeInfoView;

    open spec fn view(&self) -> RevealedAttributeInfoView {
        RevealedAttributeInfoView {
            sub_proof_index: self.sub_proof_index,
            raw: self.raw@,
            encoded: self.encoded@,
        }
    }
}

/// Several attributes of one credential that a legacy presentation reveals
/// together, by attribute name.
#[derive(Debug)]
pub struct RevealedAttributeGroupInfo {
    pub sub_proof_index: u32,
    pub values: Registry<AttributeValue>,
}

/// The model of `RevealedAttributeGroupInfo` that contracts speak of.
pub struct RevealedAttributeGroupInfoView {
    pub sub_proof_index: u32,
    pub values: Map<Seq<char>, AttributeValueView>,
}

impl View for RevealedAttributeGroupInfo {
    type V = RevealedAttributeGroupInfoView;

    open spec fn view(&self) -> RevealedAttributeGroupInfoView {
        RevealedAttributeGroupInfoView {
            sub_proof_index: self.sub_proof_index,
            values: self.values@,
        }
    }
}

/// The sub-proof that backs an attribute kept hidden, or a predicate.
#[derive(Clone, Copy, Debug, PartialEq, Eq)]
pub struct SubProofReferent {
    pub sub_proof_index: u32,
}

impl View for SubProofReferent {
    type V = u32;

    open spec fn view(&self) -> u32 {
        self.sub_proof_index
    }
}

/// What a legacy presentation claims, by the referents of the request.
#[derive(Debug)]
pub struct RequestedProof {
    pub revealed_attrs: Registry<RevealedAttributeInfo>,
    pub revealed_attr_groups: Registry<RevealedAttributeGroupInfo>,
    pub unrevealed_attrs: Registry<SubProofReferent>,
    pub predicates: Registry<SubProofReferent>,
}

/// The model of `RequestedProof` that contracts speak of.
pub struct RequestedProofView {
    pub revealed_attrs: Map<Seq<char>, RevealedAttributeInfoView>,
    pub revealed_attr_groups: Map<Seq<char>, RevealedAttributeGroupInfoView>,
    pub unrevealed_attrs: Map<Seq<char>, u32>,
    pub predicates: Map<Seq<char>, u32>,
}

impl View for RequestedProof {
    type V = RequestedProofView;

    open spec fn view(&self) -> RequestedProofView {
        RequestedProofView {
            revealed_attrs: self.revealed_attrs@,
            revealed_attr_groups: self.revealed_attr_groups@,
            unrevealed_attrs: self.unrevealed_attrs@,
            predicates: self.predicates@,
        }
    }
}

/// The artifacts that one sub-proof of a presentation was made under.
#[derive(Clone, Debug, PartialEq, Eq)]
pub struct Identifier {
    pub schema_id: SchemaId,
    pub cred_def_id: CredentialDefinitionId,
    pub rev_reg_id: Option<RevocationRegistryDefinitionId>,
    pub timestamp: Option<u64>,
}

/// The model of `Identifier` that contracts speak of.
pub struct IdentifierView {
    pub schema_id: Seq<char>,
    pub cred_def_id: Seq<char>,
    pub rev_reg_id: Option<Seq<char>>,
    pub timestamp: Option<u64>,
}

impl View for Identifier {
    type V = IdentifierView;

    open spec fn view(&self) -> IdentifierView {
        IdentifierView {
            schema_id: self.schema_id@,
            cred_def_id: self.cred_def_id@,
            rev_reg_id: registry_id_text(self.rev_reg_id),
            timestamp: self.timestamp,
        }
    }
}

/// A presentation in the legacy encoding.
#[derive(Debug)]
pub struct Presentation {
    pub requested_proof: RequestedProof,
    pub identifiers: Vec<Identifier>,
    pub material: String,
}

/// The model of `Presentation` that contracts speak of.
pub struct PresentationView {
    pub requested_proof: RequestedProofView,
    pub identifiers: Seq<IdentifierView>,
    pub material: Seq<char>,
}

impl View for Presentation {
    type V = PresentationView;

    open spec fn view(&self) -> PresentationView {
        PresentationView {
            requested_proof: self.requested_proof@,
            identifiers: Seq::new(self.identifiers@.len(), |i: int| self.identifiers@[i]@),
            material: self.material@,
        }
    }
}

/// A credential in the W3C encoding. Its subject holds the attribute values
/// by attribute name.
#[derive(Debug)]
pub struct W3CCredential {
    pub rev_reg_id: Option<RevocationRegistryDefinitionId>,
    pub credential_subject: Registry<CredentialAttributeValue>,
    pub material: String,
}

/// The model of `W3CCredential` that contracts speak of.
pub struct W3CCredentialView {
    pub rev_reg_id: Option<Seq<char>>,
    pub credential_subject: Map<Seq<char>, CredentialAttributeValueView>,
    pub material: Seq<char>,
}

impl View for W3CCredential {
    type V = W3CCredentialView;

    open spec fn view(&self) -> W3CCredentialView {
        W3CCredentialView {
            rev_reg_id: registry_id_text(self.rev_reg_id),
            credential_subject: self.credential_subject@,
            material: self.material@,
        }
    }
}

impl Record for W3CCredential {
    fn duplicate(&self) -> (copy: Self) {
        W3CCredential {
            rev_reg_id: duplicate_registry_id(&self.rev_reg_id),
            credential_subject: self.credential_subject.duplicate(),
            material: self.material.clone(),
        }
    }
}

/// A presentation in the W3C encoding: the credentials it was derived
/// from, each cut down to what is shown.
#[derive(Debug)]
pub struct W3CPresentation {
    pub verifiable_credential: Vec<W3CCredential>,
    pub material: String,
}

/// The model of `W3CPresentation` that contracts speak of.
pub struct W3CPresentationView {
    pub verifiable_credential: Seq<W3CCredentialView>,
    pub material: Seq<char>,
}

impl View for W3CPresentation {
    type V = W3CPresentationView;

    open spec fn view(&self) -> W3CPresentationView {
        W3CPresentationView {
            verifiable_credential: Seq::new(
                self.verifiable_credential@.len(),
                |i: int| self.verifiable_credential@[i]@,
            ),
            material: self.material@,
        }
    }
}

/// One credential that goes into a presentation: which of the request's
/// attributes it answers, each revealed or kept hidden, which predicates it
/// proves, and, where the credential can be revoked, the state that shows
/// it was not as of `timestamp`.
#[derive(Debug)]
pub struct PresentCredential<'p, T> {
    pub cred: &'p T,
    pub timestamp: Option<u64>,
    pub rev_state: Option<&'p CredentialRevocationState>,
    pub requested_attributes: Vec<(String, bool)>,
    pub requested_predicates: Vec<String>,
}

/// The model of `PresentCredential` that contracts speak of.
pub struct PresentCredentialView<C> {
    pub cred: C,
    pub timestamp: Option<u64>,
    pub rev_state: Option<CredentialRevocationStateView>,
    pub requested_attributes: Seq<(Seq<char>, bool)>,
    pub requested_predicates: Seq<Seq<char>>,
}

/// The view of an optional revocation state.
pub open spec fn state_view(state: Option<CredentialRevocationState>) -> Option<
    CredentialRevocationStateView,
> {
    match state {
        Some(state) => Some(state@),
        None => None,
    }
}

impl<'p, T: View> View for PresentCredential<'p, T> {
    type V = PresentCredentialView<T::V>;

    open spec fn view(&self) -> PresentCredentialView<T::V> {
        PresentCredentialView {
            cred: self.cred@,
            timestamp: self.timestamp,
            rev_state: match self.rev_state {
                Some(state) => Some(state@),
                None => None,
            },
            requested_attributes: Seq::new(
                self.requested_attributes@.len(),
                |i: int| (self.requested_attributes@[i].0@, self.requested_attributes@[i].1),
            ),
            requested_predicates: self.requested_predicates.deep_view(),
        }
    }
}

/// The credentials that go into one presentation, in the order in which
/// they were chosen.
#[derive(Debug)]
pub struct PresentCredentials<'p, T>(pub Vec<PresentCredential<'p, T>>);

impl<'p, T: View> View for PresentCredentials<'p, T> {
    type V = Seq<PresentCredentialView<T::V>>;

    open spec fn view(&self) -> Seq<PresentCredentialView<T::V>> {
        Seq::new(self.0@.len(), |i: int| self.0@[i]@)
    }
}

} // verus!
