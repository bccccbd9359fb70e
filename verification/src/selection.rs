//! A prover's choice of credentials for a presentation: which credential
//! answers which referent of the request, and in what form.

use crate::ids::{duplicate_registry_id, registry_id_text, RevocationRegistryDefinitionId};
use crate::model::{Credential, CredentialRevocationState};
use crate::presentation::{state_view, PresentCredentialView, W3CCredential};
use vstd::prelude::*;

verus! {

/// The form in which a credential answers one referent of a request.
#[derive(Clone, Copy, Debug, PartialEq, Eq, Structural)]
pub enum PresentAttributeForm {
    RevealedAttribute,
    UnrevealedAttribute,
    Predicate,
}

/// One referent of a request, and the form in which it is answered.
#[derive(Debug)]
pub struct PresentAttribute {
    pub referent: String,
    pub form: PresentAttributeForm,
}

/// The model of `PresentAttribute` that contracts speak of.
pub struct PresentAttributeView {
    pub referent: Seq<char>,
    pub form: PresentAttributeForm,
}

impl View for PresentAttribute {
    type V = PresentAttributeView;

    open spec fn view(&self) -> PresentAttributeView {
        PresentAttributeView { referent: self.referent@, form: self.form }
    }
}

/// One credential of the wallet, named by the identifier it is kept under,
/// and the referents of the request that it answers.
#[derive(Debug)]
pub struct CredentialToPresent {
    pub id: String,
    pub attributes: Vec<PresentAttribute>,
}

/// The model of `CredentialToPresent` that contracts speak of.
pub struct CredentialToPresentView {
    pub id: Seq<char>,
    pub attributes: Seq<PresentAttributeView>,
}

impl View for CredentialToPresent {
    type V = CredentialToPresentView;

    open spec fn view(&self) -> CredentialToPresentView {
        CredentialToPresentView {
            id: self.id@,
            attributes: attributes_view(self.attributes@),
        }
    }
}

/// The views of a list of referents with their forms.
pub open spec fn attributes_view(attributes: Seq<PresentAttribute>) -> Seq<PresentAttributeView> {
    Seq::new(attributes.len(), |i: int| attributes[i]@)
}

/// The views of a list of chosen credentials.
pub open spec fn choices_view(choices: Seq<CredentialToPresent>) -> Seq<CredentialToPresentView> {
    Seq::new(choices.len(), |i: int| choices[i]@)
}

/// A credential that may be bound to a revocation registry.
pub trait RevocableCredential: View + Sized {
    /// The registry that a credential with the view `credential` is bound
    /// to, if it is bound to one.
    spec fn registry_of(credential: <Self as View>::V) -> Option<Seq<char>>;

    /// The registry that the credential is bound to, if it is bound to one.
    fn rev_reg_id(&self) -> (id: Option<RevocationRegistryDefinitionId>)
        ensures
            registry_id_text(id) == Self::registry_of(self@),
    ;
}

impl RevocableCredential for Credential {
    open spec fn registry_of(credential: <Self as View>::V) -> Option<Seq<char>> {
        credential.rev_reg_id
    }

    fn rev_reg_id(&self) -> (id: Option<RevocationRegistryDefinitionId>) {
        duplicate_registry_id(&self.rev_reg_id)
    }
}

impl RevocableCredential for W3CCredential {
    open spec fn registry_of(credential: <Self as View>::V) -> Option<Seq<char>> {
        credential.rev_reg_id
    }

    fn rev_reg_id(&self) -> (id: Option<RevocationRegistryDefinitionId>) {
        duplicate_registry_id(&self.rev_reg_id)
    }
}

/// The referents among `attributes` that are answered by an attribute, in
/// their order, each with whether the attribute is revealed.
pub open spec fn requested_attributes_of(attributes: Seq<PresentAttributeView>) -> Seq<
    (Seq<char>, bool),
>
    decreases attributes.len(),
{
    if attributes.len() == 0 {
        seq![]
    } else {
        let earlier = requested_attributes_of(attributes.drop_last());
        match attributes.last().form {
            PresentAttributeForm::RevealedAttribute => earlier.push(
                (attributes.last().referent, true),
            ),
            PresentAttributeForm::UnrevealedAttribute => earlier.push(
                (attributes.last().referent, false),
            ),
            PresentAttributeForm::Predicate => earlier,
        }
    }
}

/// The referents among `attributes` that are answered by a predicate, in
/// their order.
pub open spec fn requested_predicates_of(attributes: Seq<PresentAttributeView>) -> Seq<Seq<char>>
    decreases attributes.len(),
{
    if attributes.len() == 0 {
        seq![]
    } else {
        let earlier = requested_predicates_of(attributes.drop_last());
        match attributes.last().form {
            PresentAttributeForm::Predicate => earlier.push(attributes.last().referent),
            _ => earlier,
        }
    }
}

/// How the credential `cred`, bound to `registry` if to any, goes into a
/// presentation to answer `attributes`, for a wallet that keeps
/// `rev_states`: with the revocation state and timestamp kept for its
/// registry, or with neither where it is bound to none.
pub open spec fn selection_of<C>(
    cred: C,
    registry: Option<Seq<char>>,
    rev_states: Map<Seq<char>, (Option<CredentialRevocationState>, Option<u64>)>,
    attributes: Seq<PresentAttributeView>,
) -> PresentCredentialView<C> {
    PresentCredentialView {
        cred,
        timestamp: match registry {
            Some(registry) => rev_states[registry].1,
            None => None,
        },
        rev_state: match registry {
            Some(registry) => state_view(rev_states[registry].0),
            None => None,
        },
        requested_attributes: requested_attributes_of(attributes),
        requested_predicates: requested_predicates_of(attributes),
    }
}

/// The views of the pairs of referent and flag held in `pairs`.
pub open spec fn pairs_view(pairs: Seq<(String, bool)>) -> Seq<(Seq<char>, bool)> {
    Seq::new(pairs.len(), |i: int| (pairs[i].0@, pairs[i].1))
}

/// Sorts the referents of `attributes` into those answered by an attribute
/// and those answered by a predicate.
pub fn requested_parts(attributes: &Vec<PresentAttribute>) -> (parts: (
    Vec<(String, bool)>,
    Vec<String>,
))
    ensures
        pairs_view(parts.0@) == requested_attributes_of(attributes_view(attributes@)),
        parts.1.deep_view() == requested_predicates_of(attributes_view(attributes@)),
{
    let ghost all = attributes_view(attributes@);
    let mut requested_attributes: Vec<(String, bool)> = Vec::new();
    let mut requested_predicates: Vec<String> = Vec::new();
    let mut i: usize = 0;
    assert(pairs_view(requested_attributes@) =~= requested_attributes_of(all.subrange(0, 0)));
    assert(requested_predicates.deep_view() =~= requested_predicates_of(all.subrange(0, 0)));
    while i < attributes.len()
        invariant
            i <= attributes@.len(),
            all == attributes_view(attributes@),
            pairs_view(requested_attributes@) == requested_attributes_of(
                all.subrange(0, i as int),
            ),
            requested_predicates.deep_view() == requested_predicates_of(all.subrange(0, i as int)),
        decreases attributes@.len() - i,
    {
        let attribute = &attributes[i];
        let ghost attributes_before = pairs_view(requested_attributes@);
        let ghost predicates_before = requested_predicates.deep_view();
        match attribute.form {
            PresentAttributeForm::RevealedAttribute => {
                requested_attributes.push((attribute.referent.clone(), true));
                assert(pairs_view(requested_attributes@) =~= attributes_before.push(
                    (attribute.referent@, true),
                ));
            },
            PresentAttributeForm::UnrevealedAttribute => {
                requested_attributes.push((attribute.referent.clone(), false));
                assert(pairs_view(requested_attributes@) =~= attributes_before.push(
                    (attribute.referent@, false),
                ));
            },
            PresentAttributeForm::Predicate => {
                requested_predicates.push(attribute.referent.clone());
                assert(requested_predicates.deep_view() =~= predicates_before.push(
                    attribute.referent@,
                ));
            },
        }
        proof {
            let longer = all.subrange(0, i + 1);
            assert(longer.drop_last() =~= all.subrange(0, i as int));
            assert(longer.last() == attribute@);
        }
        i = i + 1;
    }
    assert(all.subrange(0, i as int) =~= all);
    (requested_attributes, requested_predicates)
}

/// What a credential answers in a presentation does not depend on the
/// revocation states that the wallet keeps: made with other states, the
/// same choice shows the same credential for the same referents in the
/// same forms, and differs at most in the state and the timestamp that go
/// with it. For a credential bound to no registry it does not differ at all.
pub proof fn lemma_selection_differs_in_state_only<C>(
    cred: C,
    registry: Option<Seq<char>>,
    earlier: Map<Seq<char>, (Option<CredentialRevocationState>, Option<u64>)>,
    later: Map<Seq<char>, (Option<CredentialRevocationState>, Option<u64>)>,
    attributes: Seq<PresentAttributeView>,
)
    ensures
        selection_of(cred, registry, later, attributes) == (PresentCredentialView {
            timestamp: selection_of(cred, registry, later, attributes).timestamp,
            rev_state: selection_of(cred, registry, later, attributes).rev_state,
            ..selection_of(cred, registry, earlier, attributes)
        }),
        registry is None ==> selection_of(cred, registry, later, attributes) == selection_of(
            cred,
            registry,
            earlier,
            attributes,
        ),
{
}

} // verus!
