//! The prover: the credentials it holds, and what it has fetched to use them.

use crate::ids::{CredentialDefinitionId, SchemaId};
use crate::model::{
    Credential, CredentialDefinition, CredentialDefinitionView, CredentialOffer,
    CredentialRequestMetadata, CredentialRevocationState, CredentialRevocationStateView,
    CredentialView, LinkSecret, Schema, SchemaView,
};
use crate::presentation::{PresentCredential, PresentCredentialView, PresentCredentials};
use crate::registry::{Record, Registry};
use crate::selection::{
    attributes_view, requested_attributes_of, requested_parts, requested_predicates_of,
    PresentAttribute, PresentAttributeView,
};
use crate::vdr::Vdr;
use vstd::prelude::*;

verus! {

/// A prover's link secret, the credentials issued to it, in the order in
/// which it took them in, and its copies of what it fetched from the registry.
#[derive(Debug)]
pub struct Prover {
    pub link_secret: LinkSecret,
    pub credentials: Vec<Credential>,
    pub credential_metadata: Registry<CredentialRequestMetadata>,
    pub revocation_states: Registry<CredentialRevocationState>,
    pub cached_schemas: Registry<Schema>,
    pub cached_cred_defs: Registry<CredentialDefinition>,
}

/// The model of `Prover` that contracts speak of.
pub struct ProverView {
    pub link_secret: Seq<char>,
    pub credentials: Seq<CredentialView>,
    pub credential_metadata: Map<Seq<char>, Seq<char>>,
    pub revocation_states: Map<Seq<char>, CredentialRevocationStateView>,
    pub cached_schemas: Map<Seq<char>, SchemaView>,
    pub cached_cred_defs: Map<Seq<char>, CredentialDefinitionView>,
}

impl View for Prover {
    type V = ProverView;

    open spec fn view(&self) -> ProverView {
        ProverView {
            link_secret: self.link_secret@,
            credentials: Seq::new(self.credentials@.len(), |i: int| self.credentials@[i]@),
            credential_metadata: self.credential_metadata@,
            revocation_states: self.revocation_states@,
            cached_schemas: self.cached_schemas@,
            cached_cred_defs: self.cached_cred_defs@,
        }
    }
}

/// What is handed to the credential library to request the credential that
/// `offer` offers. No prover DID goes with it.
#[derive(Debug)]
pub struct CredentialRequestInputs<'a> {
    pub entropy: &'a str,
    pub cred_def: &'a CredentialDefinition,
    pub link_secret: &'a LinkSecret,
    pub link_secret_id: &'a str,
    pub offer: &'a CredentialOffer,
}

/// Whether a prover that holds `credentials` and keeps `states` can
/// present every credential it holds: for each that is bound to a
/// revocation registry, it keeps a revocation state of that registry.
pub open spec fn all_presentable(
    credentials: Seq<CredentialView>,
    states: Map<Seq<char>, CredentialRevocationStateView>,
) -> bool {
    forall|i: int|
        0 <= i < credentials.len() ==> ((#[trigger] credentials[i]).rev_reg_id matches Some(
            registry,
        ) ==> states.contains_key(registry))
}

/// How the credential `cred` goes into a presentation to answer
/// `attributes`, for a prover that keeps `states`: where it is bound to a
/// revocation registry, with the state kept for that registry and the
/// timestamp that the state is good for; where it is bound to none, with
/// neither.
pub open spec fn held_selection(
    cred: CredentialView,
    states: Map<Seq<char>, CredentialRevocationStateView>,
    attributes: Seq<PresentAttributeView>,
) -> PresentCredentialView<CredentialView> {
    PresentCredentialView {
        cred,
        timestamp: match cred.rev_reg_id {
            Some(registry) => Some(states[registry].timestamp),
            None => None,
        },
        rev_state: match cred.rev_reg_id {
            Some(registry) => Some(states[registry]),
            None => None,
        },
        requested_attributes: requested_attributes_of(attributes),
        requested_predicates: requested_predicates_of(attributes),
    }
}

impl Prover {
    /// A prover that holds `link_secret` and nothing else.
    pub fn new(link_secret: LinkSecret) -> (prover: Self)
        ensures
            prover@ == (ProverView {
                link_secret: link_secret@,
                credentials: Seq::empty(),
                credential_metadata: Map::empty(),
                revocation_states: Map::empty(),
                cached_schemas: Map::empty(),
                cached_cred_defs: Map::empty(),
            }),
    {
        let prover = Prover {
            link_secret,
            credentials: Vec::new(),
            credential_metadata: Registry::new(),
            revocation_states: Registry::new(),
            cached_schemas: Registry::new(),
            cached_cred_defs: Registry::new(),
        };
        assert(prover@.credentials =~= Seq::empty());
        prover
    }

    /// What to hand to the credential library to request the credential
    /// that `offer` offers under `cred_def`: this prover's link secret,
    /// named `my-secret`, and the entropy `entropy`.
    pub fn create_credential_request<'a>(
        &'a self,
        cred_def: &'a CredentialDefinition,
        offer: &'a CredentialOffer,
    ) -> (inputs: CredentialRequestInputs<'a>)
        ensures
            inputs.entropy@ == "entropy"@,
            inputs.cred_def@ == cred_def@,
            inputs.link_secret@ == self@.link_secret,
            inputs.link_secret_id@ == "my-secret"@,
            inputs.offer@ == offer@,
    {
        CredentialRequestInputs {
            entropy: "entropy",
            cred_def,
            link_secret: &self.link_secret,
            link_secret_id: "my-secret",
            offer,
        }
    }

    /// Takes in `credential`, which the credential library has checked and
    /// unblinded with this prover's link secret: it becomes the last of the
    /// credentials held.
    pub fn process_credential(&mut self, credential: Credential)
        ensures
            final(self)@ == (ProverView {
                credentials: old(self)@.credentials.push(credential@),
                ..old(self)@
            }),
    {
        self.credentials.push(credential);
        assert(self@.credentials =~= old(self)@.credentials.push(credential@));
    }

    /// Which credentials go into a presentation, and how: every credential
    /// held, in the order held, each answering the referents of
    /// `attributes` in the forms that the caller gave them, and each as
    /// `held_selection` says. A credential bound to a revocation registry
    /// can be presented only with a revocation state of that registry: the
    /// prover must keep one for each.
    pub fn create_presentation(&self, attributes: &Vec<PresentAttribute>) -> (selection:
        PresentCredentials<'_, Credential>)
        requires
            all_presentable(self@.credentials, self@.revocation_states),
        ensures
            selection@.len() == self@.credentials.len(),
            forall|i: int|
                0 <= i < selection@.len() ==> #[trigger] selection@[i] == held_selection(
                    self@.credentials[i],
                    self@.revocation_states,
                    attributes_view(attributes@),
                ),
    {
        let mut chosen: Vec<PresentCredential<'_, Credential>> = Vec::new();
        let mut i: usize = 0;
        while i < self.credentials.len()
            invariant
                i <= self.credentials@.len(),
                all_presentable(self@.credentials, self@.revocation_states),
                chosen@.len() == i,
                forall|j: int|
                    0 <= j < i ==> (#[trigger] chosen@[j])@ == held_selection(
                        self.credentials@[j]@,
                        self@.revocation_states,
                        attributes_view(attributes@),
                    ),
            decreases self.credentials@.len() - i,
        {
            let credential = &self.credentials[i];
            assert(self@.credentials[i as int] == credential@);
            let (rev_state, timestamp) = match &credential.rev_reg_id {
                Some(registry) => match self.revocation_states.get(&registry.0) {
                    Some(state) => (Some(state), Some(state.timestamp)),
                    None => vstd::pervasive::unreached(),
                },
                None => (None, None),
            };
            let (requested_attributes, requested_predicates) = requested_parts(attributes);
            let entry = PresentCredential {
                cred: credential,
                timestamp,
                rev_state,
                requested_attributes,
                requested_predicates,
            };
            proof {
                let wanted = held_selection(
                    credential@,
                    self@.revocation_states,
                    attributes_view(attributes@),
                );
                assert(entry@.requested_attributes =~= wanted.requested_attributes);
                assert(entry@.requested_predicates =~= wanted.requested_predicates);
                assert(entry@ == wanted);
            }
            chosen.push(entry);
            i = i + 1;
        }
        PresentCredentials(chosen)
    }

    /// Fetches the schema published under `schema_id` in `vdr`, keeps a copy
    /// of it and hands the copy out. Nothing is kept when `vdr` has no such
    /// schema.
    pub fn fetch_schema_from_vdr(&mut self, vdr: &Vdr, schema_id: &SchemaId) -> (found: Option<
        &Schema,
    >)
        ensures
            match found {
                Some(schema) => {
                    &&& vdr@.schemas.contains_key(schema_id@)
                    &&& schema@ == vdr@.schemas[schema_id@]
                    &&& final(self)@ == (ProverView {
                        cached_schemas: old(self)@.cached_schemas.insert(
                            schema_id@,
                            vdr@.schemas[schema_id@],
                        ),
                        ..old(self)@
                    })
                },
                None => !vdr@.schemas.contains_key(schema_id@) && final(self)@ == old(self)@,
            },
    {
        match vdr.get_schema(schema_id) {
            Some(schema) => {
                self.cached_schemas.insert(schema_id.0.clone(), schema.duplicate());
                self.cached_schemas.get(&schema_id.0)
            },
            None => None,
        }
    }

    /// Fetches the credential definition published under `cred_def_id` in
    /// `vdr`, keeps a copy of it and hands the copy out. Nothing is kept
    /// when `vdr` has no such credential definition.
    pub fn fetch_credential_definition_from_vdr(
        &mut self,
        vdr: &Vdr,
        cred_def_id: &CredentialDefinitionId,
    ) -> (found: Option<&CredentialDefinition>)
        ensures
            match found {
                Some(cred_def) => {
                    &&& vdr@.cred_defs.contains_key(cred_def_id@)
                    &&& cred_def@ == vdr@.cred_defs[cred_def_id@]
                    &&& final(self)@ == (ProverView {
                        cached_cred_defs: old(self)@.cached_cred_defs.insert(
                            cred_def_id@,
                            vdr@.cred_defs[cred_def_id@],
                        ),
                        ..old(self)@
                    })
                },
                None => !vdr@.cred_defs.contains_key(cred_def_id@) && final(self)@ == old(self)@,
            },
    {
        match vdr.get_credential_definition(cred_def_id) {
            Some(cred_def) => {
                self.cached_cred_defs.insert(cred_def_id.0.clone(), cred_def.duplicate());
                self.cached_cred_defs.get(&cred_def_id.0)
            },
            None => None,
        }
    }

    /// The schemas fetched so far.
    pub fn get_cached_schemas(&self) -> (cached: &Registry<Schema>)
        ensures
            cached@ == self@.cached_schemas,
    {
        &self.cached_schemas
    }

    /// The credential definitions fetched so far.
    pub fn get_cached_cred_defs(&self) -> (cached: &Registry<CredentialDefinition>)
        ensures
            cached@ == self@.cached_cred_defs,
    {
        &self.cached_cred_defs
    }
}

} // verus!
