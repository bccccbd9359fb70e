//! The verifier: what it asks of a prover, and what it checks an answer against.

use crate::error::Error;
use crate::ids::{CredentialDefinitionId, RevocationRegistryDefinitionId, SchemaId};
use crate::model::{
    CredentialDefinition, CredentialDefinitionView, Nonce, RevocationRegistryDefinition,
    RevocationRegistryDefinitionView, RevocationStatusList, Schema, SchemaView,
};
use crate::presentation::{
    IdentifierView, Presentation, PresentationRequest, PresentationRequestView,
    RequestedAttribute,
};
use crate::registry::{Record, Registry};
use crate::vdr::Vdr;
use vstd::prelude::*;
use vstd::string::StringExecFns;

verus! {

/// A verifier's copies of what it fetched from the registry.
#[derive(Debug)]
pub struct Verifier {
    pub cached_schemas: Registry<Schema>,
    pub cached_cred_defs: Registry<CredentialDefinition>,
    pub cached_rev_reg_defs: Registry<RevocationRegistryDefinition>,
}

/// The model of `Verifier` that contracts speak of.
pub struct VerifierView {
    pub cached_schemas: Map<Seq<char>, SchemaView>,
    pub cached_cred_defs: Map<Seq<char>, CredentialDefinitionView>,
    pub cached_rev_reg_defs: Map<Seq<char>, RevocationRegistryDefinitionView>,
}

impl View for Verifier {
    type V = VerifierView;

    open spec fn view(&self) -> VerifierView {
        VerifierView {
            cached_schemas: self.cached_schemas@,
            cached_cred_defs: self.cached_cred_defs@,
            cached_rev_reg_defs: self.cached_rev_reg_defs@,
        }
    }
}

/// The verifier that has fetched nothing.
pub open spec fn empty_verifier() -> VerifierView {
    VerifierView {
        cached_schemas: Map::empty(),
        cached_cred_defs: Map::empty(),
        cached_rev_reg_defs: Map::empty(),
    }
}

/// What is handed to the credential library, beside the presentation and
/// the request it answers, to verify the presentation.
#[derive(Debug)]
pub struct VerificationInputs<'a> {
    pub schemas: &'a Registry<Schema>,
    pub cred_defs: &'a Registry<CredentialDefinition>,
    pub rev_reg_defs: Registry<RevocationRegistryDefinition>,
    pub rev_status_lists: Vec<RevocationStatusList>,
}

/// Why a presentation made under `identifier` cannot be checked by the
/// verifier `verifier`, if it cannot: the verifier has not fetched the
/// schema, or else the credential definition, or else the revocation
/// registry definition, where the identifier names one.
pub open spec fn unresolved(verifier: VerifierView, identifier: IdentifierView) -> Option<Error> {
    if !verifier.cached_schemas.contains_key(identifier.schema_id) {
        Some(Error::SchemaNotFound)
    } else if !verifier.cached_cred_defs.contains_key(identifier.cred_def_id) {
        Some(Error::CredentialDefinitionNotFound)
    } else if identifier.rev_reg_id matches Some(registry)
        && !verifier.cached_rev_reg_defs.contains_key(registry) {
        Some(Error::RevocationRegistryDefinitionNotFound)
    } else {
        None
    }
}

/// Why a presentation made under `identifiers` cannot be checked by the
/// verifier `verifier`, if it cannot: what is unresolved of the first of
/// the identifiers, in their order, of which something is.
pub open spec fn first_unresolved(verifier: VerifierView, identifiers: Seq<IdentifierView>) -> Option<
    Error,
>
    decreases identifiers.len(),
{
    if identifiers.len() == 0 {
        None
    } else if unresolved(verifier, identifiers[0]) is Some {
        unresolved(verifier, identifiers[0])
    } else {
        first_unresolved(verifier, identifiers.drop_first())
    }
}

/// The request for the attributes `name` and `age` that a verifier of this
/// kind makes.
pub open spec fn name_and_age_request(
    nonce: Seq<char>,
    name: Seq<char>,
    version: Seq<char>,
) -> PresentationRequestView {
    PresentationRequestView {
        nonce,
        name,
        version,
        requested_attributes: seq![("name_attr"@, "name"@), ("age_attr"@, "age"@)],
        requested_predicates: seq![],
        non_revoked: None,
    }
}

impl Default for Verifier {
    fn default() -> (verifier: Self)
        ensures
            verifier@ == empty_verifier(),
    {
        Verifier::new()
    }
}

impl Verifier {
    /// A verifier that has fetched nothing.
    pub fn new() -> (verifier: Self)
        ensures
            verifier@ == empty_verifier(),
    {
        Verifier {
            cached_schemas: Registry::new(),
            cached_cred_defs: Registry::new(),
            cached_rev_reg_defs: Registry::new(),
        }
    }

    /// The request called `name`, of version `version`, that asks to see the
    /// attribute `name` as `name_attr` and the attribute `age` as
    /// `age_attr`, and asks for no predicate. `nonce` must be one that no
    /// other request carries: the caller draws a new one for each call.
    pub fn create_presentation_request(&self, nonce: Nonce, name: &str, version: &str) -> (request:
        PresentationRequest)
        ensures
            request@ == name_and_age_request(nonce@, name@, version@),
    {
        let mut requested_attributes: Vec<RequestedAttribute> = Vec::new();
        requested_attributes.push(
            RequestedAttribute {
                referent: String::from_str("name_attr"),
                name: String::from_str("name"),
            },
        );
        requested_attributes.push(
            RequestedAttribute {
                referent: String::from_str("age_attr"),
                name: String::from_str("age"),
            },
        );
        let request = PresentationRequest {
            nonce,
            name: String::from_str(name),
            version: String::from_str(version),
            requested_attributes,
            requested_predicates: Vec::new(),
            non_revoked: None,
        };
        assert(request@.requested_attributes =~= seq![
            ("name_attr"@, "name"@),
            ("age_attr"@, "age"@),
        ]);
        assert(request@.requested_predicates =~= seq![]);
        request
    }

    /// What to hand to the credential library to verify `presentation`: the
    /// schemas and credential definitions fetched so far, a copy of the
    /// revocation registry definitions fetched so far, and
    /// `rev_status_lists`, the snapshots of the status lists for the span of
    /// time that the request asks about, as they are and in their order.
    /// Refused as `first_unresolved` says, when the presentation names a
    /// schema, a credential definition or a revocation registry definition
    /// that was not fetched.
    pub fn verify_presentation<'a>(
        &'a self,
        presentation: &Presentation,
        rev_status_lists: Vec<RevocationStatusList>,
    ) -> (inputs: Result<VerificationInputs<'a>, Error>)
        ensures
            match inputs {
                Ok(inputs) => {
                    &&& first_unresolved(self@, presentation@.identifiers) is None
                    &&& inputs.schemas@ == self@.cached_schemas
                    &&& inputs.cred_defs@ == self@.cached_cred_defs
                    &&& inputs.rev_reg_defs@ == self@.cached_rev_reg_defs
                    &&& inputs.rev_status_lists@ == rev_status_lists@
                },
                Err(error) => first_unresolved(self@, presentation@.identifiers) == Some(error),
            },
    {
        let ghost identifiers = presentation@.identifiers;
        let mut i: usize = 0;
        assert(identifiers.subrange(0, identifiers.len() as int) =~= identifiers);
        while i < presentation.identifiers.len()
            invariant
                i <= presentation.identifiers@.len(),
                identifiers == presentation@.identifiers,
                first_unresolved(self@, identifiers) == first_unresolved(
                    self@,
                    identifiers.subrange(i as int, identifiers.len() as int),
                ),
            decreases presentation.identifiers@.len() - i,
        {
            let identifier = &presentation.identifiers[i];
            let ghost rest = identifiers.subrange(i as int, identifiers.len() as int);
            assert(rest[0] == identifier@);
            assert(rest.drop_first() =~= identifiers.subrange(i + 1, identifiers.len() as int));
            if !self.cached_schemas.contains_key(&identifier.schema_id.0) {
                return Err(Error::SchemaNotFound);
            }
            if !self.cached_cred_defs.contains_key(&identifier.cred_def_id.0) {
                return Err(Error::CredentialDefinitionNotFound);
            }
            match &identifier.rev_reg_id {
                Some(registry) => {
                    if !self.cached_rev_reg_defs.contains_key(&registry.0) {
                        return Err(Error::RevocationRegistryDefinitionNotFound);
                    }
                },
                None => {},
            }
            i = i + 1;
        }
        assert(identifiers.subrange(i as int, identifiers.len() as int).len() == 0);
        Ok(
            VerificationInputs {
                schemas: &self.cached_schemas,
                cred_defs: &self.cached_cred_defs,
                rev_reg_defs: self.cached_rev_reg_defs.duplicate(),
                rev_status_lists,
            },
        )
    }

    /// Fetches the schema published under `schema_id` in `vdr`, keeps a copy
    /// of it and hands the copy out. Nothing is kept when `vdr` has no such
    /// schema.
    pub fn fetch_schema_from_vdr(&mut self, vdr: &Vdr, schema_id: &SchemaId) -> (found: Option<
        &Schema,
    >)
        ensures
            match found {
                Some(schema) => {
                    &&& vdr@.schemas.contains_key(schema_id@)
                    &&& schema@ == vdr@.schemas[schema_id@]
                    &&& final(self)@ == (VerifierView {
                        cached_schemas: old(self)@.cached_schemas.insert(
                            schema_id@,
                            vdr@.schemas[schema_id@],
                        ),
                        ..old(self)@
                    })
                },
                None => !vdr@.schemas.contains_key(schema_id@) && final(self)@ == old(self)@,
            },
    {
        match vdr.get_schema(schema_id) {
            Some(schema) => {
                self.cached_schemas.insert(schema_id.0.clone(), schema.duplicate());
                self.cached_schemas.get(&schema_id.0)
            },
            None => None,
        }
    }

    /// Fetches the credential definition published under `cred_def_id` in
    /// `vdr`, keeps a copy of it and hands the copy out. Nothing is kept
    /// when `vdr` has no such credential definition.
    pub fn fetch_credential_definition_from_vdr(
        &mut self,
        vdr: &Vdr,
        cred_def_id: &CredentialDefinitionId,
    ) -> (found: Option<&CredentialDefinition>)
        ensures
            match found {
                Some(cred_def) => {
                    &&& vdr@.cred_defs.contains_key(cred_def_id@)
                    &&& cred_def@ == vdr@.cred_defs[cred_def_id@]
                    &&& final(self)@ == (VerifierView {
                        cached_cred_defs: old(self)@.cached_cred_defs.insert(
                            cred_def_id@,
                            vdr@.cred_defs[cred_def_id@],
                        ),
                        ..old(self)@
                    })
                },
                None => !vdr@.cred_defs.contains_key(cred_def_id@) && final(self)@ == old(self)@,
            },
    {
        match vdr.get_credential_definition(cred_def_id) {
            Some(cred_def) => {
                self.cached_cred_defs.insert(cred_def_id.0.clone(), cred_def.duplicate());
                self.cached_cred_defs.get(&cred_def_id.0)
            },
            None => None,
        }
    }

    /// Fetches the revocation registry definition published under
    /// `rev_reg_def_id` in `vdr`, keeps a copy of it and hands the copy out.
    /// Nothing is kept when `vdr` has no such definition.
    pub fn fetch_revocation_registry_definition_from_vdr(
        &mut self,
        vdr: &Vdr,
        rev_reg_def_id: &RevocationRegistryDefinitionId,
    ) -> (found: Option<&RevocationRegistryDefinition>)
        ensures
            match found {
                Some(rev_reg_def) => {
                    &&& vdr@.rev_reg_defs.contains_key(rev_reg_def_id@)
                    &&& rev_reg_def@ == vdr@.rev_reg_defs[rev_reg_def_id@]
                    &&& final(self)@ == (VerifierView {
                        cached_rev_reg_defs: old(self)@.cached_rev_reg_defs.insert(
                            rev_reg_def_id@,
                            vdr@.rev_reg_defs[rev_reg_def_id@],
                        ),
                        ..old(self)@
                    })
                },
                None => !vdr@.rev_reg_defs.contains_key(rev_reg_def_id@) && final(self)@ == old(
                    self,
                )@,
            },
    {
        match vdr.get_revocation_registry_definition(rev_reg_def_id) {
            Some(rev_reg_def) => {
                self.cached_rev_reg_defs.insert(rev_reg_def_id.0.clone(), rev_reg_def.duplicate());
                self.cached_rev_reg_defs.get(&rev_reg_def_id.0)
            },
            None => None,
        }
    }

    /// The schemas fetched so far.
    pub fn get_cached_schemas(&self) -> (cached: &Registry<Schema>)
        ensures
            cached@ == self@.cached_schemas,
    {
        &self.cached_schemas
    }

    /// The credential definitions fetched so far.
    pub fn get_cached_cred_defs(&self) -> (cached: &Registry<CredentialDefinition>)
        ensures
            cached@ == self@.cached_cred_defs,
    {
        &self.cached_cred_defs
    }

    /// The revocation registry definitions fetched so far.
    pub fn get_cached_rev_reg_defs(&self) -> (cached: &Registry<RevocationRegistryDefinition>)
        ensures
            cached@ == self@.cached_rev_reg_defs,
    {
        &self.cached_rev_reg_defs
    }
}

} // verus!
