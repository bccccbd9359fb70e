//! The issuer: what it has created, and what it may create next.

use crate::error::Error;
use crate::ids::{CredentialDefinitionId, IssuerId, RevocationRegistryDefinitionId, SchemaId};
use crate::model::{
    CredentialDefinition, CredentialDefinitionPrivate, CredentialDefinitionView,
    CredentialKeyCorrectnessProof, CredentialOffer, CredentialRevocationConfig,
    CredentialRevocationConfigView, RegistryType, RevocationRegistryDefinition,
    RevocationRegistryDefinitionPrivate, RevocationRegistryDefinitionView, RevocationStatusList,
    RevocationStatusListView, Schema, SchemaView, SignatureType,
};
use crate::registry::{Record, Registry};
use crate::vdr::{Vdr, VdrView};
use vstd::prelude::*;
use vstd::string::StringExecFns;

verus! {

/// The text of the identifier of the schema called `name`.
pub open spec fn schema_id_text(name: Seq<char>) -> Seq<char> {
    "vdr://schemas/"@ + name + "?drf=midnight"@
}

/// The text of the identifier of the credential definition made for the
/// schema `schema_id` under `tag`.
pub open spec fn credential_definition_id_text(schema_id: Seq<char>, tag: Seq<char>) -> Seq<char> {
    "vdr://credential-definitions/"@ + schema_id + "-"@ + tag + "?drf=midnight"@
}

/// The text of the identifier of the revocation registry made for the
/// credential definition `cred_def_id` under `tag`.
pub open spec fn revocation_registry_definition_id_text(
    cred_def_id: Seq<char>,
    tag: Seq<char>,
) -> Seq<char> {
    "vdr://revocation-registry-definitions/"@ + cred_def_id + "-"@ + tag
}

/// An issuer's own copy of everything it has created. The private halves
/// never leave it.
#[derive(Debug)]
pub struct Issuer {
    pub id: IssuerId,
    pub schemas: Registry<Schema>,
    pub cred_defs: Registry<(CredentialDefinition, CredentialDefinitionPrivate)>,
    pub correctness_proofs: Registry<CredentialKeyCorrectnessProof>,
    pub rev_reg_defs: Registry<
        (RevocationRegistryDefinition, RevocationRegistryDefinitionPrivate),
    >,
    pub rev_status_lists: Registry<RevocationStatusList>,
}

/// The model of `Issuer` that contracts speak of.
pub struct IssuerView {
    pub id: Seq<char>,
    pub schemas: Map<Seq<char>, SchemaView>,
    pub cred_defs: Map<Seq<char>, (CredentialDefinitionView, Seq<char>)>,
    pub correctness_proofs: Map<Seq<char>, Seq<char>>,
    pub rev_reg_defs: Map<Seq<char>, (RevocationRegistryDefinitionView, Seq<char>)>,
    pub rev_status_lists: Map<Seq<char>, RevocationStatusListView>,
}

impl View for Issuer {
    type V = IssuerView;

    open spec fn view(&self) -> IssuerView {
        IssuerView {
            id: self.id@,
            schemas: self.schemas@,
            cred_defs: self.cred_defs@,
            correctness_proofs: self.correctness_proofs@,
            rev_reg_defs: self.rev_reg_defs@,
            rev_status_lists: self.rev_status_lists@,
        }
    }
}

/// What is handed to the credential library to make a schema.
#[derive(Debug)]
pub struct SchemaInputs<'a> {
    pub schema_id: SchemaId,
    pub issuer_id: &'a IssuerId,
}

/// What is handed to the credential library to make a credential definition.
#[derive(Debug)]
pub struct CredentialDefinitionInputs<'a> {
    pub cred_def_id: CredentialDefinitionId,
    pub schema_id: &'a SchemaId,
    pub schema: &'a Schema,
    pub issuer_id: &'a IssuerId,
    pub signature_type: SignatureType,
    pub support_revocation: bool,
}

/// What is handed to the credential library to make a revocation registry.
#[derive(Debug)]
pub struct RevocationRegistryInputs<'a> {
    pub rev_reg_def_id: RevocationRegistryDefinitionId,
    pub cred_def: &'a CredentialDefinition,
    pub cred_def_id: &'a CredentialDefinitionId,
    pub registry_type: RegistryType,
    pub max_credentials: u32,
}

/// What is handed to the credential library to make a credential offer.
#[derive(Debug)]
pub struct CredentialOfferInputs<'a> {
    pub schema_id: &'a SchemaId,
    pub cred_def_id: &'a CredentialDefinitionId,
    pub correctness_proof: &'a CredentialKeyCorrectnessProof,
}

/// The wish to bind a credential, when it is signed, to the index
/// `registry_idx` of the revocation registry `rev_reg_def_id`, as of
/// `status_list`.
#[derive(Debug)]
pub struct CredentialBinding<'a> {
    pub rev_reg_def_id: &'a RevocationRegistryDefinitionId,
    pub registry_idx: u32,
    pub status_list: &'a RevocationStatusList,
}

/// The model of `CredentialBinding` that contracts speak of.
pub struct CredentialBindingView {
    pub rev_reg_def_id: Seq<char>,
    pub registry_idx: u32,
    pub status_list: RevocationStatusListView,
}

impl<'a> View for CredentialBinding<'a> {
    type V = CredentialBindingView;

    open spec fn view(&self) -> CredentialBindingView {
        CredentialBindingView {
            rev_reg_def_id: self.rev_reg_def_id@,
            registry_idx: self.registry_idx,
            status_list: self.status_list@,
        }
    }
}

/// The view of a binding that may be asked for.
pub open spec fn binding_view(binding: Option<CredentialBinding>) -> Option<CredentialBindingView> {
    match binding {
        Some(binding) => Some(binding@),
        None => None,
    }
}

/// The view of a revocation config that may be handed out.
pub open spec fn config_view(config: Option<CredentialRevocationConfig>) -> Option<
    CredentialRevocationConfigView,
> {
    match config {
        Some(config) => Some(config@),
        None => None,
    }
}

/// What is handed to the credential library, beside the offer, the request
/// and the attribute values, to sign a credential: both halves of the
/// credential definition, and, where the credential is bound to a
/// revocation registry, the binding.
#[derive(Debug)]
pub struct CredentialInputs<'a> {
    pub cred_def: &'a CredentialDefinition,
    pub cred_def_private: &'a CredentialDefinitionPrivate,
    pub revocation_config: Option<CredentialRevocationConfig<'a>>,
}

/// Which error, if any, stops the issuer `issuer` from signing a credential
/// under the credential definition `cred_def_id` with the binding
/// `binding`: the credential definition must be its own, and so must the
/// registry of the binding, where one is asked for.
pub open spec fn issue_refusal(
    issuer: IssuerView,
    cred_def_id: Seq<char>,
    binding: Option<CredentialBindingView>,
) -> Option<Error> {
    if !issuer.cred_defs.contains_key(cred_def_id) {
        Some(Error::CredentialDefinitionNotFound)
    } else if binding matches Some(asked) && !issuer.rev_reg_defs.contains_key(
        asked.rev_reg_def_id,
    ) {
        Some(Error::RevocationRegistryDefinitionNotFound)
    } else {
        None
    }
}

/// The revocation config that the issuer `issuer` hands out for the
/// binding `binding`: both halves of the registry that the binding names,
/// as the issuer keeps them, with the index and the status list asked for;
/// none where no binding is asked for.
pub open spec fn issued_config(issuer: IssuerView, binding: Option<CredentialBindingView>) -> Option<
    CredentialRevocationConfigView,
> {
    match binding {
        Some(asked) => Some(
            CredentialRevocationConfigView {
                reg_def: issuer.rev_reg_defs[asked.rev_reg_def_id].0,
                reg_def_private: issuer.rev_reg_defs[asked.rev_reg_def_id].1,
                registry_idx: asked.registry_idx,
                status_list: asked.status_list,
            },
        ),
        None => None,
    }
}

/// What is handed to the credential library to make the first status list
/// of a revocation registry.
#[derive(Debug)]
pub struct RevocationStatusListInputs<'a> {
    pub cred_def: &'a CredentialDefinition,
    pub rev_reg_def_id: &'a RevocationRegistryDefinitionId,
    pub rev_reg_def: &'a RevocationRegistryDefinition,
    pub rev_reg_def_private: &'a RevocationRegistryDefinitionPrivate,
    pub issuance_by_default: bool,
    pub timestamp: Option<u64>,
}

/// Whether the issuer `issuer` can offer credentials under the credential
/// definition `cred_def_id`: it can when it keeps a correctness proof for it.
pub open spec fn can_offer(issuer: IssuerView, cred_def_id: Seq<char>) -> bool {
    issuer.correctness_proofs.contains_key(cred_def_id)
}

/// The issuer `issuer` after it has recorded `schema` under `schema_id`.
pub open spec fn with_schema(issuer: IssuerView, schema_id: Seq<char>, schema: SchemaView) -> IssuerView {
    IssuerView { schemas: issuer.schemas.insert(schema_id, schema), ..issuer }
}

/// The issuer `issuer` after it has recorded a credential definition, with
/// its private half and its correctness proof, under `cred_def_id`.
pub open spec fn with_credential_definition(
    issuer: IssuerView,
    cred_def_id: Seq<char>,
    cred_def: CredentialDefinitionView,
    cred_def_private: Seq<char>,
    correctness_proof: Seq<char>,
) -> IssuerView {
    IssuerView {
        cred_defs: issuer.cred_defs.insert(cred_def_id, (cred_def, cred_def_private)),
        correctness_proofs: issuer.correctness_proofs.insert(cred_def_id, correctness_proof),
        ..issuer
    }
}

/// The issuer `issuer` after it has recorded a revocation registry
/// definition, with its private half, under `rev_reg_def_id`.
pub open spec fn with_revocation_registry(
    issuer: IssuerView,
    rev_reg_def_id: Seq<char>,
    rev_reg_def: RevocationRegistryDefinitionView,
    rev_reg_def_private: Seq<char>,
) -> IssuerView {
    IssuerView {
        rev_reg_defs: issuer.rev_reg_defs.insert(rev_reg_def_id, (rev_reg_def, rev_reg_def_private)),
        ..issuer
    }
}

/// The issuer `issuer` after it has recorded `list` as the current status
/// list of the registry `rev_reg_def_id`.
pub open spec fn with_status_list(
    issuer: IssuerView,
    rev_reg_def_id: Seq<char>,
    list: RevocationStatusListView,
) -> IssuerView {
    IssuerView { rev_status_lists: issuer.rev_status_lists.insert(rev_reg_def_id, list), ..issuer }
}

/// The issuer called `id` that has created nothing.
pub open spec fn new_issuer(id: Seq<char>) -> IssuerView {
    IssuerView {
        id,
        schemas: Map::empty(),
        cred_defs: Map::empty(),
        correctness_proofs: Map::empty(),
        rev_reg_defs: Map::empty(),
        rev_status_lists: Map::empty(),
    }
}

/// Which error, if any, stops the issuer `issuer` from making a status list
/// for the registry `rev_reg_def_id`: the registry must be its own, and so
/// must the credential definition that the registry names.
pub open spec fn status_list_refusal(issuer: IssuerView, rev_reg_def_id: Seq<char>) -> Option<
    Error,
> {
    if !issuer.rev_reg_defs.contains_key(rev_reg_def_id) {
        Some(Error::RevocationRegistryDefinitionNotFound)
    } else if !issuer.cred_defs.contains_key(issuer.rev_reg_defs[rev_reg_def_id].0.cred_def_id) {
        Some(Error::CredentialDefinitionNotFound)
    } else {
        None
    }
}

impl Issuer {
    /// An issuer called `id` that has created nothing yet.
    pub fn new(id: IssuerId) -> (issuer: Self)
        ensures
            issuer@ == new_issuer(id@),
    {
        Issuer {
            id,
            schemas: Registry::new(),
            cred_defs: Registry::new(),
            correctness_proofs: Registry::new(),
            rev_reg_defs: Registry::new(),
            rev_status_lists: Registry::new(),
        }
    }

    /// The identifier of the schema called `name`.
    pub fn schema_id(name: &str) -> (schema_id: SchemaId)
        ensures
            schema_id@ == schema_id_text(name@),
    {
        let mut text = String::from_str("vdr://schemas/");
        text.append(name);
        text.append("?drf=midnight");
        SchemaId(text)
    }

    /// The identifier of the credential definition made for `schema_id` under `tag`.
    pub fn credential_definition_id(schema_id: &SchemaId, tag: &str) -> (cred_def_id:
        CredentialDefinitionId)
        ensures
            cred_def_id@ == credential_definition_id_text(schema_id@, tag@),
    {
        let mut text = String::from_str("vdr://credential-definitions/");
        text.append(schema_id.0.as_str());
        text.append("-");
        text.append(tag);
        text.append("?drf=midnight");
        CredentialDefinitionId(text)
    }

    /// The identifier of the revocation registry made for `cred_def_id` under `tag`.
    pub fn revocation_registry_definition_id(
        cred_def_id: &CredentialDefinitionId,
        tag: &str,
    ) -> (rev_reg_def_id: RevocationRegistryDefinitionId)
        ensures
            rev_reg_def_id@ == revocation_registry_definition_id_text(cred_def_id@, tag@),
    {
        let mut text = String::from_str("vdr://revocation-registry-definitions/");
        text.append(cred_def_id.0.as_str());
        text.append("-");
        text.append(tag);
        RevocationRegistryDefinitionId(text)
    }

    /// What to hand to the credential library to make the schema called
    /// `name`: the identifier it will be kept under, and this issuer as its
    /// author.
    pub fn schema_inputs<'a>(&'a self, name: &str) -> (inputs: SchemaInputs<'a>)
        ensures
            inputs.schema_id@ == schema_id_text(name@),
            inputs.issuer_id@ == self@.id,
    {
        SchemaInputs { schema_id: Self::schema_id(name), issuer_id: &self.id }
    }

    /// Records `schema`, made for the name `name`, and gives the identifier
    /// it is kept under. A schema recorded earlier under that name is replaced.
    pub fn create_schema(&mut self, name: &str, schema: Schema) -> (schema_id: SchemaId)
        ensures
            schema_id@ == schema_id_text(name@),
            final(self)@ == with_schema(old(self)@, schema_id@, schema@),
    {
        let schema_id = Self::schema_id(name);
        self.schemas.insert(schema_id.0.clone(), schema);
        schema_id
    }

    /// Records `schema` as `create_schema` does, and publishes a copy of it
    /// to `vdr` under the same identifier.
    pub fn create_schema_and_publish(
        &mut self,
        vdr: &mut Vdr,
        name: &str,
        schema: Schema,
    ) -> (schema_id: SchemaId)
        ensures
            schema_id@ == schema_id_text(name@),
            final(self)@ == with_schema(old(self)@, schema_id@, schema@),
            final(vdr)@ == (VdrView {
                schemas: old(vdr)@.schemas.insert(schema_id@, schema@),
                ..old(vdr)@
            }),
    {
        let published = schema.duplicate();
        let schema_id = self.create_schema(name, schema);
        vdr.publish_schema(schema_id.duplicate(), published);
        schema_id
    }

    /// What to hand to the credential library to make a credential
    /// definition for the schema `schema_id` under `tag`. The schema must be
    /// one that this issuer has created.
    pub fn credential_definition_inputs<'a>(
        &'a self,
        schema_id: &'a SchemaId,
        tag: &str,
        support_revocation: bool,
    ) -> (inputs: Result<CredentialDefinitionInputs<'a>, Error>)
        ensures
            match inputs {
                Ok(inputs) => {
                    &&& self@.schemas.contains_key(schema_id@)
                    &&& inputs.cred_def_id@ == credential_definition_id_text(schema_id@, tag@)
                    &&& inputs.schema_id@ == schema_id@
                    &&& inputs.schema@ == self@.schemas[schema_id@]
                    &&& inputs.issuer_id@ == self@.id
                    &&& inputs.signature_type == SignatureType::CL
                    &&& inputs.support_revocation == support_revocation
                },
                Err(error) => !self@.schemas.contains_key(schema_id@) && error
                    == Error::SchemaNotFound,
            },
    {
        match self.schemas.get(&schema_id.0) {
            Some(schema) => Ok(
                CredentialDefinitionInputs {
                    cred_def_id: Self::credential_definition_id(schema_id, tag),
                    schema_id,
                    schema,
                    issuer_id: &self.id,
                    signature_type: SignatureType::CL,
                    support_revocation,
                },
            ),
            None => Err(Error::SchemaNotFound),
        }
    }

    /// Records a credential definition made for the schema `schema_id` under
    /// `tag`, with its private half and its correctness proof, and gives the
    /// identifier they are kept under. Refused, with nothing recorded, when
    /// this issuer has not created the schema.
    pub fn create_credential_definition(
        &mut self,
        schema_id: &SchemaId,
        tag: &str,
        cred_def: CredentialDefinition,
        cred_def_private: CredentialDefinitionPrivate,
        correctness_proof: CredentialKeyCorrectnessProof,
    ) -> (created: Result<CredentialDefinitionId, Error>)
        ensures
            match created {
                Ok(cred_def_id) => {
                    &&& old(self)@.schemas.contains_key(schema_id@)
                    &&& cred_def_id@ == credential_definition_id_text(schema_id@, tag@)
                    &&& final(self)@ == with_credential_definition(
                        old(self)@,
                        cred_def_id@,
                        cred_def@,
                        cred_def_private@,
                        correctness_proof@,
                    )
                },
                Err(error) => {
                    &&& !old(self)@.schemas.contains_key(schema_id@)
                    &&& error == Error::SchemaNotFound
                    &&& final(self)@ == old(self)@
                },
            },
    {
        if !self.schemas.contains_key(&schema_id.0) {
            return Err(Error::SchemaNotFound);
        }
        let cred_def_id = Self::credential_definition_id(schema_id, tag);
        self.cred_defs.insert(cred_def_id.0.clone(), (cred_def, cred_def_private));
        self.correctness_proofs.insert(cred_def_id.0.clone(), correctness_proof);
        Ok(cred_def_id)
    }

    /// Records a credential definition as `create_credential_definition`
    /// does, and publishes a copy of its public half to `vdr` under the same
    /// identifier. When it is refused, nothing is published.
    pub fn create_credential_definition_and_publish(
        &mut self,
        vdr: &mut Vdr,
        schema_id: &SchemaId,
        tag: &str,
        cred_def: CredentialDefinition,
        cred_def_private: CredentialDefinitionPrivate,
        correctness_proof: CredentialKeyCorrectnessProof,
    ) -> (created: Result<CredentialDefinitionId, Error>)
        ensures
            match created {
                Ok(cred_def_id) => {
                    &&& old(self)@.schemas.contains_key(schema_id@)
                    &&& cred_def_id@ == credential_definition_id_text(schema_id@, tag@)
                    &&& final(self)@ == with_credential_definition(
                        old(self)@,
                        cred_def_id@,
                        cred_def@,
                        cred_def_private@,
                        correctness_proof@,
                    )
                    &&& final(vdr)@ == (VdrView {
                        cred_defs: old(vdr)@.cred_defs.insert(cred_def_id@, cred_def@),
                        ..old(vdr)@
                    })
                },
                Err(error) => {
                    &&& !old(self)@.schemas.contains_key(schema_id@)
                    &&& error == Error::SchemaNotFound
                    &&& final(self)@ == old(self)@
                    &&& final(vdr)@ == old(vdr)@
                },
            },
    {
        let published = cred_def.duplicate();
        match self.create_credential_definition(
            schema_id,
            tag,
            cred_def,
            cred_def_private,
            correctness_proof,
        ) {
            Ok(cred_def_id) => {
                vdr.publish_credential_definition(cred_def_id.duplicate(), published);
                Ok(cred_def_id)
            },
            Err(error) => Err(error),
        }
    }

    /// What to hand to the credential library to make a revocation registry
    /// of `max_credentials` credentials for the credential definition
    /// `cred_def_id` under `tag`. The credential definition must be one that
    /// this issuer has created.
    pub fn revocation_registry_inputs<'a>(
        &'a self,
        cred_def_id: &'a CredentialDefinitionId,
        tag: &str,
        max_credentials: u32,
    ) -> (inputs: Result<RevocationRegistryInputs<'a>, Error>)
        ensures
            match inputs {
                Ok(inputs) => {
                    &&& self@.cred_defs.contains_key(cred_def_id@)
                    &&& inputs.rev_reg_def_id@ == revocation_registry_definition_id_text(
                        cred_def_id@,
                        tag@,
                    )
                    &&& inputs.cred_def@ == self@.cred_defs[cred_def_id@].0
                    &&& inputs.cred_def_id@ == cred_def_id@
                    &&& inputs.registry_type == RegistryType::CL_ACCUM
                    &&& inputs.max_credentials == max_credentials
                },
                Err(error) => !self@.cred_defs.contains_key(cred_def_id@) && error
                    == Error::CredentialDefinitionNotFound,
            },
    {
        match self.cred_defs.get(&cred_def_id.0) {
            Some(pair) => Ok(
                RevocationRegistryInputs {
                    rev_reg_def_id: Self::revocation_registry_definition_id(cred_def_id, tag),
                    cred_def: &pair.0,
                    cred_def_id,
                    registry_type: RegistryType::CL_ACCUM,
                    max_credentials,
                },
            ),
            None => Err(Error::CredentialDefinitionNotFound),
        }
    }

    /// Records a revocation registry made for the credential definition
    /// `cred_def_id` under `tag`, with its private half, and gives the
    /// identifier they are kept under. Refused, with nothing recorded, when
    /// this issuer has not created the credential definition.
    pub fn create_revocation_registry(
        &mut self,
        cred_def_id: &CredentialDefinitionId,
        tag: &str,
        rev_reg_def: RevocationRegistryDefinition,
        rev_reg_def_private: RevocationRegistryDefinitionPrivate,
    ) -> (created: Result<RevocationRegistryDefinitionId, Error>)
        ensures
            match created {
                Ok(rev_reg_def_id) => {
                    &&& old(self)@.cred_defs.contains_key(cred_def_id@)
                    &&& rev_reg_def_id@ == revocation_registry_definition_id_text(
                        cred_def_id@,
                        tag@,
                    )
                    &&& final(self)@ == with_revocation_registry(
                        old(self)@,
                        rev_reg_def_id@,
                        rev_reg_def@,
                        rev_reg_def_private@,
                    )
                },
                Err(error) => {
                    &&& !old(self)@.cred_defs.contains_key(cred_def_id@)
                    &&& error == Error::CredentialDefinitionNotFound
                    &&& final(self)@ == old(self)@
                },
            },
    {
        if !self.cred_defs.contains_key(&cred_def_id.0) {
            return Err(Error::CredentialDefinitionNotFound);
        }
        let rev_reg_def_id = Self::revocation_registry_definition_id(cred_def_id, tag);
        self.rev_reg_defs.insert(rev_reg_def_id.0.clone(), (rev_reg_def, rev_reg_def_private));
        Ok(rev_reg_def_id)
    }

    /// Records a revocation registry as `create_revocation_registry` does,
    /// and publishes a copy of its public half to `vdr` under the same
    /// identifier. When it is refused, nothing is published.
    pub fn create_revocation_registry_and_publish(
        &mut self,
        vdr: &mut Vdr,
        cred_def_id: &CredentialDefinitionId,
        tag: &str,
        rev_reg_def: RevocationRegistryDefinition,
        rev_reg_def_private: RevocationRegistryDefinitionPrivate,
    ) -> (created: Result<RevocationRegistryDefinitionId, Error>)
        ensures
            match created {
                Ok(rev_reg_def_id) => {
                    &&& old(self)@.cred_defs.contains_key(cred_def_id@)
                    &&& rev_reg_def_id@ == revocation_registry_definition_id_text(
                        cred_def_id@,
                        tag@,
                    )
                    &&& final(self)@ == with_revocation_registry(
                        old(self)@,
                        rev_reg_def_id@,
                        rev_reg_def@,
                        rev_reg_def_private@,
                    )
                    &&& final(vdr)@ == (VdrView {
                        rev_reg_defs: old(vdr)@.rev_reg_defs.insert(rev_reg_def_id@, rev_reg_def@),
                        ..old(vdr)@
                    })
                },
                Err(error) => {
                    &&& !old(self)@.cred_defs.contains_key(cred_def_id@)
                    &&& error == Error::CredentialDefinitionNotFound
                    &&& final(self)@ == old(self)@
                    &&& final(vdr)@ == old(vdr)@
                },
            },
    {
        let published = rev_reg_def.duplicate();
        match self.create_revocation_registry(cred_def_id, tag, rev_reg_def, rev_reg_def_private) {
            Ok(rev_reg_def_id) => {
                vdr.publish_revocation_registry_definition(rev_reg_def_id.duplicate(), published);
                Ok(rev_reg_def_id)
            },
            Err(error) => Err(error),
        }
    }

    /// What to hand to the credential library to offer a credential of the
    /// schema `schema_id` under the credential definition `cred_def_id`.
    /// Refused exactly when no correctness proof is kept for `cred_def_id`.
    pub fn create_credential_offer<'a>(
        &'a self,
        schema_id: &'a SchemaId,
        cred_def_id: &'a CredentialDefinitionId,
    ) -> (inputs: Result<CredentialOfferInputs<'a>, Error>)
        ensures
            match inputs {
                Ok(inputs) => {
                    &&& can_offer(self@, cred_def_id@)
                    &&& inputs.schema_id@ == schema_id@
                    &&& inputs.cred_def_id@ == cred_def_id@
                    &&& inputs.correctness_proof@ == self@.correctness_proofs[cred_def_id@]
                },
                Err(error) => !can_offer(self@, cred_def_id@) && error
                    == Error::CorrectnessProofNotFound,
            },
    {
        match self.correctness_proofs.get(&cred_def_id.0) {
            Some(correctness_proof) => Ok(
                CredentialOfferInputs { schema_id, cred_def_id, correctness_proof },
            ),
            None => Err(Error::CorrectnessProofNotFound),
        }
    }

    /// What to hand to the credential library, beside `offer`, the prover's
    /// request and the attribute values, to sign the credential that `offer`
    /// offered: both halves of the credential definition that the offer
    /// names, and, where `binding` asks for one, the binding to the
    /// revocation registry. Refused as `issue_refusal` says: when this
    /// issuer has not created the credential definition, or else when it
    /// has not created the registry that the binding names.
    pub fn issue_credential<'a>(
        &'a self,
        offer: &CredentialOffer,
        binding: Option<CredentialBinding<'a>>,
    ) -> (inputs: Result<CredentialInputs<'a>, Error>)
        ensures
            match inputs {
                Ok(inputs) => {
                    &&& issue_refusal(self@, offer@.cred_def_id, binding_view(binding)) is None
                    &&& inputs.cred_def@ == self@.cred_defs[offer@.cred_def_id].0
                    &&& inputs.cred_def_private@ == self@.cred_defs[offer@.cred_def_id].1
                    &&& config_view(inputs.revocation_config) == issued_config(
                        self@,
                        binding_view(binding),
                    )
                },
                Err(error) => issue_refusal(self@, offer@.cred_def_id, binding_view(binding))
                    == Some(error),
            },
    {
        let pair = match self.cred_defs.get(&offer.cred_def_id.0) {
            Some(pair) => pair,
            None => {
                return Err(Error::CredentialDefinitionNotFound);
            },
        };
        let revocation_config = match binding {
            Some(asked) => match self.rev_reg_defs.get(&asked.rev_reg_def_id.0) {
                Some(registry) => Some(
                    CredentialRevocationConfig {
                        reg_def: &registry.0,
                        reg_def_private: &registry.1,
                        registry_idx: asked.registry_idx,
                        status_list: asked.status_list,
                    },
                ),
                None => {
                    return Err(Error::RevocationRegistryDefinitionNotFound);
                },
            },
            None => None,
        };
        Ok(CredentialInputs { cred_def: &pair.0, cred_def_private: &pair.1, revocation_config })
    }

    /// The public half of the credential definition kept under `cred_def_id`,
    /// if there is one.
    pub fn get_credential_definition(&self, cred_def_id: &CredentialDefinitionId) -> (found: Option<
        &CredentialDefinition,
    >)
        ensures
            match found {
                Some(cred_def) => self@.cred_defs.contains_key(cred_def_id@) && cred_def@
                    == self@.cred_defs[cred_def_id@].0,
                None => !self@.cred_defs.contains_key(cred_def_id@),
            },
    {
        match self.cred_defs.get(&cred_def_id.0) {
            Some(pair) => Some(&pair.0),
            None => None,
        }
    }

    /// What to hand to the credential library to make the first status list
    /// of the registry `rev_reg_def_id` as of `timestamp`, with every index
    /// issued until it is revoked. Refused as `status_list_refusal` says.
    pub fn revocation_status_list_inputs<'a>(
        &'a self,
        rev_reg_def_id: &'a RevocationRegistryDefinitionId,
        timestamp: Option<u64>,
    ) -> (inputs: Result<RevocationStatusListInputs<'a>, Error>)
        ensures
            match inputs {
                Ok(inputs) => {
                    &&& status_list_refusal(self@, rev_reg_def_id@) is None
                    &&& inputs.rev_reg_def_id@ == rev_reg_def_id@
                    &&& inputs.rev_reg_def@ == self@.rev_reg_defs[rev_reg_def_id@].0
                    &&& inputs.rev_reg_def_private@ == self@.rev_reg_defs[rev_reg_def_id@].1
                    &&& inputs.cred_def@ == self@.cred_defs[inputs.rev_reg_def@.cred_def_id].0
                    &&& inputs.issuance_by_default
                    &&& inputs.timestamp == timestamp
                },
                Err(error) => status_list_refusal(self@, rev_reg_def_id@) == Some(error),
            },
    {
        match self.rev_reg_defs.get(&rev_reg_def_id.0) {
            Some(registry) => match self.cred_defs.get(&registry.0.cred_def_id.0) {
                Some(pair) => Ok(
                    RevocationStatusListInputs {
                        cred_def: &pair.0,
                        rev_reg_def_id,
                        rev_reg_def: &registry.0,
                        rev_reg_def_private: &registry.1,
                        issuance_by_default: true,
                        timestamp,
                    },
                ),
                None => Err(Error::CredentialDefinitionNotFound),
            },
            None => Err(Error::RevocationRegistryDefinitionNotFound),
        }
    }

    /// Records `rev_list` as the current status list of the registry
    /// `rev_reg_def_id` and hands a copy of it back. Refused, with nothing
    /// recorded, as `status_list_refusal` says.
    pub fn create_revocation_status_list(
        &mut self,
        rev_reg_def_id: &RevocationRegistryDefinitionId,
        rev_list: RevocationStatusList,
    ) -> (created: Result<RevocationStatusList, Error>)
        ensures
            match created {
                Ok(list) => {
                    &&& status_list_refusal(old(self)@, rev_reg_def_id@) is None
                    &&& list@ == rev_list@
                    &&& final(self)@ == with_status_list(old(self)@, rev_reg_def_id@, rev_list@)
                },
                Err(error) => {
                    &&& status_list_refusal(old(self)@, rev_reg_def_id@) == Some(error)
                    &&& final(self)@ == old(self)@
                },
            },
    {
        match self.rev_reg_defs.get(&rev_reg_def_id.0) {
            Some(registry) => {
                if !self.cred_defs.contains_key(&registry.0.cred_def_id.0) {
                    return Err(Error::CredentialDefinitionNotFound);
                }
            },
            None => {
                return Err(Error::RevocationRegistryDefinitionNotFound);
            },
        }
        let kept = rev_list.duplicate();
        self.rev_status_lists.insert(rev_reg_def_id.0.clone(), kept);
        Ok(rev_list)
    }

    /// Records `rev_list` as `create_revocation_status_list` does, and
    /// publishes it to `vdr` as the current status list of the registry.
    /// When it is refused, nothing is published.
    pub fn publish_revocation_status_list(
        &mut self,
        vdr: &mut Vdr,
        rev_reg_def_id: &RevocationRegistryDefinitionId,
        rev_list: RevocationStatusList,
    ) -> (published: Result<(), Error>)
        ensures
            match published {
                Ok(_) => {
                    &&& status_list_refusal(old(self)@, rev_reg_def_id@) is None
                    &&& final(self)@ == with_status_list(old(self)@, rev_reg_def_id@, rev_list@)
                    &&& final(vdr)@ == (VdrView {
                        rev_status_lists: old(vdr)@.rev_status_lists.insert(
                            rev_reg_def_id@,
                            rev_list@,
                        ),
                        ..old(vdr)@
                    })
                },
                Err(error) => {
                    &&& status_list_refusal(old(self)@, rev_reg_def_id@) == Some(error)
                    &&& final(self)@ == old(self)@
                    &&& final(vdr)@ == old(vdr)@
                },
            },
    {
        match self.create_revocation_status_list(rev_reg_def_id, rev_list) {
            Ok(list) => {
                vdr.publish_revocation_status_list(rev_reg_def_id.duplicate(), list);
                Ok(())
            },
            Err(error) => Err(error),
        }
    }
}

/// An issuer can offer credentials under a credential definition from the
/// moment it has recorded that definition, and recording it changes what
/// can be offered under no other identifier.
pub proof fn lemma_offer_follows_definition(
    issuer: IssuerView,
    cred_def_id: Seq<char>,
    cred_def: CredentialDefinitionView,
    cred_def_private: Seq<char>,
    correctness_proof: Seq<char>,
)
    ensures
        can_offer(
            with_credential_definition(
                issuer,
                cred_def_id,
                cred_def,
                cred_def_private,
                correctness_proof,
            ),
            cred_def_id,
        ),
        forall|other: Seq<char>|
            other != cred_def_id ==> can_offer(
                with_credential_definition(
                    issuer,
                    cred_def_id,
                    cred_def,
                    cred_def_private,
                    correctness_proof,
                ),
                other,
            ) == can_offer(issuer, other),
{
}

/// An issuer that has created nothing can offer nothing, and what an
/// issuer can offer is changed neither by recording a schema, nor a
/// revocation registry, nor a status list. So an issuer can offer under an
/// identifier exactly when it has recorded a credential definition under it.
pub proof fn lemma_offer_needs_definition(
    issuer: IssuerView,
    cred_def_id: Seq<char>,
    id: Seq<char>,
    schema: SchemaView,
    rev_reg_def: RevocationRegistryDefinitionView,
    rev_reg_def_private: Seq<char>,
    list: RevocationStatusListView,
)
    ensures
        !can_offer(new_issuer(id), cred_def_id),
        can_offer(with_schema(issuer, id, schema), cred_def_id) == can_offer(issuer, cred_def_id),
        can_offer(
            with_revocation_registry(issuer, id, rev_reg_def, rev_reg_def_private),
            cred_def_id,
        ) == can_offer(issuer, cred_def_id),
        can_offer(with_status_list(issuer, id, list), cred_def_id) == can_offer(
            issuer,
            cred_def_id,
        ),
{
}

/// Schemas of different names are kept under different identifiers.
pub proof fn lemma_schema_ids_differ(a: Seq<char>, b: Seq<char>)
    requires
        a != b,
    ensures
        schema_id_text(a) != schema_id_text(b),
{
    let prefix = "vdr://schemas/"@;
    let suffix = "?drf=midnight"@;
    if schema_id_text(a) == schema_id_text(b) {
        let whole = schema_id_text(a);
        assert(whole.len() == prefix.len() + a.len() + suffix.len());
        assert(whole.len() == prefix.len() + b.len() + suffix.len());
        assert(a =~= whole.subrange(prefix.len() as int, (prefix.len() + a.len()) as int));
        assert(b =~= whole.subrange(prefix.len() as int, (prefix.len() + b.len()) as int));
    }
}

} // verus!
