//! A stand-in for the verifiable data registry: what issuers have published,
//! by identifier.

use crate::ids::{CredentialDefinitionId, RevocationRegistryDefinitionId, SchemaId};
use crate::model::{
    CredentialDefinition, CredentialDefinitionView, RevocationRegistryDefinition,
    RevocationRegistryDefinitionView, RevocationStatusList, RevocationStatusListView, Schema,
    SchemaView,
};
use crate::registry::Registry;
use vstd::prelude::*;

verus! {

/// The published artifacts. Publishing under an identifier that is already
/// taken replaces what was there: nothing is versioned.
#[derive(Debug)]
pub struct Vdr {
    pub schemas: Registry<Schema>,
    pub cred_defs: Registry<CredentialDefinition>,
    pub rev_reg_defs: Registry<RevocationRegistryDefinition>,
    pub rev_status_lists: Registry<RevocationStatusList>,
}

/// The model of `Vdr` that contracts speak of.
pub struct VdrView {
    pub schemas: Map<Seq<char>, SchemaView>,
    pub cred_defs: Map<Seq<char>, CredentialDefinitionView>,
    pub rev_reg_defs: Map<Seq<char>, RevocationRegistryDefinitionView>,
    pub rev_status_lists: Map<Seq<char>, RevocationStatusListView>,
}

impl View for Vdr {
    type V = VdrView;

    open spec fn view(&self) -> VdrView {
        VdrView {
            schemas: self.schemas@,
            cred_defs: self.cred_defs@,
            rev_reg_defs: self.rev_reg_defs@,
            rev_status_lists: self.rev_status_lists@,
        }
    }
}

/// The registry in which nothing is published.
pub open spec fn empty_vdr() -> VdrView {
    VdrView {
        schemas: Map::empty(),
        cred_defs: Map::empty(),
        rev_reg_defs: Map::empty(),
        rev_status_lists: Map::empty(),
    }
}

impl Default for Vdr {
    fn default() -> (vdr: Self)
        ensures
            vdr@ == empty_vdr(),
    {
        Vdr::new()
    }
}

impl Vdr {
    /// A registry in which nothing is published.
    pub fn new() -> (vdr: Self)
        ensures
            vdr@ == empty_vdr(),
    {
        Vdr {
            schemas: Registry::new(),
            cred_defs: Registry::new(),
            rev_reg_defs: Registry::new(),
            rev_status_lists: Registry::new(),
        }
    }

    /// Publishes `schema` under `schema_id`.
    pub fn publish_schema(&mut self, schema_id: SchemaId, schema: Schema)
        ensures
            final(self)@ == (VdrView {
                schemas: old(self)@.schemas.insert(schema_id@, schema@),
                ..old(self)@
            }),
    {
        self.schemas.insert(schema_id.0, schema);
    }

    /// Publishes `cred_def` under `cred_def_id`.
    pub fn publish_credential_definition(
        &mut self,
        cred_def_id: CredentialDefinitionId,
        cred_def: CredentialDefinition,
    )
        ensures
            final(self)@ == (VdrView {
                cred_defs: old(self)@.cred_defs.insert(cred_def_id@, cred_def@),
                ..old(self)@
            }),
    {
        self.cred_defs.insert(cred_def_id.0, cred_def);
    }

    /// Publishes `rev_reg_def` under `rev_reg_def_id`.
    pub fn publish_revocation_registry_definition(
        &mut self,
        rev_reg_def_id: RevocationRegistryDefinitionId,
        rev_reg_def: RevocationRegistryDefinition,
    )
        ensures
            final(self)@ == (VdrView {
                rev_reg_defs: old(self)@.rev_reg_defs.insert(rev_reg_def_id@, rev_reg_def@),
                ..old(self)@
            }),
    {
        self.rev_reg_defs.insert(rev_reg_def_id.0, rev_reg_def);
    }

    /// Publishes `rev_status_list` as the current status list of the
    /// registry `rev_reg_def_id`.
    pub fn publish_revocation_status_list(
        &mut self,
        rev_reg_def_id: RevocationRegistryDefinitionId,
        rev_status_list: RevocationStatusList,
    )
        ensures
            final(self)@ == (VdrView {
                rev_status_lists: old(self)@.rev_status_lists.insert(
                    rev_reg_def_id@,
                    rev_status_list@,
                ),
                ..old(self)@
            }),
    {
        self.rev_status_lists.insert(rev_reg_def_id.0, rev_status_list);
    }

    /// The schema published under `schema_id`, if there is one.
    pub fn get_schema(&self, schema_id: &SchemaId) -> (found: Option<&Schema>)
        ensures
            match found {
                Some(schema) => self@.schemas.contains_key(schema_id@) && schema@
                    == self@.schemas[schema_id@],
                None => !self@.schemas.contains_key(schema_id@),
            },
    {
        self.schemas.get(&schema_id.0)
    }

    /// The credential definition published under `cred_def_id`, if there is one.
    pub fn get_credential_definition(&self, cred_def_id: &CredentialDefinitionId) -> (found: Option<
        &CredentialDefinition,
    >)
        ensures
            match found {
                Some(cred_def) => self@.cred_defs.contains_key(cred_def_id@) && cred_def@
                    == self@.cred_defs[cred_def_id@],
                None => !self@.cred_defs.contains_key(cred_def_id@),
            },
    {
        self.cred_defs.get(&cred_def_id.0)
    }

    /// The revocation registry definition published under `rev_reg_def_id`,
    /// if there is one.
    pub fn get_revocation_registry_definition(
        &self,
        rev_reg_def_id: &RevocationRegistryDefinitionId,
    ) -> (found: Option<&RevocationRegistryDefinition>)
        ensures
            match found {
                Some(rev_reg_def) => self@.rev_reg_defs.contains_key(rev_reg_def_id@)
                    && rev_reg_def@ == self@.rev_reg_defs[rev_reg_def_id@],
                None => !self@.rev_reg_defs.contains_key(rev_reg_def_id@),
            },
    {
        self.rev_reg_defs.get(&rev_reg_def_id.0)
    }

    /// The status list last published for the registry `rev_reg_def_id`, if
    /// there is one.
    pub fn get_revocation_status_list(
        &self,
        rev_reg_def_id: &RevocationRegistryDefinitionId,
    ) -> (found: Option<&RevocationStatusList>)
        ensures
            match found {
                Some(list) => self@.rev_status_lists.contains_key(rev_reg_def_id@) && list@
                    == self@.rev_status_lists[rev_reg_def_id@],
                None => !self@.rev_status_lists.contains_key(rev_reg_def_id@),
            },
    {
        self.rev_status_lists.get(&rev_reg_def_id.0)
    }
}

} // verus!
