//! A ledger and three wallets that keep a whole exchange in memory: what an
//! issuer, a prover and a verifier each hold while credentials are issued,
//! presented and checked.

use crate::checking::{check, shows, PresentedAttribute};
use crate::error::Error;
use crate::formats::{
    CredentialFormat, Credentials, CredentialsView, PresentationFormat, Presentations, TestError,
};
use crate::issuer::{config_view, CredentialInputs};
use crate::model::{
    Credential, CredentialDefinition, CredentialDefinitionPrivate, CredentialDefinitionView,
    CredentialKeyCorrectnessProof, CredentialOffer, CredentialRevocationConfig,
    CredentialRevocationConfigView, CredentialRevocationState, CredentialView, LinkSecret, RevocationRegistryDefinition, RevocationRegistryDefinitionPrivate,
    RevocationRegistryDefinitionView, RevocationStatusList, RevocationStatusListView, Schema,
    SchemaView,
};
use crate::presentation::{
    PresentCredential, PresentCredentialView, PresentCredentials, W3CCredential,
    W3CCredentialView,
};
use crate::prover::CredentialRequestInputs;
use crate::registry::{id_set, Record, Registry};
use crate::selection::{
    choices_view, requested_parts, selection_of, CredentialToPresent, CredentialToPresentView,
    RevocableCredential,
};
use vstd::prelude::*;
use vstd::string::StringExecFns;

verus! {

/// What has been written to the ledger, by identifier.
#[derive(Debug)]
pub struct Ledger {
    pub schemas: Registry<Schema>,
    pub cred_defs: Registry<CredentialDefinition>,
    pub rev_reg_defs: Registry<RevocationRegistryDefinition>,
}

/// The model of `Ledger` that contracts speak of.
pub struct LedgerView {
    pub schemas: Map<Seq<char>, SchemaView>,
    pub cred_defs: Map<Seq<char>, CredentialDefinitionView>,
    pub rev_reg_defs: Map<Seq<char>, RevocationRegistryDefinitionView>,
}

impl View for Ledger {
    type V = LedgerView;

    open spec fn view(&self) -> LedgerView {
        LedgerView {
            schemas: self.schemas@,
            cred_defs: self.cred_defs@,
            rev_reg_defs: self.rev_reg_defs@,
        }
    }
}

impl Default for Ledger {
    fn default() -> (ledger: Self)
        ensures
            ledger@ == (LedgerView {
                schemas: Map::empty(),
                cred_defs: Map::empty(),
                rev_reg_defs: Map::empty(),
            }),
    {
        Ledger {
            schemas: Registry::new(),
            cred_defs: Registry::new(),
            rev_reg_defs: Registry::new(),
        }
    }
}

impl Ledger {
    /// Writes a copy of `schema` to the ledger under `schema_id`.
    pub fn add_schema(&mut self, schema_id: &str, schema: &Schema)
        ensures
            final(self)@ == (LedgerView {
                schemas: old(self)@.schemas.insert(schema_id@, schema@),
                ..old(self)@
            }),
    {
        self.schemas.insert(String::from_str(schema_id), schema.duplicate());
    }

    /// Writes a copy of `cred_def` to the ledger under `cred_def_id`.
    pub fn add_cred_def(&mut self, cred_def_id: &str, cred_def: &CredentialDefinition)
        ensures
            final(self)@ == (LedgerView {
                cred_defs: old(self)@.cred_defs.insert(cred_def_id@, cred_def@),
                ..old(self)@
            }),
    {
        self.cred_defs.insert(String::from_str(cred_def_id), cred_def.duplicate());
    }

    /// Writes a copy of `rev_reg_def` to the ledger under `rev_reg_def_id`.
    pub fn add_rev_reg_def(&mut self, rev_reg_def_id: &str, rev_reg_def: &RevocationRegistryDefinition)
        ensures
            final(self)@ == (LedgerView {
                rev_reg_defs: old(self)@.rev_reg_defs.insert(rev_reg_def_id@, rev_reg_def@),
                ..old(self)@
            }),
    {
        self.rev_reg_defs.insert(String::from_str(rev_reg_def_id), rev_reg_def.duplicate());
    }

    /// Copies of the schemas written under `schema_ids`, each of which
    /// must have been written.
    pub fn resolve_schemas(&self, schema_ids: Vec<&str>) -> (schemas: Registry<Schema>)
        requires
            forall|i: int|
                0 <= i < schema_ids@.len() ==> self@.schemas.contains_key(
                    (#[trigger] schema_ids@[i])@,
                ),
        ensures
            schemas@ == self@.schemas.restrict(id_set(schema_ids@)),
    {
        self.schemas.select(&schema_ids)
    }

    /// Copies of the credential definitions written under `cred_def_ids`,
    /// each of which must have been written.
    pub fn resolve_cred_defs(&self, cred_def_ids: Vec<&str>) -> (cred_defs: Registry<
        CredentialDefinition,
    >)
        requires
            forall|i: int|
                0 <= i < cred_def_ids@.len() ==> self@.cred_defs.contains_key(
                    (#[trigger] cred_def_ids@[i])@,
                ),
        ensures
            cred_defs@ == self@.cred_defs.restrict(id_set(cred_def_ids@)),
    {
        self.cred_defs.select(&cred_def_ids)
    }

    /// Copies of the revocation registry definitions written under
    /// `rev_reg_def_ids`, each of which must have been written.
    pub fn resolve_rev_reg_defs(&self, rev_reg_def_ids: Vec<&str>) -> (rev_reg_defs: Registry<
        RevocationRegistryDefinition,
    >)
        requires
            forall|i: int|
                0 <= i < rev_reg_def_ids@.len() ==> self@.rev_reg_defs.contains_key(
                    (#[trigger] rev_reg_def_ids@[i])@,
                ),
        ensures
            rev_reg_defs@ == self@.rev_reg_defs.restrict(id_set(rev_reg_def_ids@)),
    {
        self.rev_reg_defs.select(&rev_reg_def_ids)
    }
}

/// Both halves of a credential definition and its correctness proof, as an
/// issuer keeps them.
#[derive(Debug)]
pub struct StoredCredDef {
    pub private: CredentialDefinitionPrivate,
    pub key_proof: CredentialKeyCorrectnessProof,
    pub public: CredentialDefinition,
}

/// The model of `StoredCredDef` that contracts speak of.
pub struct StoredCredDefView {
    pub private: Seq<char>,
    pub key_proof: Seq<char>,
    pub public: CredentialDefinitionView,
}

impl View for StoredCredDef {
    type V = StoredCredDefView;

    open spec fn view(&self) -> StoredCredDefView {
        StoredCredDefView {
            private: self.private@,
            key_proof: self.key_proof@,
            public: self.public@,
        }
    }
}

/// Both halves of a revocation registry definition, as an issuer keeps them.
#[derive(Debug)]
pub struct StoredRevDef {
    pub public: RevocationRegistryDefinition,
    pub private: RevocationRegistryDefinitionPrivate,
}

/// The model of `StoredRevDef` that contracts speak of.
pub struct StoredRevDefView {
    pub public: RevocationRegistryDefinitionView,
    pub private: Seq<char>,
}

impl View for StoredRevDef {
    type V = StoredRevDefView;

    open spec fn view(&self) -> StoredRevDefView {
        StoredRevDefView { public: self.public@, private: self.private@ }
    }
}

/// Everything an issuer keeps, by identifier.
#[derive(Debug)]
pub struct IssuerWallet {
    pub cred_defs: Registry<StoredCredDef>,
    pub rev_defs: Registry<StoredRevDef>,
}

/// The model of `IssuerWallet` that contracts speak of.
pub struct IssuerWalletView {
    pub cred_defs: Map<Seq<char>, StoredCredDefView>,
    pub rev_defs: Map<Seq<char>, StoredRevDefView>,
}

impl View for IssuerWallet {
    type V = IssuerWalletView;

    open spec fn view(&self) -> IssuerWalletView {
        IssuerWalletView { cred_defs: self.cred_defs@, rev_defs: self.rev_defs@ }
    }
}

impl Default for IssuerWallet {
    fn default() -> (wallet: Self)
        ensures
            wallet@ == (IssuerWalletView { cred_defs: Map::empty(), rev_defs: Map::empty() }),
    {
        IssuerWallet { cred_defs: Registry::new(), rev_defs: Registry::new() }
    }
}

/// The call of the credential library that signs a credential: of its
/// issuing function for the legacy encoding, or of the one for the W3C
/// encoding.
#[derive(Debug)]
pub enum CredentialCall<'a> {
    Legacy(CredentialInputs<'a>),
    W3C(CredentialInputs<'a>),
}

impl<'a> CredentialCall<'a> {
    /// What the call is made with, whichever encoding it is for.
    pub open spec fn inputs(self) -> CredentialInputs<'a> {
        match self {
            CredentialCall::Legacy(inputs) => inputs,
            CredentialCall::W3C(inputs) => inputs,
        }
    }
}

/// The text of an identifier that may be given.
pub open spec fn optional_text(id: Option<&str>) -> Option<Seq<char>> {
    match id {
        Some(id) => Some(id@),
        None => None,
    }
}

/// Which error, if any, stops the wallet `wallet` from signing a credential
/// under the credential definition `cred_def_id`, bound to the registry
/// `rev_reg_def_id` where one is named: the wallet must keep the credential
/// definition, and it must keep the registry that is named.
pub open spec fn signing_refusal(
    wallet: IssuerWalletView,
    cred_def_id: Seq<char>,
    rev_reg_def_id: Option<Seq<char>>,
) -> Option<Error> {
    if !wallet.cred_defs.contains_key(cred_def_id) {
        Some(Error::CredentialDefinitionNotFound)
    } else if rev_reg_def_id matches Some(id) && !wallet.rev_defs.contains_key(id) {
        Some(Error::RevocationRegistryDefinitionNotFound)
    } else {
        None
    }
}

/// The binding of a credential to the registry `rev_reg_def_id` of the
/// wallet `wallet`, at the index `index` and as of `status_list`.
pub open spec fn binding(
    wallet: IssuerWalletView,
    rev_reg_def_id: Seq<char>,
    status_list: RevocationStatusListView,
    index: u32,
) -> CredentialRevocationConfigView {
    CredentialRevocationConfigView {
        reg_def: wallet.rev_defs[rev_reg_def_id].public,
        reg_def_private: wallet.rev_defs[rev_reg_def_id].private,
        registry_idx: index,
        status_list,
    }
}

impl IssuerWallet {
    /// Writes `schema`, made to be kept under `schema_id`, to `ledger`, and
    /// hands both back.
    pub fn create_schema(&self, ledger: &mut Ledger, schema_id: &str, schema: Schema) -> (created: (
        Schema,
        String,
    ))
        ensures
            created.0@ == schema@,
            created.1@ == schema_id@,
            final(ledger)@ == (LedgerView {
                schemas: old(ledger)@.schemas.insert(schema_id@, schema@),
                ..old(ledger)@
            }),
    {
        ledger.add_schema(schema_id, &schema);
        (schema, String::from_str(schema_id))
    }

    /// Writes the public half of a credential definition, made to be kept
    /// under `cred_def_id`, to `ledger`, keeps both halves and the
    /// correctness proof in the wallet, and hands the public half and the
    /// identifier back.
    pub fn create_cred_def(
        &mut self,
        ledger: &mut Ledger,
        cred_def_id: &str,
        cred_def: CredentialDefinition,
        cred_def_private: CredentialDefinitionPrivate,
        key_proof: CredentialKeyCorrectnessProof,
    ) -> (created: (CredentialDefinition, String))
        ensures
            created.0@ == cred_def@,
            created.1@ == cred_def_id@,
            final(ledger)@ == (LedgerView {
                cred_defs: old(ledger)@.cred_defs.insert(cred_def_id@, cred_def@),
                ..old(ledger)@
            }),
            final(self)@ == (IssuerWalletView {
                cred_defs: old(self)@.cred_defs.insert(
                    cred_def_id@,
                    StoredCredDefView {
                        private: cred_def_private@,
                        key_proof: key_proof@,
                        public: cred_def@,
                    },
                ),
                ..old(self)@
            }),
    {
        ledger.add_cred_def(cred_def_id, &cred_def);
        self.cred_defs.insert(
            String::from_str(cred_def_id),
            StoredCredDef { public: cred_def.duplicate(), private: cred_def_private, key_proof },
        );
        (cred_def, String::from_str(cred_def_id))
    }

    /// Keeps both halves of a revocation registry definition, made to be
    /// kept under `rev_reg_def_id`, in the wallet, writes the public half
    /// to `ledger`, and hands back the identifier, the public half and
    /// `revocation_status_list`, the registry's first status list.
    pub fn create_revocation_registry(
        &mut self,
        ledger: &mut Ledger,
        rev_reg_def_id: &str,
        rev_reg_def: RevocationRegistryDefinition,
        rev_reg_def_private: RevocationRegistryDefinitionPrivate,
        revocation_status_list: RevocationStatusList,
    ) -> (created: (String, RevocationRegistryDefinition, RevocationStatusList))
        ensures
            created.0@ == rev_reg_def_id@,
            created.1@ == rev_reg_def@,
            created.2@ == revocation_status_list@,
            final(ledger)@ == (LedgerView {
                rev_reg_defs: old(ledger)@.rev_reg_defs.insert(rev_reg_def_id@, rev_reg_def@),
                ..old(ledger)@
            }),
            final(self)@ == (IssuerWalletView {
                rev_defs: old(self)@.rev_defs.insert(
                    rev_reg_def_id@,
                    StoredRevDefView { public: rev_reg_def@, private: rev_reg_def_private@ },
                ),
                ..old(self)@
            }),
    {
        self.rev_defs.insert(
            String::from_str(rev_reg_def_id),
            StoredRevDef { public: rev_reg_def.duplicate(), private: rev_reg_def_private },
        );
        ledger.add_rev_reg_def(rev_reg_def_id, &rev_reg_def);
        (String::from_str(rev_reg_def_id), rev_reg_def, revocation_status_list)
    }

    /// The correctness proof to hand to the credential library, beside the
    /// two identifiers, to offer a credential under the credential
    /// definition `cred_def_id`. Refused exactly when the wallet keeps no
    /// correctness proof for `cred_def_id`.
    pub fn create_credential_offer(&self, schema_id: &str, cred_def_id: &str) -> (key_proof: Result<
        &CredentialKeyCorrectnessProof,
        Error,
    >)
        ensures
            match key_proof {
                Ok(key_proof) => self@.cred_defs.contains_key(cred_def_id@) && key_proof@
                    == self@.cred_defs[cred_def_id@].key_proof,
                Err(error) => !self@.cred_defs.contains_key(cred_def_id@) && error
                    == Error::CorrectnessProofNotFound,
            },
    {
        match self.cred_defs.get(&String::from_str(cred_def_id)) {
            Some(stored) => Ok(&stored.key_proof),
            None => Err(Error::CorrectnessProofNotFound),
        }
    }

    /// Which call of the credential library signs a credential in the
    /// encoding `format` under the credential definition `cred_def_id`, and
    /// what to hand to it. The credential is bound to a revocation registry
    /// exactly when one is named; an index and a status list must then be
    /// given. Refused as `signing_refusal` says: when the wallet does not
    /// keep the credential definition, or else when it does not keep the
    /// registry that is named.
    pub fn create_credential<'a>(
        &'a self,
        format: &CredentialFormat,
        cred_def_id: &str,
        rev_reg_def_id: Option<&str>,
        revocation_status_list: Option<&'a RevocationStatusList>,
        credential_rev_index: Option<u32>,
    ) -> (call: Result<CredentialCall<'a>, Error>)
        requires
            signing_refusal(self@, cred_def_id@, optional_text(rev_reg_def_id)) is None
                && rev_reg_def_id is Some ==> credential_rev_index is Some
                && revocation_status_list is Some,
        ensures
            match call {
                Ok(call) => {
                    &&& signing_refusal(self@, cred_def_id@, optional_text(rev_reg_def_id)) is None
                    &&& call is Legacy <==> format is Legacy
                    &&& call.inputs().cred_def@ == self@.cred_defs[cred_def_id@].public
                    &&& call.inputs().cred_def_private@ == self@.cred_defs[cred_def_id@].private
                    &&& match rev_reg_def_id {
                        Some(id) => config_view(call.inputs().revocation_config) == Some(
                            binding(
                                self@,
                                id@,
                                revocation_status_list->Some_0@,
                                credential_rev_index->Some_0,
                            ),
                        ),
                        None => call.inputs().revocation_config is None,
                    }
                },
                Err(error) => signing_refusal(self@, cred_def_id@, optional_text(rev_reg_def_id))
                    == Some(error),
            },
    {
        let stored = match self.cred_defs.get(&String::from_str(cred_def_id)) {
            Some(stored) => stored,
            None => {
                return Err(Error::CredentialDefinitionNotFound);
            },
        };
        let revocation_config = match rev_reg_def_id {
            Some(rev_reg_def_id) => match self.rev_defs.get(&String::from_str(rev_reg_def_id)) {
                Some(stored_rev_def) => match (credential_rev_index, revocation_status_list) {
                    (Some(registry_idx), Some(status_list)) => Some(
                        CredentialRevocationConfig {
                            reg_def: &stored_rev_def.public,
                            reg_def_private: &stored_rev_def.private,
                            registry_idx,
                            status_list,
                        },
                    ),
                    _ => vstd::pervasive::unreached(),
                },
                None => {
                    return Err(Error::RevocationRegistryDefinitionNotFound);
                },
            },
            None => None,
        };
        let inputs = CredentialInputs {
            cred_def: &stored.public,
            cred_def_private: &stored.private,
            revocation_config,
        };
        match format {
            CredentialFormat::Legacy => Ok(CredentialCall::Legacy(inputs)),
            CredentialFormat::W3C => Ok(CredentialCall::W3C(inputs)),
        }
    }

    /// Both halves of the revocation registry definition `rev_reg_def_id`,
    /// to hand to the credential library when a status list of that
    /// registry is brought up to date. Refused exactly when the wallet does
    /// not keep the registry.
    pub fn update_revocation_status_list(&self, rev_reg_def_id: &str) -> (stored: Result<
        &StoredRevDef,
        Error,
    >)
        ensures
            match stored {
                Ok(stored) => self@.rev_defs.contains_key(rev_reg_def_id@) && stored@
                    == self@.rev_defs[rev_reg_def_id@],
                Err(error) => !self@.rev_defs.contains_key(rev_reg_def_id@) && error
                    == Error::RevocationRegistryDefinitionNotFound,
            },
    {
        match self.rev_defs.get(&String::from_str(rev_reg_def_id)) {
            Some(stored) => Ok(stored),
            None => Err(Error::RevocationRegistryDefinitionNotFound),
        }
    }
}

/// Everything a prover keeps: its link secret and how it names it, its
/// credentials in both encodings by an identifier of its choosing, and,
/// for each revocation registry, the revocation state it last computed with
/// the timestamp of the status list that the state is good for.
#[derive(Debug)]
pub struct ProverWallet {
    pub entropy: &'static str,
    pub link_secret_id: &'static str,
    pub credentials: Registry<Credential>,
    pub rev_states: Registry<(Option<CredentialRevocationState>, Option<u64>)>,
    pub link_secret: LinkSecret,
    pub w3c_credentials: Registry<W3CCredential>,
}

/// The model of `ProverWallet` that contracts speak of.
pub struct ProverWalletView {
    pub entropy: Seq<char>,
    pub link_secret_id: Seq<char>,
    pub credentials: Map<Seq<char>, CredentialView>,
    pub rev_states: Map<Seq<char>, (Option<CredentialRevocationState>, Option<u64>)>,
    pub link_secret: Seq<char>,
    pub w3c_credentials: Map<Seq<char>, W3CCredentialView>,
}

impl View for ProverWallet {
    type V = ProverWalletView;

    open spec fn view(&self) -> ProverWalletView {
        ProverWalletView {
            entropy: self.entropy@,
            link_secret_id: self.link_secret_id@,
            credentials: self.credentials@,
            rev_states: self.rev_states@,
            link_secret: self.link_secret@,
            w3c_credentials: self.w3c_credentials@,
        }
    }
}

/// The call of the credential library that makes a presentation, with the
/// credentials chosen for it: of its presenting function for the legacy
/// encoding, or of the one for the W3C encoding.
#[derive(Debug)]
pub enum PresentationCall<'a> {
    Legacy(PresentCredentials<'a, Credential>),
    W3C(PresentCredentials<'a, W3CCredential>),
}

/// How the credential library is to make a revocation state: anew from
/// the registry's tails file, or from an earlier state and the status list
/// that the earlier state was good for.
#[derive(Debug)]
pub enum RevocationStateCall<'a> {
    Rebuild,
    Update { rev_state: &'a CredentialRevocationState, old_rev_status_list: &'a RevocationStatusList },
}

/// Whether a wallet that keeps `credentials` and `rev_states` can present
/// each of `choices`: it keeps the credential, and, where the credential is
/// bound to a revocation registry, an entry for that registry.
pub open spec fn presentable<T: RevocableCredential>(
    credentials: Map<Seq<char>, T::V>,
    rev_states: Map<Seq<char>, (Option<CredentialRevocationState>, Option<u64>)>,
    choices: Seq<CredentialToPresentView>,
) -> bool {
    forall|i: int|
        0 <= i < choices.len() ==> {
            &&& credentials.contains_key((#[trigger] choices[i]).id)
            &&& T::registry_of(credentials[choices[i].id]) matches Some(registry)
                ==> rev_states.contains_key(registry)
        }
}

/// Whether `selection` is the choice `choices` of a wallet that keeps
/// `credentials` and `rev_states`: choice by choice, the credential named,
/// put in as `selection_of` says.
pub open spec fn selected<T: RevocableCredential>(
    selection: Seq<PresentCredentialView<T::V>>,
    credentials: Map<Seq<char>, T::V>,
    rev_states: Map<Seq<char>, (Option<CredentialRevocationState>, Option<u64>)>,
    choices: Seq<CredentialToPresentView>,
) -> bool {
    &&& selection.len() == choices.len()
    &&& forall|i: int|
        0 <= i < choices.len() ==> #[trigger] selection[i] == selection_of(
            credentials[choices[i].id],
            T::registry_of(credentials[choices[i].id]),
            rev_states,
            choices[i].attributes,
        )
}

impl ProverWallet {
    /// A wallet that holds `link_secret`, names it `link_secret_id`, draws
    /// on `entropy` for its requests, and keeps nothing else yet.
    pub fn new(entropy: &'static str, link_secret_id: &'static str, link_secret: LinkSecret) -> (wallet:
        Self)
        ensures
            wallet@ == (ProverWalletView {
                entropy: entropy@,
                link_secret_id: link_secret_id@,
                credentials: Map::empty(),
                rev_states: Map::empty(),
                link_secret: link_secret@,
                w3c_credentials: Map::empty(),
            }),
    {
        ProverWallet {
            entropy,
            link_secret_id,
            credentials: Registry::new(),
            rev_states: Registry::new(),
            link_secret,
            w3c_credentials: Registry::new(),
        }
    }

    /// What to hand to the credential library to request the credential
    /// that `credential_offer` offers under `cred_def`: the wallet's link
    /// secret, under the wallet's name for it, and the wallet's entropy.
    pub fn create_credential_request<'a>(
        &'a self,
        cred_def: &'a CredentialDefinition,
        credential_offer: &'a CredentialOffer,
    ) -> (inputs: CredentialRequestInputs<'a>)
        ensures
            inputs.entropy@ == self@.entropy,
            inputs.cred_def@ == cred_def@,
            inputs.link_secret@ == self@.link_secret,
            inputs.link_secret_id@ == self@.link_secret_id,
            inputs.offer@ == credential_offer@,
    {
        CredentialRequestInputs {
            entropy: self.entropy,
            cred_def,
            link_secret: &self.link_secret,
            link_secret_id: self.link_secret_id,
            offer: credential_offer,
        }
    }

    /// Keeps a copy of `credential`, which the credential library has
    /// checked and unblinded with the wallet's link secret, under `id`
    /// among the credentials of its encoding.
    pub fn store_credential(&mut self, id: &str, credential: &Credentials)
        ensures
            match credential@ {
                CredentialsView::Legacy(legacy) => final(self)@ == (ProverWalletView {
                    credentials: old(self)@.credentials.insert(id@, legacy),
                    ..old(self)@
                }),
                CredentialsView::W3C(w3c) => final(self)@ == (ProverWalletView {
                    w3c_credentials: old(self)@.w3c_credentials.insert(id@, w3c),
                    ..old(self)@
                }),
            },
    {
        match credential {
            Credentials::Legacy(credential) => {
                self.credentials.insert(String::from_str(id), credential.duplicate());
            },
            Credentials::W3C(credential) => {
                self.w3c_credentials.insert(String::from_str(id), credential.duplicate());
            },
        }
    }

    /// How to make the revocation state of a credential as of a new status
    /// list: from `rev_state` and `old_rev_status_list` when both are given,
    /// anew otherwise.
    pub fn create_or_update_revocation_state<'a>(
        &self,
        rev_state: Option<&'a CredentialRevocationState>,
        old_rev_status_list: Option<&'a RevocationStatusList>,
    ) -> (call: RevocationStateCall<'a>)
        ensures
            match call {
                RevocationStateCall::Update { rev_state: earlier, old_rev_status_list: list } => {
                    rev_state == Some(earlier) && old_rev_status_list == Some(list)
                },
                RevocationStateCall::Rebuild => rev_state is None || old_rev_status_list is None,
            },
    {
        match (rev_state, old_rev_status_list) {
            (Some(rev_state), Some(old_rev_status_list)) => RevocationStateCall::Update {
                rev_state,
                old_rev_status_list,
            },
            _ => RevocationStateCall::Rebuild,
        }
    }

    /// Puts the credentials that `present_credentials` names, taken from
    /// `credentials`, into the form in which they go into a presentation.
    pub fn prepare_credentials_to_present<'b, T: RevocableCredential>(
        &'b self,
        credentials: &'b Registry<T>,
        present_credentials: &Vec<CredentialToPresent>,
    ) -> (present: PresentCredentials<'b, T>)
        requires
            presentable::<T>(credentials@, self@.rev_states, choices_view(present_credentials@)),
        ensures
            selected::<T>(
                present@,
                credentials@,
                self@.rev_states,
                choices_view(present_credentials@),
            ),
    {
        let ghost choices = choices_view(present_credentials@);
        let mut present: Vec<PresentCredential<'b, T>> = Vec::new();
        let mut i: usize = 0;
        while i < present_credentials.len()
            invariant
                i <= present_credentials@.len(),
                choices == choices_view(present_credentials@),
                presentable::<T>(credentials@, self@.rev_states, choices),
                present@.len() == i,
                forall|j: int|
                    0 <= j < i ==> (#[trigger] present@[j])@ == selection_of(
                        credentials@[choices[j].id],
                        T::registry_of(credentials@[choices[j].id]),
                        self@.rev_states,
                        choices[j].attributes,
                    ),
            decreases present_credentials@.len() - i,
        {
            let present_credential = &present_credentials[i];
            assert(choices[i as int] == present_credential@);
            let credential = match credentials.get(&present_credential.id) {
                Some(credential) => credential,
                None => vstd::pervasive::unreached(),
            };
            let (rev_state, timestamp) = match credential.rev_reg_id() {
                Some(id) => match self.rev_states.get(&id.0) {
                    Some(kept) => (kept.0.as_ref(), kept.1),
                    None => vstd::pervasive::unreached(),
                },
                None => (None, None),
            };
            let (requested_attributes, requested_predicates) = requested_parts(
                &present_credential.attributes,
            );
            let entry = PresentCredential {
                cred: credential,
                timestamp,
                rev_state,
                requested_attributes,
                requested_predicates,
            };
            proof {
                let wanted = selection_of(
                    credentials@[choices[i as int].id],
                    T::registry_of(credentials@[choices[i as int].id]),
                    self@.rev_states,
                    choices[i as int].attributes,
                );
                assert(entry@.requested_attributes =~= wanted.requested_attributes);
                assert(entry@.requested_predicates =~= wanted.requested_predicates);
                assert(entry@ == wanted);
            }
            present.push(entry);
            i = i + 1;
        }
        PresentCredentials(present)
    }

    /// Which call of the credential library makes a presentation in the
    /// encoding `format`, with the credentials that `present_credentials`
    /// names: those of the wallet in that encoding, put in as
    /// `prepare_credentials_to_present` does.
    pub fn create_presentation<'a>(
        &'a self,
        format: &PresentationFormat,
        present_credentials: &Vec<CredentialToPresent>,
    ) -> (call: PresentationCall<'a>)
        requires
            format is Legacy ==> presentable::<Credential>(
                self@.credentials,
                self@.rev_states,
                choices_view(present_credentials@),
            ),
            format is W3C ==> presentable::<W3CCredential>(
                self@.w3c_credentials,
                self@.rev_states,
                choices_view(present_credentials@),
            ),
        ensures
            match call {
                PresentationCall::Legacy(present) => format is Legacy && selected::<Credential>(
                    present@,
                    self@.credentials,
                    self@.rev_states,
                    choices_view(present_credentials@),
                ),
                PresentationCall::W3C(present) => format is W3C && selected::<W3CCredential>(
                    present@,
                    self@.w3c_credentials,
                    self@.rev_states,
                    choices_view(present_credentials@),
                ),
            },
    {
        match format {
            PresentationFormat::Legacy => PresentationCall::Legacy(
                self.prepare_credentials_to_present(&self.credentials, present_credentials),
            ),
            PresentationFormat::W3C => PresentationCall::W3C(
                self.prepare_credentials_to_present(&self.w3c_credentials, present_credentials),
            ),
        }
    }

    /// Keeps `converted`, which the credential library made of a credential
    /// in the other encoding, under `id` among the credentials of its own
    /// encoding.
    pub fn convert_credential(&mut self, id: &str, converted: Credentials)
        ensures
            match converted@ {
                CredentialsView::Legacy(legacy) => final(self)@ == (ProverWalletView {
                    credentials: old(self)@.credentials.insert(id@, legacy),
                    ..old(self)@
                }),
                CredentialsView::W3C(w3c) => final(self)@ == (ProverWalletView {
                    w3c_credentials: old(self)@.w3c_credentials.insert(id@, w3c),
                    ..old(self)@
                }),
            },
    {
        match converted {
            Credentials::Legacy(credential) => {
                self.credentials.insert(String::from_str(id), credential);
            },
            Credentials::W3C(credential) => {
                self.w3c_credentials.insert(String::from_str(id), credential);
            },
        }
    }
}

/// A verifier keeps nothing of its own.
#[derive(Debug)]
pub struct VerifierWallet {}

impl Default for VerifierWallet {
    fn default() -> Self {
        VerifierWallet {  }
    }
}

impl VerifierWallet {
    /// The verdict on a presentation, from what the credential library
    /// answered: its verdict, valid or not, as it is; or, where it could
    /// not reach one, an error that says what it reported.
    pub fn verify_presentation(&self, outcome: Result<bool, String>) -> (verdict: Result<
        bool,
        TestError,
    >)
        ensures
            match outcome {
                Ok(valid) => verdict == Ok::<bool, TestError>(valid),
                Err(report) => verdict is Err && verdict->Err_0@ == report@,
            },
    {
        match outcome {
            Ok(valid) => Ok(valid),
            Err(report) => Err(TestError::new(report)),
        }
    }

    /// Whether `presentation` shows what `attribute` expects.
    pub fn check_presentation_attribute(
        &self,
        presentation: &Presentations,
        attribute: PresentedAttribute,
    ) -> (shown: bool)
        ensures
            shown == shows(presentation@, attribute@),
    {
        check(presentation, &attribute)
    }
}

} // verus!
