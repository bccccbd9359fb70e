use anoncreds_roles::error::Error;
use anoncreds_roles::formats::{CredentialFormat, Credentials, PresentationFormat};
use anoncreds_roles::ids::{
    CredentialDefinitionId, IssuerId, RevocationRegistryDefinitionId, SchemaId,
};
use anoncreds_roles::model::{
    Credential, CredentialDefinition, CredentialDefinitionPrivate, CredentialKeyCorrectnessProof,
    CredentialOffer, CredentialRevocationState, LinkSecret, RevocationRegistryDefinition,
    RevocationRegistryDefinitionPrivate, RevocationStatusList, Schema,
};
use anoncreds_roles::presentation::W3CCredential;
use anoncreds_roles::registry::Registry;
use anoncreds_roles::selection::{
    requested_parts, CredentialToPresent, PresentAttribute, PresentAttributeForm,
    RevocableCredential,
};
use anoncreds_roles::wallet::{
    CredentialCall, IssuerWallet, Ledger, PresentationCall, ProverWallet, RevocationStateCall,
    VerifierWallet,
};

fn schema(name: &str) -> Schema {
    Schema {
        name: name.to_string(),
        version: "1.0".to_string(),
        issuer_id: IssuerId::new_unchecked("mock:uri"),
        attr_names: vec!["name".to_string(), "age".to_string()],
    }
}

fn cred_def(tag: &str) -> CredentialDefinition {
    CredentialDefinition {
        schema_id: SchemaId::new_unchecked("schema:id"),
        issuer_id: IssuerId::new_unchecked("mock:uri"),
        tag: tag.to_string(),
        support_revocation: true,
        material: "public key".to_string(),
    }
}

fn private() -> CredentialDefinitionPrivate {
    CredentialDefinitionPrivate { material: "private key".to_string() }
}

fn key_proof() -> CredentialKeyCorrectnessProof {
    CredentialKeyCorrectnessProof { material: "correctness proof".to_string() }
}

fn rev_reg_def(max: u32) -> RevocationRegistryDefinition {
    RevocationRegistryDefinition {
        issuer_id: IssuerId::new_unchecked("mock:uri"),
        cred_def_id: CredentialDefinitionId::new_unchecked("creddef:id"),
        tag: "tag".to_string(),
        max_cred_num: max,
        tails_location: "/tmp/tails".to_string(),
        tails_hash: "hash".to_string(),
        material: "accumulator key".to_string(),
    }
}

fn rev_reg_private() -> RevocationRegistryDefinitionPrivate {
    RevocationRegistryDefinitionPrivate { material: "accumulator secret".to_string() }
}

fn status_list(timestamp: Option<u64>) -> RevocationStatusList {
    RevocationStatusList {
        rev_reg_def_id: RevocationRegistryDefinitionId::new_unchecked("revreg:id"),
        timestamp,
        material: "accumulator".to_string(),
    }
}

fn credential(material: &str, rev_reg_id: Option<&str>) -> Credential {
    Credential {
        schema_id: SchemaId::new_unchecked("schema:id"),
        cred_def_id: CredentialDefinitionId::new_unchecked("creddef:id"),
        rev_reg_id: rev_reg_id.map(RevocationRegistryDefinitionId::new_unchecked),
        material: material.to_string(),
    }
}

fn w3c_credential(material: &str, rev_reg_id: Option<&str>) -> W3CCredential {
    W3CCredential {
        rev_reg_id: rev_reg_id.map(RevocationRegistryDefinitionId::new_unchecked),
        credential_subject: Registry::new(),
        material: material.to_string(),
    }
}

fn state(timestamp: u64) -> CredentialRevocationState {
    CredentialRevocationState { timestamp, material: "witness".to_string() }
}

fn prover_wallet() -> ProverWallet {
    ProverWallet::new("entropy", "default", LinkSecret { material: "secret".to_string() })
}

fn attribute(referent: &str, form: PresentAttributeForm) -> PresentAttribute {
    PresentAttribute { referent: referent.to_string(), form }
}

fn issuer_wallet_with_definition(ledger: &mut Ledger) -> IssuerWallet {
    let mut wallet = IssuerWallet::default();
    wallet.create_cred_def(ledger, "creddef:id", cred_def("tag"), private(), key_proof());
    wallet
}

#[test]
fn ledger_keeps_copies_of_what_is_added() {
    let mut ledger = Ledger::default();
    assert!(ledger.schemas.entries().is_empty());
    ledger.add_schema("schema:id", &schema("gvt"));
    ledger.add_cred_def("creddef:id", &cred_def("tag"));
    ledger.add_rev_reg_def("revreg:id", &rev_reg_def(128));
    assert_eq!(ledger.schemas.get(&"schema:id".to_string()), Some(&schema("gvt")));
    assert_eq!(ledger.cred_defs.get(&"creddef:id".to_string()), Some(&cred_def("tag")));
    assert_eq!(ledger.rev_reg_defs.get(&"revreg:id".to_string()), Some(&rev_reg_def(128)));
    ledger.add_schema("schema:id", &schema("other"));
    assert_eq!(ledger.schemas.get(&"schema:id".to_string()), Some(&schema("other")));
    assert_eq!(ledger.schemas.entries().len(), 1);
}

#[test]
fn ledger_resolves_the_identifiers_asked_for() {
    let mut ledger = Ledger::default();
    ledger.add_schema("a", &schema("a"));
    ledger.add_schema("b", &schema("b"));
    ledger.add_cred_def("c", &cred_def("c"));
    ledger.add_cred_def("d", &cred_def("d"));
    ledger.add_rev_reg_def("r", &rev_reg_def(1));
    ledger.add_rev_reg_def("s", &rev_reg_def(2));
    let schemas = ledger.resolve_schemas(vec!["b"]);
    assert_eq!(schemas.entries().len(), 1);
    assert_eq!(schemas.get(&"b".to_string()), Some(&schema("b")));
    let cred_defs = ledger.resolve_cred_defs(vec!["c", "d"]);
    assert_eq!(cred_defs.entries().len(), 2);
    assert_eq!(cred_defs.get(&"d".to_string()), Some(&cred_def("d")));
    let rev_reg_defs = ledger.resolve_rev_reg_defs(vec!["s", "s"]);
    assert_eq!(rev_reg_defs.entries().len(), 1);
    assert_eq!(rev_reg_defs.get(&"s".to_string()), Some(&rev_reg_def(2)));
    assert!(ledger.resolve_schemas(Vec::new()).entries().is_empty());
}

#[test]
fn issuer_wallet_writes_schemas_to_the_ledger() {
    let wallet = IssuerWallet::default();
    let mut ledger = Ledger::default();
    let (made, id) = wallet.create_schema(&mut ledger, "schema:id", schema("gvt"));
    assert_eq!(made, schema("gvt"));
    assert_eq!(id, "schema:id");
    assert_eq!(ledger.schemas.get(&id), Some(&schema("gvt")));
    assert!(wallet.cred_defs.entries().is_empty());
}

#[test]
fn issuer_wallet_keeps_definitions_and_publishes_their_public_half() {
    let mut wallet = IssuerWallet::default();
    let mut ledger = Ledger::default();
    let (made, id) =
        wallet.create_cred_def(&mut ledger, "creddef:id", cred_def("tag"), private(), key_proof());
    assert_eq!(made, cred_def("tag"));
    assert_eq!(id, "creddef:id");
    assert_eq!(ledger.cred_defs.get(&id), Some(&cred_def("tag")));
    let stored = wallet.cred_defs.get(&id).unwrap();
    assert_eq!(stored.public, cred_def("tag"));
    assert_eq!(stored.private.material, "private key");
    assert_eq!(stored.key_proof, key_proof());
}

#[test]
fn issuer_wallet_keeps_registries_and_hands_back_the_first_status_list() {
    let mut wallet = IssuerWallet::default();
    let mut ledger = Ledger::default();
    let (id, made, list) = wallet.create_revocation_registry(
        &mut ledger,
        "revreg:id",
        rev_reg_def(128),
        rev_reg_private(),
        status_list(Some(12)),
    );
    assert_eq!(id, "revreg:id");
    assert_eq!(made, rev_reg_def(128));
    assert_eq!(list, status_list(Some(12)));
    assert_eq!(ledger.rev_reg_defs.get(&id), Some(&rev_reg_def(128)));
    let stored = wallet.rev_defs.get(&id).unwrap();
    assert_eq!(stored.public, rev_reg_def(128));
    assert_eq!(stored.private.material, "accumulator secret");
    let again = wallet.update_revocation_status_list("revreg:id").unwrap();
    assert_eq!(again.public, rev_reg_def(128));
    assert_eq!(again.private.material, "accumulator secret");
    assert_eq!(
        wallet.update_revocation_status_list("revreg:none").unwrap_err(),
        Error::RevocationRegistryDefinitionNotFound
    );
}

#[test]
fn issuer_wallet_offers_with_the_stored_correctness_proof() {
    let mut ledger = Ledger::default();
    let wallet = issuer_wallet_with_definition(&mut ledger);
    assert_eq!(wallet.create_credential_offer("schema:id", "creddef:id"), Ok(&key_proof()));
}

#[test]
fn issuer_wallet_refuses_an_offer_without_a_correctness_proof() {
    let mut ledger = Ledger::default();
    let wallet = issuer_wallet_with_definition(&mut ledger);
    assert_eq!(
        wallet.create_credential_offer("schema:id", "creddef:none"),
        Err(Error::CorrectnessProofNotFound)
    );
    assert_eq!(
        IssuerWallet::default().create_credential_offer("schema:id", "creddef:id"),
        Err(Error::CorrectnessProofNotFound)
    );
}

#[test]
fn credential_without_a_registry_is_not_bound() {
    let mut ledger = Ledger::default();
    let wallet = issuer_wallet_with_definition(&mut ledger);
    let call = wallet
        .create_credential(&CredentialFormat::Legacy, "creddef:id", None, None, None)
        .unwrap();
    match call {
        CredentialCall::Legacy(inputs) => {
            assert_eq!(inputs.cred_def, &cred_def("tag"));
            assert_eq!(inputs.cred_def_private.material, "private key");
            assert!(inputs.revocation_config.is_none());
        }
        CredentialCall::W3C(_) => panic!("the legacy encoding was asked for"),
    }
    let list = status_list(Some(12));
    let call = wallet
        .create_credential(&CredentialFormat::W3C, "creddef:id", None, Some(&list), Some(5))
        .unwrap();
    match call {
        CredentialCall::W3C(inputs) => assert!(inputs.revocation_config.is_none()),
        CredentialCall::Legacy(_) => panic!("the W3C encoding was asked for"),
    }
}

#[test]
fn credential_of_an_unknown_registry_is_refused() {
    let mut ledger = Ledger::default();
    let wallet = issuer_wallet_with_definition(&mut ledger);
    let list = status_list(Some(12));
    let refused = wallet.create_credential(
        &CredentialFormat::W3C,
        "creddef:id",
        Some("revreg:none"),
        Some(&list),
        Some(5),
    );
    assert_eq!(refused.unwrap_err(), Error::RevocationRegistryDefinitionNotFound);
    let refused =
        wallet.create_credential(&CredentialFormat::Legacy, "creddef:id", Some("revreg:none"), None, None);
    assert_eq!(refused.unwrap_err(), Error::RevocationRegistryDefinitionNotFound);
}

#[test]
fn credential_of_an_unknown_definition_is_refused() {
    let mut ledger = Ledger::default();
    let mut wallet = issuer_wallet_with_definition(&mut ledger);
    wallet.create_revocation_registry(
        &mut ledger,
        "revreg:id",
        rev_reg_def(128),
        rev_reg_private(),
        status_list(Some(12)),
    );
    let list = status_list(Some(12));
    let refused =
        wallet.create_credential(&CredentialFormat::Legacy, "creddef:none", None, None, None);
    assert_eq!(refused.unwrap_err(), Error::CredentialDefinitionNotFound);
    let refused = wallet.create_credential(
        &CredentialFormat::Legacy,
        "creddef:none",
        Some("revreg:none"),
        Some(&list),
        Some(5),
    );
    assert_eq!(refused.unwrap_err(), Error::CredentialDefinitionNotFound);
    let refused = wallet.create_credential(
        &CredentialFormat::Legacy,
        "creddef:none",
        Some("revreg:id"),
        None,
        None,
    );
    assert_eq!(refused.unwrap_err(), Error::CredentialDefinitionNotFound);
}

#[test]
fn credential_of_a_kept_registry_is_bound_at_the_index() {
    let mut ledger = Ledger::default();
    let mut wallet = issuer_wallet_with_definition(&mut ledger);
    wallet.create_revocation_registry(
        &mut ledger,
        "revreg:id",
        rev_reg_def(128),
        rev_reg_private(),
        status_list(Some(12)),
    );
    let list = status_list(Some(12));
    let call = wallet
        .create_credential(
            &CredentialFormat::W3C,
            "creddef:id",
            Some("revreg:id"),
            Some(&list),
            Some(5),
        )
        .unwrap();
    match call {
        CredentialCall::W3C(inputs) => {
            let config = inputs.revocation_config.unwrap();
            assert_eq!(config.reg_def, &rev_reg_def(128));
            assert_eq!(config.reg_def_private.material, "accumulator secret");
            assert_eq!(config.registry_idx, 5);
            assert_eq!(config.status_list, &status_list(Some(12)));
        }
        CredentialCall::Legacy(_) => panic!("the W3C encoding was asked for"),
    }
}

#[test]
fn prover_wallet_starts_with_its_link_secret() {
    let wallet = prover_wallet();
    assert_eq!(wallet.entropy, "entropy");
    assert_eq!(wallet.link_secret_id, "default");
    assert_eq!(wallet.link_secret.material, "secret");
    assert!(wallet.credentials.entries().is_empty());
    assert!(wallet.w3c_credentials.entries().is_empty());
    assert!(wallet.rev_states.entries().is_empty());
}

#[test]
fn prover_wallet_requests_with_its_own_entropy_and_secret_name() {
    let wallet = ProverWallet::new("dice", "mine", LinkSecret { material: "secret".to_string() });
    let cred_def = cred_def("tag");
    let offer = CredentialOffer {
        schema_id: SchemaId::new_unchecked("schema:id"),
        cred_def_id: CredentialDefinitionId::new_unchecked("creddef:id"),
        material: "nonce".to_string(),
    };
    let inputs = wallet.create_credential_request(&cred_def, &offer);
    assert_eq!(inputs.entropy, "dice");
    assert_eq!(inputs.link_secret_id, "mine");
    assert_eq!(inputs.link_secret.material, "secret");
    assert_eq!(inputs.cred_def, &cred_def);
    assert_eq!(inputs.offer, &offer);
}

#[test]
fn credentials_are_stored_by_their_encoding() {
    let mut wallet = prover_wallet();
    wallet.store_credential("gvt", &Credentials::Legacy(credential("legacy", None)));
    assert_eq!(wallet.credentials.get(&"gvt".to_string()), Some(&credential("legacy", None)));
    assert!(wallet.w3c_credentials.entries().is_empty());
    wallet.store_credential("gvt", &Credentials::W3C(w3c_credential("w3c", Some("revreg:id"))));
    let kept = wallet.w3c_credentials.get(&"gvt".to_string()).unwrap();
    assert_eq!(kept.material, "w3c");
    assert_eq!(kept.rev_reg_id, Some(RevocationRegistryDefinitionId::new_unchecked("revreg:id")));
    assert_eq!(wallet.credentials.entries().len(), 1);
    wallet.store_credential("gvt", &Credentials::Legacy(credential("newer", None)));
    assert_eq!(wallet.credentials.get(&"gvt".to_string()), Some(&credential("newer", None)));
}

#[test]
fn converted_credentials_join_the_other_encoding() {
    let mut wallet = prover_wallet();
    wallet.store_credential("gvt", &Credentials::Legacy(credential("legacy", None)));
    wallet.convert_credential("gvt", Credentials::W3C(w3c_credential("converted", None)));
    assert_eq!(wallet.credentials.get(&"gvt".to_string()), Some(&credential("legacy", None)));
    assert_eq!(wallet.w3c_credentials.get(&"gvt".to_string()).unwrap().material, "converted");
    wallet.convert_credential("other", Credentials::Legacy(credential("back", None)));
    assert_eq!(wallet.credentials.get(&"other".to_string()), Some(&credential("back", None)));
    assert_eq!(wallet.w3c_credentials.entries().len(), 1);
}

#[test]
fn revocation_state_is_updated_only_from_a_state_and_its_list() {
    let wallet = prover_wallet();
    let earlier = state(12);
    let list = status_list(Some(12));
    match wallet.create_or_update_revocation_state(Some(&earlier), Some(&list)) {
        RevocationStateCall::Update { rev_state, old_rev_status_list } => {
            assert_eq!(rev_state, &earlier);
            assert_eq!(old_rev_status_list, &list);
        }
        RevocationStateCall::Rebuild => panic!("a state and its list were given"),
    }
    assert!(matches!(
        wallet.create_or_update_revocation_state(None, None),
        RevocationStateCall::Rebuild
    ));
    assert!(matches!(
        wallet.create_or_update_revocation_state(Some(&earlier), None),
        RevocationStateCall::Rebuild
    ));
    assert!(matches!(
        wallet.create_or_update_revocation_state(None, Some(&list)),
        RevocationStateCall::Rebuild
    ));
}

#[test]
fn referents_are_sorted_by_form() {
    let attributes = vec![
        attribute("attr1_referent", PresentAttributeForm::RevealedAttribute),
        attribute("attr2_referent", PresentAttributeForm::UnrevealedAttribute),
        attribute("predicate1_referent", PresentAttributeForm::Predicate),
        attribute("attr3_referent", PresentAttributeForm::RevealedAttribute),
        attribute("predicate2_referent", PresentAttributeForm::Predicate),
    ];
    let (requested_attributes, requested_predicates) = requested_parts(&attributes);
    assert_eq!(
        requested_attributes,
        vec![
            ("attr1_referent".to_string(), true),
            ("attr2_referent".to_string(), false),
            ("attr3_referent".to_string(), true),
        ]
    );
    assert_eq!(
        requested_predicates,
        vec!["predicate1_referent".to_string(), "predicate2_referent".to_string()]
    );
    let (none, nothing) = requested_parts(&Vec::new());
    assert!(none.is_empty());
    assert!(nothing.is_empty());
}

#[test]
fn credentials_know_their_registry() {
    assert_eq!(credential("c", None).rev_reg_id(), None);
    assert_eq!(
        credential("c", Some("revreg:id")).rev_reg_id(),
        Some(RevocationRegistryDefinitionId::new_unchecked("revreg:id"))
    );
    assert_eq!(w3c_credential("c", None).rev_reg_id(), None);
    assert_eq!(
        w3c_credential("c", Some("revreg:id")).rev_reg_id(),
        Some(RevocationRegistryDefinitionId::new_unchecked("revreg:id"))
    );
}

#[test]
fn unbound_credential_is_presented_without_a_state() {
    let mut wallet = prover_wallet();
    wallet.store_credential("gvt", &Credentials::Legacy(credential("legacy", None)));
    wallet.rev_states.insert("revreg:id".to_string(), (Some(state(12)), Some(12)));
    let choices = vec![CredentialToPresent {
        id: "gvt".to_string(),
        attributes: vec![attribute("attr1_referent", PresentAttributeForm::RevealedAttribute)],
    }];
    let present = wallet.prepare_credentials_to_present(&wallet.credentials, &choices);
    assert_eq!(present.0.len(), 1);
    assert_eq!(present.0[0].cred, &credential("legacy", None));
    assert_eq!(present.0[0].timestamp, None);
    assert!(present.0[0].rev_state.is_none());
    assert_eq!(present.0[0].requested_attributes, vec![("attr1_referent".to_string(), true)]);
    assert!(present.0[0].requested_predicates.is_empty());
}

#[test]
fn bound_credential_is_presented_with_the_state_of_its_registry() {
    let mut wallet = prover_wallet();
    wallet.store_credential("gvt", &Credentials::Legacy(credential("legacy", Some("revreg:id"))));
    wallet.store_credential("plain", &Credentials::Legacy(credential("plain", None)));
    wallet.rev_states.insert("revreg:other".to_string(), (Some(state(1)), Some(1)));
    wallet.rev_states.insert("revreg:id".to_string(), (Some(state(13)), Some(13)));
    let choices = vec![
        CredentialToPresent {
            id: "plain".to_string(),
            attributes: vec![attribute("predicate1_referent", PresentAttributeForm::Predicate)],
        },
        CredentialToPresent {
            id: "gvt".to_string(),
            attributes: vec![
                attribute("attr1_referent", PresentAttributeForm::RevealedAttribute),
                attribute("attr2_referent", PresentAttributeForm::UnrevealedAttribute),
            ],
        },
    ];
    let present = wallet.prepare_credentials_to_present(&wallet.credentials, &choices);
    assert_eq!(present.0.len(), 2);
    assert_eq!(present.0[0].cred, &credential("plain", None));
    assert!(present.0[0].rev_state.is_none());
    assert!(present.0[0].requested_attributes.is_empty());
    assert_eq!(present.0[0].requested_predicates, vec!["predicate1_referent".to_string()]);
    assert_eq!(present.0[1].cred, &credential("legacy", Some("revreg:id")));
    assert_eq!(present.0[1].timestamp, Some(13));
    assert_eq!(present.0[1].rev_state, Some(&state(13)));
    assert_eq!(
        present.0[1].requested_attributes,
        vec![("attr1_referent".to_string(), true), ("attr2_referent".to_string(), false)]
    );
}

#[test]
fn registry_entry_without_a_state_gives_neither_state_nor_more() {
    let mut wallet = prover_wallet();
    wallet.store_credential("gvt", &Credentials::Legacy(credential("legacy", Some("revreg:id"))));
    wallet.rev_states.insert("revreg:id".to_string(), (None, Some(7)));
    let choices = vec![CredentialToPresent { id: "gvt".to_string(), attributes: Vec::new() }];
    let present = wallet.prepare_credentials_to_present(&wallet.credentials, &choices);
    assert_eq!(present.0[0].timestamp, Some(7));
    assert!(present.0[0].rev_state.is_none());
    assert!(present.0[0].requested_attributes.is_empty());
    assert!(present.0[0].requested_predicates.is_empty());
}

#[test]
fn presentation_is_made_from_the_credentials_of_its_encoding() {
    let mut wallet = prover_wallet();
    wallet.store_credential("gvt", &Credentials::Legacy(credential("legacy", None)));
    wallet.store_credential("gvt", &Credentials::W3C(w3c_credential("w3c", None)));
    let choices = vec![CredentialToPresent {
        id: "gvt".to_string(),
        attributes: vec![attribute("attr1_referent", PresentAttributeForm::RevealedAttribute)],
    }];
    match wallet.create_presentation(&PresentationFormat::Legacy, &choices) {
        PresentationCall::Legacy(present) => {
            assert_eq!(present.0.len(), 1);
            assert_eq!(present.0[0].cred.material, "legacy");
        }
        PresentationCall::W3C(_) => panic!("the legacy encoding was asked for"),
    }
    match wallet.create_presentation(&PresentationFormat::W3C, &choices) {
        PresentationCall::W3C(present) => {
            assert_eq!(present.0.len(), 1);
            assert_eq!(present.0[0].cred.material, "w3c");
            assert_eq!(present.0[0].requested_attributes, vec![("attr1_referent".to_string(), true)]);
        }
        PresentationCall::Legacy(_) => panic!("the W3C encoding was asked for"),
    }
    match wallet.create_presentation(&PresentationFormat::W3C, &Vec::new()) {
        PresentationCall::W3C(present) => assert!(present.0.is_empty()),
        PresentationCall::Legacy(_) => panic!("the W3C encoding was asked for"),
    }
}

#[test]
fn verdict_keeps_invalid_apart_from_failed() {
    let wallet = VerifierWallet::default();
    assert_eq!(wallet.verify_presentation(Ok(true)).unwrap(), true);
    assert_eq!(wallet.verify_presentation(Ok(false)).unwrap(), false);
    let failed = wallet.verify_presentation(Err("Schema not provided".to_string())).unwrap_err();
    assert_eq!(failed.message(), "Schema not provided");
    assert_eq!(format!("{:?}", failed), "TestError(\"Schema not provided\")");
}
