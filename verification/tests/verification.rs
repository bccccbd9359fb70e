use anoncreds_roles::error::Error;
use anoncreds_roles::ids::{
    CredentialDefinitionId, IssuerId, RevocationRegistryDefinitionId, SchemaId,
};
use anoncreds_roles::model::{
    CredentialDefinition, Nonce, RevocationRegistryDefinition, RevocationStatusList, Schema,
};
use anoncreds_roles::presentation::{
    Identifier, Presentation, RequestedAttribute, RequestedProof,
};
use anoncreds_roles::registry::Registry;
use anoncreds_roles::vdr::Vdr;
use anoncreds_roles::verification::Verifier;

fn schema(name: &str) -> Schema {
    Schema {
        name: name.to_string(),
        version: "1.0".to_string(),
        issuer_id: IssuerId::new_unchecked("mock:uri"),
        attr_names: vec!["name".to_string(), "age".to_string()],
    }
}

fn cred_def(tag: &str) -> CredentialDefinition {
    CredentialDefinition {
        schema_id: SchemaId::new_unchecked("s"),
        issuer_id: IssuerId::new_unchecked("mock:uri"),
        tag: tag.to_string(),
        support_revocation: true,
        material: "public key".to_string(),
    }
}

fn rev_reg_def() -> RevocationRegistryDefinition {
    RevocationRegistryDefinition {
        issuer_id: IssuerId::new_unchecked("mock:uri"),
        cred_def_id: CredentialDefinitionId::new_unchecked("c"),
        tag: "tag".to_string(),
        max_cred_num: 128,
        tails_location: "/tmp/tails".to_string(),
        tails_hash: "hash".to_string(),
        material: "accumulator key".to_string(),
    }
}

fn presentation(made_under: &[(&str, &str)]) -> Presentation {
    Presentation {
        requested_proof: RequestedProof {
            revealed_attrs: Registry::new(),
            revealed_attr_groups: Registry::new(),
            unrevealed_attrs: Registry::new(),
            predicates: Registry::new(),
        },
        identifiers: made_under
            .iter()
            .map(|(schema_id, cred_def_id)| Identifier {
                schema_id: SchemaId::new_unchecked(schema_id),
                cred_def_id: CredentialDefinitionId::new_unchecked(cred_def_id),
                rev_reg_id: None,
                timestamp: None,
            })
            .collect(),
        material: "proof".to_string(),
    }
}

fn status_list(timestamp: u64) -> RevocationStatusList {
    RevocationStatusList {
        rev_reg_def_id: RevocationRegistryDefinitionId::new_unchecked("r"),
        timestamp: Some(timestamp),
        material: format!("accumulator at {}", timestamp),
    }
}

fn bound_presentation(registry: &str) -> Presentation {
    let mut shown = presentation(&[("s", "c")]);
    shown.identifiers[0].rev_reg_id = Some(RevocationRegistryDefinitionId::new_unchecked(registry));
    shown.identifiers[0].timestamp = Some(13);
    shown
}

fn verifier_with(schemas: &[&str], cred_defs: &[&str]) -> Verifier {
    let mut verifier = Verifier::new();
    for id in schemas {
        verifier.cached_schemas.insert(id.to_string(), schema(id));
    }
    for id in cred_defs {
        verifier.cached_cred_defs.insert(id.to_string(), cred_def(id));
    }
    verifier
}

#[test]
fn new_verifier_has_fetched_nothing() {
    let verifier = Verifier::new();
    assert!(verifier.get_cached_schemas().entries().is_empty());
    assert!(verifier.get_cached_cred_defs().entries().is_empty());
    assert!(verifier.get_cached_rev_reg_defs().entries().is_empty());
    let by_default = Verifier::default();
    assert!(by_default.cached_schemas.entries().is_empty());
}

#[test]
fn presentation_request_asks_for_name_and_age() {
    let verifier = Verifier::new();
    let request = verifier.create_presentation_request(
        Nonce { value: "1234567890".to_string() },
        "pres_req_1",
        "0.1",
    );
    assert_eq!(request.nonce.value, "1234567890");
    assert_eq!(request.name, "pres_req_1");
    assert_eq!(request.version, "0.1");
    assert_eq!(
        request.requested_attributes,
        vec![
            RequestedAttribute { referent: "name_attr".to_string(), name: "name".to_string() },
            RequestedAttribute { referent: "age_attr".to_string(), name: "age".to_string() },
        ]
    );
    assert!(request.requested_predicates.is_empty());
    assert_eq!(request.non_revoked, None);
}

#[test]
fn presentation_requests_carry_the_nonce_they_were_given() {
    let verifier = Verifier::new();
    let first = verifier.create_presentation_request(Nonce { value: "1".to_string() }, "r", "1");
    let second = verifier.create_presentation_request(Nonce { value: "2".to_string() }, "r", "1");
    assert_ne!(first.nonce, second.nonce);
    assert_eq!(first.requested_attributes, second.requested_attributes);
}

#[test]
fn verification_of_a_presentation_under_nothing_needs_nothing() {
    let verifier = Verifier::new();
    let inputs = verifier.verify_presentation(&presentation(&[]), Vec::new()).unwrap();
    assert!(inputs.schemas.entries().is_empty());
    assert!(inputs.cred_defs.entries().is_empty());
    assert!(inputs.rev_reg_defs.entries().is_empty());
    assert!(inputs.rev_status_lists.is_empty());
}

#[test]
fn verification_is_refused_for_a_schema_not_fetched() {
    let verifier = verifier_with(&[], &["c"]);
    assert_eq!(
        verifier.verify_presentation(&presentation(&[("s", "c")]), Vec::new()).unwrap_err(),
        Error::SchemaNotFound
    );
}

#[test]
fn verification_is_refused_for_a_credential_definition_not_fetched() {
    let verifier = verifier_with(&["s"], &[]);
    assert_eq!(
        verifier.verify_presentation(&presentation(&[("s", "c")]), Vec::new()).unwrap_err(),
        Error::CredentialDefinitionNotFound
    );
}

#[test]
fn verification_reports_the_first_thing_missing() {
    let verifier = verifier_with(&["s1", "s2"], &["c1"]);
    assert_eq!(
        verifier
            .verify_presentation(&presentation(&[("s1", "c1"), ("s2", "c2"), ("s3", "c1")]), Vec::new())
            .unwrap_err(),
        Error::CredentialDefinitionNotFound
    );
    assert_eq!(
        verifier
            .verify_presentation(&presentation(&[("s1", "c1"), ("s3", "c2"), ("s2", "c2")]), Vec::new())
            .unwrap_err(),
        Error::SchemaNotFound
    );
    assert_eq!(
        verifier.verify_presentation(&presentation(&[("s3", "c3")]), Vec::new()).unwrap_err(),
        Error::SchemaNotFound
    );
}

#[test]
fn verification_hands_over_everything_fetched() {
    let mut verifier = verifier_with(&["s1", "s2"], &["c1"]);
    verifier.cached_rev_reg_defs.insert("r".to_string(), rev_reg_def());
    let presentation = presentation(&[("s1", "c1"), ("s2", "c1")]);
    let inputs = verifier.verify_presentation(&presentation, Vec::new()).unwrap();
    assert_eq!(inputs.schemas.entries().len(), 2);
    assert_eq!(inputs.schemas.get(&"s2".to_string()), Some(&schema("s2")));
    assert_eq!(inputs.cred_defs.get(&"c1".to_string()), Some(&cred_def("c1")));
    assert_eq!(inputs.rev_reg_defs.get(&"r".to_string()), Some(&rev_reg_def()));
    assert_eq!(inputs.rev_reg_defs.entries().len(), 1);
    assert!(inputs.rev_status_lists.is_empty());
}

#[test]
fn verifier_fetches_and_keeps_what_the_registry_has() {
    let mut verifier = Verifier::new();
    let mut vdr = Vdr::new();
    let schema_id = SchemaId::new_unchecked("s");
    let cred_def_id = CredentialDefinitionId::new_unchecked("c");
    let rev_reg_def_id = RevocationRegistryDefinitionId::new_unchecked("r");
    assert!(verifier.fetch_schema_from_vdr(&vdr, &schema_id).is_none());
    assert!(verifier.fetch_credential_definition_from_vdr(&vdr, &cred_def_id).is_none());
    assert!(verifier
        .fetch_revocation_registry_definition_from_vdr(&vdr, &rev_reg_def_id)
        .is_none());
    assert!(verifier.get_cached_schemas().entries().is_empty());
    assert!(verifier.get_cached_cred_defs().entries().is_empty());
    assert!(verifier.get_cached_rev_reg_defs().entries().is_empty());
    vdr.publish_schema(schema_id.clone(), schema("gvt"));
    vdr.publish_credential_definition(cred_def_id.clone(), cred_def("tag"));
    vdr.publish_revocation_registry_definition(rev_reg_def_id.clone(), rev_reg_def());
    assert_eq!(verifier.fetch_schema_from_vdr(&vdr, &schema_id), Some(&schema("gvt")));
    assert_eq!(
        verifier.fetch_credential_definition_from_vdr(&vdr, &cred_def_id),
        Some(&cred_def("tag"))
    );
    assert_eq!(
        verifier.fetch_revocation_registry_definition_from_vdr(&vdr, &rev_reg_def_id),
        Some(&rev_reg_def())
    );
    assert_eq!(verifier.get_cached_schemas().get(&schema_id.0), Some(&schema("gvt")));
    assert_eq!(verifier.get_cached_cred_defs().get(&cred_def_id.0), Some(&cred_def("tag")));
    assert_eq!(verifier.get_cached_rev_reg_defs().get(&rev_reg_def_id.0), Some(&rev_reg_def()));
}

#[test]
fn verification_succeeds_once_everything_is_fetched() {
    let mut verifier = Verifier::new();
    let mut vdr = Vdr::new();
    let schema_id = SchemaId::new_unchecked("s");
    let cred_def_id = CredentialDefinitionId::new_unchecked("c");
    vdr.publish_schema(schema_id.clone(), schema("gvt"));
    vdr.publish_credential_definition(cred_def_id.clone(), cred_def("tag"));
    let presentation = presentation(&[("s", "c")]);
    assert_eq!(verifier.verify_presentation(&presentation, Vec::new()).unwrap_err(), Error::SchemaNotFound);
    verifier.fetch_schema_from_vdr(&vdr, &schema_id);
    assert_eq!(
        verifier.verify_presentation(&presentation, Vec::new()).unwrap_err(),
        Error::CredentialDefinitionNotFound
    );
    verifier.fetch_credential_definition_from_vdr(&vdr, &cred_def_id);
    assert!(verifier.verify_presentation(&presentation, Vec::new()).is_ok());
}

#[test]
fn verification_hands_over_the_snapshots_in_their_order() {
    let mut verifier = verifier_with(&["s"], &["c"]);
    verifier.cached_rev_reg_defs.insert("r".to_string(), rev_reg_def());
    let lists = vec![status_list(13), status_list(14), status_list(12)];
    let shown = bound_presentation("r");
    let inputs = verifier.verify_presentation(&shown, lists.clone()).unwrap();
    assert_eq!(inputs.rev_status_lists, lists);
    assert_eq!(inputs.rev_status_lists.len(), 3);
    assert_eq!(inputs.rev_status_lists[0].timestamp, Some(13));
    assert_eq!(inputs.rev_status_lists[2].timestamp, Some(12));
    let one = verifier.verify_presentation(&shown, vec![status_list(13)]).unwrap();
    assert_eq!(one.rev_status_lists, vec![status_list(13)]);
}

#[test]
fn verification_is_refused_for_a_registry_not_fetched() {
    let mut verifier = verifier_with(&["s"], &["c"]);
    let shown = bound_presentation("r");
    assert_eq!(
        verifier.verify_presentation(&shown, vec![status_list(13)]).unwrap_err(),
        Error::RevocationRegistryDefinitionNotFound
    );
    verifier.cached_rev_reg_defs.insert("other".to_string(), rev_reg_def());
    assert_eq!(
        verifier.verify_presentation(&shown, Vec::new()).unwrap_err(),
        Error::RevocationRegistryDefinitionNotFound
    );
    verifier.cached_rev_reg_defs.insert("r".to_string(), rev_reg_def());
    assert!(verifier.verify_presentation(&shown, Vec::new()).is_ok());
    let schema_first = verifier_with(&[], &["c"]);
    assert_eq!(
        schema_first.verify_presentation(&shown, Vec::new()).unwrap_err(),
        Error::SchemaNotFound
    );
    let definition_next = verifier_with(&["s"], &[]);
    assert_eq!(
        definition_next.verify_presentation(&shown, Vec::new()).unwrap_err(),
        Error::CredentialDefinitionNotFound
    );
}
