use anoncreds_roles::ids::{
    CredentialDefinitionId, IssuerId, RevocationRegistryDefinitionId, SchemaId,
};
use anoncreds_roles::model::{
    Credential, CredentialDefinition, CredentialOffer, CredentialRevocationState, LinkSecret,
    Schema,
};
use anoncreds_roles::prover::Prover;
use anoncreds_roles::selection::{PresentAttribute, PresentAttributeForm};
use anoncreds_roles::vdr::Vdr;

fn prover() -> Prover {
    Prover::new(LinkSecret { material: "secret".to_string() })
}

fn schema(name: &str) -> Schema {
    Schema {
        name: name.to_string(),
        version: "1.0".to_string(),
        issuer_id: IssuerId::new_unchecked("mock:uri"),
        attr_names: vec!["name".to_string(), "age".to_string()],
    }
}

fn cred_def(tag: &str) -> CredentialDefinition {
    CredentialDefinition {
        schema_id: SchemaId::new_unchecked("s"),
        issuer_id: IssuerId::new_unchecked("mock:uri"),
        tag: tag.to_string(),
        support_revocation: false,
        material: "public key".to_string(),
    }
}

fn bound_credential(material: &str, registry: &str) -> Credential {
    Credential {
        schema_id: SchemaId::new_unchecked("s"),
        cred_def_id: CredentialDefinitionId::new_unchecked("c"),
        rev_reg_id: Some(RevocationRegistryDefinitionId::new_unchecked(registry)),
        material: material.to_string(),
    }
}

fn state(timestamp: u64) -> CredentialRevocationState {
    CredentialRevocationState { timestamp, material: format!("witness at {}", timestamp) }
}

fn name_and_age() -> Vec<PresentAttribute> {
    vec![
        PresentAttribute {
            referent: "name_attr".to_string(),
            form: PresentAttributeForm::RevealedAttribute,
        },
        PresentAttribute {
            referent: "age_attr".to_string(),
            form: PresentAttributeForm::RevealedAttribute,
        },
    ]
}

fn credential(material: &str) -> Credential {
    Credential {
        schema_id: SchemaId::new_unchecked("s"),
        cred_def_id: CredentialDefinitionId::new_unchecked("c"),
        rev_reg_id: None,
        material: material.to_string(),
    }
}

#[test]
fn new_prover_holds_its_link_secret_only() {
    let prover = prover();
    assert_eq!(prover.link_secret.material, "secret");
    assert!(prover.credentials.is_empty());
    assert!(prover.credential_metadata.entries().is_empty());
    assert!(prover.revocation_states.entries().is_empty());
    assert!(prover.get_cached_schemas().entries().is_empty());
    assert!(prover.get_cached_cred_defs().entries().is_empty());
}

#[test]
fn credential_request_uses_the_fixed_entropy_and_secret_name() {
    let prover = prover();
    let cred_def = cred_def("tag");
    let offer = CredentialOffer {
        schema_id: SchemaId::new_unchecked("s"),
        cred_def_id: CredentialDefinitionId::new_unchecked("c"),
        material: "nonce".to_string(),
    };
    let inputs = prover.create_credential_request(&cred_def, &offer);
    assert_eq!(inputs.entropy, "entropy");
    assert_eq!(inputs.link_secret_id, "my-secret");
    assert_eq!(inputs.link_secret.material, "secret");
    assert_eq!(inputs.cred_def, &cred_def);
    assert_eq!(inputs.offer, &offer);
}

#[test]
fn processed_credentials_are_held_in_order() {
    let mut prover = prover();
    prover.process_credential(credential("first"));
    prover.process_credential(credential("second"));
    prover.process_credential(credential("first"));
    assert_eq!(prover.credentials, vec![credential("first"), credential("second"), credential("first")]);
}

#[test]
fn presentation_of_no_credentials_selects_nothing() {
    let prover = prover();
    assert!(prover.create_presentation(&name_and_age()).0.is_empty());
}

#[test]
fn presentation_answers_with_every_credential_as_the_caller_marked() {
    let mut prover = prover();
    prover.process_credential(credential("first"));
    prover.process_credential(credential("second"));
    let selection = prover.create_presentation(&name_and_age());
    assert_eq!(selection.0.len(), 2);
    assert_eq!(selection.0[0].cred, &credential("first"));
    assert_eq!(selection.0[1].cred, &credential("second"));
    for entry in selection.0.iter() {
        assert_eq!(entry.timestamp, None);
        assert!(entry.rev_state.is_none());
        assert_eq!(
            entry.requested_attributes,
            vec![("name_attr".to_string(), true), ("age_attr".to_string(), true)]
        );
        assert!(entry.requested_predicates.is_empty());
    }
    let marked = vec![
        PresentAttribute {
            referent: "name_attr".to_string(),
            form: PresentAttributeForm::UnrevealedAttribute,
        },
        PresentAttribute { referent: "adult".to_string(), form: PresentAttributeForm::Predicate },
    ];
    let selection = prover.create_presentation(&marked);
    for entry in selection.0.iter() {
        assert_eq!(entry.requested_attributes, vec![("name_attr".to_string(), false)]);
        assert_eq!(entry.requested_predicates, vec!["adult".to_string()]);
    }
    let selection = prover.create_presentation(&Vec::new());
    assert_eq!(selection.0.len(), 2);
    assert!(selection.0[0].requested_attributes.is_empty());
    assert!(selection.0[0].requested_predicates.is_empty());
}

#[test]
fn bound_credential_goes_in_with_the_state_kept_for_its_registry() {
    let mut prover = prover();
    prover.process_credential(bound_credential("bound", "r1"));
    prover.process_credential(credential("plain"));
    prover.process_credential(bound_credential("other", "r2"));
    prover.revocation_states.insert("r2".to_string(), state(20));
    prover.revocation_states.insert("r1".to_string(), state(13));
    let selection = prover.create_presentation(&name_and_age());
    assert_eq!(selection.0.len(), 3);
    assert_eq!(selection.0[0].cred, &bound_credential("bound", "r1"));
    assert_eq!(selection.0[0].rev_state, Some(&state(13)));
    assert_eq!(selection.0[0].timestamp, Some(13));
    assert_eq!(selection.0[1].cred, &credential("plain"));
    assert!(selection.0[1].rev_state.is_none());
    assert_eq!(selection.0[1].timestamp, None);
    assert_eq!(selection.0[2].rev_state, Some(&state(20)));
    assert_eq!(selection.0[2].timestamp, Some(20));
    prover.revocation_states.insert("r1".to_string(), state(14));
    let selection = prover.create_presentation(&name_and_age());
    assert_eq!(selection.0[0].rev_state, Some(&state(14)));
    assert_eq!(selection.0[0].timestamp, Some(14));
    assert_eq!(
        selection.0[0].requested_attributes,
        vec![("name_attr".to_string(), true), ("age_attr".to_string(), true)]
    );
}

#[test]
fn presenting_leaves_the_credentials_held() {
    let mut prover = prover();
    prover.process_credential(credential("first"));
    assert_eq!(prover.create_presentation(&name_and_age()).0.len(), 1);
    assert_eq!(prover.create_presentation(&name_and_age()).0.len(), 1);
    assert_eq!(prover.credentials, vec![credential("first")]);
}

#[test]
fn prover_fetches_and_keeps_what_the_registry_has() {
    let mut prover = prover();
    let mut vdr = Vdr::new();
    let schema_id = SchemaId::new_unchecked("s");
    let cred_def_id = CredentialDefinitionId::new_unchecked("c");
    assert!(prover.fetch_schema_from_vdr(&vdr, &schema_id).is_none());
    assert!(prover.fetch_credential_definition_from_vdr(&vdr, &cred_def_id).is_none());
    assert!(prover.get_cached_schemas().entries().is_empty());
    assert!(prover.get_cached_cred_defs().entries().is_empty());
    vdr.publish_schema(schema_id.clone(), schema("gvt"));
    vdr.publish_credential_definition(cred_def_id.clone(), cred_def("tag"));
    assert_eq!(prover.fetch_schema_from_vdr(&vdr, &schema_id), Some(&schema("gvt")));
    assert_eq!(
        prover.fetch_credential_definition_from_vdr(&vdr, &cred_def_id),
        Some(&cred_def("tag"))
    );
    assert_eq!(prover.get_cached_schemas().get(&schema_id.0), Some(&schema("gvt")));
    assert_eq!(prover.get_cached_cred_defs().get(&cred_def_id.0), Some(&cred_def("tag")));
}

#[test]
fn prover_fetching_again_takes_the_newer_copy() {
    let mut prover = prover();
    let mut vdr = Vdr::new();
    let schema_id = SchemaId::new_unchecked("s");
    vdr.publish_schema(schema_id.clone(), schema("old"));
    prover.fetch_schema_from_vdr(&vdr, &schema_id);
    vdr.publish_schema(schema_id.clone(), schema("new"));
    assert_eq!(prover.get_cached_schemas().get(&schema_id.0), Some(&schema("old")));
    assert_eq!(prover.fetch_schema_from_vdr(&vdr, &schema_id), Some(&schema("new")));
    assert_eq!(prover.get_cached_schemas().entries().len(), 1);
}
