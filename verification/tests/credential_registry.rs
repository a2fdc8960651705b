use cosmwasm_std::testing::{mock_env, MockApi};
use cosmwasm_std::Api as _;

use proofkit::common::api::{Api, StdError};
use proofkit::common::response::Response;
use proofkit::contracts::credential_registry::contract::{
    execute, instantiate, query, CredentialRegistry, QueryResponse,
};
use proofkit::contracts::credential_registry::error::ContractError;
use proofkit::types::credential_registry::{
    AdminResponse, ExecuteMsg, InstantiateMsg, IsVerifiedResponse, ProofRecordsResponse, QueryMsg,
    SchemaResponse, SchemasResponse,
};

// ── Harness ──────────────────────────────────────────────────────────

fn addr(label: &str) -> String {
    MockApi::default().addr_make(label).to_string()
}

fn now() -> u64 {
    mock_env().block.time.seconds()
}

/// The chain's verdicts on the given address strings.
fn chain_api(addresses: Vec<String>) -> Api {
    let mock = MockApi::default();
    let mut api = Api::new();
    for a in addresses {
        let error = match mock.addr_validate(&a) {
            Ok(_) => None,
            Err(e) => Some(e.to_string()),
        };
        api.record(a, error);
    }
    api
}

fn exec_at(
    state: &mut CredentialRegistry,
    time: u64,
    sender: &str,
    msg: ExecuteMsg,
) -> Result<Response, ContractError> {
    let api = chain_api(msg.addresses());
    execute(state, time, &addr(sender), msg, &api)
}

fn exec(state: &mut CredentialRegistry, sender: &str, msg: ExecuteMsg) -> Result<Response, ContractError> {
    exec_at(state, now(), sender, msg)
}

fn ask_at(state: &CredentialRegistry, time: u64, msg: QueryMsg) -> Result<QueryResponse, StdError> {
    let api = chain_api(msg.addresses());
    query(state, time, msg, &api)
}

fn setup_contract() -> CredentialRegistry {
    let msg = InstantiateMsg { admin: None };
    let api = chain_api(msg.addresses());
    instantiate(&addr("admin"), msg, &api).unwrap().0
}

fn register_schema(state: &mut CredentialRegistry) {
    let msg = ExecuteMsg::RegisterSchema {
        schema_id: "age_verification".to_string(),
        name: "Age Verification".to_string(),
        description: "Proves the subject is over a certain age".to_string(),
        verifier_contract: addr("verifier_contract"),
        credential_types: vec!["age".to_string()],
    };
    exec(state, "admin", msg).unwrap();
}

fn record_msg(hash: &str, expires_at: Option<u64>) -> ExecuteMsg {
    ExecuteMsg::RecordProof {
        schema_id: "age_verification".to_string(),
        subject: addr("user1"),
        proof_hash: hash.to_string(),
        issuer: addr("issuer1"),
        expires_at,
    }
}

fn admin_of(state: &CredentialRegistry) -> AdminResponse {
    match ask_at(state, now(), QueryMsg::Admin {}).unwrap() {
        QueryResponse::Admin(r) => r,
        other => panic!("unexpected answer {:?}", other),
    }
}

fn is_verified_at(state: &CredentialRegistry, time: u64, subject: &str, schema_id: &str) -> IsVerifiedResponse {
    let msg = QueryMsg::IsVerified { subject: addr(subject), schema_id: schema_id.to_string() };
    match ask_at(state, time, msg).unwrap() {
        QueryResponse::IsVerified(r) => r,
        other => panic!("unexpected answer {:?}", other),
    }
}

fn schema_of(state: &CredentialRegistry, schema_id: &str) -> SchemaResponse {
    match ask_at(state, now(), QueryMsg::Schema { schema_id: schema_id.to_string() }).unwrap() {
        QueryResponse::Schema(r) => r,
        other => panic!("unexpected answer {:?}", other),
    }
}

fn proofs_of(state: &CredentialRegistry, subject: &str, start_after: Option<u64>, limit: Option<u32>) -> ProofRecordsResponse {
    let msg = QueryMsg::ProofsBySubject { subject: addr(subject), start_after, limit };
    match ask_at(state, now(), msg).unwrap() {
        QueryResponse::ProofRecords(r) => r,
        other => panic!("unexpected answer {:?}", other),
    }
}

fn schemas(state: &CredentialRegistry, start_after: Option<String>, limit: Option<u32>) -> SchemasResponse {
    match ask_at(state, now(), QueryMsg::ListSchemas { start_after, limit }).unwrap() {
        QueryResponse::Schemas(r) => r,
        other => panic!("unexpected answer {:?}", other),
    }
}

// ── Instantiation tests ──────────────────────────────────────────────

#[test]
fn proper_instantiation() {
    let state = setup_contract();
    let res = admin_of(&state);
    assert_eq!(res.admin, addr("admin"));
}

#[test]
fn instantiation_with_custom_admin() {
    let custom_admin = addr("custom_admin");
    let msg = InstantiateMsg { admin: Some(custom_admin.clone()) };
    let api = chain_api(msg.addresses());
    let (state, _) = instantiate(&addr("creator"), msg, &api).unwrap();

    let res = admin_of(&state);
    assert_eq!(res.admin, custom_admin);
}

// ── Schema registration tests ────────────────────────────────────────

#[test]
fn register_schema_success() {
    let mut state = setup_contract();
    register_schema(&mut state);

    let res = schema_of(&state, "age_verification");
    assert_eq!(res.schema.schema_id, "age_verification");
    assert_eq!(res.schema.name, "Age Verification");
    assert!(res.schema.active);
    assert_eq!(res.schema.credential_types, vec!["age".to_string()]);
}

#[test]
fn register_schema_unauthorized() {
    let mut state = setup_contract();
    let msg = ExecuteMsg::RegisterSchema {
        schema_id: "test".to_string(),
        name: "Test".to_string(),
        description: "Test".to_string(),
        verifier_contract: addr("verifier_contract"),
        credential_types: vec!["test".to_string()],
    };
    let err = exec(&mut state, "not_admin", msg).unwrap_err();
    assert_eq!(err, ContractError::Unauthorized);
}

#[test]
fn register_schema_duplicate() {
    let mut state = setup_contract();
    register_schema(&mut state);

    let msg = ExecuteMsg::RegisterSchema {
        schema_id: "age_verification".to_string(),
        name: "Duplicate".to_string(),
        description: "Dup".to_string(),
        verifier_contract: addr("verifier_contract"),
        credential_types: vec!["age".to_string()],
    };
    let err = exec(&mut state, "admin", msg).unwrap_err();
    assert_eq!(
        err,
        ContractError::SchemaAlreadyExists { schema_id: "age_verification".to_string() }
    );
}

#[test]
fn register_schema_empty_id() {
    let mut state = setup_contract();
    let msg = ExecuteMsg::RegisterSchema {
        schema_id: "".to_string(),
        name: "Test".to_string(),
        description: "Test".to_string(),
        verifier_contract: addr("verifier_contract"),
        credential_types: vec!["test".to_string()],
    };
    let err = exec(&mut state, "admin", msg).unwrap_err();
    assert_eq!(err, ContractError::EmptySchemaId);
}

#[test]
fn register_schema_empty_credential_types() {
    let mut state = setup_contract();
    let msg = ExecuteMsg::RegisterSchema {
        schema_id: "test".to_string(),
        name: "Test".to_string(),
        description: "Test".to_string(),
        verifier_contract: addr("verifier_contract"),
        credential_types: vec![],
    };
    let err = exec(&mut state, "admin", msg).unwrap_err();
    assert_eq!(err, ContractError::EmptyCredentialTypes);
}

// ── Proof recording tests ────────────────────────────────────────────

#[test]
fn record_proof_success() {
    let mut state = setup_contract();
    register_schema(&mut state);

    let res = exec(&mut state, "verifier_contract", record_msg("abc123hash", None)).unwrap();
    assert_eq!(res.attributes.len(), 5);

    let res = is_verified_at(&state, now(), "user1", "age_verification");
    assert!(res.verified);
    assert_eq!(res.proof_id, Some(1));
}

#[test]
fn record_proof_unauthorized() {
    let mut state = setup_contract();
    register_schema(&mut state);

    let err = exec(&mut state, "random_user", record_msg("abc123hash", None)).unwrap_err();
    assert_eq!(err, ContractError::UnauthorizedRecorder);
}

#[test]
fn record_proof_schema_not_found() {
    let mut state = setup_contract();
    let msg = ExecuteMsg::RecordProof {
        schema_id: "nonexistent".to_string(),
        subject: addr("user1"),
        proof_hash: "abc123hash".to_string(),
        issuer: addr("issuer1"),
        expires_at: None,
    };
    let err = exec(&mut state, "admin", msg).unwrap_err();
    assert_eq!(err, ContractError::SchemaNotFound { schema_id: "nonexistent".to_string() });
}

#[test]
fn record_proof_empty_hash() {
    let mut state = setup_contract();
    register_schema(&mut state);
    let err = exec(&mut state, "verifier_contract", record_msg("", None)).unwrap_err();
    assert_eq!(err, ContractError::EmptyProofHash);
}

// ── Proof revocation tests ───────────────────────────────────────────

#[test]
fn revoke_proof_by_admin() {
    let mut state = setup_contract();
    register_schema(&mut state);
    exec(&mut state, "verifier_contract", record_msg("abc123hash", None)).unwrap();

    let msg = ExecuteMsg::RevokeProof { proof_id: 1, reason: "Fraudulent credential".to_string() };
    exec(&mut state, "admin", msg).unwrap();

    let res = is_verified_at(&state, now(), "user1", "age_verification");
    assert!(!res.verified);
}

#[test]
fn revoke_proof_by_issuer() {
    let mut state = setup_contract();
    register_schema(&mut state);
    exec(&mut state, "verifier_contract", record_msg("abc123hash", None)).unwrap();

    let msg = ExecuteMsg::RevokeProof {
        proof_id: 1,
        reason: "Issuer-initiated revocation".to_string(),
    };
    exec(&mut state, "issuer1", msg).unwrap();
}

#[test]
fn revoke_proof_unauthorized() {
    let mut state = setup_contract();
    register_schema(&mut state);
    exec(&mut state, "verifier_contract", record_msg("abc123hash", None)).unwrap();

    let msg = ExecuteMsg::RevokeProof { proof_id: 1, reason: "Malicious revocation".to_string() };
    let err = exec(&mut state, "random_user", msg).unwrap_err();
    assert_eq!(err, ContractError::Unauthorized);
}

#[test]
fn revoke_proof_already_revoked() {
    let mut state = setup_contract();
    register_schema(&mut state);
    exec(&mut state, "verifier_contract", record_msg("abc123hash", None)).unwrap();

    let msg = ExecuteMsg::RevokeProof { proof_id: 1, reason: "First revocation".to_string() };
    exec(&mut state, "admin", msg).unwrap();

    let msg = ExecuteMsg::RevokeProof { proof_id: 1, reason: "Second revocation".to_string() };
    let err = exec(&mut state, "admin", msg).unwrap_err();
    assert_eq!(err, ContractError::ProofAlreadyRevoked { proof_id: 1 });
}

#[test]
fn revoke_proof_empty_reason() {
    let mut state = setup_contract();
    register_schema(&mut state);
    exec(&mut state, "verifier_contract", record_msg("abc123hash", None)).unwrap();

    let msg = ExecuteMsg::RevokeProof { proof_id: 1, reason: "".to_string() };
    let err = exec(&mut state, "admin", msg).unwrap_err();
    assert_eq!(err, ContractError::EmptyRevocationReason);
}

// ── Expiration tests ─────────────────────────────────────────────────

#[test]
fn expired_proof_not_verified() {
    let mut state = setup_contract();
    register_schema(&mut state);
    exec(&mut state, "verifier_contract", record_msg("abc123hash", Some(1000))).unwrap();

    let res = is_verified_at(&state, 2000, "user1", "age_verification");
    assert!(!res.verified);
}

// ── Query tests ──────────────────────────────────────────────────────

#[test]
fn query_not_verified_no_proof() {
    let state = setup_contract();
    let res = is_verified_at(&state, now(), "user1", "age_verification");
    assert!(!res.verified);
    assert_eq!(res.proof_id, None);
}

#[test]
fn query_proofs_by_subject_pagination() {
    let mut state = setup_contract();
    register_schema(&mut state);
    for i in 0..3 {
        exec(&mut state, "verifier_contract", record_msg(&format!("hash_{}", i), None)).unwrap();
    }

    let res = proofs_of(&state, "user1", None, Some(2));
    assert_eq!(res.records.len(), 2);
    assert_eq!(res.records[0].id, 1);
    assert_eq!(res.records[1].id, 2);

    let res = proofs_of(&state, "user1", Some(2), Some(2));
    assert_eq!(res.records.len(), 1);
    assert_eq!(res.records[0].id, 3);
}

#[test]
fn list_schemas_pagination() {
    let mut state = setup_contract();
    let verifier = addr("verifier_contract");
    for id in ["alpha", "beta", "gamma"] {
        let msg = ExecuteMsg::RegisterSchema {
            schema_id: id.to_string(),
            name: id.to_string(),
            description: "desc".to_string(),
            verifier_contract: verifier.clone(),
            credential_types: vec!["type".to_string()],
        };
        exec(&mut state, "admin", msg).unwrap();
    }

    let res = schemas(&state, None, Some(2));
    assert_eq!(res.schemas.len(), 2);
    assert_eq!(res.schemas[0].schema_id, "alpha");
    assert_eq!(res.schemas[1].schema_id, "beta");

    let res = schemas(&state, Some("beta".to_string()), Some(2));
    assert_eq!(res.schemas.len(), 1);
    assert_eq!(res.schemas[0].schema_id, "gamma");
}

// ── Update admin tests ───────────────────────────────────────────────

#[test]
fn update_admin_success() {
    let mut state = setup_contract();
    let new_admin = addr("new_admin");
    let msg = ExecuteMsg::UpdateAdmin { new_admin: new_admin.clone() };
    exec(&mut state, "admin", msg).unwrap();

    let res = admin_of(&state);
    assert_eq!(res.admin, new_admin);
}

#[test]
fn update_admin_unauthorized() {
    let mut state = setup_contract();
    let msg = ExecuteMsg::UpdateAdmin { new_admin: addr("new_admin") };
    let err = exec(&mut state, "not_admin", msg).unwrap_err();
    assert_eq!(err, ContractError::Unauthorized);
}

// ── Further cases ────────────────────────────────────────────────────

#[test]
fn record_proof_attributes_and_next_id() {
    let mut state = setup_contract();
    register_schema(&mut state);
    exec(&mut state, "verifier_contract", record_msg("first", None)).unwrap();
    let res = exec(&mut state, "admin", record_msg("second", Some(5))).unwrap();
    let attrs: Vec<(String, String)> =
        res.attributes.iter().map(|a| (a.key.clone(), a.value.clone())).collect();
    assert_eq!(
        attrs,
        vec![
            ("action".to_string(), "record_proof".to_string()),
            ("proof_id".to_string(), "2".to_string()),
            ("schema_id".to_string(), "age_verification".to_string()),
            ("subject".to_string(), addr("user1")),
            ("proof_hash".to_string(), "second".to_string()),
        ]
    );
    assert_eq!(state.proof_count(), 2);
}

#[test]
fn proof_is_valid_up_to_its_expiry() {
    let mut state = setup_contract();
    register_schema(&mut state);
    exec(&mut state, "verifier_contract", record_msg("abc", Some(1000))).unwrap();

    assert!(is_verified_at(&state, 999, "user1", "age_verification").verified);
    assert!(is_verified_at(&state, 1000, "user1", "age_verification").verified);
    assert!(!is_verified_at(&state, 1001, "user1", "age_verification").verified);
}

#[test]
fn verification_names_latest_valid_proof() {
    let mut state = setup_contract();
    register_schema(&mut state);
    exec(&mut state, "verifier_contract", record_msg("old", None)).unwrap();
    exec(&mut state, "verifier_contract", record_msg("new", None)).unwrap();

    // Revoking the older proof leaves the subject verified by the newer one.
    let msg = ExecuteMsg::RevokeProof { proof_id: 1, reason: "old".to_string() };
    exec(&mut state, "admin", msg).unwrap();
    let res = is_verified_at(&state, now(), "user1", "age_verification");
    assert!(res.verified);
    assert_eq!(res.proof_id, Some(2));

    // Revoking the newer one ends it.
    let msg = ExecuteMsg::RevokeProof { proof_id: 2, reason: "new".to_string() };
    exec(&mut state, "admin", msg).unwrap();
    let res = is_verified_at(&state, now(), "user1", "age_verification");
    assert!(!res.verified);
    assert_eq!(res.proof_id, Some(2));
}

#[test]
fn revoke_records_time_and_reason() {
    let mut state = setup_contract();
    register_schema(&mut state);
    exec(&mut state, "verifier_contract", record_msg("abc", None)).unwrap();
    let msg = ExecuteMsg::RevokeProof { proof_id: 1, reason: "Fraud".to_string() };
    exec_at(&mut state, 4242, "admin", msg).unwrap();

    match ask_at(&state, now(), QueryMsg::ProofRecord { proof_id: 1 }).unwrap() {
        QueryResponse::ProofRecord(r) => {
            assert!(r.record.revoked);
            assert_eq!(r.record.revoked_at, Some(4242));
            assert_eq!(r.record.revocation_reason, Some("Fraud".to_string()));
            assert_eq!(r.record.proof_hash, "abc");
        },
        other => panic!("unexpected answer {:?}", other),
    }
}

#[test]
fn revoke_unknown_proof_is_not_found() {
    let mut state = setup_contract();
    let msg = ExecuteMsg::RevokeProof { proof_id: 7, reason: "x".to_string() };
    let err = exec(&mut state, "admin", msg).unwrap_err();
    assert_eq!(err, ContractError::ProofNotFound { proof_id: 7 });
    assert_eq!(err.message(), "Proof record 7 not found");
}

#[test]
fn proof_record_query_of_unknown_id_fails() {
    let state = setup_contract();
    let err = ask_at(&state, now(), QueryMsg::ProofRecord { proof_id: 1 }).unwrap_err();
    assert!(matches!(err, StdError::NotFound { .. }));
}

#[test]
fn schema_id_too_long_is_rejected() {
    let mut state = setup_contract();
    let msg = ExecuteMsg::RegisterSchema {
        schema_id: "s".repeat(129),
        name: "Long".to_string(),
        description: "desc".to_string(),
        verifier_contract: addr("verifier_contract"),
        credential_types: vec!["type".to_string()],
    };
    let err = exec(&mut state, "admin", msg).unwrap_err();
    assert_eq!(err, ContractError::SchemaIdTooLong { max: 128 });

    let msg = ExecuteMsg::RegisterSchema {
        schema_id: "s".repeat(128),
        name: "Long".to_string(),
        description: "desc".to_string(),
        verifier_contract: addr("verifier_contract"),
        credential_types: vec!["type".to_string()],
    };
    assert!(exec(&mut state, "admin", msg).is_ok());
}

#[test]
fn register_schema_rejects_empty_name_and_long_description() {
    let mut state = setup_contract();
    let msg = ExecuteMsg::RegisterSchema {
        schema_id: "a".to_string(),
        name: "".to_string(),
        description: "desc".to_string(),
        verifier_contract: addr("verifier_contract"),
        credential_types: vec!["type".to_string()],
    };
    assert_eq!(exec(&mut state, "admin", msg).unwrap_err(), ContractError::EmptyName);

    let msg = ExecuteMsg::RegisterSchema {
        schema_id: "a".to_string(),
        name: "A".to_string(),
        description: "d".repeat(1025),
        verifier_contract: addr("verifier_contract"),
        credential_types: vec!["type".to_string()],
    };
    assert_eq!(
        exec(&mut state, "admin", msg).unwrap_err(),
        ContractError::DescriptionTooLong { max: 1024 }
    );
}

#[test]
fn schemas_are_listed_in_byte_order() {
    let mut state = setup_contract();
    for id in ["gamma", "Beta", "alpha", "beta"] {
        let msg = ExecuteMsg::RegisterSchema {
            schema_id: id.to_string(),
            name: id.to_string(),
            description: "desc".to_string(),
            verifier_contract: addr("verifier_contract"),
            credential_types: vec!["type".to_string()],
        };
        exec(&mut state, "admin", msg).unwrap();
    }
    let res = schemas(&state, None, None);
    let ids: Vec<String> = res.schemas.iter().map(|s| s.schema_id.clone()).collect();
    assert_eq!(ids, vec!["Beta", "alpha", "beta", "gamma"]);
}

#[test]
fn rejected_message_leaves_registry_unchanged() {
    let mut state = setup_contract();
    register_schema(&mut state);
    let msg = ExecuteMsg::RecordProof {
        schema_id: "age_verification".to_string(),
        subject: "bad address".to_string(),
        proof_hash: "abc".to_string(),
        issuer: addr("issuer1"),
        expires_at: None,
    };
    let err = exec(&mut state, "verifier_contract", msg).unwrap_err();
    assert!(matches!(err, ContractError::Std(_)));
    assert_eq!(state.proof_count(), 0);
}

#[test]
fn other_subjects_are_unaffected() {
    let mut state = setup_contract();
    register_schema(&mut state);
    exec(&mut state, "verifier_contract", record_msg("abc", None)).unwrap();
    let res = is_verified_at(&state, now(), "user2", "age_verification");
    assert!(!res.verified);
    assert_eq!(res.proof_id, None);
    let res = is_verified_at(&state, now(), "user1", "other_schema");
    assert!(!res.verified);
}

#[test]
fn registering_schema_leaves_verification() {
    let mut state = setup_contract();
    register_schema(&mut state);
    exec(&mut state, "verifier_contract", record_msg("abc", None)).unwrap();
    let before = is_verified_at(&state, now(), "user1", "age_verification");
    let msg = ExecuteMsg::RegisterSchema {
        schema_id: "another".to_string(),
        name: "Another".to_string(),
        description: "desc".to_string(),
        verifier_contract: addr("verifier_contract"),
        credential_types: vec!["x".to_string()],
    };
    exec(&mut state, "admin", msg).unwrap();
    exec(&mut state, "admin", ExecuteMsg::UpdateAdmin { new_admin: addr("new_admin") }).unwrap();
    assert_eq!(is_verified_at(&state, now(), "user1", "age_verification"), before);
}

#[test]
fn older_valid_proof_keeps_subject_verified() {
    let mut state = setup_contract();
    register_schema(&mut state);
    exec(&mut state, "verifier_contract", record_msg("old", None)).unwrap();
    exec(&mut state, "verifier_contract", record_msg("new", None)).unwrap();
    let msg = ExecuteMsg::RevokeProof { proof_id: 2, reason: "bad".to_string() };
    exec(&mut state, "admin", msg).unwrap();

    let res = is_verified_at(&state, now(), "user1", "age_verification");
    assert!(res.verified);
    assert_eq!(res.proof_id, Some(1));
    assert_eq!(res.expires_at, None);
}

#[test]
fn expired_latest_proof_falls_back_to_valid_one() {
    let mut state = setup_contract();
    register_schema(&mut state);
    exec(&mut state, "verifier_contract", record_msg("lasting", Some(5000))).unwrap();
    exec(&mut state, "verifier_contract", record_msg("short", Some(1000))).unwrap();

    let res = is_verified_at(&state, 2000, "user1", "age_verification");
    assert!(res.verified);
    assert_eq!(res.proof_id, Some(1));
    assert_eq!(res.expires_at, Some(5000));

    let res = is_verified_at(&state, 6000, "user1", "age_verification");
    assert!(!res.verified);
    assert_eq!(res.proof_id, Some(2));
    assert_eq!(res.expires_at, Some(1000));
}

#[test]
fn not_found_names_record_type() {
    let state = setup_contract();
    let err = ask_at(&state, now(), QueryMsg::ProofRecord { proof_id: 1 }).unwrap_err();
    assert_eq!(
        err,
        StdError::NotFound { kind: "proofkit_types::credential_registry::ProofRecord".to_string() }
    );
    let err = ask_at(&state, now(), QueryMsg::Schema { schema_id: "x".to_string() }).unwrap_err();
    assert_eq!(
        err,
        StdError::NotFound { kind: "proofkit_types::credential_registry::CredentialSchema".to_string() }
    );
}
