use std::collections::hash_map::DefaultHasher;
use std::hash::{Hash, Hasher};

use cosmwasm_std::testing::{mock_env, MockApi};
use cosmwasm_std::Api as _;
use cosmwasm_std::HexBinary;

use proofkit::common::api::{Api, StdError};
use proofkit::common::response::Response;
use proofkit::contracts::credential_verifier::contract::{
    execute, instantiate, query, CredentialVerifier, QueryResponse,
};
use proofkit::contracts::credential_verifier::error::ContractError;
use proofkit::contracts::credential_verifier::verification::{
    compute_dkim_proof_hash,
    compute_zk_proof_hash, dkim_verify_request, issuer_authorization_query, u64_be_bytes,
    verify_dkim_email, verify_zk_proof, zk_verify_request,
};
use proofkit::types::credential_registry::ExecuteMsg as RegistryExecuteMsg;
use proofkit::types::credential_verifier::{
    ConfigResponse, ExecuteMsg, InstantiateMsg, QueryMsg, VerificationRequest,
    VerificationResultResponse, VerificationResultsResponse, VerificationType,
};
use proofkit::types::issuer_registry::QueryMsg as IssuerQueryMsg;
use proofkit::types::xion::{build_dkim_verify_query, build_zk_verify_query, XionQuery};

// ── Harness ──────────────────────────────────────────────────────────

fn addr(label: &str) -> String {
    MockApi::default().addr_make(label).to_string()
}

fn now() -> u64 {
    mock_env().block.time.seconds()
}

/// The chain's verdicts on the given address strings.
fn chain_api(addresses: Vec<String>) -> Api {
    let mock = MockApi::default();
    let mut api = Api::new();
    for a in addresses {
        let error = match mock.addr_validate(&a) {
            Ok(_) => None,
            Err(e) => Some(e.to_string()),
        };
        api.record(a, error);
    }
    api
}

fn exec(state: &mut CredentialVerifier, sender: &str, msg: ExecuteMsg) -> Result<Response, ContractError> {
    let api = chain_api(msg.addresses());
    execute(state, now(), &addr(sender), msg, &api)
}

fn ask(state: &CredentialVerifier, msg: QueryMsg) -> Result<QueryResponse, StdError> {
    let api = chain_api(msg.addresses());
    query(state, msg, &api)
}

fn setup_contract() -> CredentialVerifier {
    let msg = InstantiateMsg {
        admin: None,
        credential_registry: addr("registry_contract"),
        issuer_registry: addr("issuer_registry_contract"),
    };
    let api = chain_api(msg.addresses());
    instantiate(&addr("admin"), msg, &api).unwrap().0
}

fn config_of(state: &CredentialVerifier) -> ConfigResponse {
    match ask(state, QueryMsg::Config {}).unwrap() {
        QueryResponse::Config(r) => r,
        other => panic!("unexpected answer {:?}", other),
    }
}

fn result_of(state: &CredentialVerifier, verification_id: u64) -> VerificationResultResponse {
    match ask(state, QueryMsg::VerificationResult { verification_id }).unwrap() {
        QueryResponse::VerificationResult(r) => r,
        other => panic!("unexpected answer {:?}", other),
    }
}

fn results_of(state: &CredentialVerifier, subject: &str, start_after: Option<u64>, limit: Option<u32>) -> VerificationResultsResponse {
    let msg = QueryMsg::VerificationsBySubject { subject: addr(subject), start_after, limit };
    match ask(state, msg).unwrap() {
        QueryResponse::VerificationResults(r) => r,
        other => panic!("unexpected answer {:?}", other),
    }
}

fn has_attribute(res: &Response, key: &str, value: &str) -> bool {
    res.attributes.iter().any(|a| a.key == key && a.value == value)
}

fn zk_request(schema_id: &str, subject: &str, issuer: &str, proof: &str, inputs: Vec<&str>) -> ExecuteMsg {
    ExecuteMsg::VerifyCredential {
        schema_id: schema_id.to_string(),
        subject: subject.to_string(),
        issuer: issuer.to_string(),
        proof: proof.to_string(),
        public_inputs: inputs.into_iter().map(String::from).collect(),
        expires_at: None,
    }
}

fn email_request(domain: &str, sig: &str, headers: &str) -> ExecuteMsg {
    ExecuteMsg::VerifyEmailCredential {
        schema_id: "schema".to_string(),
        subject: addr("user1"),
        issuer: addr("issuer1"),
        email_domain: domain.to_string(),
        dkim_signature: sig.to_string(),
        email_headers: headers.to_string(),
        expires_at: None,
    }
}

/// The receipt hash as the standard library and cosmwasm-std compute it.
fn std_zk_hash(proof: &str, inputs: &[String]) -> String {
    let mut hasher = DefaultHasher::new();
    proof.hash(&mut hasher);
    for input in inputs {
        input.hash(&mut hasher);
    }
    HexBinary::from(&hasher.finish().to_be_bytes()).to_hex()
}

fn std_dkim_hash(domain: &str, sig: &str) -> String {
    let mut hasher = DefaultHasher::new();
    domain.hash(&mut hasher);
    sig.hash(&mut hasher);
    HexBinary::from(&hasher.finish().to_be_bytes()).to_hex()
}

// ── Instantiation ────────────────────────────────────────────────────

#[test]
fn verifier_proper_instantiation() {
    let state = setup_contract();
    let res = config_of(&state);
    assert_eq!(res.config.admin, addr("admin"));
    assert_eq!(res.config.credential_registry, addr("registry_contract"));
    assert_eq!(res.config.issuer_registry, addr("issuer_registry_contract"));
}

#[test]
fn verifier_instantiation_with_custom_admin() {
    let custom_admin = addr("custom_admin");
    let msg = InstantiateMsg {
        admin: Some(custom_admin.clone()),
        credential_registry: addr("registry"),
        issuer_registry: addr("issuer_reg"),
    };
    let api = chain_api(msg.addresses());
    let (state, _) = instantiate(&addr("creator"), msg, &api).unwrap();

    let res = config_of(&state);
    assert_eq!(res.config.admin, custom_admin);
}

// ── ZK Credential verification ──────────────────────────────────────

#[test]
fn verify_credential_success() {
    let mut state = setup_contract();
    let user1 = addr("user1");
    let msg = ExecuteMsg::VerifyCredential {
        schema_id: "age_verification".to_string(),
        subject: user1.clone(),
        issuer: addr("issuer1"),
        proof: "base64encodedproof".to_string(),
        public_inputs: vec!["input1".to_string(), "input2".to_string()],
        expires_at: Some(9999999999),
    };
    let res = exec(&mut state, "anyone", msg).unwrap();

    assert!(has_attribute(&res, "action", "verify_credential"));
    assert!(has_attribute(&res, "verification_type", "zk_proof"));
    assert!(has_attribute(&res, "verified", "true"));

    assert_eq!(res.messages.len(), 1);
    assert_eq!(res.messages[0].contract_addr, addr("registry_contract"));

    let ver_res = result_of(&state, 1);
    assert!(ver_res.result.verified);
    assert_eq!(ver_res.result.schema_id, "age_verification");
    assert_eq!(ver_res.result.subject, user1);
    assert!(matches!(ver_res.result.verification_type, VerificationType::ZkProof));
}

#[test]
fn verify_credential_empty_schema() {
    let mut state = setup_contract();
    let msg = zk_request("", &addr("user1"), &addr("issuer1"), "proof", vec!["input"]);
    let err = exec(&mut state, "anyone", msg).unwrap_err();
    assert_eq!(err, ContractError::EmptySchemaId);
}

#[test]
fn verify_credential_empty_proof() {
    let mut state = setup_contract();
    let msg = zk_request("schema", &addr("user1"), &addr("issuer1"), "", vec!["input"]);
    let err = exec(&mut state, "anyone", msg).unwrap_err();
    assert_eq!(err, ContractError::EmptyProof);
}

#[test]
fn verify_credential_empty_public_inputs() {
    let mut state = setup_contract();
    let msg = zk_request("schema", &addr("user1"), &addr("issuer1"), "proof", vec![]);
    let err = exec(&mut state, "anyone", msg).unwrap_err();
    assert_eq!(err, ContractError::EmptyPublicInputs);
}

// ── Email credential verification ───────────────────────────────────

#[test]
fn verify_email_credential_success() {
    let mut state = setup_contract();
    let msg = ExecuteMsg::VerifyEmailCredential {
        schema_id: "employment_verification".to_string(),
        subject: addr("user1"),
        issuer: addr("issuer1"),
        email_domain: "company.com".to_string(),
        dkim_signature: "dkim_sig_data".to_string(),
        email_headers: "From: hr@company.com\nTo: user@example.com".to_string(),
        expires_at: None,
    };
    let res = exec(&mut state, "anyone", msg).unwrap();

    assert!(has_attribute(&res, "verification_type", "email_dkim"));
    assert!(has_attribute(&res, "email_domain", "company.com"));
    assert_eq!(res.messages.len(), 1);

    let ver_res = result_of(&state, 1);
    assert!(matches!(ver_res.result.verification_type, VerificationType::EmailDkim));
}

#[test]
fn verify_email_empty_domain() {
    let mut state = setup_contract();
    let err = exec(&mut state, "anyone", email_request("", "sig", "headers")).unwrap_err();
    assert_eq!(err, ContractError::EmptyEmailDomain);
}

#[test]
fn verify_email_empty_dkim() {
    let mut state = setup_contract();
    let err = exec(&mut state, "anyone", email_request("example.com", "", "headers")).unwrap_err();
    assert_eq!(err, ContractError::EmptyDkimSignature);
}

#[test]
fn verify_email_empty_headers() {
    let mut state = setup_contract();
    let err = exec(&mut state, "anyone", email_request("example.com", "sig", "")).unwrap_err();
    assert_eq!(err, ContractError::EmptyEmailHeaders);
}

// ── Batch verification ──────────────────────────────────────────────

#[test]
fn batch_verify_success() {
    let mut state = setup_contract();
    let msg = ExecuteMsg::BatchVerify {
        verifications: vec![
            VerificationRequest::ZkProof {
                schema_id: "age".to_string(),
                subject: addr("user1"),
                issuer: addr("issuer1"),
                proof: "proof1".to_string(),
                public_inputs: vec!["input1".to_string()],
                expires_at: None,
            },
            VerificationRequest::EmailProof {
                schema_id: "employment".to_string(),
                subject: addr("user2"),
                issuer: addr("issuer2"),
                email_domain: "company.com".to_string(),
                dkim_signature: "sig".to_string(),
                email_headers: "headers".to_string(),
                expires_at: None,
            },
        ],
    };

    let res = exec(&mut state, "anyone", msg).unwrap();
    assert_eq!(res.messages.len(), 2);

    let batch_res = res.data.unwrap();
    assert_eq!(batch_res.results.len(), 2);
    assert!(batch_res.results[0].verified);
    assert!(batch_res.results[1].verified);
    assert_eq!(batch_res.results[0].verification_id, 1);
    assert_eq!(batch_res.results[1].verification_id, 2);
}

#[test]
fn batch_verify_with_invalid_items() {
    let mut state = setup_contract();
    let msg = ExecuteMsg::BatchVerify {
        verifications: vec![
            VerificationRequest::ZkProof {
                schema_id: "".to_string(),
                subject: "user1".to_string(),
                issuer: "issuer1".to_string(),
                proof: "".to_string(),
                public_inputs: vec![],
                expires_at: None,
            },
            VerificationRequest::ZkProof {
                schema_id: "age".to_string(),
                subject: addr("user2"),
                issuer: addr("issuer2"),
                proof: "valid_proof".to_string(),
                public_inputs: vec!["input".to_string()],
                expires_at: None,
            },
        ],
    };

    let res = exec(&mut state, "anyone", msg).unwrap();
    let batch_res = res.data.clone().unwrap();

    assert!(!batch_res.results[0].verified);
    assert!(batch_res.results[1].verified);
    assert_eq!(res.messages.len(), 1);
}

#[test]
fn batch_verify_empty() {
    let mut state = setup_contract();
    let msg = ExecuteMsg::BatchVerify { verifications: vec![] };
    let err = exec(&mut state, "anyone", msg).unwrap_err();
    assert_eq!(err, ContractError::EmptyBatch);
}

#[test]
fn batch_verify_too_large() {
    let mut state = setup_contract();
    let verifications: Vec<VerificationRequest> = (0..21)
        .map(|i| VerificationRequest::ZkProof {
            schema_id: format!("schema_{}", i),
            subject: addr(&format!("user_{}", i)),
            issuer: addr(&format!("issuer_{}", i)),
            proof: format!("proof_{}", i),
            public_inputs: vec![format!("input_{}", i)],
            expires_at: None,
        })
        .collect();

    let msg = ExecuteMsg::BatchVerify { verifications };
    let err = exec(&mut state, "anyone", msg).unwrap_err();
    assert_eq!(err, ContractError::BatchTooLarge { max: 20 });
}

// ── Query tests ─────────────────────────────────────────────────────

#[test]
fn query_verifications_by_subject() {
    let mut state = setup_contract();
    for i in 0..3 {
        let msg = ExecuteMsg::VerifyCredential {
            schema_id: format!("schema_{}", i),
            subject: addr("user1"),
            issuer: addr("issuer1"),
            proof: format!("proof_{}", i),
            public_inputs: vec![format!("input_{}", i)],
            expires_at: None,
        };
        exec(&mut state, "anyone", msg).unwrap();
    }

    let res = results_of(&state, "user1", None, Some(2));
    assert_eq!(res.results.len(), 2);

    let res = results_of(&state, "user1", Some(2), Some(2));
    assert_eq!(res.results.len(), 1);
    assert_eq!(res.results[0].id, 3);
}

// ── Admin tests ─────────────────────────────────────────────────────

#[test]
fn verifier_update_admin_success() {
    let mut state = setup_contract();
    let new_admin = addr("new_admin");
    exec(&mut state, "admin", ExecuteMsg::UpdateAdmin { new_admin: new_admin.clone() }).unwrap();

    let res = config_of(&state);
    assert_eq!(res.config.admin, new_admin);
}

#[test]
fn verifier_update_admin_unauthorized() {
    let mut state = setup_contract();
    let msg = ExecuteMsg::UpdateAdmin { new_admin: addr("new_admin") };
    let err = exec(&mut state, "not_admin", msg).unwrap_err();
    assert_eq!(err, ContractError::Unauthorized);
}

#[test]
fn update_registry_success() {
    let mut state = setup_contract();
    let new_registry = addr("new_registry");
    let msg = ExecuteMsg::UpdateRegistry { credential_registry: new_registry.clone() };
    exec(&mut state, "admin", msg).unwrap();

    let res = config_of(&state);
    assert_eq!(res.config.credential_registry, new_registry);
}

#[test]
fn update_registry_unauthorized() {
    let mut state = setup_contract();
    let msg = ExecuteMsg::UpdateRegistry { credential_registry: addr("new_registry") };
    let err = exec(&mut state, "not_admin", msg).unwrap_err();
    assert_eq!(err, ContractError::Unauthorized);
}

// ── Receipt hash and module requests ────────────────────────────────

#[test]
fn zk_receipt_matches_standard_hashing() {
    let inputs = vec!["input1".to_string(), "input2".to_string()];
    let hash = compute_zk_proof_hash("base64encodedproof", &inputs);
    assert_eq!(hash, std_zk_hash("base64encodedproof", &inputs));
    assert_eq!(hash.len(), 16);
    assert!(hash.chars().all(|c| c.is_ascii_hexdigit() && !c.is_ascii_uppercase()));
    assert_ne!(hash, std_zk_hash("base64encodedproof", &inputs[..1]));
}

#[test]
fn dkim_receipt_matches_standard_hashing() {
    let hash = compute_dkim_proof_hash("company.com", "dkim_sig_data");
    assert_eq!(hash, std_dkim_hash("company.com", "dkim_sig_data"));
    // The domain and signature are delimited, so shifting text between them
    // changes the receipt.
    assert_ne!(hash, compute_dkim_proof_hash("company.co", "mdkim_sig_data"));
}

#[test]
fn verified_record_carries_receipt_and_message() {
    let mut state = setup_contract();
    let msg = ExecuteMsg::VerifyCredential {
        schema_id: "age_verification".to_string(),
        subject: addr("user1"),
        issuer: addr("issuer1"),
        proof: "p".to_string(),
        public_inputs: vec!["i".to_string()],
        expires_at: Some(77),
    };
    let res = exec(&mut state, "anyone", msg).unwrap();
    let expected_hash = std_zk_hash("p", &["i".to_string()]);
    let record = result_of(&state, 1).result;
    assert_eq!(record.proof_hash, expected_hash);
    assert_eq!(record.verified_at, now());
    assert_eq!(record.issuer, addr("issuer1"));
    assert_eq!(
        res.messages[0].msg,
        RegistryExecuteMsg::RecordProof {
            schema_id: "age_verification".to_string(),
            subject: addr("user1"),
            proof_hash: expected_hash,
            issuer: addr("issuer1"),
            expires_at: Some(77),
        }
    );
    assert!(has_attribute(&res, "verification_id", "1"));
}

#[test]
fn be_bytes_are_most_significant_first() {
    let bytes = u64_be_bytes(0x0102_0304_0506_0708);
    assert_eq!(bytes, vec![1, 2, 3, 4, 5, 6, 7, 8]);
    assert_eq!(u64_be_bytes(u64::MAX), 0xffff_ffff_ffff_ffffu64.to_be_bytes().to_vec());
}

#[test]
fn module_requests_carry_the_proof_bytes() {
    let inputs = vec!["a".to_string(), "bc".to_string()];
    let req = zk_verify_request("schema", "proof", &inputs);
    assert_eq!(req.vk_id, "schema");
    assert_eq!(req.proof, b"proof".to_vec());
    assert_eq!(req.public_inputs, vec![b"a".to_vec(), b"bc".to_vec()]);
    match build_zk_verify_query(&req) {
        XionQuery::VerifyZkProof(q) => assert_eq!(q, req),
        other => panic!("unexpected query {:?}", other),
    }

    let req = dkim_verify_request("example.com", "sig", "headers");
    assert_eq!(req.domain, "example.com");
    assert_eq!(req.signature, b"sig".to_vec());
    assert_eq!(req.headers, "headers");
    assert_eq!(req.selector, "default");
    match build_dkim_verify_query(&req) {
        XionQuery::VerifyDkim(q) => assert_eq!(q, req),
        other => panic!("unexpected query {:?}", other),
    }
}

#[test]
fn checks_accept_and_return_receipts() {
    let inputs = vec!["x".to_string()];
    let r = verify_zk_proof("s", "p", &inputs).ok().unwrap();
    assert!(r.valid);
    assert_eq!(r.proof_hash, std_zk_hash("p", &inputs));
    let r = verify_dkim_email("d.com", "sig", "h").ok().unwrap();
    assert!(r.valid);
    assert_eq!(r.proof_hash, std_dkim_hash("d.com", "sig"));
}

#[test]
fn authorization_query_names_issuer_and_type() {
    let q = issuer_authorization_query("xion1issuer", "age_proof");
    assert_eq!(
        q,
        IssuerQueryMsg::IsAuthorized {
            issuer: "xion1issuer".to_string(),
            credential_type: "age_proof".to_string(),
        }
    );
}

// ── Further cases ────────────────────────────────────────────────────

#[test]
fn batch_attributes_name_recorded_items() {
    let mut state = setup_contract();
    let msg = ExecuteMsg::BatchVerify {
        verifications: vec![
            VerificationRequest::EmailProof {
                schema_id: "s".to_string(),
                subject: "raw".to_string(),
                issuer: "raw".to_string(),
                email_domain: "".to_string(),
                dkim_signature: "sig".to_string(),
                email_headers: "h".to_string(),
                expires_at: None,
            },
            VerificationRequest::ZkProof {
                schema_id: "age".to_string(),
                subject: addr("user2"),
                issuer: addr("issuer2"),
                proof: "p".to_string(),
                public_inputs: vec!["i".to_string()],
                expires_at: None,
            },
        ],
    };
    let res = exec(&mut state, "anyone", msg).unwrap();
    let attrs: Vec<(String, String)> =
        res.attributes.iter().map(|a| (a.key.clone(), a.value.clone())).collect();
    assert_eq!(
        attrs,
        vec![
            ("action".to_string(), "batch_verify".to_string()),
            ("batch_item_1".to_string(), "verified".to_string()),
        ]
    );
    let data = res.data.unwrap();
    assert_eq!(data.results[0].verification_id, 0);
    assert_eq!(data.results[0].message, "Invalid input: empty required fields");
    assert_eq!(data.results[0].subject, "raw");
    assert!(matches!(data.results[0].verification_type, VerificationType::EmailDkim));
    assert_eq!(data.results[1].message, "ZK proof verified successfully");
    assert_eq!(data.results[1].verification_id, 1);
    assert_eq!(state.verification_count(), 1);
}

#[test]
fn batch_with_invalid_address_records_nothing() {
    let mut state = setup_contract();
    let msg = ExecuteMsg::BatchVerify {
        verifications: vec![
            VerificationRequest::ZkProof {
                schema_id: "age".to_string(),
                subject: addr("user1"),
                issuer: addr("issuer1"),
                proof: "p".to_string(),
                public_inputs: vec!["i".to_string()],
                expires_at: None,
            },
            VerificationRequest::ZkProof {
                schema_id: "age".to_string(),
                subject: "not an address".to_string(),
                issuer: addr("issuer1"),
                proof: "p".to_string(),
                public_inputs: vec!["i".to_string()],
                expires_at: None,
            },
        ],
    };
    let err = exec(&mut state, "anyone", msg).unwrap_err();
    assert!(matches!(err, ContractError::Std(_)));
    assert_eq!(state.verification_count(), 0);
}

#[test]
fn batch_of_twenty_is_accepted() {
    let mut state = setup_contract();
    let verifications: Vec<VerificationRequest> = (0..20)
        .map(|i| VerificationRequest::ZkProof {
            schema_id: format!("schema_{}", i),
            subject: addr("user1"),
            issuer: addr("issuer1"),
            proof: format!("proof_{}", i),
            public_inputs: vec![format!("input_{}", i)],
            expires_at: None,
        })
        .collect();
    let res = exec(&mut state, "anyone", ExecuteMsg::BatchVerify { verifications }).unwrap();
    assert_eq!(res.messages.len(), 20);
    assert_eq!(state.verification_count(), 20);
    let ids: Vec<u64> = res.data.unwrap().results.iter().map(|r| r.verification_id).collect();
    assert_eq!(ids, (1..=20).collect::<Vec<u64>>());
}

#[test]
fn unknown_verification_is_not_found() {
    let state = setup_contract();
    let err = ask(&state, QueryMsg::VerificationResult { verification_id: 1 }).unwrap_err();
    assert!(matches!(err, StdError::NotFound { .. }));
}

#[test]
fn invalid_subject_is_rejected() {
    let mut state = setup_contract();
    let msg = zk_request("schema", "nobody", &addr("issuer1"), "proof", vec!["input"]);
    let err = exec(&mut state, "anyone", msg).unwrap_err();
    assert!(matches!(err, ContractError::Std(StdError::GenericErr { .. })));
    assert_eq!(state.verification_count(), 0);
}

#[test]
fn verifier_error_messages_read_as_documented() {
    assert_eq!(ContractError::BatchTooLarge { max: 20 }.message(), "Batch size exceeds maximum of 20");
    assert_eq!(
        ContractError::IssuerNotAuthorized {
            issuer: "i".to_string(),
            credential_type: "age".to_string()
        }
        .message(),
        "Issuer 'i' is not authorized for credential type 'age'"
    );
    assert_eq!(
        ContractError::VerificationNotFound { id: 3 }.message(),
        "Verification record 3 not found"
    );
    assert_eq!(
        ContractError::ZkVerificationFailed { reason: "bad".to_string() }.message(),
        "ZK proof verification failed: bad"
    );
}

#[test]
fn config_change_keeps_records() {
    let mut state = setup_contract();
    exec(&mut state, "anyone", zk_request("s", &addr("user1"), &addr("issuer1"), "p", vec!["i"])).unwrap();
    let before = result_of(&state, 1);
    let msg = ExecuteMsg::UpdateRegistry { credential_registry: addr("new_registry") };
    exec(&mut state, "admin", msg).unwrap();
    assert_eq!(result_of(&state, 1), before);
    assert_eq!(state.verification_count(), 1);
}

#[test]
fn one_item_batch_matches_single_verification() {
    let mut single = setup_contract();
    let mut batch = setup_contract();
    let single_res = exec(
        &mut single,
        "anyone",
        zk_request("age", &addr("user1"), &addr("issuer1"), "p", vec!["i"]),
    )
    .unwrap();
    let batch_res = exec(
        &mut batch,
        "someone_else",
        ExecuteMsg::BatchVerify {
            verifications: vec![VerificationRequest::ZkProof {
                schema_id: "age".to_string(),
                subject: addr("user1"),
                issuer: addr("issuer1"),
                proof: "p".to_string(),
                public_inputs: vec!["i".to_string()],
                expires_at: None,
            }],
        },
    )
    .unwrap();
    assert_eq!(single.verifications(), batch.verifications());
    assert_eq!(single_res.messages, batch_res.messages);
}

#[test]
fn verification_ignores_sender() {
    let mut a = setup_contract();
    let mut b = setup_contract();
    let ra = exec(&mut a, "anyone", email_request("d.com", "sig", "h")).unwrap();
    let rb = exec(&mut b, "admin", email_request("d.com", "sig", "h")).unwrap();
    assert_eq!(ra, rb);
    assert_eq!(a.verifications(), b.verifications());
}

#[test]
fn unknown_verification_names_record_type() {
    let state = setup_contract();
    let err = ask(&state, QueryMsg::VerificationResult { verification_id: 9 }).unwrap_err();
    assert_eq!(
        err,
        StdError::NotFound { kind: "proofkit_types::verifier::VerificationRecord".to_string() }
    );
}
