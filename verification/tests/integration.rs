//! The three contracts working together. Each transaction runs the target
//! contract and then delivers the messages it sends, in order; when any
//! step fails, every contract goes back to where it was.

use cosmwasm_std::testing::{mock_env, MockApi};
use cosmwasm_std::Api as _;

use proofkit::common::api::{Api, StdError};
use proofkit::contracts::credential_registry::contract::{
    self as registry, CredentialRegistry, QueryResponse as RegistryAnswer,
};
use proofkit::contracts::credential_verifier::contract::{
    self as verifier_contract, CredentialVerifier, QueryResponse as VerifierAnswer,
};
use proofkit::contracts::issuer_registry::contract::{
    self as issuers, IssuerRegistry, QueryResponse as IssuerAnswer,
};
use proofkit::types::credential_registry::{
    ExecuteMsg as RegistryExecuteMsg, InstantiateMsg as RegistryInstantiateMsg,
    IsVerifiedResponse, QueryMsg as RegistryQueryMsg, SchemaResponse,
};
use proofkit::types::credential_verifier::{
    ConfigResponse, ExecuteMsg as VerifierExecuteMsg, InstantiateMsg as VerifierInstantiateMsg,
    QueryMsg as VerifierQueryMsg, VerificationRequest, VerificationResultResponse,
    VerificationType,
};
use proofkit::types::issuer_registry::{
    ExecuteMsg as IssuerExecuteMsg, InstantiateMsg as IssuerInstantiateMsg, IsAuthorizedResponse,
    QueryMsg as IssuerQueryMsg,
};

// ── Harness ──────────────────────────────────────────────────────────

fn addr(label: &str) -> String {
    MockApi::default().addr_make(label).to_string()
}

fn now() -> u64 {
    mock_env().block.time.seconds()
}

fn chain_api(addresses: Vec<String>) -> Api {
    let mock = MockApi::default();
    let mut api = Api::new();
    for a in addresses {
        let error = match mock.addr_validate(&a) {
            Ok(_) => None,
            Err(e) => Some(e.to_string()),
        };
        api.record(a, error);
    }
    api
}

struct TestSuite {
    admin: String,
    registry_addr: String,
    verifier_addr: String,
    issuer_reg_addr: String,
    registry: CredentialRegistry,
    verifier: CredentialVerifier,
    issuers: IssuerRegistry,
}

fn copy_registry(r: &CredentialRegistry) -> CredentialRegistry {
    CredentialRegistry::from_parts(r.admin().clone(), r.schemas().clone(), r.proofs().clone()).unwrap()
}

fn copy_verifier(v: &CredentialVerifier) -> CredentialVerifier {
    CredentialVerifier::from_parts(v.config().clone(), v.verifications().clone()).unwrap()
}

fn setup() -> TestSuite {
    let admin = addr("admin");
    let issuer_reg_addr = addr("issuer_registry_contract");
    let registry_addr = addr("credential_registry_contract");
    let verifier_addr = addr("verifier_contract");

    let msg = IssuerInstantiateMsg { admin: None };
    let api = chain_api(msg.addresses());
    let issuers = issuers::instantiate(&admin, msg, &api).unwrap().0;

    let msg = RegistryInstantiateMsg { admin: None };
    let api = chain_api(msg.addresses());
    let registry = registry::instantiate(&admin, msg, &api).unwrap().0;

    let msg = VerifierInstantiateMsg {
        admin: None,
        credential_registry: registry_addr.clone(),
        issuer_registry: issuer_reg_addr.clone(),
    };
    let api = chain_api(msg.addresses());
    let verifier = verifier_contract::instantiate(&admin, msg, &api).unwrap().0;

    TestSuite { admin, registry_addr, verifier_addr, issuer_reg_addr, registry, verifier, issuers }
}

impl TestSuite {
    fn execute_registry(&mut self, sender: &str, msg: RegistryExecuteMsg) -> Result<(), String> {
        let api = chain_api(msg.addresses());
        registry::execute(&mut self.registry, now(), &sender.to_string(), msg, &api)
            .map(|_| ())
            .map_err(|e| e.message())
    }

    fn execute_issuers(&mut self, sender: &str, msg: IssuerExecuteMsg) -> Result<(), String> {
        let api = chain_api(msg.addresses());
        issuers::execute(&mut self.issuers, now(), &sender.to_string(), msg, &api)
            .map(|_| ())
            .map_err(|e| e.message())
    }

    /// Runs `msg` on the verifier, then delivers its messages to the
    /// credential registry as sent by the verifier.
    fn execute_verifier(&mut self, sender: &str, msg: VerifierExecuteMsg) -> Result<(), String> {
        let saved_verifier = copy_verifier(&self.verifier);
        let saved_registry = copy_registry(&self.registry);
        let api = chain_api(msg.addresses());
        let outcome = verifier_contract::execute(&mut self.verifier, now(), &sender.to_string(), msg, &api)
            .map_err(|e| e.message())
            .and_then(|resp| {
                for sub in resp.messages {
                    assert_eq!(sub.contract_addr, self.registry_addr);
                    let verifier_addr = self.verifier_addr.clone();
                    self.execute_registry(&verifier_addr, sub.msg)?;
                }
                Ok(())
            });
        if outcome.is_err() {
            self.verifier = saved_verifier;
            self.registry = saved_registry;
        }
        outcome
    }

    fn is_verified(&self, subject: &str, schema_id: &str) -> IsVerifiedResponse {
        let msg = RegistryQueryMsg::IsVerified {
            subject: subject.to_string(),
            schema_id: schema_id.to_string(),
        };
        let api = chain_api(msg.addresses());
        match registry::query(&self.registry, now(), msg, &api).unwrap() {
            RegistryAnswer::IsVerified(r) => r,
            other => panic!("unexpected answer {:?}", other),
        }
    }

    fn is_authorized(&self, issuer: &str, credential_type: &str) -> IsAuthorizedResponse {
        let msg = IssuerQueryMsg::IsAuthorized {
            issuer: issuer.to_string(),
            credential_type: credential_type.to_string(),
        };
        let api = chain_api(msg.addresses());
        match issuers::query(&self.issuers, msg, &api).unwrap() {
            IssuerAnswer::IsAuthorized(r) => r,
            other => panic!("unexpected answer {:?}", other),
        }
    }

    fn verification(&self, verification_id: u64) -> VerificationResultResponse {
        let msg = VerifierQueryMsg::VerificationResult { verification_id };
        let api = chain_api(msg.addresses());
        match verifier_contract::query(&self.verifier, msg, &api).unwrap() {
            VerifierAnswer::VerificationResult(r) => r,
            other => panic!("unexpected answer {:?}", other),
        }
    }

    fn config(&self) -> ConfigResponse {
        let msg = VerifierQueryMsg::Config {};
        let api = chain_api(msg.addresses());
        match verifier_contract::query(&self.verifier, msg, &api).unwrap() {
            VerifierAnswer::Config(r) => r,
            other => panic!("unexpected answer {:?}", other),
        }
    }

    fn schema(&self, schema_id: &str) -> Result<SchemaResponse, StdError> {
        let msg = RegistryQueryMsg::Schema { schema_id: schema_id.to_string() };
        let api = chain_api(msg.addresses());
        registry::query(&self.registry, now(), msg, &api).map(|a| match a {
            RegistryAnswer::Schema(r) => r,
            other => panic!("unexpected answer {:?}", other),
        })
    }

    fn register_schema(&mut self, schema_id: &str, name: &str, description: &str, types: Vec<&str>) {
        let admin = self.admin.clone();
        let msg = RegistryExecuteMsg::RegisterSchema {
            schema_id: schema_id.to_string(),
            name: name.to_string(),
            description: description.to_string(),
            verifier_contract: self.verifier_addr.clone(),
            credential_types: types.into_iter().map(String::from).collect(),
        };
        self.execute_registry(&admin, msg).unwrap();
    }
}

// ── Full verification flow tests ─────────────────────────────────────

#[test]
fn full_zk_verification_flow() {
    let mut suite = setup();
    let user = addr("user1");
    let issuer = addr("issuer1");

    suite.register_schema("age_verification", "Age Verification", "Proves user is over 18", vec!["age"]);

    let admin = suite.admin.clone();
    suite
        .execute_issuers(
            &admin,
            IssuerExecuteMsg::RegisterIssuer {
                issuer: issuer.clone(),
                name: "Gov ID Issuer".to_string(),
                description: "Government identity provider".to_string(),
                credential_types: vec!["age".to_string(), "identity".to_string()],
            },
        )
        .unwrap();

    suite
        .execute_verifier(
            &user,
            VerifierExecuteMsg::VerifyCredential {
                schema_id: "age_verification".to_string(),
                subject: user.clone(),
                issuer: issuer.clone(),
                proof: "zk_proof_data_base64".to_string(),
                public_inputs: vec!["age_over_18=true".to_string()],
                expires_at: None,
            },
        )
        .unwrap();

    let is_verified = suite.is_verified(&user, "age_verification");
    assert!(is_verified.verified);
    assert_eq!(is_verified.proof_id, Some(1));

    let ver_result = suite.verification(1);
    assert!(ver_result.result.verified);
    assert_eq!(ver_result.result.subject, user);
    assert!(matches!(ver_result.result.verification_type, VerificationType::ZkProof));
}

#[test]
fn full_email_verification_flow() {
    let mut suite = setup();
    let user = addr("employee1");
    let issuer = addr("corp_issuer");

    suite.register_schema(
        "employment_verification",
        "Employment Verification",
        "Proves employment at a company",
        vec!["employment"],
    );

    suite
        .execute_verifier(
            &user,
            VerifierExecuteMsg::VerifyEmailCredential {
                schema_id: "employment_verification".to_string(),
                subject: user.clone(),
                issuer: issuer.clone(),
                email_domain: "megacorp.com".to_string(),
                dkim_signature: "dkim_sig_base64".to_string(),
                email_headers: "From: hr@megacorp.com\nSubject: Employment Confirmation".to_string(),
                expires_at: Some(9999999999),
            },
        )
        .unwrap();

    let is_verified = suite.is_verified(&user, "employment_verification");
    assert!(is_verified.verified);
    assert_eq!(is_verified.expires_at, Some(9999999999));
}

#[test]
fn batch_verify_records_multiple_proofs() {
    let mut suite = setup();
    let user1 = addr("user1");
    let user2 = addr("user2");
    let issuer = addr("issuer1");

    for (id, name, ctype) in [("age_check", "Age Check", "age"), ("id_check", "ID Check", "identity")] {
        suite.register_schema(id, name, "desc", vec![ctype]);
    }

    suite
        .execute_verifier(
            &user1,
            VerifierExecuteMsg::BatchVerify {
                verifications: vec![
                    VerificationRequest::ZkProof {
                        schema_id: "age_check".to_string(),
                        subject: user1.clone(),
                        issuer: issuer.clone(),
                        proof: "proof_1".to_string(),
                        public_inputs: vec!["input_1".to_string()],
                        expires_at: None,
                    },
                    VerificationRequest::ZkProof {
                        schema_id: "id_check".to_string(),
                        subject: user2.clone(),
                        issuer: issuer.clone(),
                        proof: "proof_2".to_string(),
                        public_inputs: vec!["input_2".to_string()],
                        expires_at: None,
                    },
                ],
            },
        )
        .unwrap();

    let v1 = suite.is_verified(&user1, "age_check");
    assert!(v1.verified);
    let v2 = suite.is_verified(&user2, "id_check");
    assert!(v2.verified);
}

#[test]
fn revoke_proof_after_verification() {
    let mut suite = setup();
    let user = addr("user1");
    let issuer = addr("issuer1");

    suite.register_schema("age", "Age", "desc", vec!["age"]);
    suite
        .execute_verifier(
            &user,
            VerifierExecuteMsg::VerifyCredential {
                schema_id: "age".to_string(),
                subject: user.clone(),
                issuer: issuer.clone(),
                proof: "proof".to_string(),
                public_inputs: vec!["input".to_string()],
                expires_at: None,
            },
        )
        .unwrap();

    let v = suite.is_verified(&user, "age");
    assert!(v.verified);

    let admin = suite.admin.clone();
    suite
        .execute_registry(
            &admin,
            RegistryExecuteMsg::RevokeProof { proof_id: 1, reason: "Fraudulent".to_string() },
        )
        .unwrap();

    let v = suite.is_verified(&user, "age");
    assert!(!v.verified);
}

#[test]
fn issuer_authorization_query_cross_contract() {
    let mut suite = setup();
    let issuer = addr("trusted_issuer");

    let admin = suite.admin.clone();
    suite
        .execute_issuers(
            &admin,
            IssuerExecuteMsg::RegisterIssuer {
                issuer: issuer.clone(),
                name: "Trusted Age Verifier".to_string(),
                description: "Official age verification provider".to_string(),
                credential_types: vec!["age".to_string()],
            },
        )
        .unwrap();

    let authorized = suite.is_authorized(&issuer, "age");
    assert!(authorized.authorized);

    let not_authorized = suite.is_authorized(&issuer, "employment");
    assert!(!not_authorized.authorized);

    suite
        .execute_issuers(
            &admin,
            IssuerExecuteMsg::RevokeIssuer {
                issuer: issuer.clone(),
                reason: "Keys compromised".to_string(),
            },
        )
        .unwrap();

    let revoked = suite.is_authorized(&issuer, "age");
    assert!(!revoked.authorized);
}

#[test]
fn verifier_config_points_to_correct_contracts() {
    let suite = setup();
    let config = suite.config();
    assert_eq!(config.config.admin, suite.admin);
    assert_eq!(config.config.credential_registry, suite.registry_addr);
    assert_eq!(config.config.issuer_registry, suite.issuer_reg_addr);
}

#[test]
fn unauthorized_recorder_rejected_by_registry() {
    let mut suite = setup();
    let random = addr("random_user");
    let issuer = addr("issuer1");

    suite.register_schema("test", "Test", "desc", vec!["test"]);

    let someone = addr("someone");
    let err = suite
        .execute_registry(
            &random,
            RegistryExecuteMsg::RecordProof {
                schema_id: "test".to_string(),
                subject: someone,
                proof_hash: "hash".to_string(),
                issuer,
                expires_at: None,
            },
        )
        .unwrap_err();

    assert!(
        err.contains("verifier contract or admin"),
        "Expected unauthorized recorder error, got: {}",
        err
    );
}

#[test]
fn schema_query_after_registration() {
    let mut suite = setup();
    suite.register_schema(
        "purchase_proof",
        "Purchase Proof",
        "Proves a purchase was made",
        vec!["purchase", "receipt"],
    );

    let schema = suite.schema("purchase_proof").unwrap();
    assert_eq!(schema.schema.name, "Purchase Proof");
    assert_eq!(schema.schema.credential_types, vec!["purchase", "receipt"]);
    assert_eq!(schema.schema.verifier_contract, suite.verifier_addr);
    assert!(schema.schema.active);
}

// ── Further cases ────────────────────────────────────────────────────

#[test]
fn verification_for_unregistered_schema_is_rolled_back() {
    let mut suite = setup();
    let user = addr("user1");
    let err = suite
        .execute_verifier(
            &user,
            VerifierExecuteMsg::VerifyCredential {
                schema_id: "unknown".to_string(),
                subject: user.clone(),
                issuer: addr("issuer1"),
                proof: "proof".to_string(),
                public_inputs: vec!["input".to_string()],
                expires_at: None,
            },
        )
        .unwrap_err();
    assert_eq!(err, "Schema 'unknown' not found");
    assert_eq!(suite.verifier.verification_count(), 0);
    assert_eq!(suite.registry.proof_count(), 0);
}

#[test]
fn verification_for_schema_of_another_verifier_is_refused() {
    let mut suite = setup();
    let admin = suite.admin.clone();
    suite
        .execute_registry(
            &admin,
            RegistryExecuteMsg::RegisterSchema {
                schema_id: "other".to_string(),
                name: "Other".to_string(),
                description: "desc".to_string(),
                verifier_contract: addr("other_verifier"),
                credential_types: vec!["x".to_string()],
            },
        )
        .unwrap();
    let user = addr("user1");
    let err = suite
        .execute_verifier(
            &user,
            VerifierExecuteMsg::VerifyCredential {
                schema_id: "other".to_string(),
                subject: user.clone(),
                issuer: addr("issuer1"),
                proof: "proof".to_string(),
                public_inputs: vec!["input".to_string()],
                expires_at: None,
            },
        )
        .unwrap_err();
    assert_eq!(err, "Only the verifier contract or admin can record proofs");
    assert!(!suite.is_verified(&user, "other").verified);
}

#[test]
fn expired_credential_lapses() {
    let mut suite = setup();
    let user = addr("user1");
    suite.register_schema("age", "Age", "desc", vec!["age"]);
    suite
        .execute_verifier(
            &user,
            VerifierExecuteMsg::VerifyCredential {
                schema_id: "age".to_string(),
                subject: user.clone(),
                issuer: addr("issuer1"),
                proof: "proof".to_string(),
                public_inputs: vec!["input".to_string()],
                expires_at: Some(now() - 1),
            },
        )
        .unwrap();
    let v = suite.is_verified(&user, "age");
    assert!(!v.verified);
    assert_eq!(v.proof_id, Some(1));
}
