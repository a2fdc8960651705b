use cosmwasm_std::testing::{mock_env, MockApi};
use cosmwasm_std::Api as _;

use proofkit::common::api::{Api, StdError};
use proofkit::common::response::Response;
use proofkit::contracts::issuer_registry::contract::{
    execute, instantiate, query, IssuerRegistry, QueryResponse,
};
use proofkit::contracts::issuer_registry::error::ContractError;
use proofkit::types::issuer_registry::{
    AdminResponse, ExecuteMsg, InstantiateMsg, IsAuthorizedResponse, IssuerResponse,
    IssuersResponse, QueryMsg,
};

// ── Harness ──────────────────────────────────────────────────────────

fn addr(label: &str) -> String {
    MockApi::default().addr_make(label).to_string()
}

fn now() -> u64 {
    mock_env().block.time.seconds()
}

/// The chain's verdicts on the given address strings.
fn chain_api(addresses: Vec<String>) -> Api {
    let mock = MockApi::default();
    let mut api = Api::new();
    for a in addresses {
        let error = match mock.addr_validate(&a) {
            Ok(_) => None,
            Err(e) => Some(e.to_string()),
        };
        api.record(a, error);
    }
    api
}

fn exec(state: &mut IssuerRegistry, sender: &str, msg: ExecuteMsg) -> Result<Response, ContractError> {
    let api = chain_api(msg.addresses());
    execute(state, now(), &addr(sender), msg, &api)
}

fn ask(state: &IssuerRegistry, msg: QueryMsg) -> Result<QueryResponse, StdError> {
    let api = chain_api(msg.addresses());
    query(state, msg, &api)
}

fn setup_contract() -> IssuerRegistry {
    let msg = InstantiateMsg { admin: None };
    let api = chain_api(msg.addresses());
    instantiate(&addr("admin"), msg, &api).unwrap().0
}

fn register_issuer(state: &mut IssuerRegistry, issuer_label: &str, types: Vec<&str>) {
    let msg = ExecuteMsg::RegisterIssuer {
        issuer: addr(issuer_label),
        name: format!("Issuer {}", issuer_label),
        description: "A trusted issuer".to_string(),
        credential_types: types.into_iter().map(String::from).collect(),
    };
    exec(state, "admin", msg).unwrap();
}

fn admin_of(state: &IssuerRegistry) -> AdminResponse {
    match ask(state, QueryMsg::Admin {}).unwrap() {
        QueryResponse::Admin(r) => r,
        other => panic!("unexpected answer {:?}", other),
    }
}

fn is_authorized(state: &IssuerRegistry, issuer: &str, credential_type: &str) -> IsAuthorizedResponse {
    let msg = QueryMsg::IsAuthorized {
        issuer: addr(issuer),
        credential_type: credential_type.to_string(),
    };
    match ask(state, msg).unwrap() {
        QueryResponse::IsAuthorized(r) => r,
        other => panic!("unexpected answer {:?}", other),
    }
}

fn issuer_of(state: &IssuerRegistry, issuer: &str) -> IssuerResponse {
    match ask(state, QueryMsg::Issuer { issuer: addr(issuer) }).unwrap() {
        QueryResponse::Issuer(r) => r,
        other => panic!("unexpected answer {:?}", other),
    }
}

fn issuers(state: &IssuerRegistry, msg: QueryMsg) -> IssuersResponse {
    match ask(state, msg).unwrap() {
        QueryResponse::Issuers(r) => r,
        other => panic!("unexpected answer {:?}", other),
    }
}

// ── Instantiation ────────────────────────────────────────────────────

#[test]
fn tests_proper_instantiation() {
    let state = setup_contract();
    let res = admin_of(&state);
    assert_eq!(res.admin, addr("admin"));
}

#[test]
fn tests_instantiation_with_custom_admin() {
    let custom_admin = addr("custom_admin");
    let msg = InstantiateMsg { admin: Some(custom_admin.clone()) };
    let api = chain_api(msg.addresses());
    let (state, _) = instantiate(&addr("creator"), msg, &api).unwrap();

    let res = admin_of(&state);
    assert_eq!(res.admin, custom_admin);
}

// ── Register issuer ──────────────────────────────────────────────────

#[test]
fn register_issuer_success() {
    let mut state = setup_contract();
    let issuer1 = addr("issuer1");
    register_issuer(&mut state, "issuer1", vec!["age", "identity"]);

    let res = issuer_of(&state, "issuer1");
    assert_eq!(res.issuer.address, issuer1);
    assert_eq!(res.issuer.name, "Issuer issuer1");
    assert!(res.issuer.active);
    assert_eq!(res.issuer.credential_types, vec!["age", "identity"]);
}

#[test]
fn register_issuer_unauthorized() {
    let mut state = setup_contract();
    let msg = ExecuteMsg::RegisterIssuer {
        issuer: addr("issuer1"),
        name: "Issuer 1".to_string(),
        description: "desc".to_string(),
        credential_types: vec!["age".to_string()],
    };
    let err = exec(&mut state, "not_admin", msg).unwrap_err();
    assert_eq!(err, ContractError::Unauthorized);
}

#[test]
fn register_issuer_duplicate() {
    let mut state = setup_contract();
    let issuer1 = addr("issuer1");
    register_issuer(&mut state, "issuer1", vec!["age"]);

    let msg = ExecuteMsg::RegisterIssuer {
        issuer: issuer1.clone(),
        name: "Dup".to_string(),
        description: "dup".to_string(),
        credential_types: vec!["age".to_string()],
    };
    let err = exec(&mut state, "admin", msg).unwrap_err();
    assert_eq!(err, ContractError::IssuerAlreadyRegistered { issuer: issuer1 });
}

#[test]
fn register_issuer_empty_name() {
    let mut state = setup_contract();
    let msg = ExecuteMsg::RegisterIssuer {
        issuer: addr("issuer1"),
        name: "".to_string(),
        description: "desc".to_string(),
        credential_types: vec!["age".to_string()],
    };
    let err = exec(&mut state, "admin", msg).unwrap_err();
    assert_eq!(err, ContractError::EmptyName);
}

#[test]
fn register_issuer_empty_credential_types() {
    let mut state = setup_contract();
    let msg = ExecuteMsg::RegisterIssuer {
        issuer: addr("issuer1"),
        name: "Name".to_string(),
        description: "desc".to_string(),
        credential_types: vec![],
    };
    let err = exec(&mut state, "admin", msg).unwrap_err();
    assert_eq!(err, ContractError::EmptyCredentialTypes);
}

// ── IsAuthorized ─────────────────────────────────────────────────────

#[test]
fn is_authorized_active_issuer() {
    let mut state = setup_contract();
    register_issuer(&mut state, "issuer1", vec!["age", "identity"]);

    let res = is_authorized(&state, "issuer1", "age");
    assert!(res.authorized);
    assert_eq!(res.issuer_name, Some("Issuer issuer1".to_string()));
}

#[test]
fn is_authorized_wrong_type() {
    let mut state = setup_contract();
    register_issuer(&mut state, "issuer1", vec!["age"]);

    let res = is_authorized(&state, "issuer1", "employment");
    assert!(!res.authorized);
}

#[test]
fn is_authorized_nonexistent_issuer() {
    let state = setup_contract();
    let res = is_authorized(&state, "nonexistent", "age");
    assert!(!res.authorized);
}

// ── Revoke issuer ────────────────────────────────────────────────────

#[test]
fn revoke_issuer_success() {
    let mut state = setup_contract();
    register_issuer(&mut state, "issuer1", vec!["age"]);

    let msg = ExecuteMsg::RevokeIssuer {
        issuer: addr("issuer1"),
        reason: "Compromised keys".to_string(),
    };
    exec(&mut state, "admin", msg).unwrap();

    let res = is_authorized(&state, "issuer1", "age");
    assert!(!res.authorized);

    let res = issuer_of(&state, "issuer1");
    assert!(!res.issuer.active);
    assert!(res.issuer.revoked_at.is_some());
    assert_eq!(res.issuer.revocation_reason, Some("Compromised keys".to_string()));
}

#[test]
fn revoke_issuer_unauthorized() {
    let mut state = setup_contract();
    register_issuer(&mut state, "issuer1", vec!["age"]);

    let msg = ExecuteMsg::RevokeIssuer { issuer: addr("issuer1"), reason: "reason".to_string() };
    let err = exec(&mut state, "not_admin", msg).unwrap_err();
    assert_eq!(err, ContractError::Unauthorized);
}

#[test]
fn revoke_issuer_already_revoked() {
    let mut state = setup_contract();
    let issuer1 = addr("issuer1");
    register_issuer(&mut state, "issuer1", vec!["age"]);

    let msg = ExecuteMsg::RevokeIssuer { issuer: issuer1.clone(), reason: "First".to_string() };
    exec(&mut state, "admin", msg).unwrap();

    let msg = ExecuteMsg::RevokeIssuer { issuer: issuer1.clone(), reason: "Second".to_string() };
    let err = exec(&mut state, "admin", msg).unwrap_err();
    assert_eq!(err, ContractError::IssuerAlreadyRevoked { issuer: issuer1 });
}

#[test]
fn revoke_issuer_not_found() {
    let mut state = setup_contract();
    let nonexistent = addr("nonexistent");
    let msg = ExecuteMsg::RevokeIssuer { issuer: nonexistent.clone(), reason: "reason".to_string() };
    let err = exec(&mut state, "admin", msg).unwrap_err();
    assert_eq!(err, ContractError::IssuerNotFound { issuer: nonexistent });
}

#[test]
fn revoke_issuer_empty_reason() {
    let mut state = setup_contract();
    register_issuer(&mut state, "issuer1", vec!["age"]);

    let msg = ExecuteMsg::RevokeIssuer { issuer: addr("issuer1"), reason: "".to_string() };
    let err = exec(&mut state, "admin", msg).unwrap_err();
    assert_eq!(err, ContractError::EmptyRevocationReason);
}

// ── Update issuer ────────────────────────────────────────────────────

#[test]
fn update_issuer_name() {
    let mut state = setup_contract();
    register_issuer(&mut state, "issuer1", vec!["age"]);

    let msg = ExecuteMsg::UpdateIssuer {
        issuer: addr("issuer1"),
        name: Some("New Name".to_string()),
        description: None,
        credential_types: None,
    };
    exec(&mut state, "admin", msg).unwrap();

    let res = issuer_of(&state, "issuer1");
    assert_eq!(res.issuer.name, "New Name");
}

#[test]
fn update_issuer_credential_types() {
    let mut state = setup_contract();
    register_issuer(&mut state, "issuer1", vec!["age"]);

    let msg = ExecuteMsg::UpdateIssuer {
        issuer: addr("issuer1"),
        name: None,
        description: None,
        credential_types: Some(vec!["age".to_string(), "employment".to_string()]),
    };
    exec(&mut state, "admin", msg).unwrap();

    let res = is_authorized(&state, "issuer1", "employment");
    assert!(res.authorized);
}

#[test]
fn update_issuer_no_fields() {
    let mut state = setup_contract();
    register_issuer(&mut state, "issuer1", vec!["age"]);

    let msg = ExecuteMsg::UpdateIssuer {
        issuer: addr("issuer1"),
        name: None,
        description: None,
        credential_types: None,
    };
    let err = exec(&mut state, "admin", msg).unwrap_err();
    assert_eq!(err, ContractError::NoFieldsToUpdate);
}

#[test]
fn update_issuer_unauthorized() {
    let mut state = setup_contract();
    register_issuer(&mut state, "issuer1", vec!["age"]);

    let msg = ExecuteMsg::UpdateIssuer {
        issuer: addr("issuer1"),
        name: Some("New".to_string()),
        description: None,
        credential_types: None,
    };
    let err = exec(&mut state, "not_admin", msg).unwrap_err();
    assert_eq!(err, ContractError::Unauthorized);
}

// ── List / pagination ────────────────────────────────────────────────

#[test]
fn list_issuers_pagination() {
    let mut state = setup_contract();
    register_issuer(&mut state, "alice", vec!["age"]);
    register_issuer(&mut state, "bob", vec!["employment"]);
    register_issuer(&mut state, "charlie", vec!["age", "employment"]);

    let res = issuers(&state, QueryMsg::ListIssuers { start_after: None, limit: Some(2) });
    assert_eq!(res.issuers.len(), 2);

    let last = res.issuers[1].address.clone();
    let res2 = issuers(&state, QueryMsg::ListIssuers { start_after: Some(last), limit: Some(2) });
    assert_eq!(res2.issuers.len(), 1);
}

#[test]
fn issuers_by_type() {
    let mut state = setup_contract();
    register_issuer(&mut state, "issuer1", vec!["age", "identity"]);
    register_issuer(&mut state, "issuer2", vec!["employment"]);
    register_issuer(&mut state, "issuer3", vec!["age"]);

    let res = issuers(
        &state,
        QueryMsg::IssuersByType { credential_type: "age".to_string(), start_after: None, limit: None },
    );
    assert_eq!(res.issuers.len(), 2);

    let res = issuers(
        &state,
        QueryMsg::IssuersByType {
            credential_type: "employment".to_string(),
            start_after: None,
            limit: None,
        },
    );
    assert_eq!(res.issuers.len(), 1);
}

// ── Update admin ─────────────────────────────────────────────────────

#[test]
fn tests_update_admin_success() {
    let mut state = setup_contract();
    let new_admin = addr("new_admin");
    let msg = ExecuteMsg::UpdateAdmin { new_admin: new_admin.clone() };
    exec(&mut state, "admin", msg).unwrap();

    let res = admin_of(&state);
    assert_eq!(res.admin, new_admin);
}

#[test]
fn tests_update_admin_unauthorized() {
    let mut state = setup_contract();
    let msg = ExecuteMsg::UpdateAdmin { new_admin: addr("new_admin") };
    let err = exec(&mut state, "not_admin", msg).unwrap_err();
    assert_eq!(err, ContractError::Unauthorized);
}

// ── Further cases ────────────────────────────────────────────────────

#[test]
fn issuer_listing_is_in_address_order() {
    let mut state = setup_contract();
    register_issuer(&mut state, "charlie", vec!["age"]);
    register_issuer(&mut state, "alice", vec!["age"]);
    register_issuer(&mut state, "bob", vec!["age"]);

    let res = issuers(&state, QueryMsg::ListIssuers { start_after: None, limit: None });
    let listed: Vec<String> = res.issuers.iter().map(|r| r.address.clone()).collect();
    let mut sorted = listed.clone();
    sorted.sort();
    assert_eq!(listed, sorted);
    assert_eq!(listed.len(), 3);
}

#[test]
fn revoked_issuer_is_not_listed_by_type() {
    let mut state = setup_contract();
    register_issuer(&mut state, "issuer1", vec!["age"]);
    register_issuer(&mut state, "issuer2", vec!["age"]);
    let msg = ExecuteMsg::RevokeIssuer { issuer: addr("issuer1"), reason: "Gone".to_string() };
    exec(&mut state, "admin", msg).unwrap();

    let res = issuers(
        &state,
        QueryMsg::IssuersByType { credential_type: "age".to_string(), start_after: None, limit: None },
    );
    assert_eq!(res.issuers.len(), 1);
    assert_eq!(res.issuers[0].address, addr("issuer2"));
}

#[test]
fn revoked_issuer_stays_unauthorized_after_update() {
    let mut state = setup_contract();
    register_issuer(&mut state, "issuer1", vec!["age"]);
    let msg = ExecuteMsg::RevokeIssuer { issuer: addr("issuer1"), reason: "Gone".to_string() };
    exec(&mut state, "admin", msg).unwrap();
    let msg = ExecuteMsg::UpdateIssuer {
        issuer: addr("issuer1"),
        name: None,
        description: None,
        credential_types: Some(vec!["age".to_string(), "employment".to_string()]),
    };
    exec(&mut state, "admin", msg).unwrap();

    assert!(!is_authorized(&state, "issuer1", "employment").authorized);
    assert!(!is_authorized(&state, "issuer1", "age").authorized);
}

#[test]
fn invalid_issuer_address_is_rejected() {
    let mut state = setup_contract();
    let msg = ExecuteMsg::RegisterIssuer {
        issuer: "not-an-address".to_string(),
        name: "Name".to_string(),
        description: "desc".to_string(),
        credential_types: vec!["age".to_string()],
    };
    let before = state.issuers().len();
    let err = exec(&mut state, "admin", msg).unwrap_err();
    assert!(matches!(err, ContractError::Std(StdError::GenericErr { .. })));
    assert_eq!(state.issuers().len(), before);
}

#[test]
fn description_too_long_is_rejected() {
    let mut state = setup_contract();
    let msg = ExecuteMsg::RegisterIssuer {
        issuer: addr("issuer1"),
        name: "Name".to_string(),
        description: "x".repeat(1025),
        credential_types: vec!["age".to_string()],
    };
    let err = exec(&mut state, "admin", msg).unwrap_err();
    assert_eq!(err, ContractError::DescriptionTooLong { max: 1024 });
    assert_eq!(
        err.message(),
        "Description exceeds maximum length of 1024 characters"
    );
}

#[test]
fn unvalidated_address_is_refused() {
    let state = setup_contract();
    let msg = QueryMsg::Issuer { issuer: addr("issuer1") };
    let err = query(&state, msg, &Api::new()).unwrap_err();
    assert_eq!(
        err,
        StdError::GenericErr { msg: "Invalid input: address was not validated".to_string() }
    );
}

#[test]
fn error_messages_read_as_documented() {
    assert_eq!(
        ContractError::Unauthorized.message(),
        "Unauthorized: only the admin can perform this action"
    );
    assert_eq!(
        ContractError::IssuerNotFound { issuer: "x".to_string() }.message(),
        "Issuer 'x' not found"
    );
    assert_eq!(
        ContractError::Std(StdError::GenericErr { msg: "bad".to_string() }).message(),
        "Generic error: bad"
    );
}

#[test]
fn revoking_one_issuer_leaves_others() {
    let mut state = setup_contract();
    register_issuer(&mut state, "issuer1", vec!["age"]);
    register_issuer(&mut state, "issuer2", vec!["age"]);
    let before = issuer_of(&state, "issuer2");
    let msg = ExecuteMsg::RevokeIssuer { issuer: addr("issuer1"), reason: "Gone".to_string() };
    exec(&mut state, "admin", msg).unwrap();
    assert_eq!(issuer_of(&state, "issuer2"), before);
    assert!(is_authorized(&state, "issuer2", "age").authorized);
}
