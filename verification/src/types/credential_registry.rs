//! Messages, records and responses of the credential registry.

use vstd::prelude::*;

use crate::common::api::{one_address, opt_addresses, opt_list, two_addresses};
use crate::common::text::{copy_opt_string, copy_strings};

verus! {

// ── Messages ──────────────────────────────────────────────────────────

#[derive(Debug, Clone, PartialEq, Eq)]
pub struct InstantiateMsg {
    /// Optional admin address; defaults to the instantiator.
    pub admin: Option<String>,
}

#[derive(Debug, Clone, PartialEq, Eq)]
pub enum ExecuteMsg {
    /// Register a new credential schema (admin only).
    RegisterSchema {
        schema_id: String,
        name: String,
        description: String,
        verifier_contract: String,
        credential_types: Vec<String>,
    },
    /// Record a verified proof (the schema's verifier contract or the admin).
    RecordProof {
        schema_id: String,
        subject: String,
        proof_hash: String,
        issuer: String,
        expires_at: Option<u64>,
    },
    /// Revoke a recorded proof (its issuer or the admin).
    RevokeProof { proof_id: u64, reason: String },
    /// Update the admin address (admin only).
    UpdateAdmin { new_admin: String },
}

pub enum ExecuteMsgView {
    RegisterSchema {
        schema_id: Seq<char>,
        name: Seq<char>,
        description: Seq<char>,
        verifier_contract: Seq<char>,
        credential_types: Seq<Seq<char>>,
    },
    RecordProof {
        schema_id: Seq<char>,
        subject: Seq<char>,
        proof_hash: Seq<char>,
        issuer: Seq<char>,
        expires_at: Option<u64>,
    },
    RevokeProof { proof_id: u64, reason: Seq<char> },
    UpdateAdmin { new_admin: Seq<char> },
}

impl View for ExecuteMsg {
    type V = ExecuteMsgView;

    open spec fn view(&self) -> ExecuteMsgView {
        match self {
            ExecuteMsg::RegisterSchema {
                schema_id,
                name,
                description,
                verifier_contract,
                credential_types,
            } => ExecuteMsgView::RegisterSchema {
                schema_id: schema_id@,
                name: name@,
                description: description@,
                verifier_contract: verifier_contract@,
                credential_types: credential_types.deep_view(),
            },
            ExecuteMsg::RecordProof { schema_id, subject, proof_hash, issuer, expires_at } =>
                ExecuteMsgView::RecordProof {
                schema_id: schema_id@,
                subject: subject@,
                proof_hash: proof_hash@,
                issuer: issuer@,
                expires_at: *expires_at,
            },
            ExecuteMsg::RevokeProof { proof_id, reason } => ExecuteMsgView::RevokeProof {
                proof_id: *proof_id,
                reason: reason@,
            },
            ExecuteMsg::UpdateAdmin { new_admin } => ExecuteMsgView::UpdateAdmin {
                new_admin: new_admin@,
            },
        }
    }
}

#[derive(Debug, Clone, PartialEq, Eq)]
pub enum QueryMsg {
    /// Whether a subject holds a valid (unrevoked, unexpired) proof for a schema.
    IsVerified { subject: String, schema_id: String },
    /// One proof record by ID.
    ProofRecord { proof_id: u64 },
    /// The proof records of a subject, a page at a time.
    ProofsBySubject { subject: String, start_after: Option<u64>, limit: Option<u32> },
    /// Details of one schema.
    Schema { schema_id: String },
    /// All schemas, a page at a time.
    ListSchemas { start_after: Option<String>, limit: Option<u32> },
    /// The current admin address.
    Admin {},
}

impl InstantiateMsg {
    /// The address strings this message names, which the chain is to validate.
    pub fn addresses(&self) -> (r: Vec<String>)
        ensures
            r.deep_view() == opt_list(self.admin),
    {
        opt_addresses(&self.admin)
    }
}

impl ExecuteMsg {
    pub open spec fn spec_addresses(&self) -> Seq<Seq<char>> {
        match self {
            ExecuteMsg::RegisterSchema { verifier_contract, .. } => seq![verifier_contract@],
            ExecuteMsg::RecordProof { subject, issuer, .. } => seq![subject@, issuer@],
            ExecuteMsg::RevokeProof { .. } => seq![],
            ExecuteMsg::UpdateAdmin { new_admin } => seq![new_admin@],
        }
    }

    /// The address strings this message names, which the chain is to validate.
    pub fn addresses(&self) -> (r: Vec<String>)
        ensures
            r.deep_view() == self.spec_addresses(),
    {
        match self {
            ExecuteMsg::RegisterSchema { verifier_contract, .. } => one_address(
                verifier_contract,
            ),
            ExecuteMsg::RecordProof { subject, issuer, .. } => two_addresses(subject, issuer),
            ExecuteMsg::RevokeProof { .. } => {
                let r: Vec<String> = Vec::new();
                assert(r.deep_view() =~= seq![]);
                r
            },
            ExecuteMsg::UpdateAdmin { new_admin } => one_address(new_admin),
        }
    }
}

impl QueryMsg {
    pub open spec fn spec_addresses(&self) -> Seq<Seq<char>> {
        match self {
            QueryMsg::IsVerified { subject, .. } => seq![subject@],
            QueryMsg::ProofsBySubject { subject, .. } => seq![subject@],
            _ => seq![],
        }
    }

    /// The address strings this message names, which the chain is to validate.
    pub fn addresses(&self) -> (r: Vec<String>)
        ensures
            r.deep_view() == self.spec_addresses(),
    {
        match self {
            QueryMsg::IsVerified { subject, .. } => one_address(subject),
            QueryMsg::ProofsBySubject { subject, .. } => one_address(subject),
            _ => {
                let r: Vec<String> = Vec::new();
                assert(r.deep_view() =~= seq![]);
                r
            },
        }
    }
}

// ── State types ───────────────────────────────────────────────────────

#[derive(Debug, Clone, PartialEq, Eq)]
pub struct CredentialSchema {
    pub schema_id: String,
    pub name: String,
    pub description: String,
    pub verifier_contract: String,
    pub credential_types: Vec<String>,
    pub created_at: u64,
    pub active: bool,
}

pub struct CredentialSchemaView {
    pub schema_id: Seq<char>,
    pub name: Seq<char>,
    pub description: Seq<char>,
    pub verifier_contract: Seq<char>,
    pub credential_types: Seq<Seq<char>>,
    pub created_at: u64,
    pub active: bool,
}

impl View for CredentialSchema {
    type V = CredentialSchemaView;

    open spec fn view(&self) -> CredentialSchemaView {
        CredentialSchemaView {
            schema_id: self.schema_id@,
            name: self.name@,
            description: self.description@,
            verifier_contract: self.verifier_contract@,
            credential_types: self.credential_types.deep_view(),
            created_at: self.created_at,
            active: self.active,
        }
    }
}

impl DeepView for CredentialSchema {
    type V = CredentialSchemaView;

    open spec fn deep_view(&self) -> CredentialSchemaView {
        self@
    }
}

impl CredentialSchema {
    /// A copy of this schema.
    pub fn duplicate(&self) -> (r: CredentialSchema)
        ensures
            r@ == self@,
    {
        CredentialSchema {
            schema_id: self.schema_id.clone(),
            name: self.name.clone(),
            description: self.description.clone(),
            verifier_contract: self.verifier_contract.clone(),
            credential_types: copy_strings(&self.credential_types),
            created_at: self.created_at,
            active: self.active,
        }
    }
}

#[derive(Debug, Clone, PartialEq, Eq)]
pub struct ProofRecord {
    pub id: u64,
    pub schema_id: String,
    pub subject: String,
    pub proof_hash: String,
    pub issuer: String,
    pub verified_at: u64,
    pub expires_at: Option<u64>,
    pub revoked: bool,
    pub revoked_at: Option<u64>,
    pub revocation_reason: Option<String>,
}

pub struct ProofRecordView {
    pub id: u64,
    pub schema_id: Seq<char>,
    pub subject: Seq<char>,
    pub proof_hash: Seq<char>,
    pub issuer: Seq<char>,
    pub verified_at: u64,
    pub expires_at: Option<u64>,
    pub revoked: bool,
    pub revoked_at: Option<u64>,
    pub revocation_reason: Option<Seq<char>>,
}

impl View for ProofRecord {
    type V = ProofRecordView;

    open spec fn view(&self) -> ProofRecordView {
        ProofRecordView {
            id: self.id,
            schema_id: self.schema_id@,
            subject: self.subject@,
            proof_hash: self.proof_hash@,
            issuer: self.issuer@,
            verified_at: self.verified_at,
            expires_at: self.expires_at,
            revoked: self.revoked,
            revoked_at: self.revoked_at,
            revocation_reason: self.revocation_reason.deep_view(),
        }
    }
}

impl DeepView for ProofRecord {
    type V = ProofRecordView;

    open spec fn deep_view(&self) -> ProofRecordView {
        self@
    }
}

impl ProofRecord {
    /// A copy of this record.
    pub fn duplicate(&self) -> (r: ProofRecord)
        ensures
            r@ == self@,
    {
        ProofRecord {
            id: self.id,
            schema_id: self.schema_id.clone(),
            subject: self.subject.clone(),
            proof_hash: self.proof_hash.clone(),
            issuer: self.issuer.clone(),
            verified_at: self.verified_at,
            expires_at: self.expires_at,
            revoked: self.revoked,
            revoked_at: self.revoked_at,
            revocation_reason: copy_opt_string(&self.revocation_reason),
        }
    }
}

// ── Response types ────────────────────────────────────────────────────

#[derive(Debug, Clone, PartialEq, Eq)]
pub struct IsVerifiedResponse {
    pub verified: bool,
    pub proof_id: Option<u64>,
    pub expires_at: Option<u64>,
}

#[derive(Debug, Clone, PartialEq, Eq)]
pub struct ProofRecordResponse {
    pub record: ProofRecord,
}

#[derive(Debug, Clone, PartialEq, Eq)]
pub struct ProofRecordsResponse {
    pub records: Vec<ProofRecord>,
}

#[derive(Debug, Clone, PartialEq, Eq)]
pub struct SchemaResponse {
    pub schema: CredentialSchema,
}

#[derive(Debug, Clone, PartialEq, Eq)]
pub struct SchemasResponse {
    pub schemas: Vec<CredentialSchema>,
}

#[derive(Debug, Clone, PartialEq, Eq)]
pub struct AdminResponse {
    pub admin: String,
}

pub struct IsVerifiedResponseView {
    pub verified: bool,
    pub proof_id: Option<u64>,
    pub expires_at: Option<u64>,
}

impl View for IsVerifiedResponse {
    type V = IsVerifiedResponseView;

    open spec fn view(&self) -> IsVerifiedResponseView {
        IsVerifiedResponseView {
            verified: self.verified,
            proof_id: self.proof_id,
            expires_at: self.expires_at,
        }
    }
}

impl View for ProofRecordResponse {
    type V = ProofRecordView;

    open spec fn view(&self) -> ProofRecordView {
        self.record@
    }
}

impl View for ProofRecordsResponse {
    type V = Seq<ProofRecordView>;

    open spec fn view(&self) -> Seq<ProofRecordView> {
        self.records.deep_view()
    }
}

impl View for SchemaResponse {
    type V = CredentialSchemaView;

    open spec fn view(&self) -> CredentialSchemaView {
        self.schema@
    }
}

impl View for SchemasResponse {
    type V = Seq<CredentialSchemaView>;

    open spec fn view(&self) -> Seq<CredentialSchemaView> {
        self.schemas.deep_view()
    }
}

impl View for AdminResponse {
    type V = Seq<char>;

    open spec fn view(&self) -> Seq<char> {
        self.admin@
    }
}

} // verus!
