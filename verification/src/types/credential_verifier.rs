//! Messages, records and responses of the verifier.

use vstd::prelude::*;

use crate::common::api::{one_address, opt_list, two_addresses};

verus! {

// ── Messages ──────────────────────────────────────────────────────────

#[derive(Debug, Clone, PartialEq, Eq)]
pub struct InstantiateMsg {
    /// Optional admin address; defaults to the instantiator.
    pub admin: Option<String>,
    /// Address of the credential registry that records proofs.
    pub credential_registry: String,
    /// Address of the issuer registry for authorization checks.
    pub issuer_registry: String,
}

#[derive(Debug, Clone, PartialEq, Eq)]
pub enum ExecuteMsg {
    /// Verify a ZK credential proof.
    VerifyCredential {
        schema_id: String,
        subject: String,
        issuer: String,
        proof: String,
        public_inputs: Vec<String>,
        expires_at: Option<u64>,
    },
    /// Verify an email credential by its DKIM signature.
    VerifyEmailCredential {
        schema_id: String,
        subject: String,
        issuer: String,
        email_domain: String,
        dkim_signature: String,
        email_headers: String,
        expires_at: Option<u64>,
    },
    /// Verify several credentials in one transaction.
    BatchVerify { verifications: Vec<VerificationRequest> },
    /// Update the admin address (admin only).
    UpdateAdmin { new_admin: String },
    /// Update the credential registry address (admin only).
    UpdateRegistry { credential_registry: String },
}

#[derive(Debug, Clone, PartialEq, Eq)]
pub enum QueryMsg {
    /// One verification record by ID.
    VerificationResult { verification_id: u64 },
    /// The verification records of a subject, a page at a time.
    VerificationsBySubject { subject: String, start_after: Option<u64>, limit: Option<u32> },
    /// The contract configuration.
    Config {},
}

/// One item of a batch verification.
#[derive(Debug, Clone, PartialEq, Eq)]
pub enum VerificationRequest {
    ZkProof {
        schema_id: String,
        subject: String,
        issuer: String,
        proof: String,
        public_inputs: Vec<String>,
        expires_at: Option<u64>,
    },
    EmailProof {
        schema_id: String,
        subject: String,
        issuer: String,
        email_domain: String,
        dkim_signature: String,
        email_headers: String,
        expires_at: Option<u64>,
    },
}

/// The address strings of a batch, item by item: subject then issuer.
pub open spec fn batch_addresses(items: Seq<VerificationRequest>) -> Seq<Seq<char>>
    decreases items.len(),
{
    if items.len() == 0 {
        seq![]
    } else {
        batch_addresses(items.drop_last()) + items.last().spec_addresses()
    }
}

impl VerificationRequest {
    pub open spec fn spec_addresses(&self) -> Seq<Seq<char>> {
        match self {
            VerificationRequest::ZkProof { subject, issuer, .. } => seq![subject@, issuer@],
            VerificationRequest::EmailProof { subject, issuer, .. } => seq![subject@, issuer@],
        }
    }
}

pub fn subject_and_issuer(subject: &String, issuer: &String) -> (r: Vec<String>)
    ensures
        r.deep_view() == seq![subject@, issuer@],
{
    two_addresses(subject, issuer)
}

impl InstantiateMsg {
    pub open spec fn spec_addresses(&self) -> Seq<Seq<char>> {
        opt_list(self.admin) + seq![self.credential_registry@, self.issuer_registry@]
    }

    /// The address strings this message names, which the chain is to validate.
    pub fn addresses(&self) -> (r: Vec<String>)
        ensures
            r.deep_view() == self.spec_addresses(),
    {
        let mut r: Vec<String> = Vec::new();
        match &self.admin {
            Some(a) => {
                r.push(a.clone());
            },
            None => {},
        }
        r.push(self.credential_registry.clone());
        r.push(self.issuer_registry.clone());
        assert(r.deep_view() =~= self.spec_addresses());
        r
    }
}

impl ExecuteMsg {
    pub open spec fn spec_addresses(&self) -> Seq<Seq<char>> {
        match self {
            ExecuteMsg::VerifyCredential { subject, issuer, .. } => seq![subject@, issuer@],
            ExecuteMsg::VerifyEmailCredential { subject, issuer, .. } => seq![subject@, issuer@],
            ExecuteMsg::BatchVerify { verifications } => batch_addresses(verifications@),
            ExecuteMsg::UpdateAdmin { new_admin } => seq![new_admin@],
            ExecuteMsg::UpdateRegistry { credential_registry } => seq![credential_registry@],
        }
    }

    /// The address strings this message names, which the chain is to validate.
    pub fn addresses(&self) -> (r: Vec<String>)
        ensures
            r.deep_view() == self.spec_addresses(),
    {
        match self {
            ExecuteMsg::VerifyCredential { subject, issuer, .. } => subject_and_issuer(
                subject,
                issuer,
            ),
            ExecuteMsg::VerifyEmailCredential { subject, issuer, .. } => subject_and_issuer(
                subject,
                issuer,
            ),
            ExecuteMsg::BatchVerify { verifications } => {
                let mut r: Vec<String> = Vec::new();
                let mut i: usize = 0;
                while i < verifications.len()
                    invariant
                        i <= verifications.len(),
                        r.deep_view() == batch_addresses(verifications@.take(i as int)),
                    decreases verifications.len() - i,
                {
                    let (s, iss) = match &verifications[i] {
                        VerificationRequest::ZkProof { subject, issuer, .. } => (subject, issuer),
                        VerificationRequest::EmailProof { subject, issuer, .. } => (
                            subject,
                            issuer,
                        ),
                    };
                    let ghost before = r.deep_view();
                    r.push(s.clone());
                    r.push(iss.clone());
                    assert(verifications@.take(i + 1).drop_last() =~= verifications@.take(
                        i as int,
                    ));
                    assert(verifications@.take(i + 1).last() == verifications@[i as int]);
                    assert(r.deep_view() =~= before + seq![s@, iss@]);
                    i = i + 1;
                }
                assert(verifications@.take(verifications.len() as int) =~= verifications@);
                r
            },
            ExecuteMsg::UpdateAdmin { new_admin } => one_address(new_admin),
            ExecuteMsg::UpdateRegistry { credential_registry } => one_address(
                credential_registry,
            ),
        }
    }
}

impl QueryMsg {
    pub open spec fn spec_addresses(&self) -> Seq<Seq<char>> {
        match self {
            QueryMsg::VerificationsBySubject { subject, .. } => seq![subject@],
            _ => seq![],
        }
    }

    /// The address strings this message names, which the chain is to validate.
    pub fn addresses(&self) -> (r: Vec<String>)
        ensures
            r.deep_view() == self.spec_addresses(),
    {
        match self {
            QueryMsg::VerificationsBySubject { subject, .. } => one_address(subject),
            _ => {
                let r: Vec<String> = Vec::new();
                assert(r.deep_view() =~= seq![]);
                r
            },
        }
    }
}

// ── State types ───────────────────────────────────────────────────────

#[derive(Debug, Clone, PartialEq, Eq)]
pub struct Config {
    pub admin: String,
    pub credential_registry: String,
    pub issuer_registry: String,
}

pub struct ConfigView {
    pub admin: Seq<char>,
    pub credential_registry: Seq<char>,
    pub issuer_registry: Seq<char>,
}

impl View for Config {
    type V = ConfigView;

    open spec fn view(&self) -> ConfigView {
        ConfigView {
            admin: self.admin@,
            credential_registry: self.credential_registry@,
            issuer_registry: self.issuer_registry@,
        }
    }
}

impl Config {
    /// A copy of this configuration.
    pub fn duplicate(&self) -> (r: Config)
        ensures
            r@ == self@,
    {
        Config {
            admin: self.admin.clone(),
            credential_registry: self.credential_registry.clone(),
            issuer_registry: self.issuer_registry.clone(),
        }
    }
}

#[derive(Debug, Clone, Copy, PartialEq, Eq, Structural)]
pub enum VerificationType {
    ZkProof,
    EmailDkim,
}

#[derive(Debug, Clone, PartialEq, Eq)]
pub struct VerificationRecord {
    pub id: u64,
    pub schema_id: String,
    pub subject: String,
    pub issuer: String,
    pub verification_type: VerificationType,
    pub verified: bool,
    pub verified_at: u64,
    pub proof_hash: String,
}

pub struct VerificationRecordView {
    pub id: u64,
    pub schema_id: Seq<char>,
    pub subject: Seq<char>,
    pub issuer: Seq<char>,
    pub verification_type: VerificationType,
    pub verified: bool,
    pub verified_at: u64,
    pub proof_hash: Seq<char>,
}

impl View for VerificationRecord {
    type V = VerificationRecordView;

    open spec fn view(&self) -> VerificationRecordView {
        VerificationRecordView {
            id: self.id,
            schema_id: self.schema_id@,
            subject: self.subject@,
            issuer: self.issuer@,
            verification_type: self.verification_type,
            verified: self.verified,
            verified_at: self.verified_at,
            proof_hash: self.proof_hash@,
        }
    }
}

impl DeepView for VerificationRecord {
    type V = VerificationRecordView;

    open spec fn deep_view(&self) -> VerificationRecordView {
        self@
    }
}

impl VerificationRecord {
    /// A copy of this record.
    pub fn duplicate(&self) -> (r: VerificationRecord)
        ensures
            r@ == self@,
    {
        VerificationRecord {
            id: self.id,
            schema_id: self.schema_id.clone(),
            subject: self.subject.clone(),
            issuer: self.issuer.clone(),
            verification_type: self.verification_type,
            verified: self.verified,
            verified_at: self.verified_at,
            proof_hash: self.proof_hash.clone(),
        }
    }
}

// ── Response types ────────────────────────────────────────────────────

#[derive(Debug, Clone, PartialEq, Eq)]
pub struct VerificationResult {
    pub verified: bool,
    pub verification_id: u64,
    pub schema_id: String,
    pub subject: String,
    pub verification_type: VerificationType,
    pub message: String,
}

pub struct VerificationResultView {
    pub verified: bool,
    pub verification_id: u64,
    pub schema_id: Seq<char>,
    pub subject: Seq<char>,
    pub verification_type: VerificationType,
    pub message: Seq<char>,
}

impl View for VerificationResult {
    type V = VerificationResultView;

    open spec fn view(&self) -> VerificationResultView {
        VerificationResultView {
            verified: self.verified,
            verification_id: self.verification_id,
            schema_id: self.schema_id@,
            subject: self.subject@,
            verification_type: self.verification_type,
            message: self.message@,
        }
    }
}

impl DeepView for VerificationResult {
    type V = VerificationResultView;

    open spec fn deep_view(&self) -> VerificationResultView {
        self@
    }
}

#[derive(Debug, Clone, PartialEq, Eq)]
pub struct VerificationResultResponse {
    pub result: VerificationRecord,
}

#[derive(Debug, Clone, PartialEq, Eq)]
pub struct VerificationResultsResponse {
    pub results: Vec<VerificationRecord>,
}

#[derive(Debug, Clone, PartialEq, Eq)]
pub struct ConfigResponse {
    pub config: Config,
}

#[derive(Debug, Clone, PartialEq, Eq)]
pub struct BatchVerifyResponse {
    pub results: Vec<VerificationResult>,
}

impl View for VerificationResultResponse {
    type V = VerificationRecordView;

    open spec fn view(&self) -> VerificationRecordView {
        self.result@
    }
}

impl View for VerificationResultsResponse {
    type V = Seq<VerificationRecordView>;

    open spec fn view(&self) -> Seq<VerificationRecordView> {
        self.results.deep_view()
    }
}

impl View for ConfigResponse {
    type V = ConfigView;

    open spec fn view(&self) -> ConfigView {
        self.config@
    }
}

} // verus!
