//! The credential verifier's state, how each message changes it, and what
//! each query answers.
//!
//! Verification records are numbered from 1 in the order they were made.
//! Each accepted proof also yields a message to the credential registry
//! that records it there.

use vstd::prelude::*;

use super::error::{ContractError, ContractErrorView};
use super::verification::{dkim_proof_hash, verify_dkim_email, verify_zk_proof, zk_proof_hash};
use crate::common::api::{addr_check, std_result_matches, Api, StdError, StdErrorView};
use crate::common::paging::{
    clamp_limit, effective_limit, lemma_filter_take_step, lemma_page_all, lemma_page_full, page,
};
use crate::common::response::{attributes_response, Response, ResponseView};
use crate::common::text::{bool_string, decimal, decimal_string};
use crate::types::credential_registry::{
    ExecuteMsg as RegistryExecuteMsg, ExecuteMsgView as RegistryExecuteMsgView,
};
use crate::types::credential_verifier::{
    BatchVerifyResponse, Config, ConfigResponse, ConfigView, ExecuteMsg, InstantiateMsg, QueryMsg,
    VerificationRecord, VerificationRecordView, VerificationRequest, VerificationResult,
    VerificationResultResponse, VerificationResultView, VerificationResultsResponse,
    VerificationType,
};

verus! {

/// The largest number of verifications one batch may hold.
pub const MAX_BATCH_SIZE: usize = 20;

// ── State ─────────────────────────────────────────────────────────────

/// The verifier: its configuration and its verification records, in the
/// order they were made.
pub struct CredentialVerifier {
    config: Config,
    verifications: Vec<VerificationRecord>,
}

pub struct CredentialVerifierView {
    pub config: ConfigView,
    pub verifications: Seq<VerificationRecordView>,
}

/// Record `k` (counting from 0) carries the identifier `k + 1`.
pub open spec fn records_numbered(v: Seq<VerificationRecordView>) -> bool {
    forall|k: int| 0 <= k < v.len() ==> #[trigger] v[k].id == k + 1
}

impl CredentialVerifierView {
    pub open spec fn wf(self) -> bool {
        records_numbered(self.verifications)
    }

    /// Whether a verification record with identifier `id` exists.
    pub open spec fn has_record(self, id: u64) -> bool {
        1 <= id <= self.verifications.len()
    }

    /// The verification record with identifier `id`.
    pub open spec fn record(self, id: u64) -> VerificationRecordView {
        self.verifications[id - 1]
    }

    /// The identifier the next verification record gets.
    pub open spec fn next_id(self) -> u64 {
        (self.verifications.len() + 1) as u64
    }

    /// The verifier with the records `added` made after all earlier ones.
    pub open spec fn with_records(self, added: Seq<VerificationRecordView>) -> CredentialVerifierView {
        CredentialVerifierView { config: self.config, verifications: self.verifications + added }
    }

    pub open spec fn with_config(self, config: ConfigView) -> CredentialVerifierView {
        CredentialVerifierView { config, verifications: self.verifications }
    }
}

impl View for CredentialVerifier {
    type V = CredentialVerifierView;

    closed spec fn view(&self) -> CredentialVerifierView {
        CredentialVerifierView {
            config: self.config@,
            verifications: self.verifications.deep_view(),
        }
    }
}

impl CredentialVerifier {
    #[verifier::type_invariant]
    spec fn inv(self) -> bool {
        self@.wf()
    }
}

// ── Construction and access ───────────────────────────────────────────

/// The configuration that instantiation sets: the admin (the sender when
/// none is named) and the two registries, each address validated in turn.
pub open spec fn instantiate_outcome(
    sender: Seq<char>,
    msg: InstantiateMsg,
    api: Seq<(Seq<char>, Option<Seq<char>>)>,
) -> Result<(CredentialVerifierView, ResponseView), ContractErrorView> {
    let admin = match msg.admin {
        None => Ok(sender),
        Some(a) => addr_check(api, a@),
    };
    match admin {
        Err(e) => Err(ContractErrorView::Std(e)),
        Ok(a) => match addr_check(api, msg.credential_registry@) {
            Err(e) => Err(ContractErrorView::Std(e)),
            Ok(c) => match addr_check(api, msg.issuer_registry@) {
                Err(e) => Err(ContractErrorView::Std(e)),
                Ok(i) => Ok(
                    (
                        CredentialVerifierView {
                            config: ConfigView { admin: a, credential_registry: c, issuer_registry: i },
                            verifications: seq![],
                        },
                        attributes_response(seq![("action"@, "instantiate"@), ("admin"@, a)]),
                    ),
                ),
            },
        },
    }
}

/// Validates an address, or reports the framework error as the
/// verifier's.
fn validate(api: &Api, input: &String) -> (r: Result<String, ContractError>)
    ensures
        match addr_check(api@, input@) {
            Ok(a) => r is Ok && r->Ok_0@ == a,
            Err(e) => r is Err && r->Err_0@ == ContractErrorView::Std(e),
        },
{
    match api.addr_validate(input) {
        Ok(a) => Ok(a),
        Err(e) => Err(ContractError::Std(e)),
    }
}

/// The verifier at instantiation: configured, with no records.
pub fn instantiate(sender: &String, msg: InstantiateMsg, api: &Api) -> (r: Result<
    (CredentialVerifier, Response),
    ContractError,
>)
    ensures
        match instantiate_outcome(sender@, msg, api@) {
            Err(e) => r is Err && r->Err_0@ == e,
            Ok((s, resp)) => r is Ok && r->Ok_0.0@ == s && r->Ok_0.1@ == resp,
        },
{
    let admin = match &msg.admin {
        Some(a) => validate(api, a)?,
        None => sender.clone(),
    };
    let credential_registry = validate(api, &msg.credential_registry)?;
    let issuer_registry = validate(api, &msg.issuer_registry)?;
    let mut resp = Response::new();
    resp.add_attribute("action", String::from_str("instantiate"));
    resp.add_attribute("admin", admin.clone());
    let state = CredentialVerifier {
        config: Config { admin, credential_registry, issuer_registry },
        verifications: Vec::new(),
    };
    assert(state@.verifications =~= seq![]);
    assert(resp@.attributes =~= seq![("action"@, "instantiate"@), ("admin"@, state@.config.admin)]);
    Ok((state, resp))
}

impl CredentialVerifier {
    /// Rebuilds a verifier from its parts; `None` unless the records are
    /// numbered 1, 2, ...
    pub fn from_parts(config: Config, verifications: Vec<VerificationRecord>) -> (r: Option<
        CredentialVerifier,
    >)
        ensures
            r is Some <==> records_numbered(verifications.deep_view()),
            r is Some ==> r->Some_0@ == (CredentialVerifierView {
                config: config@,
                verifications: verifications.deep_view(),
            }),
    {
        let ghost v = verifications.deep_view();
        let mut k: usize = 0;
        while k < verifications.len()
            invariant
                k <= verifications.len(),
                v == verifications.deep_view(),
                forall|j: int| 0 <= j < k ==> #[trigger] v[j].id == j + 1,
            decreases verifications.len() - k,
        {
            if verifications[k].id as u128 != k as u128 + 1 {
                assert(v[k as int].id != k + 1);
                return None;
            }
            k = k + 1;
        }
        Some(CredentialVerifier { config, verifications })
    }

    /// The configuration.
    pub fn config(&self) -> (r: &Config)
        ensures
            r@ == self@.config,
    {
        &self.config
    }

    /// The verification records, in the order they were made.
    pub fn verifications(&self) -> (r: &Vec<VerificationRecord>)
        ensures
            r.deep_view() == self@.verifications,
    {
        &self.verifications
    }

    /// How many verifications have been recorded.
    pub fn verification_count(&self) -> (r: u64)
        ensures
            r == self@.verifications.len(),
    {
        self.verifications.len() as u64
    }
}

// ── Execute: single verifications ─────────────────────────────────────

pub open spec fn result_view(r: Result<Response, ContractError>) -> Result<
    ResponseView,
    ContractErrorView,
> {
    match r {
        Ok(x) => Ok(x@),
        Err(e) => Err(e@),
    }
}

/// A verification record.
pub open spec fn new_record(
    id: u64,
    schema_id: Seq<char>,
    subject: Seq<char>,
    issuer: Seq<char>,
    verification_type: VerificationType,
    now: u64,
    proof_hash: Seq<char>,
) -> VerificationRecordView {
    VerificationRecordView {
        id,
        schema_id,
        subject,
        issuer,
        verification_type,
        verified: true,
        verified_at: now,
        proof_hash,
    }
}

/// The message that has the credential registry record a proof.
pub open spec fn record_proof_message(
    schema_id: Seq<char>,
    subject: Seq<char>,
    proof_hash: Seq<char>,
    issuer: Seq<char>,
    expires_at: Option<u64>,
) -> RegistryExecuteMsgView {
    RegistryExecuteMsgView::RecordProof { schema_id, subject, proof_hash, issuer, expires_at }
}

/// Verifying a ZK credential: a schema, a proof and at least one public
/// input; valid subject and issuer addresses. The proof is recorded under
/// the next identifier, and the credential registry is asked to record it.
pub open spec fn verify_credential_outcome(
    s: CredentialVerifierView,
    now: u64,
    schema_id: Seq<char>,
    subject: Seq<char>,
    issuer: Seq<char>,
    proof: Seq<char>,
    public_inputs: Seq<Seq<char>>,
    expires_at: Option<u64>,
    api: Seq<(Seq<char>, Option<Seq<char>>)>,
) -> (CredentialVerifierView, Result<ResponseView, ContractErrorView>) {
    if schema_id.len() == 0 {
        (s, Err(ContractErrorView::EmptySchemaId))
    } else if proof.len() == 0 {
        (s, Err(ContractErrorView::EmptyProof))
    } else if public_inputs.len() == 0 {
        (s, Err(ContractErrorView::EmptyPublicInputs))
    } else {
        match addr_check(api, subject) {
            Err(e) => (s, Err(ContractErrorView::Std(e))),
            Ok(sub) => match addr_check(api, issuer) {
                Err(e) => (s, Err(ContractErrorView::Std(e))),
                Ok(iss) => {
                    let hash = zk_proof_hash(proof, public_inputs);
                    let id = s.next_id();
                    (
                        s.with_records(
                            seq![new_record(id, schema_id, sub, iss, VerificationType::ZkProof, now, hash)],
                        ),
                        Ok(
                            ResponseView {
                                messages: seq![
                                    (
                                        s.config.credential_registry,
                                        record_proof_message(schema_id, sub, hash, iss, expires_at),
                                    ),
                                ],
                                attributes: seq![
                                    ("action"@, "verify_credential"@),
                                    ("verification_id"@, decimal(id as nat)),
                                    ("schema_id"@, schema_id),
                                    ("subject"@, sub),
                                    ("verification_type"@, "zk_proof"@),
                                    ("verified"@, "true"@),
                                ],
                                data: None,
                            },
                        ),
                    )
                },
            },
        }
    }
}

/// Verifying an email credential: a schema, an email domain, a DKIM
/// signature and the signed headers; valid subject and issuer addresses.
/// The proof is recorded under the next identifier, and the credential
/// registry is asked to record it.
pub open spec fn verify_email_credential_outcome(
    s: CredentialVerifierView,
    now: u64,
    schema_id: Seq<char>,
    subject: Seq<char>,
    issuer: Seq<char>,
    email_domain: Seq<char>,
    dkim_signature: Seq<char>,
    email_headers: Seq<char>,
    expires_at: Option<u64>,
    api: Seq<(Seq<char>, Option<Seq<char>>)>,
) -> (CredentialVerifierView, Result<ResponseView, ContractErrorView>) {
    if schema_id.len() == 0 {
        (s, Err(ContractErrorView::EmptySchemaId))
    } else if email_domain.len() == 0 {
        (s, Err(ContractErrorView::EmptyEmailDomain))
    } else if dkim_signature.len() == 0 {
        (s, Err(ContractErrorView::EmptyDkimSignature))
    } else if email_headers.len() == 0 {
        (s, Err(ContractErrorView::EmptyEmailHeaders))
    } else {
        match addr_check(api, subject) {
            Err(e) => (s, Err(ContractErrorView::Std(e))),
            Ok(sub) => match addr_check(api, issuer) {
                Err(e) => (s, Err(ContractErrorView::Std(e))),
                Ok(iss) => {
                    let hash = dkim_proof_hash(email_domain, dkim_signature);
                    let id = s.next_id();
                    (
                        s.with_records(
                            seq![new_record(id, schema_id, sub, iss, VerificationType::EmailDkim, now, hash)],
                        ),
                        Ok(
                            ResponseView {
                                messages: seq![
                                    (
                                        s.config.credential_registry,
                                        record_proof_message(schema_id, sub, hash, iss, expires_at),
                                    ),
                                ],
                                attributes: seq![
                                    ("action"@, "verify_email_credential"@),
                                    ("verification_id"@, decimal(id as nat)),
                                    ("schema_id"@, schema_id),
                                    ("subject"@, sub),
                                    ("email_domain"@, email_domain),
                                    ("verification_type"@, "email_dkim"@),
                                    ("verified"@, "true"@),
                                ],
                                data: None,
                            },
                        ),
                    )
                },
            },
        }
    }
}

impl CredentialVerifier {
    /// Appends `rec`, which carries the next identifier.
    fn push_record(&mut self, rec: VerificationRecord)
        requires
            rec.id == old(self)@.verifications.len() + 1,
        ensures
            final(self)@ == old(self)@.with_records(seq![rec@]),
    {
        proof {
            use_type_invariant(&*self);
        }
        let mut list: Vec<VerificationRecord> = Vec::new();
        std::mem::swap(&mut list, &mut self.verifications);
        list.push(rec);
        assert(list.deep_view() =~= old(self)@.verifications + seq![rec@]);
        std::mem::swap(&mut list, &mut self.verifications);
    }

    /// Verifies a ZK credential proof and has the credential registry
    /// record it.
    pub fn execute_verify_credential(
        &mut self,
        now: u64,
        schema_id: String,
        subject: String,
        issuer: String,
        proof: String,
        public_inputs: Vec<String>,
        expires_at: Option<u64>,
        api: &Api,
    ) -> (r: Result<Response, ContractError>)
        requires
            old(self)@.verifications.len() < u64::MAX,
        ensures
            (final(self)@, result_view(r)) == verify_credential_outcome(
                old(self)@,
                now,
                schema_id@,
                subject@,
                issuer@,
                proof@,
                public_inputs.deep_view(),
                expires_at,
                api@,
            ),
    {
        if schema_id.as_str().is_empty() {
            return Err(ContractError::EmptySchemaId);
        }
        if proof.as_str().is_empty() {
            return Err(ContractError::EmptyProof);
        }
        if public_inputs.len() == 0 {
            return Err(ContractError::EmptyPublicInputs);
        }
        let subject_addr = validate(api, &subject)?;
        let issuer_addr = validate(api, &issuer)?;
        let result = verify_zk_proof(schema_id.as_str(), proof.as_str(), public_inputs.as_slice())?;
        let id = self.verifications.len() as u64 + 1;
        let record = VerificationRecord {
            id,
            schema_id: schema_id.clone(),
            subject: subject_addr.clone(),
            issuer: issuer_addr.clone(),
            verification_type: VerificationType::ZkProof,
            verified: result.valid,
            verified_at: now,
            proof_hash: result.proof_hash.clone(),
        };
        self.push_record(record);
        let mut resp = Response::new();
        resp.add_message(
            self.config.credential_registry.clone(),
            RegistryExecuteMsg::RecordProof {
                schema_id: schema_id.clone(),
                subject: subject_addr.clone(),
                proof_hash: result.proof_hash,
                issuer: issuer_addr,
                expires_at,
            },
        );
        resp.add_attribute("action", String::from_str("verify_credential"));
        resp.add_attribute("verification_id", decimal_string(id));
        resp.add_attribute("schema_id", schema_id);
        resp.add_attribute("subject", subject_addr);
        resp.add_attribute("verification_type", String::from_str("zk_proof"));
        resp.add_attribute("verified", bool_string(result.valid));
        proof {
            let o = verify_credential_outcome(
                old(self)@,
                now,
                schema_id@,
                subject@,
                issuer@,
                proof@,
                public_inputs.deep_view(),
                expires_at,
                api@,
            );
            assert(resp@.messages =~= o.1->Ok_0.messages);
            assert(resp@.attributes =~= o.1->Ok_0.attributes);
        }
        Ok(resp)
    }

    /// Verifies a DKIM-signed email credential and has the credential
    /// registry record it.
    pub fn execute_verify_email_credential(
        &mut self,
        now: u64,
        schema_id: String,
        subject: String,
        issuer: String,
        email_domain: String,
        dkim_signature: String,
        email_headers: String,
        expires_at: Option<u64>,
        api: &Api,
    ) -> (r: Result<Response, ContractError>)
        requires
            old(self)@.verifications.len() < u64::MAX,
        ensures
            (final(self)@, result_view(r)) == verify_email_credential_outcome(
                old(self)@,
                now,
                schema_id@,
                subject@,
                issuer@,
                email_domain@,
                dkim_signature@,
                email_headers@,
                expires_at,
                api@,
            ),
    {
        if schema_id.as_str().is_empty() {
            return Err(ContractError::EmptySchemaId);
        }
        if email_domain.as_str().is_empty() {
            return Err(ContractError::EmptyEmailDomain);
        }
        if dkim_signature.as_str().is_empty() {
            return Err(ContractError::EmptyDkimSignature);
        }
        if email_headers.as_str().is_empty() {
            return Err(ContractError::EmptyEmailHeaders);
        }
        let subject_addr = validate(api, &subject)?;
        let issuer_addr = validate(api, &issuer)?;
        let result = verify_dkim_email(
            email_domain.as_str(),
            dkim_signature.as_str(),
            email_headers.as_str(),
        )?;
        let id = self.verifications.len() as u64 + 1;
        let record = VerificationRecord {
            id,
            schema_id: schema_id.clone(),
            subject: subject_addr.clone(),
            issuer: issuer_addr.clone(),
            verification_type: VerificationType::EmailDkim,
            verified: result.valid,
            verified_at: now,
            proof_hash: result.proof_hash.clone(),
        };
        self.push_record(record);
        let mut resp = Response::new();
        resp.add_message(
            self.config.credential_registry.clone(),
            RegistryExecuteMsg::RecordProof {
                schema_id: schema_id.clone(),
                subject: subject_addr.clone(),
                proof_hash: result.proof_hash,
                issuer: issuer_addr,
                expires_at,
            },
        );
        resp.add_attribute("action", String::from_str("verify_email_credential"));
        resp.add_attribute("verification_id", decimal_string(id));
        resp.add_attribute("schema_id", schema_id);
        resp.add_attribute("subject", subject_addr);
        resp.add_attribute("email_domain", email_domain);
        resp.add_attribute("verification_type", String::from_str("email_dkim"));
        resp.add_attribute("verified", bool_string(result.valid));
        proof {
            let o = verify_email_credential_outcome(
                old(self)@,
                now,
                schema_id@,
                subject@,
                issuer@,
                email_domain@,
                dkim_signature@,
                email_headers@,
                expires_at,
                api@,
            );
            assert(resp@.messages =~= o.1->Ok_0.messages);
            assert(resp@.attributes =~= o.1->Ok_0.attributes);
        }
        Ok(resp)
    }
}

// ── Execute: batches ──────────────────────────────────────────────────

/// What one batch item yields: its result and, when the item was checked
/// rather than turned away for an empty field, the record it made and the
/// message that has the credential registry record it.
pub struct ItemStep {
    pub result: VerificationResultView,
    pub recorded: Option<(VerificationRecordView, RegistryExecuteMsgView)>,
}

/// What the items of a batch handled so far have yielded.
pub struct BatchProgress {
    pub added: Seq<VerificationRecordView>,
    pub messages: Seq<(Seq<char>, RegistryExecuteMsgView)>,
    pub attributes: Seq<(Seq<char>, Seq<char>)>,
    pub results: Seq<VerificationResultView>,
}

/// The message of a batch item turned away for an empty field.
pub open spec fn invalid_input_message() -> Seq<char> {
    "Invalid input: empty required fields"@
}

/// The result of a batch item turned away for an empty field: it carries
/// the item's schema and subject as given, and no record.
pub open spec fn turned_away(
    schema_id: Seq<char>,
    subject: Seq<char>,
    verification_type: VerificationType,
) -> ItemStep {
    ItemStep {
        result: VerificationResultView {
            verified: false,
            verification_id: 0,
            schema_id,
            subject,
            verification_type,
            message: invalid_input_message(),
        },
        recorded: None,
    }
}

/// The result of a batch item that was checked and recorded as `id`.
pub open spec fn checked(
    id: u64,
    schema_id: Seq<char>,
    subject: Seq<char>,
    issuer: Seq<char>,
    verification_type: VerificationType,
    now: u64,
    hash: Seq<char>,
    expires_at: Option<u64>,
    message: Seq<char>,
) -> ItemStep {
    ItemStep {
        result: VerificationResultView {
            verified: true,
            verification_id: id,
            schema_id,
            subject,
            verification_type,
            message,
        },
        recorded: Some(
            (
                new_record(id, schema_id, subject, issuer, verification_type, now, hash),
                record_proof_message(schema_id, subject, hash, issuer, expires_at),
            ),
        ),
    }
}

/// One batch item, which gets the identifier `id` if it is recorded. An
/// item with an empty required field is turned away without failing the
/// batch; an invalid subject or issuer address fails the whole batch.
pub open spec fn item_step(
    now: u64,
    item: VerificationRequest,
    id: u64,
    api: Seq<(Seq<char>, Option<Seq<char>>)>,
) -> Result<ItemStep, ContractErrorView> {
    match item {
        VerificationRequest::ZkProof {
            schema_id,
            subject,
            issuer,
            proof,
            public_inputs,
            expires_at,
        } => if schema_id@.len() == 0 || proof@.len() == 0 || public_inputs.len() == 0 {
            Ok(turned_away(schema_id@, subject@, VerificationType::ZkProof))
        } else {
            match addr_check(api, subject@) {
                Err(e) => Err(ContractErrorView::Std(e)),
                Ok(sub) => match addr_check(api, issuer@) {
                    Err(e) => Err(ContractErrorView::Std(e)),
                    Ok(iss) => Ok(
                        checked(
                            id,
                            schema_id@,
                            sub,
                            iss,
                            VerificationType::ZkProof,
                            now,
                            zk_proof_hash(proof@, public_inputs.deep_view()),
                            expires_at,
                            "ZK proof verified successfully"@,
                        ),
                    ),
                },
            }
        },
        VerificationRequest::EmailProof {
            schema_id,
            subject,
            issuer,
            email_domain,
            dkim_signature,
            email_headers,
            expires_at,
        } => if schema_id@.len() == 0 || email_domain@.len() == 0 || dkim_signature@.len() == 0
            || email_headers@.len() == 0 {
            Ok(turned_away(schema_id@, subject@, VerificationType::EmailDkim))
        } else {
            match addr_check(api, subject@) {
                Err(e) => Err(ContractErrorView::Std(e)),
                Ok(sub) => match addr_check(api, issuer@) {
                    Err(e) => Err(ContractErrorView::Std(e)),
                    Ok(iss) => Ok(
                        checked(
                            id,
                            schema_id@,
                            sub,
                            iss,
                            VerificationType::EmailDkim,
                            now,
                            dkim_proof_hash(email_domain@, dkim_signature@),
                            expires_at,
                            "DKIM email verified successfully"@,
                        ),
                    ),
                },
            }
        },
    }
}

/// The event attribute key of batch item `idx`.
pub open spec fn batch_item_key(idx: nat) -> Seq<char> {
    "batch_item_"@ + decimal(idx)
}

/// The progress after item `idx` yielded `st`: a recorded item adds its
/// record, its message to `registry` and an attribute telling whether it
/// was verified.
pub open spec fn extend_progress(p: BatchProgress, registry: Seq<char>, idx: nat, st: ItemStep) -> BatchProgress {
    match st.recorded {
        None => BatchProgress {
            added: p.added,
            messages: p.messages,
            attributes: p.attributes,
            results: p.results.push(st.result),
        },
        Some((rec, msg)) => BatchProgress {
            added: p.added.push(rec),
            messages: p.messages.push((registry, msg)),
            attributes: p.attributes.push(
                (batch_item_key(idx), if st.result.verified {
                    "verified"@
                } else {
                    "failed"@
                }),
            ),
            results: p.results.push(st.result),
        },
    }
}

/// What the items `items` yield in turn, the records numbered on from
/// those of `s`; the first failing item fails them all.
pub open spec fn batch_progress(
    s: CredentialVerifierView,
    now: u64,
    items: Seq<VerificationRequest>,
    api: Seq<(Seq<char>, Option<Seq<char>>)>,
) -> Result<BatchProgress, ContractErrorView>
    decreases items.len(),
{
    if items.len() == 0 {
        Ok(BatchProgress { added: seq![], messages: seq![], attributes: seq![], results: seq![] })
    } else {
        match batch_progress(s, now, items.drop_last(), api) {
            Err(e) => Err(e),
            Ok(p) => match item_step(
                now,
                items.last(),
                (s.verifications.len() + p.added.len() + 1) as u64,
                api,
            ) {
                Err(e) => Err(e),
                Ok(st) => Ok(
                    extend_progress(p, s.config.credential_registry, (items.len() - 1) as nat, st),
                ),
            },
        }
    }
}

/// Verifying a batch: between one and `MAX_BATCH_SIZE` items, handled in
/// order. The response lists every item's result as its data.
pub open spec fn batch_verify_outcome(
    s: CredentialVerifierView,
    now: u64,
    items: Seq<VerificationRequest>,
    api: Seq<(Seq<char>, Option<Seq<char>>)>,
) -> (CredentialVerifierView, Result<ResponseView, ContractErrorView>) {
    if items.len() == 0 {
        (s, Err(ContractErrorView::EmptyBatch))
    } else if items.len() > MAX_BATCH_SIZE {
        (s, Err(ContractErrorView::BatchTooLarge { max: MAX_BATCH_SIZE }))
    } else {
        match batch_progress(s, now, items, api) {
            Err(e) => (s, Err(e)),
            Ok(p) => (
                s.with_records(p.added),
                Ok(
                    ResponseView {
                        messages: p.messages,
                        attributes: seq![("action"@, "batch_verify"@)] + p.attributes,
                        data: Some(p.results),
                    },
                ),
            ),
        }
    }
}

/// Once a prefix of a batch fails, the whole batch fails the same way.
pub proof fn lemma_batch_failure_persists(
    s: CredentialVerifierView,
    now: u64,
    items: Seq<VerificationRequest>,
    api: Seq<(Seq<char>, Option<Seq<char>>)>,
    j: int,
)
    requires
        0 <= j <= items.len(),
        batch_progress(s, now, items.take(j), api) is Err,
    ensures
        batch_progress(s, now, items, api) == batch_progress(s, now, items.take(j), api),
    decreases items.len() - j,
{
    if j == items.len() {
        assert(items.take(j) =~= items);
    } else {
        assert(items.take(j + 1).drop_last() =~= items.take(j));
        lemma_batch_failure_persists(s, now, items, api, j + 1);
    }
}

/// What checking one batch item yields.
struct ItemOutcome {
    result: VerificationResult,
    recorded: Option<(VerificationRecord, RegistryExecuteMsg)>,
}

spec fn item_outcome_view(o: ItemOutcome) -> ItemStep {
    ItemStep {
        result: o.result@,
        recorded: match o.recorded {
            None => None,
            Some((r, m)) => Some((r@, m@)),
        },
    }
}

/// Checks one batch item, recording it as `id` if it is checked.
fn check_item(now: u64, item: &VerificationRequest, id: u64, api: &Api) -> (r: Result<
    ItemOutcome,
    ContractError,
>)
    ensures
        match item_step(now, *item, id, api@) {
            Ok(st) => r is Ok && item_outcome_view(r->Ok_0) == st,
            Err(e) => r is Err && r->Err_0@ == e,
        },
{
    match item {
        VerificationRequest::ZkProof {
            schema_id,
            subject,
            issuer,
            proof,
            public_inputs,
            expires_at,
        } => {
            if schema_id.as_str().is_empty() || proof.as_str().is_empty() || public_inputs.len()
                == 0 {
                return Ok(
                    ItemOutcome {
                        result: VerificationResult {
                            verified: false,
                            verification_id: 0,
                            schema_id: schema_id.clone(),
                            subject: subject.clone(),
                            verification_type: VerificationType::ZkProof,
                            message: String::from_str("Invalid input: empty required fields"),
                        },
                        recorded: None,
                    },
                );
            }
            let subject_addr = validate(api, subject)?;
            let issuer_addr = validate(api, issuer)?;
            let vr = verify_zk_proof(schema_id.as_str(), proof.as_str(), public_inputs.as_slice())?;
            let record = VerificationRecord {
                id,
                schema_id: schema_id.clone(),
                subject: subject_addr.clone(),
                issuer: issuer_addr.clone(),
                verification_type: VerificationType::ZkProof,
                verified: vr.valid,
                verified_at: now,
                proof_hash: vr.proof_hash.clone(),
            };
            let msg = RegistryExecuteMsg::RecordProof {
                schema_id: schema_id.clone(),
                subject: subject_addr.clone(),
                proof_hash: vr.proof_hash,
                issuer: issuer_addr,
                expires_at: *expires_at,
            };
            Ok(
                ItemOutcome {
                    result: VerificationResult {
                        verified: true,
                        verification_id: id,
                        schema_id: schema_id.clone(),
                        subject: subject_addr,
                        verification_type: VerificationType::ZkProof,
                        message: String::from_str("ZK proof verified successfully"),
                    },
                    recorded: Some((record, msg)),
                },
            )
        },
        VerificationRequest::EmailProof {
            schema_id,
            subject,
            issuer,
            email_domain,
            dkim_signature,
            email_headers,
            expires_at,
        } => {
            if schema_id.as_str().is_empty() || email_domain.as_str().is_empty()
                || dkim_signature.as_str().is_empty() || email_headers.as_str().is_empty() {
                return Ok(
                    ItemOutcome {
                        result: VerificationResult {
                            verified: false,
                            verification_id: 0,
                            schema_id: schema_id.clone(),
                            subject: subject.clone(),
                            verification_type: VerificationType::EmailDkim,
                            message: String::from_str("Invalid input: empty required fields"),
                        },
                        recorded: None,
                    },
                );
            }
            let subject_addr = validate(api, subject)?;
            let issuer_addr = validate(api, issuer)?;
            let vr = verify_dkim_email(
                email_domain.as_str(),
                dkim_signature.as_str(),
                email_headers.as_str(),
            )?;
            let record = VerificationRecord {
                id,
                schema_id: schema_id.clone(),
                subject: subject_addr.clone(),
                issuer: issuer_addr.clone(),
                verification_type: VerificationType::EmailDkim,
                verified: vr.valid,
                verified_at: now,
                proof_hash: vr.proof_hash.clone(),
            };
            let msg = RegistryExecuteMsg::RecordProof {
                schema_id: schema_id.clone(),
                subject: subject_addr.clone(),
                proof_hash: vr.proof_hash,
                issuer: issuer_addr,
                expires_at: *expires_at,
            };
            Ok(
                ItemOutcome {
                    result: VerificationResult {
                        verified: true,
                        verification_id: id,
                        schema_id: schema_id.clone(),
                        subject: subject_addr,
                        verification_type: VerificationType::EmailDkim,
                        message: String::from_str("DKIM email verified successfully"),
                    },
                    recorded: Some((record, msg)),
                },
            )
        },
    }
}

impl CredentialVerifier {
    /// Verifies up to `MAX_BATCH_SIZE` credentials in one message and has
    /// the credential registry record each accepted one.
    pub fn execute_batch_verify(
        &mut self,
        now: u64,
        verifications: Vec<VerificationRequest>,
        api: &Api,
    ) -> (r: Result<Response, ContractError>)
        requires
            verifications.len() <= MAX_BATCH_SIZE ==> old(self)@.verifications.len()
                + verifications.len() <= u64::MAX,
        ensures
            (final(self)@, result_view(r)) == batch_verify_outcome(
                old(self)@,
                now,
                verifications@,
                api@,
            ),
    {
        proof {
            use_type_invariant(&*self);
        }
        if verifications.len() == 0 {
            return Err(ContractError::EmptyBatch);
        }
        if verifications.len() > MAX_BATCH_SIZE {
            return Err(ContractError::BatchTooLarge { max: MAX_BATCH_SIZE });
        }
        let ghost s = self@;
        let ghost items = verifications@;
        let base: u64 = self.verifications.len() as u64;
        let mut added: Vec<VerificationRecord> = Vec::new();
        let mut results: Vec<VerificationResult> = Vec::new();
        let mut resp = Response::new();
        resp.add_attribute("action", String::from_str("batch_verify"));
        let mut i: usize = 0;
        assert(items.take(0) =~= seq![]);
        assert(added.deep_view() =~= seq![]);
        assert(results.deep_view() =~= seq![]);
        assert(resp@.attributes =~= seq![("action"@, "batch_verify"@)] + seq![]);
        while i < verifications.len()
            invariant
                self@ == s,
                items == verifications@,
                items.len() <= MAX_BATCH_SIZE,
                i <= items.len(),
                base == s.verifications.len(),
                s.verifications.len() + items.len() <= u64::MAX,
                batch_progress(s, now, items.take(i as int), api@) is Ok,
                added.deep_view() == batch_progress(s, now, items.take(i as int), api@)->Ok_0.added,
                added.len() <= i,
                forall|k: int| 0 <= k < added.len() ==> #[trigger] added@[k].id == base + k + 1,
                resp@.messages == batch_progress(s, now, items.take(i as int), api@)->Ok_0.messages,
                resp@.attributes == seq![("action"@, "batch_verify"@)] + batch_progress(
                    s,
                    now,
                    items.take(i as int),
                    api@,
                )->Ok_0.attributes,
                resp@.data is None,
                results.deep_view() == batch_progress(s, now, items.take(i as int), api@)->Ok_0.results,
            decreases verifications.len() - i,
        {
            let ghost p = batch_progress(s, now, items.take(i as int), api@)->Ok_0;
            proof {
                assert(items.take(i + 1).drop_last() =~= items.take(i as int));
                assert(items.take(i + 1).last() == items[i as int]);
            }
            let id = base + added.len() as u64 + 1;
            let step = match check_item(now, &verifications[i], id, api) {
                Ok(st) => st,
                Err(e) => {
                    proof {
                        lemma_batch_failure_persists(s, now, items, api@, i + 1);
                    }
                    return Err(e);
                },
            };
            let ghost st = item_outcome_view(step);
            let ghost q = extend_progress(p, s.config.credential_registry, i as nat, st);
            assert(batch_progress(s, now, items.take(i + 1), api@) == Ok::<
                BatchProgress,
                ContractErrorView,
            >(q));
            match step.recorded {
                None => {
                    results.push(step.result);
                    assert(results.deep_view() =~= q.results);
                },
                Some((rec, msg)) => {
                    added.push(rec);
                    resp.add_message(self.config.credential_registry.clone(), msg);
                    results.push(step.result);
                    let ok = results[results.len() - 1].verified;
                    let key = String::from_str("batch_item_").concat(
                        decimal_string(i as u64).as_str(),
                    );
                    let value = if ok {
                        String::from_str("verified")
                    } else {
                        String::from_str("failed")
                    };
                    resp.add_attribute(key.as_str(), value);
                    assert(added.deep_view() =~= q.added);
                    assert(results.deep_view() =~= q.results);
                    assert(resp@.attributes =~= seq![("action"@, "batch_verify"@)] + q.attributes);
                },
            }
            i = i + 1;
        }
        let ghost p = batch_progress(s, now, items, api@)->Ok_0;
        assert(items.take(i as int) =~= items);
        let mut list: Vec<VerificationRecord> = Vec::new();
        std::mem::swap(&mut list, &mut self.verifications);
        list.append(&mut added);
        assert(list.deep_view() =~= s.verifications + p.added);
        std::mem::swap(&mut list, &mut self.verifications);
        resp.data = Some(BatchVerifyResponse { results });
        Ok(resp)
    }
}

// ── Execute: configuration ────────────────────────────────────────────

/// Changing the admin: the admin only; a valid new address.
pub open spec fn update_admin_outcome(
    s: CredentialVerifierView,
    sender: Seq<char>,
    new_admin: Seq<char>,
    api: Seq<(Seq<char>, Option<Seq<char>>)>,
) -> (CredentialVerifierView, Result<ResponseView, ContractErrorView>) {
    if sender != s.config.admin {
        (s, Err(ContractErrorView::Unauthorized))
    } else {
        match addr_check(api, new_admin) {
            Err(e) => (s, Err(ContractErrorView::Std(e))),
            Ok(a) => (
                s.with_config(
                    ConfigView {
                        admin: a,
                        credential_registry: s.config.credential_registry,
                        issuer_registry: s.config.issuer_registry,
                    },
                ),
                Ok(attributes_response(seq![("action"@, "update_admin"@), ("new_admin"@, a)])),
            ),
        }
    }
}

/// Changing the credential registry: the admin only; a valid address.
pub open spec fn update_registry_outcome(
    s: CredentialVerifierView,
    sender: Seq<char>,
    credential_registry: Seq<char>,
    api: Seq<(Seq<char>, Option<Seq<char>>)>,
) -> (CredentialVerifierView, Result<ResponseView, ContractErrorView>) {
    if sender != s.config.admin {
        (s, Err(ContractErrorView::Unauthorized))
    } else {
        match addr_check(api, credential_registry) {
            Err(e) => (s, Err(ContractErrorView::Std(e))),
            Ok(c) => (
                s.with_config(
                    ConfigView {
                        admin: s.config.admin,
                        credential_registry: c,
                        issuer_registry: s.config.issuer_registry,
                    },
                ),
                Ok(
                    attributes_response(
                        seq![("action"@, "update_registry"@), ("credential_registry"@, c)],
                    ),
                ),
            ),
        }
    }
}

/// Whether the verification counter has room for what `msg` may record.
pub open spec fn counter_has_room(s: CredentialVerifierView, msg: ExecuteMsg) -> bool {
    match msg {
        ExecuteMsg::VerifyCredential { .. } => s.verifications.len() < u64::MAX,
        ExecuteMsg::VerifyEmailCredential { .. } => s.verifications.len() < u64::MAX,
        ExecuteMsg::BatchVerify { verifications } => verifications.len() <= MAX_BATCH_SIZE
            ==> s.verifications.len() + verifications.len() <= u64::MAX,
        _ => true,
    }
}

/// The outcome of any execute message.
pub open spec fn execute_outcome(
    s: CredentialVerifierView,
    now: u64,
    sender: Seq<char>,
    msg: ExecuteMsg,
    api: Seq<(Seq<char>, Option<Seq<char>>)>,
) -> (CredentialVerifierView, Result<ResponseView, ContractErrorView>) {
    match msg {
        ExecuteMsg::VerifyCredential {
            schema_id,
            subject,
            issuer,
            proof,
            public_inputs,
            expires_at,
        } => verify_credential_outcome(
            s,
            now,
            schema_id@,
            subject@,
            issuer@,
            proof@,
            public_inputs.deep_view(),
            expires_at,
            api,
        ),
        ExecuteMsg::VerifyEmailCredential {
            schema_id,
            subject,
            issuer,
            email_domain,
            dkim_signature,
            email_headers,
            expires_at,
        } => verify_email_credential_outcome(
            s,
            now,
            schema_id@,
            subject@,
            issuer@,
            email_domain@,
            dkim_signature@,
            email_headers@,
            expires_at,
            api,
        ),
        ExecuteMsg::BatchVerify { verifications } => batch_verify_outcome(
            s,
            now,
            verifications@,
            api,
        ),
        ExecuteMsg::UpdateAdmin { new_admin } => update_admin_outcome(s, sender, new_admin@, api),
        ExecuteMsg::UpdateRegistry { credential_registry } => update_registry_outcome(
            s,
            sender,
            credential_registry@,
            api,
        ),
    }
}

impl CredentialVerifier {
    /// Hands the admin role to another address (admin only).
    pub fn execute_update_admin(&mut self, sender: &String, new_admin: String, api: &Api) -> (r:
        Result<Response, ContractError>)
        ensures
            (final(self)@, result_view(r)) == update_admin_outcome(
                old(self)@,
                sender@,
                new_admin@,
                api@,
            ),
    {
        proof {
            use_type_invariant(&*self);
        }
        if !(*sender == self.config.admin) {
            return Err(ContractError::Unauthorized);
        }
        let new_admin_addr = validate(api, &new_admin)?;
        let mut resp = Response::new();
        resp.add_attribute("action", String::from_str("update_admin"));
        resp.add_attribute("new_admin", new_admin_addr.clone());
        self.config.admin = new_admin_addr;
        assert(resp@.attributes =~= seq![
            ("action"@, "update_admin"@),
            ("new_admin"@, self@.config.admin),
        ]);
        Ok(resp)
    }

    /// Points the verifier at another credential registry (admin only).
    pub fn execute_update_registry(
        &mut self,
        sender: &String,
        credential_registry: String,
        api: &Api,
    ) -> (r: Result<Response, ContractError>)
        ensures
            (final(self)@, result_view(r)) == update_registry_outcome(
                old(self)@,
                sender@,
                credential_registry@,
                api@,
            ),
    {
        proof {
            use_type_invariant(&*self);
        }
        if !(*sender == self.config.admin) {
            return Err(ContractError::Unauthorized);
        }
        let new_registry = validate(api, &credential_registry)?;
        let mut resp = Response::new();
        resp.add_attribute("action", String::from_str("update_registry"));
        resp.add_attribute("credential_registry", new_registry.clone());
        self.config.credential_registry = new_registry;
        assert(resp@.attributes =~= seq![
            ("action"@, "update_registry"@),
            ("credential_registry"@, self@.config.credential_registry),
        ]);
        Ok(resp)
    }
}

/// Executes `msg` sent by `sender` at block time `now`.
pub fn execute(
    state: &mut CredentialVerifier,
    now: u64,
    sender: &String,
    msg: ExecuteMsg,
    api: &Api,
) -> (r: Result<Response, ContractError>)
    requires
        counter_has_room(old(state)@, msg),
    ensures
        (final(state)@, result_view(r)) == execute_outcome(old(state)@, now, sender@, msg, api@),
{
    match msg {
        ExecuteMsg::VerifyCredential {
            schema_id,
            subject,
            issuer,
            proof,
            public_inputs,
            expires_at,
        } => state.execute_verify_credential(
            now,
            schema_id,
            subject,
            issuer,
            proof,
            public_inputs,
            expires_at,
            api,
        ),
        ExecuteMsg::VerifyEmailCredential {
            schema_id,
            subject,
            issuer,
            email_domain,
            dkim_signature,
            email_headers,
            expires_at,
        } => state.execute_verify_email_credential(
            now,
            schema_id,
            subject,
            issuer,
            email_domain,
            dkim_signature,
            email_headers,
            expires_at,
            api,
        ),
        ExecuteMsg::BatchVerify { verifications } => state.execute_batch_verify(
            now,
            verifications,
            api,
        ),
        ExecuteMsg::UpdateAdmin { new_admin } => state.execute_update_admin(sender, new_admin, api),
        ExecuteMsg::UpdateRegistry { credential_registry } => state.execute_update_registry(
            sender,
            credential_registry,
            api,
        ),
    }
}

// ── Query ─────────────────────────────────────────────────────────────

/// The answer to any query.
#[derive(Debug, Clone, PartialEq, Eq)]
pub enum QueryResponse {
    VerificationResult(VerificationResultResponse),
    VerificationResults(VerificationResultsResponse),
    Config(ConfigResponse),
}

pub enum QueryResponseView {
    VerificationResult(VerificationRecordView),
    VerificationResults(Seq<VerificationRecordView>),
    Config(ConfigView),
}

impl View for QueryResponse {
    type V = QueryResponseView;

    open spec fn view(&self) -> QueryResponseView {
        match self {
            QueryResponse::VerificationResult(r) => QueryResponseView::VerificationResult(r@),
            QueryResponse::VerificationResults(r) => QueryResponseView::VerificationResults(r@),
            QueryResponse::Config(r) => QueryResponseView::Config(r@),
        }
    }
}

/// What the framework names a verification record that a lookup did not
/// find.
pub open spec fn verification_record_kind() -> Seq<char> {
    "proofkit_types::verifier::VerificationRecord"@
}

pub open spec fn verification_result_outcome(s: CredentialVerifierView, id: u64) -> Result<
    VerificationRecordView,
    StdErrorView,
> {
    if s.has_record(id) {
        Ok(s.record(id))
    } else {
        Err(StdErrorView::NotFound { kind: verification_record_kind() })
    }
}

/// Which records a subject listing holds: the subject's, after
/// `start_after`.
pub open spec fn subject_listed(subject: Seq<char>, start_after: Option<u64>) -> spec_fn(
    VerificationRecordView,
) -> bool {
    |r: VerificationRecordView|
        r.subject == subject && (match start_after {
            None => true,
            Some(b) => b < r.id,
        })
}

pub open spec fn verifications_by_subject_outcome(
    s: CredentialVerifierView,
    subject: Seq<char>,
    start_after: Option<u64>,
    limit: Option<u32>,
    api: Seq<(Seq<char>, Option<Seq<char>>)>,
) -> Result<Seq<VerificationRecordView>, StdErrorView> {
    match addr_check(api, subject) {
        Err(e) => Err(e),
        Ok(a) => Ok(
            page(s.verifications.filter(subject_listed(a, start_after)), effective_limit(limit)),
        ),
    }
}

/// The answer to any query.
pub open spec fn query_outcome(
    s: CredentialVerifierView,
    msg: QueryMsg,
    api: Seq<(Seq<char>, Option<Seq<char>>)>,
) -> Result<QueryResponseView, StdErrorView> {
    match msg {
        QueryMsg::VerificationResult { verification_id } => match verification_result_outcome(
            s,
            verification_id,
        ) {
            Ok(v) => Ok(QueryResponseView::VerificationResult(v)),
            Err(e) => Err(e),
        },
        QueryMsg::VerificationsBySubject { subject, start_after, limit } =>
            match verifications_by_subject_outcome(s, subject@, start_after, limit, api) {
            Ok(v) => Ok(QueryResponseView::VerificationResults(v)),
            Err(e) => Err(e),
        },
        QueryMsg::Config {  } => Ok(QueryResponseView::Config(s.config)),
    }
}

impl CredentialVerifier {
    /// The verification record `verification_id`.
    pub fn query_verification_result(&self, verification_id: u64) -> (r: Result<
        VerificationResultResponse,
        StdError,
    >)
        ensures
            std_result_matches(r, verification_result_outcome(self@, verification_id)),
    {
        if verification_id == 0 || verification_id > self.verifications.len() as u64 {
            return Err(
                StdError::NotFound {
                    kind: String::from_str(
                        "proofkit_types::verifier::VerificationRecord",
                    ),
                },
            );
        }
        Ok(
            VerificationResultResponse {
                result: self.verifications[(verification_id - 1) as usize].duplicate(),
            },
        )
    }

    /// A page of the verifications of `subject`, oldest first.
    pub fn query_verifications_by_subject(
        &self,
        subject: String,
        start_after: Option<u64>,
        limit: Option<u32>,
        api: &Api,
    ) -> (r: Result<VerificationResultsResponse, StdError>)
        ensures
            std_result_matches(
                r,
                verifications_by_subject_outcome(self@, subject@, start_after, limit, api@),
            ),
    {
        let subject_addr = match api.addr_validate(&subject) {
            Ok(a) => a,
            Err(e) => {
                return Err(e);
            },
        };
        let limit = clamp_limit(limit);
        let ghost s = self@.verifications;
        let ghost pred = subject_listed(subject_addr@, start_after);
        let mut out: Vec<VerificationRecord> = Vec::new();
        let mut i: usize = 0;
        assert(s.take(0).filter(pred) =~= seq![]) by {
            reveal(Seq::filter);
        }
        assert(out.deep_view() =~= seq![]);
        while i < self.verifications.len() && out.len() < limit
            invariant
                s == self@.verifications,
                pred == subject_listed(subject_addr@, start_after),
                i <= s.len(),
                out.deep_view() == s.take(i as int).filter(pred),
                out.len() <= limit,
            decreases self.verifications.len() - i,
        {
            let rec = &self.verifications[i];
            let after = match start_after {
                None => true,
                Some(b) => b < rec.id,
            };
            proof {
                lemma_filter_take_step(s, pred, i as int);
                assert(s[i as int] == rec@);
            }
            if rec.subject == subject_addr && after {
                let ghost before = out.deep_view();
                out.push(rec.duplicate());
                assert(out.deep_view() =~= before.push(rec@));
            }
            i = i + 1;
        }
        proof {
            if out.len() == limit {
                lemma_page_full(s, pred, i as int, limit as nat);
            } else {
                assert(s.take(i as int) =~= s);
                lemma_page_all(s, pred, limit as nat);
            }
        }
        Ok(VerificationResultsResponse { results: out })
    }

    /// The configuration.
    pub fn query_config(&self) -> (r: ConfigResponse)
        ensures
            r@ == self@.config,
    {
        ConfigResponse { config: self.config.duplicate() }
    }
}

/// Answers `msg`.
pub fn query(state: &CredentialVerifier, msg: QueryMsg, api: &Api) -> (r: Result<
    QueryResponse,
    StdError,
>)
    ensures
        std_result_matches(r, query_outcome(state@, msg, api@)),
{
    match msg {
        QueryMsg::VerificationResult { verification_id } => {
            let v = state.query_verification_result(verification_id)?;
            Ok(QueryResponse::VerificationResult(v))
        },
        QueryMsg::VerificationsBySubject { subject, start_after, limit } => {
            let v = state.query_verifications_by_subject(subject, start_after, limit, api)?;
            Ok(QueryResponse::VerificationResults(v))
        },
        QueryMsg::Config {  } => Ok(QueryResponse::Config(state.query_config())),
    }
}

} // verus!
