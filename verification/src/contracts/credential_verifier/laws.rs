//! What holds of the credential verifier across its messages and queries.

use vstd::prelude::*;

use super::contract::{
    batch_progress, batch_verify_outcome, extend_progress, item_step, BatchProgress, execute_outcome, invalid_input_message,
    query_outcome, subject_listed, update_admin_outcome, verifications_by_subject_outcome, update_registry_outcome, verification_result_outcome,
    verify_credential_outcome, verify_email_credential_outcome, CredentialVerifierView, QueryResponseView, MAX_BATCH_SIZE,
};
use super::error::ContractErrorView;
use super::verification::{dkim_proof_hash, zk_proof_hash};
use crate::common::api::StdErrorView;
use crate::common::paging::{effective_limit, lemma_listing_resumes, ordered_by, page, passing_after};
use crate::common::response::ResponseView;
use crate::types::credential_registry::ExecuteMsgView as RegistryExecuteMsgView;
use crate::types::credential_verifier::{
    ConfigView, ExecuteMsg, QueryMsg, VerificationRecordView, VerificationRequest, VerificationType,
};

verus! {

/// `m` is a message to `registry` that has it record the proof of `rec`.
pub open spec fn records_proof_of(
    m: (Seq<char>, RegistryExecuteMsgView),
    registry: Seq<char>,
    rec: VerificationRecordView,
) -> bool {
    &&& m.0 == registry
    &&& m.1 matches RegistryExecuteMsgView::RecordProof { schema_id, subject, proof_hash, issuer, .. }
        && schema_id == rec.schema_id && subject == rec.subject && proof_hash == rec.proof_hash
        && issuer == rec.issuer
}

/// The schema a batch item names.
pub open spec fn item_schema_id(item: VerificationRequest) -> Seq<char> {
    match item {
        VerificationRequest::ZkProof { schema_id, .. } => schema_id@,
        VerificationRequest::EmailProof { schema_id, .. } => schema_id@,
    }
}

/// The subject a batch item names.
pub open spec fn item_subject(item: VerificationRequest) -> Seq<char> {
    match item {
        VerificationRequest::ZkProof { subject, .. } => subject@,
        VerificationRequest::EmailProof { subject, .. } => subject@,
    }
}

/// The issuer a batch item names.
pub open spec fn item_issuer(item: VerificationRequest) -> Seq<char> {
    match item {
        VerificationRequest::ZkProof { issuer, .. } => issuer@,
        VerificationRequest::EmailProof { issuer, .. } => issuer@,
    }
}

/// The kind of proof a batch item carries.
pub open spec fn item_type(item: VerificationRequest) -> VerificationType {
    match item {
        VerificationRequest::ZkProof { .. } => VerificationType::ZkProof,
        VerificationRequest::EmailProof { .. } => VerificationType::EmailDkim,
    }
}

/// The shape of what a batch yields: one result per item; one record, one
/// message to the credential registry and one attribute per recorded item,
/// the records numbered on from the existing ones; a verified result points
/// at the record made for it, a turned-away one at none. Each result is
/// for its item's schema, subject and kind of proof; each record is for
/// its item's issuer too, stamped with the block time `now`.
pub open spec fn batch_shape(
    s: CredentialVerifierView,
    now: u64,
    items: Seq<VerificationRequest>,
    added: Seq<VerificationRecordView>,
    messages: Seq<(Seq<char>, RegistryExecuteMsgView)>,
    attributes: Seq<(Seq<char>, Seq<char>)>,
    results: Seq<crate::types::credential_verifier::VerificationResultView>,
) -> bool {
    &&& results.len() == items.len()
    &&& added.len() <= items.len()
    &&& messages.len() == added.len()
    &&& attributes.len() == added.len()
    &&& forall|k: int| 0 <= k < added.len() ==> #[trigger] added[k].id == s.verifications.len() + k + 1
    &&& forall|k: int|
        0 <= k < added.len() ==> records_proof_of(
            #[trigger] messages[k],
            s.config.credential_registry,
            added[k],
        )
    &&& forall|k: int| 0 <= k < added.len() ==> (#[trigger] added[k]).verified
    &&& forall|k: int| 0 <= k < added.len() ==> (#[trigger] added[k]).verified_at == now
    &&& forall|k: int| 0 <= k < attributes.len() ==> (#[trigger] attributes[k]).1 == "verified"@
    &&& forall|j: int|
        0 <= j < results.len() ==> ((#[trigger] results[j]).verified ==> {
            let k = results[j].verification_id - s.verifications.len() - 1;
            &&& 0 <= k < added.len()
            &&& added[k].id == results[j].verification_id
            &&& added[k].schema_id == results[j].schema_id
            &&& added[k].subject == results[j].subject
            &&& added[k].issuer == item_issuer(items[j])
            &&& added[k].verification_type == item_type(items[j])
        }) && (!results[j].verified ==> results[j].verification_id == 0 && results[j].message
            == invalid_input_message()) && results[j].schema_id == item_schema_id(items[j])
            && results[j].subject == item_subject(items[j]) && results[j].verification_type
            == item_type(items[j])
}

/// What one item yields: a checked item gets a verified result and a
/// record under `id`, with a message recording the same proof; a
/// turned-away item gets neither.
pub proof fn lemma_item_step_shape(
    now: u64,
    item: VerificationRequest,
    id: u64,
    api: Seq<(Seq<char>, Option<Seq<char>>)>,
    registry: Seq<char>,
)
    requires
        item_step(now, item, id, api) is Ok,
    ensures
        ({
            let st = item_step(now, item, id, api)->Ok_0;
            match st.recorded {
                Some((rec, msg)) => {
                    &&& rec.id == id
                    &&& rec.verified
                    &&& rec.verified_at == now
                    &&& rec.issuer == item_issuer(item)
                    &&& rec.verification_type == item_type(item)
                    &&& records_proof_of((registry, msg), registry, rec)
                    &&& st.result.verified
                    &&& st.result.verification_id == id
                    &&& st.result.schema_id == rec.schema_id
                    &&& st.result.subject == rec.subject
                    &&& st.result.schema_id == item_schema_id(item)
                    &&& st.result.subject == item_subject(item)
                    &&& st.result.verification_type == item_type(item)
                },
                None => {
                    &&& !st.result.verified
                    &&& st.result.verification_id == 0
                    &&& st.result.message == invalid_input_message()
                    &&& st.result.schema_id == item_schema_id(item)
                    &&& st.result.subject == item_subject(item)
                    &&& st.result.verification_type == item_type(item)
                },
            }
        }),
{
}

/// What a batch yields has the shape `batch_shape` describes.
pub proof fn lemma_batch_shape(
    s: CredentialVerifierView,
    now: u64,
    items: Seq<VerificationRequest>,
    api: Seq<(Seq<char>, Option<Seq<char>>)>,
)
    requires
        s.verifications.len() + items.len() <= u64::MAX,
        batch_progress(s, now, items, api) is Ok,
    ensures
        ({
            let p = batch_progress(s, now, items, api)->Ok_0;
            batch_shape(s, now, items, p.added, p.messages, p.attributes, p.results)
        }),
    decreases items.len(),
{
    if items.len() > 0 {
        let rest = items.drop_last();
        lemma_batch_shape(s, now, rest, api);
        let p = batch_progress(s, now, rest, api)->Ok_0;
        let id = (s.verifications.len() + p.added.len() + 1) as u64;
        assert(id == s.verifications.len() + p.added.len() + 1);
        let registry = s.config.credential_registry;
        lemma_item_step_shape(now, items.last(), id, api, registry);
        let st = item_step(now, items.last(), id, api)->Ok_0;
        let q = extend_progress(p, registry, (items.len() - 1) as nat, st);
        assert(batch_progress(s, now, items, api)->Ok_0 == q);
        assert forall|j: int| 0 <= j < p.results.len() implies #[trigger] q.results[j]
            == p.results[j] && items[j] == rest[j] by {}
        assert forall|k: int| 0 <= k < p.added.len() implies #[trigger] q.added[k] == p.added[k]
            && q.messages[k] == p.messages[k] && q.attributes[k] == p.attributes[k] by {}
        assert(batch_shape(s, now, items, q.added, q.messages, q.attributes, q.results));
    }
}

/// A batch that goes through yields one result per item, in order; each
/// recorded item gets the next identifier, one record and exactly one
/// message that has the credential registry record the same proof; an
/// item turned away for an empty field gets no record and no message.
pub proof fn law_batch_accounting(
    s: CredentialVerifierView,
    now: u64,
    items: Seq<VerificationRequest>,
    api: Seq<(Seq<char>, Option<Seq<char>>)>,
)
    requires
        s.verifications.len() + items.len() <= u64::MAX,
        batch_verify_outcome(s, now, items, api).1 is Ok,
    ensures
        ({
            let (t, r) = batch_verify_outcome(s, now, items, api);
            let resp = r->Ok_0;
            let added = t.verifications.subrange(
                s.verifications.len() as int,
                t.verifications.len() as int,
            );
            &&& t.config == s.config
            &&& t.verifications.subrange(0, s.verifications.len() as int) == s.verifications
            &&& resp.data is Some
            &&& resp.attributes.len() == added.len() + 1
            &&& resp.attributes[0] == ("action"@, "batch_verify"@)
            &&& batch_shape(
                s,
                now,
                items,
                added,
                resp.messages,
                resp.attributes.drop_first(),
                resp.data->Some_0,
            )
        }),
{
    lemma_batch_shape(s, now, items, api);
    let p = batch_progress(s, now, items, api)->Ok_0;
    let t = s.with_records(p.added);
    assert(t.verifications.subrange(s.verifications.len() as int, t.verifications.len() as int)
        =~= p.added);
    assert(t.verifications.subrange(0, s.verifications.len() as int) =~= s.verifications);
    assert((seq![("action"@, "batch_verify"@)] + p.attributes).drop_first() =~= p.attributes);
}

/// A rejected message leaves the verifier as it was; in particular a batch
/// with one invalid address records none of its items.
pub proof fn law_rejected_message_changes_nothing(
    s: CredentialVerifierView,
    now: u64,
    sender: Seq<char>,
    msg: ExecuteMsg,
    api: Seq<(Seq<char>, Option<Seq<char>>)>,
)
    requires
        execute_outcome(s, now, sender, msg, api).1 is Err,
    ensures
        execute_outcome(s, now, sender, msg, api).0 == s,
{
}

/// Only the admin changes the configuration: an admin or registry change
/// from anyone else is refused as unauthorized.
pub proof fn law_only_admin_configures(
    s: CredentialVerifierView,
    now: u64,
    sender: Seq<char>,
    msg: ExecuteMsg,
    api: Seq<(Seq<char>, Option<Seq<char>>)>,
)
    requires
        sender != s.config.admin,
        msg is UpdateAdmin || msg is UpdateRegistry,
    ensures
        execute_outcome(s, now, sender, msg, api) == (s, Err::<ResponseView, ContractErrorView>(
            ContractErrorView::Unauthorized,
        )),
{
}

/// Verification messages never change the configuration, and every
/// message keeps the earlier records as they were.
pub proof fn law_records_are_kept(
    s: CredentialVerifierView,
    now: u64,
    sender: Seq<char>,
    msg: ExecuteMsg,
    api: Seq<(Seq<char>, Option<Seq<char>>)>,
)
    ensures
        ({
            let t = execute_outcome(s, now, sender, msg, api).0;
            &&& s.verifications.len() <= t.verifications.len()
            &&& t.verifications.subrange(0, s.verifications.len() as int) == s.verifications
            &&& !(msg is UpdateAdmin || msg is UpdateRegistry) ==> t.config == s.config
        }),
{
    let t = execute_outcome(s, now, sender, msg, api).0;
    assert(t.verifications.subrange(0, s.verifications.len() as int) =~= s.verifications);
}

/// A verified ZK credential is recorded under the next identifier and can
/// be looked up at once, as verified, with the receipt hash of the proof;
/// the credential registry is sent exactly one message, recording that
/// same proof.
pub proof fn law_verified_credential_is_found(
    s: CredentialVerifierView,
    now: u64,
    schema_id: Seq<char>,
    subject: Seq<char>,
    issuer: Seq<char>,
    proof: Seq<char>,
    public_inputs: Seq<Seq<char>>,
    expires_at: Option<u64>,
    api: Seq<(Seq<char>, Option<Seq<char>>)>,
)
    requires
        s.verifications.len() < u64::MAX,
        verify_credential_outcome(
            s,
            now,
            schema_id,
            subject,
            issuer,
            proof,
            public_inputs,
            expires_at,
            api,
        ).1 is Ok,
    ensures
        ({
            let (t, r) = verify_credential_outcome(
                s,
                now,
                schema_id,
                subject,
                issuer,
                proof,
                public_inputs,
                expires_at,
                api,
            );
            let id = (s.verifications.len() + 1) as u64;
            let hash = zk_proof_hash(proof, public_inputs);
            &&& verification_result_outcome(t, id) == Ok::<VerificationRecordView, StdErrorView>(
                VerificationRecordView {
                    id,
                    schema_id,
                    subject,
                    issuer,
                    verification_type: VerificationType::ZkProof,
                    verified: true,
                    verified_at: now,
                    proof_hash: hash,
                },
            )
            &&& r->Ok_0.messages == seq![
                (
                    s.config.credential_registry,
                    RegistryExecuteMsgView::RecordProof {
                        schema_id,
                        subject,
                        proof_hash: hash,
                        issuer,
                        expires_at,
                    },
                ),
            ]
        }),
{
}

/// After an admin change, the configuration query names the new admin and
/// the same registries.
pub proof fn law_config_query_after_update(
    s: CredentialVerifierView,
    sender: Seq<char>,
    new_admin: Seq<char>,
    credential_registry: Seq<char>,
    api: Seq<(Seq<char>, Option<Seq<char>>)>,
)
    ensures
        update_admin_outcome(s, sender, new_admin, api).1 is Ok ==> query_outcome(
            update_admin_outcome(s, sender, new_admin, api).0,
            QueryMsg::Config {  },
            api,
        ) == Ok::<QueryResponseView, StdErrorView>(
            QueryResponseView::Config(
                ConfigView {
                    admin: new_admin,
                    credential_registry: s.config.credential_registry,
                    issuer_registry: s.config.issuer_registry,
                },
            ),
        ),
        update_registry_outcome(s, sender, credential_registry, api).1 is Ok ==> query_outcome(
            update_registry_outcome(s, sender, credential_registry, api).0,
            QueryMsg::Config {  },
            api,
        ) == Ok::<QueryResponseView, StdErrorView>(
            QueryResponseView::Config(
                ConfigView {
                    admin: s.config.admin,
                    credential_registry,
                    issuer_registry: s.config.issuer_registry,
                },
            ),
        ),
{
}

/// A batch of more than `MAX_BATCH_SIZE` items is refused whatever it holds.
pub proof fn law_batch_size_is_bounded(
    s: CredentialVerifierView,
    now: u64,
    items: Seq<VerificationRequest>,
    api: Seq<(Seq<char>, Option<Seq<char>>)>,
)
    requires
        items.len() > MAX_BATCH_SIZE,
    ensures
        batch_verify_outcome(s, now, items, api) == (s, Err::<ResponseView, ContractErrorView>(
            ContractErrorView::BatchTooLarge { max: MAX_BATCH_SIZE },
        )),
{
}

/// A verified email credential is recorded under the next identifier and
/// can be looked up at once, as verified, with the receipt hash of the
/// domain and signature; the credential registry is sent exactly one
/// message, recording that same proof.
pub proof fn law_verified_email_credential_is_found(
    s: CredentialVerifierView,
    now: u64,
    schema_id: Seq<char>,
    subject: Seq<char>,
    issuer: Seq<char>,
    email_domain: Seq<char>,
    dkim_signature: Seq<char>,
    email_headers: Seq<char>,
    expires_at: Option<u64>,
    api: Seq<(Seq<char>, Option<Seq<char>>)>,
)
    requires
        s.verifications.len() < u64::MAX,
        verify_email_credential_outcome(
            s,
            now,
            schema_id,
            subject,
            issuer,
            email_domain,
            dkim_signature,
            email_headers,
            expires_at,
            api,
        ).1 is Ok,
    ensures
        ({
            let (t, r) = verify_email_credential_outcome(
                s,
                now,
                schema_id,
                subject,
                issuer,
                email_domain,
                dkim_signature,
                email_headers,
                expires_at,
                api,
            );
            let id = (s.verifications.len() + 1) as u64;
            let hash = dkim_proof_hash(email_domain, dkim_signature);
            &&& verification_result_outcome(t, id) == Ok::<VerificationRecordView, StdErrorView>(
                VerificationRecordView {
                    id,
                    schema_id,
                    subject,
                    issuer,
                    verification_type: VerificationType::EmailDkim,
                    verified: true,
                    verified_at: now,
                    proof_hash: hash,
                },
            )
            &&& r->Ok_0.messages == seq![
                (
                    s.config.credential_registry,
                    RegistryExecuteMsgView::RecordProof {
                        schema_id,
                        subject,
                        proof_hash: hash,
                        issuer,
                        expires_at,
                    },
                ),
            ]
        }),
{
}

/// Listing a subject's verifications again, after the last one of a page,
/// goes on exactly where that page ended: none is skipped or repeated.
pub proof fn law_verification_pages_resume(
    s: CredentialVerifierView,
    subject: Seq<char>,
    start_after: Option<u64>,
    limit: Option<u32>,
    next_limit: Option<u32>,
    api: Seq<(Seq<char>, Option<Seq<char>>)>,
)
    requires
        s.wf(),
        verifications_by_subject_outcome(s, subject, start_after, limit, api) matches Ok(p) && p.len()
            > 0,
    ensures
        ({
            let p = verifications_by_subject_outcome(s, subject, start_after, limit, api)->Ok_0;
            let all = s.verifications.filter(subject_listed(subject, start_after));
            verifications_by_subject_outcome(s, subject, Some(p.last().id), next_limit, api) == Ok::<
                Seq<VerificationRecordView>,
                StdErrorView,
            >(page(all.skip(p.len() as int), effective_limit(next_limit)))
        }),
{
    let pred = subject_listed(subject, start_after);
    let all = s.verifications.filter(pred);
    let p = page(all, effective_limit(limit));
    let n = p.len() as int;
    assert(p.last() == all[n - 1]);
    let before = |x: VerificationRecordView, y: VerificationRecordView| x.id < y.id;
    assert(ordered_by(s.verifications, before));
    lemma_listing_resumes(s.verifications, pred, before, n);
    let b = all[n - 1];
    s.verifications.lemma_filter_pred(pred, n - 1);
    assert(subject_listed(subject, Some(b.id)) =~= passing_after(pred, before, b));
}

/// Whether a batch item has every required field, so that it is checked
/// rather than turned away.
pub open spec fn item_is_complete(item: VerificationRequest) -> bool {
    match item {
        VerificationRequest::ZkProof { schema_id, proof, public_inputs, .. } => schema_id@.len()
            > 0 && proof@.len() > 0 && public_inputs.len() > 0,
        VerificationRequest::EmailProof {
            schema_id,
            email_domain,
            dkim_signature,
            email_headers,
            ..
        } => schema_id@.len() > 0 && email_domain@.len() > 0 && dkim_signature@.len() > 0
            && email_headers@.len() > 0,
    }
}

/// The single verification message that asks what a batch item asks.
pub open spec fn single_outcome(
    s: CredentialVerifierView,
    now: u64,
    item: VerificationRequest,
    api: Seq<(Seq<char>, Option<Seq<char>>)>,
) -> (CredentialVerifierView, Result<ResponseView, ContractErrorView>) {
    match item {
        VerificationRequest::ZkProof {
            schema_id,
            subject,
            issuer,
            proof,
            public_inputs,
            expires_at,
        } => verify_credential_outcome(
            s,
            now,
            schema_id@,
            subject@,
            issuer@,
            proof@,
            public_inputs.deep_view(),
            expires_at,
            api,
        ),
        VerificationRequest::EmailProof {
            schema_id,
            subject,
            issuer,
            email_domain,
            dkim_signature,
            email_headers,
            expires_at,
        } => verify_email_credential_outcome(
            s,
            now,
            schema_id@,
            subject@,
            issuer@,
            email_domain@,
            dkim_signature@,
            email_headers@,
            expires_at,
            api,
        ),
    }
}

/// A batch of one complete item does what the single verification message
/// does: the same record under the same identifier, the same message to the
/// credential registry, or the same error.
pub proof fn law_single_item_batch_matches_verification(
    s: CredentialVerifierView,
    now: u64,
    item: VerificationRequest,
    api: Seq<(Seq<char>, Option<Seq<char>>)>,
)
    requires
        s.verifications.len() < u64::MAX,
        item_is_complete(item),
    ensures
        ({
            let (tb, rb) = batch_verify_outcome(s, now, seq![item], api);
            let (tv, rv) = single_outcome(s, now, item, api);
            &&& tb == tv
            &&& rb is Err <==> rv is Err
            &&& rv is Err ==> rb == rv
            &&& rv is Ok ==> rb->Ok_0.messages == rv->Ok_0.messages
        }),
{
    let items = seq![item];
    assert(items.drop_last() =~= Seq::<VerificationRequest>::empty());
    assert(items.last() == item);
    let id = (s.verifications.len() + 1) as u64;
    assert(batch_progress(s, now, items.drop_last(), api) == Ok::<BatchProgress, ContractErrorView>(
        BatchProgress { added: seq![], messages: seq![], attributes: seq![], results: seq![] },
    ));
    let step = item_step(now, item, id, api);
    if step is Ok {
        let st = step->Ok_0;
        lemma_item_step_shape(now, item, id, api, s.config.credential_registry);
        assert(st.recorded is Some);
        let (rec, msg) = st.recorded->Some_0;
        let p = batch_progress(s, now, items, api)->Ok_0;
        assert(p.added =~= seq![rec]);
        assert(p.messages =~= seq![(s.config.credential_registry, msg)]);
    }
}

/// Anyone may ask for a verification: the verification messages give the
/// same outcome whoever sends them.
pub proof fn law_verification_open_to_any_sender(
    s: CredentialVerifierView,
    now: u64,
    sender: Seq<char>,
    other_sender: Seq<char>,
    msg: ExecuteMsg,
    api: Seq<(Seq<char>, Option<Seq<char>>)>,
)
    requires
        msg is VerifyCredential || msg is VerifyEmailCredential || msg is BatchVerify,
    ensures
        execute_outcome(s, now, sender, msg, api) == execute_outcome(s, now, other_sender, msg, api),
{
}

} // verus!
