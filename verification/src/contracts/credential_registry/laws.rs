//! What holds of the credential registry across its messages and queries.

use vstd::prelude::*;

use super::contract::{
    execute_outcome, expired, for_pair, is_verified_outcome, latest_index, latest_valid_index,
    lemma_latest_index, lemma_latest_valid_index, valid_at,
    lemma_schema_index, lemma_schema_insert_ascending, lemma_schema_insert_pos,
    lemma_schema_insertion_point_exists, new_proof, new_schema, next_proof_id,
    list_schemas_outcome, proof_record_outcome, proofs_by_subject_outcome, query_outcome,
    schema_listed, subject_listed, record_proof_outcome, register_schema_outcome,
    revoke_proof_outcome, schema_outcome, update_admin_outcome,
    CredentialRegistryView, QueryResponseView,
};
use super::error::ContractErrorView;
use crate::common::api::{addr_check, StdErrorView};
use crate::common::paging::{
    effective_limit, lemma_filter_member, lemma_listing_resumes, ordered_by, page, passing_after,
};
use crate::common::text::{lemma_str_lt_strict, lemma_str_lt_transitive, str_lt};
use crate::common::response::ResponseView;
use crate::types::credential_registry::{
    CredentialSchemaView, ExecuteMsg, IsVerifiedResponseView, ProofRecordView, QueryMsg,
};

verus! {

/// Two proof lists of one length that hold the same proofs for a pair, at
/// the same places, give the pair the same most recent proof and the same
/// most recent valid proof.
pub proof fn lemma_pair_entries_agree(
    p: Seq<ProofRecordView>,
    q: Seq<ProofRecordView>,
    schema_id: Seq<char>,
    subject: Seq<char>,
    now: u64,
)
    requires
        p.len() == q.len(),
        forall|j: int|
            0 <= j < p.len() ==> (for_pair(#[trigger] p[j], schema_id, subject) <==> for_pair(
                q[j],
                schema_id,
                subject,
            )),
        forall|j: int| 0 <= j < p.len() && for_pair(#[trigger] p[j], schema_id, subject) ==> p[j] == q[j],
    ensures
        latest_index(p, schema_id, subject) == latest_index(q, schema_id, subject),
        latest_valid_index(p, schema_id, subject, now) == latest_valid_index(q, schema_id, subject, now),
    decreases p.len(),
{
    if p.len() > 0 {
        let n = p.len() - 1;
        assert(for_pair(p[n], schema_id, subject) <==> for_pair(q[n], schema_id, subject));
        assert forall|j: int| 0 <= j < n implies #[trigger] p.drop_last()[j] == p[j] && q.drop_last()[j]
            == q[j] by {}
        lemma_pair_entries_agree(p.drop_last(), q.drop_last(), schema_id, subject, now);
    }
}

/// Facts about the registry just after a new schema is added.
proof fn lemma_with_schema(s: CredentialRegistryView, rec: CredentialSchemaView)
    requires
        s.wf(),
        !s.has_schema(rec.schema_id),
    ensures
        s.with_schema(rec).wf(),
        s.with_schema(rec).has_schema(rec.schema_id),
        s.with_schema(rec).schema(rec.schema_id) == rec,
{
    let id = rec.schema_id;
    assert forall|i: int| 0 <= i < s.schemas.len() implies #[trigger] s.schemas[i].schema_id
        != id by {
        if s.schemas[i].schema_id == id {
            assert(s.has_schema(id));
        }
    }
    let p = lemma_schema_insertion_point_exists(s.schemas, id);
    lemma_schema_insert_pos(s, id, p);
    lemma_schema_insert_ascending(s.schemas, rec, p);
    let t = s.with_schema(rec);
    assert(t.schemas[p] == rec);
    lemma_schema_index(t, id, p);
}

/// A rejected message leaves the registry as it was.
pub proof fn law_rejected_message_changes_nothing(
    s: CredentialRegistryView,
    now: u64,
    sender: Seq<char>,
    msg: ExecuteMsg,
    api: Seq<(Seq<char>, Option<Seq<char>>)>,
)
    requires
        execute_outcome(s, now, sender, msg, api).1 is Err,
    ensures
        execute_outcome(s, now, sender, msg, api).0 == s,
{
}

/// Only the admin registers schemas and hands over the admin role: such a
/// message from anyone else is refused as unauthorized.
pub proof fn law_only_admin_manages(
    s: CredentialRegistryView,
    now: u64,
    sender: Seq<char>,
    msg: ExecuteMsg,
    api: Seq<(Seq<char>, Option<Seq<char>>)>,
)
    requires
        sender != s.admin,
        msg is RegisterSchema || msg is UpdateAdmin,
    ensures
        execute_outcome(s, now, sender, msg, api) == (s, Err::<ResponseView, ContractErrorView>(
            ContractErrorView::Unauthorized,
        )),
{
}

/// Only the admin, or the verifier contract of the schema named, records a
/// proof: a message from anyone else is refused and changes nothing.
pub proof fn law_only_verifier_or_admin_records(
    s: CredentialRegistryView,
    now: u64,
    sender: Seq<char>,
    schema_id: Seq<char>,
    subject: Seq<char>,
    proof_hash: Seq<char>,
    issuer: Seq<char>,
    expires_at: Option<u64>,
    api: Seq<(Seq<char>, Option<Seq<char>>)>,
)
    requires
        sender != s.admin,
        s.has_schema(schema_id) ==> sender != s.schema(schema_id).verifier_contract,
    ensures
        record_proof_outcome(
            s,
            now,
            sender,
            schema_id,
            subject,
            proof_hash,
            issuer,
            expires_at,
            api,
        ).1 is Err,
        record_proof_outcome(
            s,
            now,
            sender,
            schema_id,
            subject,
            proof_hash,
            issuer,
            expires_at,
            api,
        ).0 == s,
{
}

/// Only the admin, or the issuer of the proof, revokes a proof: a message
/// from anyone else is refused and changes nothing.
pub proof fn law_only_issuer_or_admin_revokes(
    s: CredentialRegistryView,
    now: u64,
    sender: Seq<char>,
    proof_id: u64,
    reason: Seq<char>,
)
    requires
        sender != s.admin,
        s.has_proof(proof_id) ==> sender != s.proof_record(proof_id).issuer,
    ensures
        revoke_proof_outcome(s, now, sender, proof_id, reason).1 is Err,
        revoke_proof_outcome(s, now, sender, proof_id, reason).0 == s,
{
}

/// A registered schema can be looked up at once, as it was registered,
/// active.
pub proof fn law_registered_schema_is_found(
    s: CredentialRegistryView,
    now: u64,
    sender: Seq<char>,
    schema_id: Seq<char>,
    name: Seq<char>,
    description: Seq<char>,
    verifier_contract: Seq<char>,
    credential_types: Seq<Seq<char>>,
    api: Seq<(Seq<char>, Option<Seq<char>>)>,
)
    requires
        s.wf(),
        register_schema_outcome(
            s,
            now,
            sender,
            schema_id,
            name,
            description,
            verifier_contract,
            credential_types,
            api,
        ).1 is Ok,
    ensures
        schema_outcome(
            register_schema_outcome(
                s,
                now,
                sender,
                schema_id,
                name,
                description,
                verifier_contract,
                credential_types,
                api,
            ).0,
            schema_id,
        ) == Ok::<CredentialSchemaView, StdErrorView>(
            new_schema(schema_id, name, description, verifier_contract, credential_types, now),
        ),
{
    lemma_with_schema(
        s,
        new_schema(schema_id, name, description, verifier_contract, credential_types, now),
    );
}

/// A recorded proof gets the next identifier, and looking that identifier
/// up gives the proof as recorded.
pub proof fn law_recorded_proof_is_found(
    s: CredentialRegistryView,
    now: u64,
    sender: Seq<char>,
    schema_id: Seq<char>,
    subject: Seq<char>,
    proof_hash: Seq<char>,
    issuer: Seq<char>,
    expires_at: Option<u64>,
    api: Seq<(Seq<char>, Option<Seq<char>>)>,
)
    requires
        s.proofs.len() < u64::MAX,
        record_proof_outcome(
            s,
            now,
            sender,
            schema_id,
            subject,
            proof_hash,
            issuer,
            expires_at,
            api,
        ).1 is Ok,
    ensures
        next_proof_id(s) == s.proofs.len() + 1,
        proof_record_outcome(
            record_proof_outcome(
                s,
                now,
                sender,
                schema_id,
                subject,
                proof_hash,
                issuer,
                expires_at,
                api,
            ).0,
            next_proof_id(s),
        ) == Ok::<ProofRecordView, StdErrorView>(
            new_proof(next_proof_id(s), schema_id, subject, proof_hash, issuer, now, expires_at),
        ),
{
}

/// The verified answer says exactly whether the subject holds a valid proof
/// for the schema: some proof recorded for the pair that is neither revoked
/// nor expired. A verified answer names such a proof and its expiry.
pub proof fn law_verified_means_a_valid_proof(
    s: CredentialRegistryView,
    now: u64,
    subject: Seq<char>,
    schema_id: Seq<char>,
    api: Seq<(Seq<char>, Option<Seq<char>>)>,
)
    requires
        addr_check(api, subject) is Ok,
    ensures
        is_verified_outcome(s, now, subject, schema_id, api) is Ok,
        is_verified_outcome(s, now, subject, schema_id, api)->Ok_0.verified <==> exists|k: int|
            0 <= k < s.proofs.len() && for_pair(#[trigger] s.proofs[k], schema_id, subject)
                && valid_at(s.proofs[k], now),
        is_verified_outcome(s, now, subject, schema_id, api)->Ok_0.verified ==> exists|k: int|
            0 <= k < s.proofs.len() && for_pair(#[trigger] s.proofs[k], schema_id, subject)
                && valid_at(s.proofs[k], now) && is_verified_outcome(
                s,
                now,
                subject,
                schema_id,
                api,
            )->Ok_0.proof_id == Some(s.proofs[k].id) && is_verified_outcome(
                s,
                now,
                subject,
                schema_id,
                api,
            )->Ok_0.expires_at == s.proofs[k].expires_at,
{
    lemma_latest_valid_index(s.proofs, schema_id, subject, now);
    if let Some(k) = latest_valid_index(s.proofs, schema_id, subject, now) {
        assert(for_pair(s.proofs[k], schema_id, subject) && valid_at(s.proofs[k], now));
    }
}

/// Once a proof is recorded for a subject under a schema, the subject is
/// verified for that schema, by this proof, at every time up to the proof's
/// expiry; after it, the subject is verified exactly when it was already
/// verified by an earlier proof.
pub proof fn law_recorded_proof_verifies(
    s: CredentialRegistryView,
    now: u64,
    sender: Seq<char>,
    schema_id: Seq<char>,
    subject: Seq<char>,
    proof_hash: Seq<char>,
    issuer: Seq<char>,
    expires_at: Option<u64>,
    api: Seq<(Seq<char>, Option<Seq<char>>)>,
    later: u64,
    query_api: Seq<(Seq<char>, Option<Seq<char>>)>,
)
    requires
        record_proof_outcome(
            s,
            now,
            sender,
            schema_id,
            subject,
            proof_hash,
            issuer,
            expires_at,
            api,
        ).1 is Ok,
        addr_check(query_api, subject) is Ok,
    ensures
        !expired(expires_at, later) ==> is_verified_outcome(
            record_proof_outcome(
                s,
                now,
                sender,
                schema_id,
                subject,
                proof_hash,
                issuer,
                expires_at,
                api,
            ).0,
            later,
            subject,
            schema_id,
            query_api,
        ) == Ok::<IsVerifiedResponseView, StdErrorView>(
            IsVerifiedResponseView {
                verified: true,
                proof_id: Some(next_proof_id(s)),
                expires_at,
            },
        ),
        is_verified_outcome(
            record_proof_outcome(
                s,
                now,
                sender,
                schema_id,
                subject,
                proof_hash,
                issuer,
                expires_at,
                api,
            ).0,
            later,
            subject,
            schema_id,
            query_api,
        )->Ok_0.verified == (!expired(expires_at, later) || is_verified_outcome(
            s,
            later,
            subject,
            schema_id,
            query_api,
        )->Ok_0.verified),
{
    let t = record_proof_outcome(
        s,
        now,
        sender,
        schema_id,
        subject,
        proof_hash,
        issuer,
        expires_at,
        api,
    ).0;
    assert(t.proofs.drop_last() =~= s.proofs);
}

/// Recording a proof for one subject and schema leaves the answer for every
/// other pair as it was.
pub proof fn law_record_leaves_other_pairs(
    s: CredentialRegistryView,
    now: u64,
    sender: Seq<char>,
    schema_id: Seq<char>,
    subject: Seq<char>,
    proof_hash: Seq<char>,
    issuer: Seq<char>,
    expires_at: Option<u64>,
    api: Seq<(Seq<char>, Option<Seq<char>>)>,
    later: u64,
    other_subject: Seq<char>,
    other_schema_id: Seq<char>,
    query_api: Seq<(Seq<char>, Option<Seq<char>>)>,
)
    requires
        record_proof_outcome(
            s,
            now,
            sender,
            schema_id,
            subject,
            proof_hash,
            issuer,
            expires_at,
            api,
        ).1 is Ok,
        other_subject != subject || other_schema_id != schema_id,
    ensures
        is_verified_outcome(
            record_proof_outcome(
                s,
                now,
                sender,
                schema_id,
                subject,
                proof_hash,
                issuer,
                expires_at,
                api,
            ).0,
            later,
            other_subject,
            other_schema_id,
            query_api,
        ) == is_verified_outcome(s, later, other_subject, other_schema_id, query_api),
{
    let t = record_proof_outcome(
        s,
        now,
        sender,
        schema_id,
        subject,
        proof_hash,
        issuer,
        expires_at,
        api,
    ).0;
    assert(t.proofs.drop_last() =~= s.proofs);
    assert(t.proofs.last().subject == subject && t.proofs.last().schema_id == schema_id);
    if let Ok(a) = addr_check(query_api, other_subject) {
        assert(a == other_subject);
        assert(latest_index(t.proofs, other_schema_id, a) == latest_index(
            s.proofs,
            other_schema_id,
            a,
        ));
        assert(latest_valid_index(t.proofs, other_schema_id, a, later) == latest_valid_index(
            s.proofs,
            other_schema_id,
            a,
            later,
        ));
        lemma_latest_index(s.proofs, other_schema_id, a);
        if let Some(k) = latest_index(s.proofs, other_schema_id, a) {
            assert(t.proofs[k] == s.proofs[k]);
        }
        lemma_latest_valid_index(s.proofs, other_schema_id, a, later);
        if let Some(k) = latest_valid_index(s.proofs, other_schema_id, a, later) {
            assert(t.proofs[k] == s.proofs[k]);
        }
    }
}

/// After a proof is revoked, a subject is verified for a schema exactly when
/// another proof for the pair is still valid: revoking the pair's only
/// valid proof ends its verification, whatever the time.
pub proof fn law_revocation_leaves_only_other_valid_proofs(
    s: CredentialRegistryView,
    now: u64,
    sender: Seq<char>,
    proof_id: u64,
    reason: Seq<char>,
    later: u64,
    subject: Seq<char>,
    schema_id: Seq<char>,
    query_api: Seq<(Seq<char>, Option<Seq<char>>)>,
)
    requires
        revoke_proof_outcome(s, now, sender, proof_id, reason).1 is Ok,
        addr_check(query_api, subject) is Ok,
    ensures
        is_verified_outcome(
            revoke_proof_outcome(s, now, sender, proof_id, reason).0,
            later,
            subject,
            schema_id,
            query_api,
        )->Ok_0.verified <==> exists|j: int|
            0 <= j < s.proofs.len() && j != proof_id - 1 && for_pair(
                #[trigger] s.proofs[j],
                schema_id,
                subject,
            ) && valid_at(s.proofs[j], later),
{
    let t = revoke_proof_outcome(s, now, sender, proof_id, reason).0;
    let k = proof_id - 1;
    law_verified_means_a_valid_proof(t, later, subject, schema_id, query_api);
    assert(!valid_at(t.proofs[k], later));
    if exists|j: int|
        0 <= j < t.proofs.len() && for_pair(#[trigger] t.proofs[j], schema_id, subject) && valid_at(
            t.proofs[j],
            later,
        ) {
        let j = choose|j: int|
            0 <= j < t.proofs.len() && for_pair(#[trigger] t.proofs[j], schema_id, subject)
                && valid_at(t.proofs[j], later);
        assert(j != k && t.proofs[j] == s.proofs[j]);
    }
    if exists|j: int|
        0 <= j < s.proofs.len() && j != proof_id - 1 && for_pair(
            #[trigger] s.proofs[j],
            schema_id,
            subject,
        ) && valid_at(s.proofs[j], later) {
        let j = choose|j: int|
            0 <= j < s.proofs.len() && j != proof_id - 1 && for_pair(
                #[trigger] s.proofs[j],
                schema_id,
                subject,
            ) && valid_at(s.proofs[j], later);
        assert(t.proofs[j] == s.proofs[j]);
    }
}

/// A subject verified at some time was verified at every earlier time, in
/// the same registry: proofs only lapse as time passes.
pub proof fn law_verification_only_lapses(
    s: CredentialRegistryView,
    earlier: u64,
    later: u64,
    subject: Seq<char>,
    schema_id: Seq<char>,
    query_api: Seq<(Seq<char>, Option<Seq<char>>)>,
)
    requires
        earlier <= later,
        is_verified_outcome(s, later, subject, schema_id, query_api) matches Ok(v) && v.verified,
    ensures
        is_verified_outcome(s, earlier, subject, schema_id, query_api) matches Ok(v) && v.verified,
{
    law_verified_means_a_valid_proof(s, later, subject, schema_id, query_api);
    law_verified_means_a_valid_proof(s, earlier, subject, schema_id, query_api);
    let k = choose|k: int|
        0 <= k < s.proofs.len() && for_pair(#[trigger] s.proofs[k], schema_id, subject) && valid_at(
            s.proofs[k],
            later,
        );
    assert(valid_at(s.proofs[k], earlier));
}

/// After the admin hands over the role, the admin query names the new admin.
pub proof fn law_admin_query_after_update(
    s: CredentialRegistryView,
    sender: Seq<char>,
    new_admin: Seq<char>,
    now: u64,
    api: Seq<(Seq<char>, Option<Seq<char>>)>,
)
    requires
        update_admin_outcome(s, sender, new_admin, api).1 is Ok,
    ensures
        query_outcome(
            update_admin_outcome(s, sender, new_admin, api).0,
            now,
            QueryMsg::Admin {  },
            api,
        ) == Ok::<QueryResponseView, StdErrorView>(QueryResponseView::Admin(new_admin)),
{
}

/// A subject's answer for a schema changes only when a proof is recorded
/// for that very subject and schema, or when one of the pair's proofs is
/// revoked; every other message leaves it as it was.
pub proof fn law_verification_is_stable(
    s: CredentialRegistryView,
    now: u64,
    sender: Seq<char>,
    msg: ExecuteMsg,
    api: Seq<(Seq<char>, Option<Seq<char>>)>,
    later: u64,
    subject: Seq<char>,
    schema_id: Seq<char>,
    query_api: Seq<(Seq<char>, Option<Seq<char>>)>,
)
    requires
        s.wf(),
    ensures
        ({
        ||| is_verified_outcome(execute_outcome(s, now, sender, msg, api).0, later, subject, schema_id, query_api)
            == is_verified_outcome(s, later, subject, schema_id, query_api)
        ||| (msg matches ExecuteMsg::RecordProof { schema_id: sid, subject: sub, .. } && sid@
            == schema_id && sub@ == subject)
        ||| (msg matches ExecuteMsg::RevokeProof { proof_id, .. } && s.has_proof(proof_id)
            && for_pair(s.proof_record(proof_id), schema_id, subject))
        }),
{
    let t = execute_outcome(s, now, sender, msg, api).0;
    match msg {
        ExecuteMsg::RecordProof { schema_id: sid, subject: sub, proof_hash, issuer, expires_at } => {
            if !(sid@ == schema_id && sub@ == subject) && record_proof_outcome(
                s,
                now,
                sender,
                sid@,
                sub@,
                proof_hash@,
                issuer@,
                expires_at,
                api,
            ).1 is Ok {
                law_record_leaves_other_pairs(
                    s,
                    now,
                    sender,
                    sid@,
                    sub@,
                    proof_hash@,
                    issuer@,
                    expires_at,
                    api,
                    later,
                    subject,
                    schema_id,
                    query_api,
                );
            }
        },
        ExecuteMsg::RevokeProof { proof_id, reason } => {
            if revoke_proof_outcome(s, now, sender, proof_id, reason@).1 is Ok && addr_check(
                query_api,
                subject,
            ) is Ok && !for_pair(s.proof_record(proof_id), schema_id, subject) {
                let a = addr_check(query_api, subject)->Ok_0;
                let k = (proof_id - 1) as int;
                assert(a == subject);
                assert forall|j: int| 0 <= j < s.proofs.len() && for_pair(
                    #[trigger] s.proofs[j],
                    schema_id,
                    a,
                ) implies s.proofs[j] == t.proofs[j] by {
                    assert(j != k);
                }
                assert forall|j: int| 0 <= j < s.proofs.len() implies (for_pair(
                    #[trigger] s.proofs[j],
                    schema_id,
                    a,
                ) <==> for_pair(t.proofs[j], schema_id, a)) by {
                    if j != k {
                        assert(t.proofs[j] == s.proofs[j]);
                    }
                }
                lemma_pair_entries_agree(s.proofs, t.proofs, schema_id, a, later);
                lemma_latest_index(s.proofs, schema_id, a);
                lemma_latest_valid_index(s.proofs, schema_id, a, later);
                if let Some(j) = latest_index(s.proofs, schema_id, a) {
                    assert(t.proofs[j] == s.proofs[j]);
                }
                if let Some(j) = latest_valid_index(s.proofs, schema_id, a, later) {
                    assert(t.proofs[j] == s.proofs[j]);
                }
            }
        },
        _ => {
            assert(t.proofs =~= s.proofs);
        },
    }
}

/// Listing a subject's proofs again, after the last proof of a page, goes
/// on exactly where that page ended: no proof is skipped or repeated.
pub proof fn law_proof_pages_resume(
    s: CredentialRegistryView,
    subject: Seq<char>,
    start_after: Option<u64>,
    limit: Option<u32>,
    next_limit: Option<u32>,
    api: Seq<(Seq<char>, Option<Seq<char>>)>,
)
    requires
        s.wf(),
        proofs_by_subject_outcome(s, subject, start_after, limit, api) matches Ok(p) && p.len() > 0,
    ensures
        ({
            let p = proofs_by_subject_outcome(s, subject, start_after, limit, api)->Ok_0;
            let all = s.proofs.filter(subject_listed(subject, start_after));
            proofs_by_subject_outcome(s, subject, Some(p.last().id), next_limit, api) == Ok::<
                Seq<ProofRecordView>,
                StdErrorView,
            >(page(all.skip(p.len() as int), effective_limit(next_limit)))
        }),
{
    let pred = subject_listed(subject, start_after);
    let all = s.proofs.filter(pred);
    let p = page(all, effective_limit(limit));
    let n = p.len() as int;
    assert(p.last() == all[n - 1]);
    let before = |x: ProofRecordView, y: ProofRecordView| x.id < y.id;
    assert(ordered_by(s.proofs, before));
    lemma_listing_resumes(s.proofs, pred, before, n);
    let b = all[n - 1];
    s.proofs.lemma_filter_pred(pred, n - 1);
    assert(subject_listed(subject, Some(b.id)) =~= passing_after(pred, before, b));
}

/// Listing schemas again, after the last schema of a page, goes on exactly
/// where that page ended: no schema is skipped or repeated.
pub proof fn law_schema_pages_resume(
    s: CredentialRegistryView,
    start_after: Option<Seq<char>>,
    limit: Option<u32>,
    next_limit: Option<u32>,
)
    requires
        s.wf(),
        list_schemas_outcome(s, start_after, limit).len() > 0,
    ensures
        ({
            let p = list_schemas_outcome(s, start_after, limit);
            let all = s.schemas.filter(schema_listed(start_after));
            list_schemas_outcome(s, Some(p.last().schema_id), next_limit) == page(
                all.skip(p.len() as int),
                effective_limit(next_limit),
            )
        }),
{
    let pred = schema_listed(start_after);
    let all = s.schemas.filter(pred);
    let p = page(all, effective_limit(limit));
    let n = p.len() as int;
    assert(p.last() == all[n - 1]);
    let before = |x: CredentialSchemaView, y: CredentialSchemaView| str_lt(x.schema_id, y.schema_id);
    assert(ordered_by(s.schemas, before)) by {
        assert forall|i: int, j: int| 0 <= i < j < s.schemas.len() implies before(
            #[trigger] s.schemas[i],
            #[trigger] s.schemas[j],
        ) && !before(s.schemas[j], s.schemas[i]) by {
            lemma_str_lt_strict(s.schemas[i].schema_id, s.schemas[j].schema_id);
        }
        assert forall|i: int| 0 <= i < s.schemas.len() implies !before(
            #[trigger] s.schemas[i],
            s.schemas[i],
        ) by {
            if str_lt(s.schemas[i].schema_id, s.schemas[i].schema_id) {
                lemma_str_lt_strict(s.schemas[i].schema_id, s.schemas[i].schema_id);
            }
        }
    }
    lemma_listing_resumes(s.schemas, pred, before, n);
    let b = all[n - 1];
    s.schemas.lemma_filter_pred(pred, n - 1);
    assert forall|r: CredentialSchemaView| #[trigger] schema_listed(Some(b.schema_id))(r)
        == passing_after(pred, before, b)(r) by {
        if let Some(x) = start_after {
            if str_lt(b.schema_id, r.schema_id) {
                lemma_str_lt_transitive(x, b.schema_id, r.schema_id);
            }
        }
    }
    assert(schema_listed(Some(b.schema_id)) =~= passing_after(pred, before, b));
}

/// Every message keeps the registry well formed: schemas in key order, each
/// once, and proofs numbered 1, 2, ... in the order recorded. Proofs are
/// never removed or moved; a recorded proof takes the next number, which no
/// earlier proof had, and only a recorded proof adds one.
pub proof fn law_execute_keeps_numbering(
    s: CredentialRegistryView,
    now: u64,
    sender: Seq<char>,
    msg: ExecuteMsg,
    api: Seq<(Seq<char>, Option<Seq<char>>)>,
)
    requires
        s.wf(),
        msg is RecordProof ==> s.proofs.len() < u64::MAX,
    ensures
        ({
            let (t, r) = execute_outcome(s, now, sender, msg, api);
            &&& t.wf()
            &&& s.proofs.len() <= t.proofs.len() <= s.proofs.len() + 1
            &&& forall|k: int|
                0 <= k < s.proofs.len() ==> (#[trigger] t.proofs[k]).id == s.proofs[k].id
                    && t.proofs[k].schema_id == s.proofs[k].schema_id && t.proofs[k].subject
                    == s.proofs[k].subject
            &&& t.proofs.len() == s.proofs.len() + 1 ==> msg is RecordProof && r is Ok
                && t.proofs.last().id == s.proofs.len() + 1
        }),
{
    let t = execute_outcome(s, now, sender, msg, api).0;
    match msg {
        ExecuteMsg::RegisterSchema {
            schema_id,
            name,
            description,
            verifier_contract,
            credential_types,
        } => {
            if register_schema_outcome(
                s,
                now,
                sender,
                schema_id@,
                name@,
                description@,
                verifier_contract@,
                credential_types.deep_view(),
                api,
            ).1 is Ok {
                lemma_with_schema(
                    s,
                    new_schema(
                        schema_id@,
                        name@,
                        description@,
                        verifier_contract@,
                        credential_types.deep_view(),
                        now,
                    ),
                );
            }
        },
        ExecuteMsg::RecordProof { .. } => {
            assert(forall|k: int| 0 <= k < s.proofs.len() ==> #[trigger] t.proofs[k] == s.proofs[k]);
        },
        ExecuteMsg::RevokeProof { proof_id, .. } => {
            assert(forall|k: int|
                0 <= k < s.proofs.len() && k != proof_id - 1 ==> #[trigger] t.proofs[k]
                    == s.proofs[k]);
        },
        ExecuteMsg::UpdateAdmin { .. } => {},
    }
}

/// The full listing of a subject's proofs, over all its pages, holds
/// exactly the proofs recorded for that subject.
pub proof fn law_subject_listing_is_exact(s: CredentialRegistryView, subject: Seq<char>, r: ProofRecordView)
    ensures
        s.proofs.filter(subject_listed(subject, None)).contains(r) <==> (s.proofs.contains(r)
            && r.subject == subject),
{
    let pred = subject_listed(subject, None);
    let all = s.proofs.filter(pred);
    if all.contains(r) {
        let i = choose|i: int| 0 <= i < all.len() && all[i] == r;
        lemma_filter_member(s.proofs, pred, i);
        s.proofs.lemma_filter_pred(pred, i);
        let j = choose|j: int| 0 <= j < s.proofs.len() && s.proofs[j] == #[trigger] all[i];
        assert(s.proofs[j] == r);
    }
    if s.proofs.contains(r) && r.subject == subject {
        let j = choose|j: int| 0 <= j < s.proofs.len() && s.proofs[j] == r;
        s.proofs.lemma_filter_contains(pred, j);
    }
}

/// A registered schema, looked up by its identifier, carries exactly what
/// it was registered with: its name, description, verifier contract and
/// credential types, the registration time, and an active standing.
pub proof fn law_registered_schema_keeps_its_details(
    s: CredentialRegistryView,
    now: u64,
    sender: Seq<char>,
    schema_id: Seq<char>,
    name: Seq<char>,
    description: Seq<char>,
    verifier_contract: Seq<char>,
    credential_types: Seq<Seq<char>>,
    api: Seq<(Seq<char>, Option<Seq<char>>)>,
)
    requires
        s.wf(),
        register_schema_outcome(
            s,
            now,
            sender,
            schema_id,
            name,
            description,
            verifier_contract,
            credential_types,
            api,
        ).1 is Ok,
    ensures
        ({
            let t = register_schema_outcome(
                s,
                now,
                sender,
                schema_id,
                name,
                description,
                verifier_contract,
                credential_types,
                api,
            ).0;
            let r = schema_outcome(t, schema_id)->Ok_0;
            &&& schema_outcome(t, schema_id) is Ok
            &&& r.schema_id == schema_id
            &&& r.name == name
            &&& r.description == description
            &&& r.verifier_contract == verifier_contract
            &&& r.credential_types == credential_types
            &&& r.created_at == now
            &&& r.active
        }),
{
    law_registered_schema_is_found(
        s,
        now,
        sender,
        schema_id,
        name,
        description,
        verifier_contract,
        credential_types,
        api,
    );
}

/// A recorded proof, looked up by the identifier it was given (one past the
/// proofs before it), carries exactly what was recorded: schema, subject,
/// hash, issuer and expiry, stamped with the block time it was recorded
/// at, and not revoked.
pub proof fn law_recorded_proof_keeps_its_details(
    s: CredentialRegistryView,
    now: u64,
    sender: Seq<char>,
    schema_id: Seq<char>,
    subject: Seq<char>,
    proof_hash: Seq<char>,
    issuer: Seq<char>,
    expires_at: Option<u64>,
    api: Seq<(Seq<char>, Option<Seq<char>>)>,
)
    requires
        s.proofs.len() < u64::MAX,
        record_proof_outcome(
            s,
            now,
            sender,
            schema_id,
            subject,
            proof_hash,
            issuer,
            expires_at,
            api,
        ).1 is Ok,
    ensures
        ({
            let t = record_proof_outcome(
                s,
                now,
                sender,
                schema_id,
                subject,
                proof_hash,
                issuer,
                expires_at,
                api,
            ).0;
            let id = (s.proofs.len() + 1) as u64;
            let r = proof_record_outcome(t, id)->Ok_0;
            &&& proof_record_outcome(t, id) is Ok
            &&& r.id == s.proofs.len() + 1
            &&& r.schema_id == schema_id
            &&& r.subject == subject
            &&& r.proof_hash == proof_hash
            &&& r.issuer == issuer
            &&& r.verified_at == now
            &&& r.expires_at == expires_at
            &&& !r.revoked
            &&& r.revoked_at is None
            &&& r.revocation_reason is None
        }),
{
    law_recorded_proof_is_found(
        s,
        now,
        sender,
        schema_id,
        subject,
        proof_hash,
        issuer,
        expires_at,
        api,
    );
}

/// A revoked proof, looked up by its identifier, is marked revoked at the
/// block time with the reason given, and keeps everything it was recorded
/// with; every other proof record is left as it was.
pub proof fn law_revoked_proof_keeps_its_details(
    s: CredentialRegistryView,
    now: u64,
    sender: Seq<char>,
    proof_id: u64,
    reason: Seq<char>,
    other: u64,
)
    requires
        revoke_proof_outcome(s, now, sender, proof_id, reason).1 is Ok,
    ensures
        ({
            let t = revoke_proof_outcome(s, now, sender, proof_id, reason).0;
            let old = proof_record_outcome(s, proof_id)->Ok_0;
            let new = proof_record_outcome(t, proof_id)->Ok_0;
            &&& proof_record_outcome(s, proof_id) is Ok
            &&& proof_record_outcome(t, proof_id) is Ok
            &&& !old.revoked
            &&& new.revoked
            &&& new.revoked_at == Some(now)
            &&& new.revocation_reason == Some(reason)
            &&& new.id == old.id
            &&& new.schema_id == old.schema_id
            &&& new.subject == old.subject
            &&& new.proof_hash == old.proof_hash
            &&& new.issuer == old.issuer
            &&& new.verified_at == old.verified_at
            &&& new.expires_at == old.expires_at
            &&& other != proof_id ==> proof_record_outcome(t, other) == proof_record_outcome(
                s,
                other,
            )
        }),
{
}

} // verus!
