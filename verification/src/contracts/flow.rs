//! What holds across the contracts: a credential that the verifier accepts
//! ends up verified in the credential registry.

use vstd::prelude::*;

use super::credential_registry::contract::{
    expired, is_verified_outcome, next_proof_id, record_proof_outcome, CredentialRegistryView,
};
use super::credential_registry::laws::law_recorded_proof_verifies;
use super::credential_verifier::contract::{
    verify_credential_outcome, verify_email_credential_outcome, CredentialVerifierView,
};
use super::credential_verifier::verification::{
    dkim_proof_hash, lemma_receipt_len, str_writes, strs_writes, zk_proof_hash,
};
use crate::common::api::{addr_check, StdErrorView};
use crate::types::credential_registry::{ExecuteMsgView as RegistryExecuteMsgView, IsVerifiedResponseView};

verus! {

/// A ZK credential that the verifier accepts comes with one message to the
/// credential registry. Delivered by the verifier contract that the schema
/// names, that message is accepted, and from then on the subject is
/// verified for the schema, by this credential, until it expires.
pub proof fn law_accepted_zk_credential_becomes_verified(
    v: CredentialVerifierView,
    now: u64,
    schema_id: Seq<char>,
    subject: Seq<char>,
    issuer: Seq<char>,
    proof: Seq<char>,
    public_inputs: Seq<Seq<char>>,
    expires_at: Option<u64>,
    api: Seq<(Seq<char>, Option<Seq<char>>)>,
    reg: CredentialRegistryView,
    verifier_addr: Seq<char>,
    reg_api: Seq<(Seq<char>, Option<Seq<char>>)>,
    later: u64,
    query_api: Seq<(Seq<char>, Option<Seq<char>>)>,
)
    requires
        verify_credential_outcome(
            v,
            now,
            schema_id,
            subject,
            issuer,
            proof,
            public_inputs,
            expires_at,
            api,
        ).1 is Ok,
        reg.has_schema(schema_id),
        reg.schema(schema_id).verifier_contract == verifier_addr,
        addr_check(reg_api, subject) is Ok,
        addr_check(reg_api, issuer) is Ok,
        addr_check(query_api, subject) is Ok,
    ensures
        ({
            let resp = verify_credential_outcome(
                v,
                now,
                schema_id,
                subject,
                issuer,
                proof,
                public_inputs,
                expires_at,
                api,
            ).1->Ok_0;
            let hash = zk_proof_hash(proof, public_inputs);
            let recorded = record_proof_outcome(
                reg,
                now,
                verifier_addr,
                schema_id,
                subject,
                hash,
                issuer,
                expires_at,
                reg_api,
            );
            &&& resp.messages == seq![
                (
                    v.config.credential_registry,
                    RegistryExecuteMsgView::RecordProof {
                        schema_id,
                        subject,
                        proof_hash: hash,
                        issuer,
                        expires_at,
                    },
                ),
            ]
            &&& recorded.1 is Ok
            &&& !expired(expires_at, later) ==> is_verified_outcome(
                recorded.0,
                later,
                subject,
                schema_id,
                query_api,
            ) == Ok::<
                IsVerifiedResponseView,
                StdErrorView,
            >(
                IsVerifiedResponseView {
                    verified: true,
                    proof_id: Some(next_proof_id(reg)),
                    expires_at,
                },
            )
        }),
{
    let hash = zk_proof_hash(proof, public_inputs);
    lemma_receipt_len(
        str_writes(proof)
            + strs_writes(public_inputs),
    );
    assert(hash.len() > 0);
    law_recorded_proof_verifies(
        reg,
        now,
        verifier_addr,
        schema_id,
        subject,
        hash,
        issuer,
        expires_at,
        reg_api,
        later,
        query_api,
    );
}

/// An email credential that the verifier accepts comes with one message to
/// the credential registry. Delivered by the verifier contract that the
/// schema names, that message is accepted, and from then on the subject is
/// verified for the schema, by this credential, until it expires.
pub proof fn law_accepted_email_credential_becomes_verified(
    v: CredentialVerifierView,
    now: u64,
    schema_id: Seq<char>,
    subject: Seq<char>,
    issuer: Seq<char>,
    email_domain: Seq<char>,
    dkim_signature: Seq<char>,
    email_headers: Seq<char>,
    expires_at: Option<u64>,
    api: Seq<(Seq<char>, Option<Seq<char>>)>,
    reg: CredentialRegistryView,
    verifier_addr: Seq<char>,
    reg_api: Seq<(Seq<char>, Option<Seq<char>>)>,
    later: u64,
    query_api: Seq<(Seq<char>, Option<Seq<char>>)>,
)
    requires
        verify_email_credential_outcome(
            v,
            now,
            schema_id,
            subject,
            issuer,
            email_domain,
            dkim_signature,
            email_headers,
            expires_at,
            api,
        ).1 is Ok,
        reg.has_schema(schema_id),
        reg.schema(schema_id).verifier_contract == verifier_addr,
        addr_check(reg_api, subject) is Ok,
        addr_check(reg_api, issuer) is Ok,
        addr_check(query_api, subject) is Ok,
    ensures
        ({
            let resp = verify_email_credential_outcome(
                v,
                now,
                schema_id,
                subject,
                issuer,
                email_domain,
                dkim_signature,
                email_headers,
                expires_at,
                api,
            ).1->Ok_0;
            let hash = dkim_proof_hash(email_domain, dkim_signature);
            let recorded = record_proof_outcome(
                reg,
                now,
                verifier_addr,
                schema_id,
                subject,
                hash,
                issuer,
                expires_at,
                reg_api,
            );
            &&& resp.messages == seq![
                (
                    v.config.credential_registry,
                    RegistryExecuteMsgView::RecordProof {
                        schema_id,
                        subject,
                        proof_hash: hash,
                        issuer,
                        expires_at,
                    },
                ),
            ]
            &&& recorded.1 is Ok
            &&& !expired(expires_at, later) ==> is_verified_outcome(
                recorded.0,
                later,
                subject,
                schema_id,
                query_api,
            ) == Ok::<
                IsVerifiedResponseView,
                StdErrorView,
            >(
                IsVerifiedResponseView {
                    verified: true,
                    proof_id: Some(next_proof_id(reg)),
                    expires_at,
                },
            )
        }),
{
    let hash = dkim_proof_hash(email_domain, dkim_signature);
    lemma_receipt_len(
        str_writes(email_domain)
            + str_writes(dkim_signature),
    );
    assert(hash.len() > 0);
    law_recorded_proof_verifies(
        reg,
        now,
        verifier_addr,
        schema_id,
        subject,
        hash,
        issuer,
        expires_at,
        reg_api,
        later,
        query_api,
    );
}

} // verus!
