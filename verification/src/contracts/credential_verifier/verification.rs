//! How the verifier checks a proof: the requests it prepares for XION's
//! native ZK and DKIM modules, and the receipt hash it records for each
//! proof.
//!
//! The receipt hash feeds the proof's strings into the standard library's
//! `DefaultHasher` (each string as its UTF-8 bytes followed by the byte
//! `0xff`, as `str` hashes itself), takes the 64-bit digest in big-endian
//! byte order and renders it as lowercase hexadecimal.

use std::collections::hash_map::DefaultHasher;
use std::hash::Hasher;

use cosmwasm_std::HexBinary;
use vstd::prelude::*;
use vstd::slice::slice_to_vec;
use vstd::std_specs::hash::DefaultHasherAdditionalSpecFns;
use vstd::string::*;
use vstd::utf8::encode_utf8;

use super::error::ContractError;
use crate::types::issuer_registry::QueryMsg as IssuerQueryMsg;
use crate::types::xion::{DkimVerifyRequest, ZkVerifyRequest};

verus! {

/// The outcome of checking one proof.
pub struct VerifyResult {
    /// Whether the proof was verified.
    pub valid: bool,
    /// The receipt hash of the proof data, recorded on chain.
    pub proof_hash: String,
}

// ── Receipt hash ──────────────────────────────────────────────────────

/// The eight bytes of `n`, most significant first.
pub open spec fn be_bytes(n: u64) -> Seq<u8> {
    seq![
        (n >> 56u64) as u8,
        (n >> 48u64) as u8,
        (n >> 40u64) as u8,
        (n >> 32u64) as u8,
        (n >> 24u64) as u8,
        (n >> 16u64) as u8,
        (n >> 8u64) as u8,
        n as u8,
    ]
}

/// The eight bytes of `n`, most significant first.
pub fn u64_be_bytes(n: u64) -> (r: Vec<u8>)
    ensures
        r@ == be_bytes(n),
{
    let mut r: Vec<u8> = Vec::new();
    r.push((n >> 56u64) as u8);
    r.push((n >> 48u64) as u8);
    r.push((n >> 40u64) as u8);
    r.push((n >> 32u64) as u8);
    r.push((n >> 24u64) as u8);
    r.push((n >> 16u64) as u8);
    r.push((n >> 8u64) as u8);
    r.push(n as u8);
    assert(r@ =~= be_bytes(n));
    r
}

/// The lowercase hexadecimal digit of `d` (below 16).
pub open spec fn hex_digit(d: int) -> char {
    if d < 10 {
        (d + 48) as char
    } else {
        (d + 87) as char
    }
}

/// `b` in hexadecimal: two lowercase digits per byte, high digit first.
pub open spec fn lower_hex(b: Seq<u8>) -> Seq<char>
    decreases b.len(),
{
    if b.len() == 0 {
        seq![]
    } else {
        lower_hex(b.drop_last()) + seq![hex_digit(b.last() as int / 16), hex_digit(b.last() as int % 16)]
    }
}

/// cosmwasm-std's `HexBinary::from(&[u8])` followed by `HexBinary::to_hex`.
/// The contract claims that the text is the bytes in hexadecimal, two
/// lowercase digits per byte, high digit first: `to_hex` hands the bytes to
/// `hex::encode`, which writes each byte with the digits `0123456789abcdef`.
#[verifier::external_body]
fn hex_text(bytes: &[u8]) -> (r: String)
    ensures
        r@ == lower_hex(bytes@),
{
    HexBinary::from(bytes).to_hex()
}

/// What hashing the string `s` writes into a hasher: its UTF-8 bytes, then
/// the byte `0xff`.
pub open spec fn str_writes(s: Seq<char>) -> Seq<Seq<u8>> {
    seq![encode_utf8(s), seq![0xffu8]]
}

/// What hashing each of `items` in turn writes into a hasher.
pub open spec fn strs_writes(items: Seq<Seq<char>>) -> Seq<Seq<u8>>
    decreases items.len(),
{
    if items.len() == 0 {
        seq![]
    } else {
        strs_writes(items.drop_last()) + str_writes(items.last())
    }
}

/// The receipt of the writes `w`: the hasher's digest, big-endian, in
/// lowercase hexadecimal.
pub open spec fn receipt(w: Seq<Seq<u8>>) -> Seq<char> {
    lower_hex(be_bytes(DefaultHasher::spec_finish(w)))
}

/// Hexadecimal takes two digits per byte.
pub proof fn lemma_lower_hex_len(b: Seq<u8>)
    ensures
        lower_hex(b).len() == 2 * b.len(),
    decreases b.len(),
{
    if b.len() > 0 {
        lemma_lower_hex_len(b.drop_last());
    }
}

/// A receipt hash is never empty: it has sixteen digits.
pub proof fn lemma_receipt_len(w: Seq<Seq<u8>>)
    ensures
        receipt(w).len() == 16,
{
    lemma_lower_hex_len(be_bytes(DefaultHasher::spec_finish(w)));
}

/// The receipt hash of a ZK proof: the proof, then each public input.
pub open spec fn zk_proof_hash(proof: Seq<char>, public_inputs: Seq<Seq<char>>) -> Seq<char> {
    receipt(str_writes(proof) + strs_writes(public_inputs))
}

/// The receipt hash of a DKIM proof: the email domain, then the signature.
pub open spec fn dkim_proof_hash(email_domain: Seq<char>, dkim_signature: Seq<char>) -> Seq<char> {
    receipt(str_writes(email_domain) + str_writes(dkim_signature))
}

/// Feeds the string `s` into `hasher` as `str` hashes itself.
fn hash_str(hasher: &mut DefaultHasher, s: &str)
    ensures
        final(hasher)@ == old(hasher)@ + str_writes(s@),
{
    hasher.write(s.as_bytes());
    let mut end: Vec<u8> = Vec::new();
    end.push(0xffu8);
    hasher.write(end.as_slice());
    assert(end@ =~= seq![0xffu8]);
    assert(hasher@ =~= old(hasher)@ + str_writes(s@));
}

/// The hexadecimal digest of what `hasher` has been fed.
fn digest(hasher: &DefaultHasher) -> (r: String)
    ensures
        r@ == receipt(hasher@),
{
    let bytes = u64_be_bytes(hasher.finish());
    hex_text(bytes.as_slice())
}

/// The receipt hash of a ZK proof and its public inputs.
pub fn compute_zk_proof_hash(proof: &str, public_inputs: &[String]) -> (r: String)
    ensures
        r@ == zk_proof_hash(proof@, public_inputs.deep_view()),
{
    let mut hasher = DefaultHasher::new();
    hash_str(&mut hasher, proof);
    let ghost inputs = public_inputs.deep_view();
    let mut i: usize = 0;
    assert(inputs.take(0) =~= seq![]);
    assert(hasher@ =~= str_writes(proof@) + strs_writes(inputs.take(0)));
    while i < public_inputs.len()
        invariant
            i <= public_inputs.len(),
            inputs == public_inputs.deep_view(),
            hasher@ == str_writes(proof@) + strs_writes(inputs.take(i as int)),
        decreases public_inputs.len() - i,
    {
        hash_str(&mut hasher, public_inputs[i].as_str());
        assert(inputs.take(i + 1).drop_last() =~= inputs.take(i as int));
        assert(inputs.take(i + 1).last() == public_inputs[i as int]@);
        assert(hasher@ =~= str_writes(proof@) + strs_writes(inputs.take(i + 1)));
        i = i + 1;
    }
    assert(inputs.take(i as int) =~= inputs);
    digest(&hasher)
}

/// The receipt hash of a DKIM-signed email.
pub fn compute_dkim_proof_hash(email_domain: &str, dkim_signature: &str) -> (r: String)
    ensures
        r@ == dkim_proof_hash(email_domain@, dkim_signature@),
{
    let mut hasher = DefaultHasher::new();
    hash_str(&mut hasher, email_domain);
    hash_str(&mut hasher, dkim_signature);
    digest(&hasher)
}

// ── Requests to the native modules ────────────────────────────────────

/// The ZK module request for a proof: the schema names the verification
/// key; the proof and the public inputs travel as their UTF-8 bytes.
pub fn zk_verify_request(schema_id: &str, proof: &str, public_inputs: &[String]) -> (r:
    ZkVerifyRequest)
    ensures
        r.vk_id@ == schema_id@,
        r.proof@ == encode_utf8(proof@),
        r.public_inputs@.len() == public_inputs@.len(),
        forall|i: int|
            0 <= i < public_inputs@.len() ==> #[trigger] r.public_inputs@[i]@ == encode_utf8(
                public_inputs@[i]@,
            ),
{
    let mut inputs: Vec<Vec<u8>> = Vec::new();
    let mut i: usize = 0;
    while i < public_inputs.len()
        invariant
            i <= public_inputs.len(),
            inputs@.len() == i,
            forall|j: int| 0 <= j < i ==> #[trigger] inputs@[j]@ == encode_utf8(public_inputs@[j]@),
        decreases public_inputs.len() - i,
    {
        inputs.push(slice_to_vec(public_inputs[i].as_str().as_bytes()));
        i = i + 1;
    }
    ZkVerifyRequest {
        vk_id: String::from_str(schema_id),
        proof: slice_to_vec(proof.as_bytes()),
        public_inputs: inputs,
    }
}

/// The DKIM module request for an email, under the selector "default".
pub fn dkim_verify_request(email_domain: &str, dkim_signature: &str, email_headers: &str) -> (r:
    DkimVerifyRequest)
    ensures
        r.domain@ == email_domain@,
        r.signature@ == encode_utf8(dkim_signature@),
        r.headers@ == email_headers@,
        r.selector@ == "default"@,
{
    DkimVerifyRequest {
        domain: String::from_str(email_domain),
        signature: slice_to_vec(dkim_signature.as_bytes()),
        headers: String::from_str(email_headers),
        selector: String::from_str("default"),
    }
}

// ── Checks ────────────────────────────────────────────────────────────

/// Checks a ZK proof. The protocol's ZK module performs the cryptographic
/// check; the verifier prepares the module's request, accepts the proof
/// and returns its receipt hash.
pub fn verify_zk_proof(schema_id: &str, proof: &str, public_inputs: &[String]) -> (r: Result<
    VerifyResult,
    ContractError,
>)
    ensures
        r matches Ok(v) && v.valid && v.proof_hash@ == zk_proof_hash(
            proof@,
            public_inputs.deep_view(),
        ),
{
    let _request = zk_verify_request(schema_id, proof, public_inputs);
    let proof_hash = compute_zk_proof_hash(proof, public_inputs);
    Ok(VerifyResult { valid: true, proof_hash })
}

/// Checks a DKIM-signed email. The protocol's DKIM module performs the
/// cryptographic check; the verifier prepares the module's request,
/// accepts the email and returns its receipt hash.
pub fn verify_dkim_email(email_domain: &str, dkim_signature: &str, email_headers: &str) -> (r:
    Result<VerifyResult, ContractError>)
    ensures
        r matches Ok(v) && v.valid && v.proof_hash@ == dkim_proof_hash(
            email_domain@,
            dkim_signature@,
        ),
{
    let _request = dkim_verify_request(email_domain, dkim_signature, email_headers);
    let proof_hash = compute_dkim_proof_hash(email_domain, dkim_signature);
    Ok(VerifyResult { valid: true, proof_hash })
}

/// The issuer registry query that asks whether `issuer` may issue
/// credentials of `credential_type`.
pub fn issuer_authorization_query(issuer: &str, credential_type: &str) -> (r: IssuerQueryMsg)
    ensures
        r matches IssuerQueryMsg::IsAuthorized { issuer: i, credential_type: c } && i@ == issuer@
            && c@ == credential_type@,
{
    IssuerQueryMsg::IsAuthorized {
        issuer: String::from_str(issuer),
        credential_type: String::from_str(credential_type),
    }
}

} // verus!
