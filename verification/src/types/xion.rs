//! Requests and responses of XION's native ZK and DKIM modules.
//!
//! XION verifies zero-knowledge proofs and DKIM email signatures at the
//! protocol level; a contract reaches these modules through Stargate
//! queries. Byte payloads are held here as plain bytes.

use vstd::prelude::*;
use vstd::slice::slice_to_vec;

verus! {

// ── ZK Module ─────────────────────────────────────────────────────────

/// Stargate path of the ZK proof verification query.
pub const ZK_VERIFY_QUERY_PATH: &'static str = "/xion.zkmodule.v1.Query/VerifyProof";

/// Request to the ZK module.
#[derive(Debug, Clone, PartialEq, Eq)]
pub struct ZkVerifyRequest {
    /// The verification key identifier registered with the ZK module.
    pub vk_id: String,
    /// The proof bytes.
    pub proof: Vec<u8>,
    /// Public inputs of the circuit.
    pub public_inputs: Vec<Vec<u8>>,
}

/// Response of the ZK module.
#[derive(Debug, Clone, PartialEq, Eq)]
pub struct ZkVerifyResponse {
    /// Whether the proof is valid.
    pub valid: bool,
    /// Why verification failed, when it did.
    pub error: Option<String>,
}

// ── DKIM Module ───────────────────────────────────────────────────────

/// Stargate path of the DKIM verification query.
pub const DKIM_VERIFY_QUERY_PATH: &'static str = "/xion.dkim.v1.Query/VerifyDkim";

/// Request to the DKIM module.
#[derive(Debug, Clone, PartialEq, Eq)]
pub struct DkimVerifyRequest {
    /// The email domain to verify (e.g. "company.com").
    pub domain: String,
    /// The DKIM signature bytes.
    pub signature: Vec<u8>,
    /// The canonicalized email headers that were signed.
    pub headers: String,
    /// The DKIM selector (e.g. "google", "default").
    pub selector: String,
}

/// Response of the DKIM module.
#[derive(Debug, Clone, PartialEq, Eq)]
pub struct DkimVerifyResponse {
    /// Whether the signature is valid.
    pub valid: bool,
    /// The verified email domain.
    pub domain: String,
    /// Why verification failed, when it did.
    pub error: Option<String>,
}

/// The XION-specific queries a contract can send.
#[derive(Debug, Clone, PartialEq, Eq)]
pub enum XionQuery {
    VerifyZkProof(ZkVerifyRequest),
    VerifyDkim(DkimVerifyRequest),
}

// ── Queries ───────────────────────────────────────────────────────────

/// The native-module query that checks a ZK proof.
pub fn build_zk_verify_query(request: &ZkVerifyRequest) -> (r: XionQuery)
    ensures
        r matches XionQuery::VerifyZkProof(q) && q.vk_id@ == request.vk_id@ && q.proof@
            == request.proof@ && q.public_inputs@.len() == request.public_inputs@.len() && (
        forall|i: int|
            0 <= i < request.public_inputs@.len() ==> #[trigger] q.public_inputs@[i]@
                == request.public_inputs@[i]@),
{
    let mut inputs: Vec<Vec<u8>> = Vec::new();
    let mut i: usize = 0;
    while i < request.public_inputs.len()
        invariant
            i <= request.public_inputs.len(),
            inputs@.len() == i,
            forall|j: int| 0 <= j < i ==> #[trigger] inputs@[j]@ == request.public_inputs@[j]@,
        decreases request.public_inputs.len() - i,
    {
        inputs.push(slice_to_vec(request.public_inputs[i].as_slice()));
        i = i + 1;
    }
    XionQuery::VerifyZkProof(
        ZkVerifyRequest {
            vk_id: request.vk_id.clone(),
            proof: slice_to_vec(request.proof.as_slice()),
            public_inputs: inputs,
        },
    )
}

/// The native-module query that checks a DKIM signature.
pub fn build_dkim_verify_query(request: &DkimVerifyRequest) -> (r: XionQuery)
    ensures
        r matches XionQuery::VerifyDkim(q) && q.domain@ == request.domain@ && q.signature@
            == request.signature@ && q.headers@ == request.headers@ && q.selector@
            == request.selector@,
{
    XionQuery::VerifyDkim(
        DkimVerifyRequest {
            domain: request.domain.clone(),
            signature: slice_to_vec(request.signature.as_slice()),
            headers: request.headers.clone(),
            selector: request.selector.clone(),
        },
    )
}

} // verus!
