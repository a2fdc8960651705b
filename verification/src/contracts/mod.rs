//! The three contracts: the issuer registry (who may issue which
//! credentials), the credential registry (schemas and recorded proofs) and
//! the credential verifier (checks proofs and has them recorded).

pub mod issuer_registry;
pub mod credential_registry;
pub mod credential_verifier;
pub mod flow;
