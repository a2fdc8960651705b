//! The credential verifier: checks zero-knowledge proofs and DKIM-signed
//! emails, keeps a record of each verification, and has the credential
//! registry record the proof.

pub mod error;
pub mod verification;
pub mod contract;
pub mod laws;
