//! ProofKit: on-chain verified credentials.
//!
//! The library holds the decision logic of the three ProofKit contracts
//! (issuer registry, credential registry, verifier): the state each of them
//! keeps, how every message changes that state, what every query answers,
//! and which error a rejected message gets.

pub mod common;
pub mod types;
pub mod contracts;
