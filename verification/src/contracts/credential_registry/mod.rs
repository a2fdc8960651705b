//! The credential registry: credential schemas and the proofs recorded
//! against them, which any application can query.

pub mod contract;
pub mod error;

pub mod laws;
