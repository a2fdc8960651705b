//! The issuer registry: trusted credential issuers and the credential types
//! each is authorized for.

pub mod contract;
pub mod error;

pub mod laws;
