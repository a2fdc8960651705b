//! Why the credential registry rejects a message.

use vstd::prelude::*;

use crate::common::api::{std_error_message, std_error_text, StdError, StdErrorView};
use crate::common::text::{decimal, decimal_string};

verus! {

#[derive(Debug, Clone, PartialEq, Eq)]
pub enum ContractError {
    Std(StdError),
    Unauthorized,
    SchemaAlreadyExists { schema_id: String },
    SchemaNotFound { schema_id: String },
    ProofNotFound { proof_id: u64 },
    ProofAlreadyRevoked { proof_id: u64 },
    SchemaIdTooLong { max: usize },
    EmptySchemaId,
    EmptyName,
    DescriptionTooLong { max: usize },
    EmptyProofHash,
    EmptyCredentialTypes,
    EmptyRevocationReason,
    UnauthorizedRecorder,
}

pub enum ContractErrorView {
    Std(StdErrorView),
    Unauthorized,
    SchemaAlreadyExists { schema_id: Seq<char> },
    SchemaNotFound { schema_id: Seq<char> },
    ProofNotFound { proof_id: u64 },
    ProofAlreadyRevoked { proof_id: u64 },
    SchemaIdTooLong { max: usize },
    EmptySchemaId,
    EmptyName,
    DescriptionTooLong { max: usize },
    EmptyProofHash,
    EmptyCredentialTypes,
    EmptyRevocationReason,
    UnauthorizedRecorder,
}

impl View for ContractError {
    type V = ContractErrorView;

    open spec fn view(&self) -> ContractErrorView {
        match self {
            ContractError::Std(e) => ContractErrorView::Std(e@),
            ContractError::Unauthorized => ContractErrorView::Unauthorized,
            ContractError::SchemaAlreadyExists { schema_id } =>
                ContractErrorView::SchemaAlreadyExists { schema_id: schema_id@ },
            ContractError::SchemaNotFound { schema_id } => ContractErrorView::SchemaNotFound {
                schema_id: schema_id@,
            },
            ContractError::ProofNotFound { proof_id } => ContractErrorView::ProofNotFound {
                proof_id: *proof_id,
            },
            ContractError::ProofAlreadyRevoked { proof_id } =>
                ContractErrorView::ProofAlreadyRevoked { proof_id: *proof_id },
            ContractError::SchemaIdTooLong { max } => ContractErrorView::SchemaIdTooLong {
                max: *max,
            },
            ContractError::EmptySchemaId => ContractErrorView::EmptySchemaId,
            ContractError::EmptyName => ContractErrorView::EmptyName,
            ContractError::DescriptionTooLong { max } => ContractErrorView::DescriptionTooLong {
                max: *max,
            },
            ContractError::EmptyProofHash => ContractErrorView::EmptyProofHash,
            ContractError::EmptyCredentialTypes => ContractErrorView::EmptyCredentialTypes,
            ContractError::EmptyRevocationReason => ContractErrorView::EmptyRevocationReason,
            ContractError::UnauthorizedRecorder => ContractErrorView::UnauthorizedRecorder,
        }
    }
}

impl ContractErrorView {
    /// The text that describes the error.
    pub open spec fn text(self) -> Seq<char> {
        match self {
            ContractErrorView::Std(e) => std_error_text(e),
            ContractErrorView::Unauthorized => "Unauthorized: only the admin can perform this action"@,
            ContractErrorView::SchemaAlreadyExists { schema_id } => "Schema '"@ + schema_id
                + "' already exists"@,
            ContractErrorView::SchemaNotFound { schema_id } => "Schema '"@ + schema_id
                + "' not found"@,
            ContractErrorView::ProofNotFound { proof_id } => "Proof record "@ + decimal(
                proof_id as nat,
            ) + " not found"@,
            ContractErrorView::ProofAlreadyRevoked { proof_id } => "Proof record "@ + decimal(
                proof_id as nat,
            ) + " is already revoked"@,
            ContractErrorView::SchemaIdTooLong { max } => "Schema ID exceeds maximum length of "@
                + decimal(max as nat) + " characters"@,
            ContractErrorView::EmptySchemaId => "Schema ID cannot be empty"@,
            ContractErrorView::EmptyName => "Name cannot be empty"@,
            ContractErrorView::DescriptionTooLong { max } =>
                "Description exceeds maximum length of "@ + decimal(max as nat) + " characters"@,
            ContractErrorView::EmptyProofHash => "Proof hash cannot be empty"@,
            ContractErrorView::EmptyCredentialTypes => "Credential types list cannot be empty"@,
            ContractErrorView::EmptyRevocationReason => "Revocation reason cannot be empty"@,
            ContractErrorView::UnauthorizedRecorder =>
                "Only the verifier contract or admin can record proofs"@,
        }
    }
}

impl ContractError {
    /// The text that describes the error.
    pub fn message(&self) -> (r: String)
        ensures
            r@ == self@.text(),
    {
        match self {
            ContractError::Std(e) => std_error_message(e),
            ContractError::Unauthorized => String::from_str(
                "Unauthorized: only the admin can perform this action",
            ),
            ContractError::SchemaAlreadyExists { schema_id } => String::from_str(
                "Schema '",
            ).concat(schema_id.as_str()).concat("' already exists"),
            ContractError::SchemaNotFound { schema_id } => String::from_str("Schema '").concat(
                schema_id.as_str(),
            ).concat("' not found"),
            ContractError::ProofNotFound { proof_id } => {
                let n = decimal_string(*proof_id);
                String::from_str("Proof record ").concat(n.as_str()).concat(" not found")
            },
            ContractError::ProofAlreadyRevoked { proof_id } => {
                let n = decimal_string(*proof_id);
                String::from_str("Proof record ").concat(n.as_str()).concat(" is already revoked")
            },
            ContractError::SchemaIdTooLong { max } => {
                let n = decimal_string(*max as u64);
                String::from_str("Schema ID exceeds maximum length of ").concat(n.as_str()).concat(
                    " characters",
                )
            },
            ContractError::EmptySchemaId => String::from_str("Schema ID cannot be empty"),
            ContractError::EmptyName => String::from_str("Name cannot be empty"),
            ContractError::DescriptionTooLong { max } => {
                let n = decimal_string(*max as u64);
                String::from_str("Description exceeds maximum length of ").concat(
                    n.as_str(),
                ).concat(" characters")
            },
            ContractError::EmptyProofHash => String::from_str("Proof hash cannot be empty"),
            ContractError::EmptyCredentialTypes => String::from_str(
                "Credential types list cannot be empty",
            ),
            ContractError::EmptyRevocationReason => String::from_str(
                "Revocation reason cannot be empty",
            ),
            ContractError::UnauthorizedRecorder => String::from_str(
                "Only the verifier contract or admin can record proofs",
            ),
        }
    }
}

} // verus!
