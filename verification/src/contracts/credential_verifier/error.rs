//! Why the credential verifier rejects a message.

use vstd::prelude::*;

use crate::common::api::{std_error_message, std_error_text, StdError, StdErrorView};
use crate::common::text::{decimal, decimal_string};

verus! {

#[derive(Debug, Clone, PartialEq, Eq)]
pub enum ContractError {
    Std(StdError),
    Unauthorized,
    EmptySchemaId,
    EmptyProof,
    EmptyPublicInputs,
    EmptyDkimSignature,
    EmptyEmailHeaders,
    EmptyEmailDomain,
    EmptyBatch,
    BatchTooLarge { max: usize },
    VerificationNotFound { id: u64 },
    ZkVerificationFailed { reason: String },
    DkimVerificationFailed { reason: String },
    IssuerNotAuthorized { issuer: String, credential_type: String },
}

pub enum ContractErrorView {
    Std(StdErrorView),
    Unauthorized,
    EmptySchemaId,
    EmptyProof,
    EmptyPublicInputs,
    EmptyDkimSignature,
    EmptyEmailHeaders,
    EmptyEmailDomain,
    EmptyBatch,
    BatchTooLarge { max: usize },
    VerificationNotFound { id: u64 },
    ZkVerificationFailed { reason: Seq<char> },
    DkimVerificationFailed { reason: Seq<char> },
    IssuerNotAuthorized { issuer: Seq<char>, credential_type: Seq<char> },
}

impl View for ContractError {
    type V = ContractErrorView;

    open spec fn view(&self) -> ContractErrorView {
        match self {
            ContractError::Std(e) => ContractErrorView::Std(e@),
            ContractError::Unauthorized => ContractErrorView::Unauthorized,
            ContractError::EmptySchemaId => ContractErrorView::EmptySchemaId,
            ContractError::EmptyProof => ContractErrorView::EmptyProof,
            ContractError::EmptyPublicInputs => ContractErrorView::EmptyPublicInputs,
            ContractError::EmptyDkimSignature => ContractErrorView::EmptyDkimSignature,
            ContractError::EmptyEmailHeaders => ContractErrorView::EmptyEmailHeaders,
            ContractError::EmptyEmailDomain => ContractErrorView::EmptyEmailDomain,
            ContractError::EmptyBatch => ContractErrorView::EmptyBatch,
            ContractError::BatchTooLarge { max } => ContractErrorView::BatchTooLarge { max: *max },
            ContractError::VerificationNotFound { id } => ContractErrorView::VerificationNotFound {
                id: *id,
            },
            ContractError::ZkVerificationFailed { reason } =>
                ContractErrorView::ZkVerificationFailed { reason: reason@ },
            ContractError::DkimVerificationFailed { reason } =>
                ContractErrorView::DkimVerificationFailed { reason: reason@ },
            ContractError::IssuerNotAuthorized { issuer, credential_type } =>
                ContractErrorView::IssuerNotAuthorized {
                issuer: issuer@,
                credential_type: credential_type@,
            },
        }
    }
}

impl ContractErrorView {
    /// The text that describes the error.
    pub open spec fn text(self) -> Seq<char> {
        match self {
            ContractErrorView::Std(e) => std_error_text(e),
            ContractErrorView::Unauthorized => "Unauthorized: only the admin can perform this action"@,
            ContractErrorView::EmptySchemaId => "Schema ID cannot be empty"@,
            ContractErrorView::EmptyProof => "Proof data cannot be empty"@,
            ContractErrorView::EmptyPublicInputs => "Public inputs cannot be empty"@,
            ContractErrorView::EmptyDkimSignature => "DKIM signature cannot be empty"@,
            ContractErrorView::EmptyEmailHeaders => "Email headers cannot be empty"@,
            ContractErrorView::EmptyEmailDomain => "Email domain cannot be empty"@,
            ContractErrorView::EmptyBatch => "Batch verification list cannot be empty"@,
            ContractErrorView::BatchTooLarge { max } => "Batch size exceeds maximum of "@ + decimal(
                max as nat,
            ),
            ContractErrorView::VerificationNotFound { id } => "Verification record "@ + decimal(
                id as nat,
            ) + " not found"@,
            ContractErrorView::ZkVerificationFailed { reason } => "ZK proof verification failed: "@
                + reason,
            ContractErrorView::DkimVerificationFailed { reason } => "DKIM verification failed: "@
                + reason,
            ContractErrorView::IssuerNotAuthorized { issuer, credential_type } => "Issuer '"@
                + issuer + "' is not authorized for credential type '"@ + credential_type + "'"@,
        }
    }
}

impl ContractError {
    /// The text that describes the error.
    pub fn message(&self) -> (r: String)
        ensures
            r@ == self@.text(),
    {
        match self {
            ContractError::Std(e) => std_error_message(e),
            ContractError::Unauthorized => String::from_str(
                "Unauthorized: only the admin can perform this action",
            ),
            ContractError::EmptySchemaId => String::from_str("Schema ID cannot be empty"),
            ContractError::EmptyProof => String::from_str("Proof data cannot be empty"),
            ContractError::EmptyPublicInputs => String::from_str("Public inputs cannot be empty"),
            ContractError::EmptyDkimSignature => String::from_str("DKIM signature cannot be empty"),
            ContractError::EmptyEmailHeaders => String::from_str("Email headers cannot be empty"),
            ContractError::EmptyEmailDomain => String::from_str("Email domain cannot be empty"),
            ContractError::EmptyBatch => String::from_str("Batch verification list cannot be empty"),
            ContractError::BatchTooLarge { max } => {
                let n = decimal_string(*max as u64);
                String::from_str("Batch size exceeds maximum of ").concat(n.as_str())
            },
            ContractError::VerificationNotFound { id } => {
                let n = decimal_string(*id);
                String::from_str("Verification record ").concat(n.as_str()).concat(" not found")
            },
            ContractError::ZkVerificationFailed { reason } => String::from_str(
                "ZK proof verification failed: ",
            ).concat(reason.as_str()),
            ContractError::DkimVerificationFailed { reason } => String::from_str(
                "DKIM verification failed: ",
            ).concat(reason.as_str()),
            ContractError::IssuerNotAuthorized { issuer, credential_type } => String::from_str(
                "Issuer '",
            ).concat(issuer.as_str()).concat("' is not authorized for credential type '").concat(
                credential_type.as_str(),
            ).concat("'"),
        }
    }
}

} // verus!
