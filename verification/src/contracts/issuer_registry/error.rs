//! Why the issuer registry rejects a message.

use vstd::prelude::*;

use crate::common::api::{std_error_message, std_error_text, StdError, StdErrorView};
use crate::common::text::decimal_string;
use crate::common::text::decimal;

verus! {

#[derive(Debug, Clone, PartialEq, Eq)]
pub enum ContractError {
    Std(StdError),
    Unauthorized,
    IssuerAlreadyRegistered { issuer: String },
    IssuerNotFound { issuer: String },
    IssuerAlreadyRevoked { issuer: String },
    EmptyName,
    DescriptionTooLong { max: usize },
    EmptyCredentialTypes,
    EmptyRevocationReason,
    NoFieldsToUpdate,
}

pub enum ContractErrorView {
    Std(StdErrorView),
    Unauthorized,
    IssuerAlreadyRegistered { issuer: Seq<char> },
    IssuerNotFound { issuer: Seq<char> },
    IssuerAlreadyRevoked { issuer: Seq<char> },
    EmptyName,
    DescriptionTooLong { max: usize },
    EmptyCredentialTypes,
    EmptyRevocationReason,
    NoFieldsToUpdate,
}

impl View for ContractError {
    type V = ContractErrorView;

    open spec fn view(&self) -> ContractErrorView {
        match self {
            ContractError::Std(e) => ContractErrorView::Std(e@),
            ContractError::Unauthorized => ContractErrorView::Unauthorized,
            ContractError::IssuerAlreadyRegistered { issuer } =>
                ContractErrorView::IssuerAlreadyRegistered { issuer: issuer@ },
            ContractError::IssuerNotFound { issuer } => ContractErrorView::IssuerNotFound {
                issuer: issuer@,
            },
            ContractError::IssuerAlreadyRevoked { issuer } =>
                ContractErrorView::IssuerAlreadyRevoked { issuer: issuer@ },
            ContractError::EmptyName => ContractErrorView::EmptyName,
            ContractError::DescriptionTooLong { max } => ContractErrorView::DescriptionTooLong {
                max: *max,
            },
            ContractError::EmptyCredentialTypes => ContractErrorView::EmptyCredentialTypes,
            ContractError::EmptyRevocationReason => ContractErrorView::EmptyRevocationReason,
            ContractError::NoFieldsToUpdate => ContractErrorView::NoFieldsToUpdate,
        }
    }
}

impl ContractErrorView {
    /// The text that describes the error.
    pub open spec fn text(self) -> Seq<char> {
        match self {
            ContractErrorView::Std(e) => std_error_text(e),
            ContractErrorView::Unauthorized => "Unauthorized: only the admin can perform this action"@,
            ContractErrorView::IssuerAlreadyRegistered { issuer } => "Issuer '"@ + issuer
                + "' is already registered"@,
            ContractErrorView::IssuerNotFound { issuer } => "Issuer '"@ + issuer + "' not found"@,
            ContractErrorView::IssuerAlreadyRevoked { issuer } => "Issuer '"@ + issuer
                + "' is already revoked"@,
            ContractErrorView::EmptyName => "Issuer name cannot be empty"@,
            ContractErrorView::DescriptionTooLong { max } =>
                "Description exceeds maximum length of "@ + decimal(max as nat) + " characters"@,
            ContractErrorView::EmptyCredentialTypes => "Credential types list cannot be empty"@,
            ContractErrorView::EmptyRevocationReason => "Revocation reason cannot be empty"@,
            ContractErrorView::NoFieldsToUpdate => "Update must change at least one field"@,
        }
    }
}

impl ContractError {
    /// The text that describes the error.
    pub fn message(&self) -> (r: String)
        ensures
            r@ == self@.text(),
    {
        match self {
            ContractError::Std(e) => std_error_message(e),
            ContractError::Unauthorized => String::from_str(
                "Unauthorized: only the admin can perform this action",
            ),
            ContractError::IssuerAlreadyRegistered { issuer } => String::from_str(
                "Issuer '",
            ).concat(issuer.as_str()).concat("' is already registered"),
            ContractError::IssuerNotFound { issuer } => String::from_str("Issuer '").concat(
                issuer.as_str(),
            ).concat("' not found"),
            ContractError::IssuerAlreadyRevoked { issuer } => String::from_str("Issuer '").concat(
                issuer.as_str(),
            ).concat("' is already revoked"),
            ContractError::EmptyName => String::from_str("Issuer name cannot be empty"),
            ContractError::DescriptionTooLong { max } => {
                let n = decimal_string(*max as u64);
                String::from_str("Description exceeds maximum length of ").concat(
                    n.as_str(),
                ).concat(" characters")
            },
            ContractError::EmptyCredentialTypes => String::from_str(
                "Credential types list cannot be empty",
            ),
            ContractError::EmptyRevocationReason => String::from_str(
                "Revocation reason cannot be empty",
            ),
            ContractError::NoFieldsToUpdate => String::from_str(
                "Update must change at least one field",
            ),
        }
    }
}

} // verus!
