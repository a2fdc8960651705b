//! Messages, records and responses of the issuer registry.

use vstd::prelude::*;

use crate::common::api::{one_address, opt_addresses, opt_list};
use crate::common::text::{copy_opt_string, copy_strings};

verus! {

// ── Messages ──────────────────────────────────────────────────────────

#[derive(Debug, Clone, PartialEq, Eq)]
pub struct InstantiateMsg {
    /// Optional admin address; defaults to the instantiator.
    pub admin: Option<String>,
}

#[derive(Debug, Clone, PartialEq, Eq)]
pub enum ExecuteMsg {
    /// Register a new trusted credential issuer (admin only).
    RegisterIssuer {
        issuer: String,
        name: String,
        description: String,
        credential_types: Vec<String>,
    },
    /// Revoke a previously registered issuer (admin only).
    RevokeIssuer { issuer: String, reason: String },
    /// Update issuer details (admin only).
    UpdateIssuer {
        issuer: String,
        name: Option<String>,
        description: Option<String>,
        credential_types: Option<Vec<String>>,
    },
    /// Update the admin address (admin only).
    UpdateAdmin { new_admin: String },
}

#[derive(Debug, Clone, PartialEq, Eq)]
pub enum QueryMsg {
    /// Whether an issuer is authorized for a credential type.
    IsAuthorized { issuer: String, credential_type: String },
    /// Details of one issuer.
    Issuer { issuer: String },
    /// All registered issuers, a page at a time.
    ListIssuers { start_after: Option<String>, limit: Option<u32> },
    /// Issuers authorized for a credential type, a page at a time.
    IssuersByType { credential_type: String, start_after: Option<String>, limit: Option<u32> },
    /// The current admin address.
    Admin {},
}

impl InstantiateMsg {
    /// The address strings this message names, which the chain is to validate.
    pub fn addresses(&self) -> (r: Vec<String>)
        ensures
            r.deep_view() == opt_list(self.admin),
    {
        opt_addresses(&self.admin)
    }
}

impl ExecuteMsg {
    pub open spec fn spec_addresses(&self) -> Seq<Seq<char>> {
        match self {
            ExecuteMsg::RegisterIssuer { issuer, .. } => seq![issuer@],
            ExecuteMsg::RevokeIssuer { issuer, .. } => seq![issuer@],
            ExecuteMsg::UpdateIssuer { issuer, .. } => seq![issuer@],
            ExecuteMsg::UpdateAdmin { new_admin } => seq![new_admin@],
        }
    }

    /// The address strings this message names, which the chain is to validate.
    pub fn addresses(&self) -> (r: Vec<String>)
        ensures
            r.deep_view() == self.spec_addresses(),
    {
        match self {
            ExecuteMsg::RegisterIssuer { issuer, .. } => one_address(issuer),
            ExecuteMsg::RevokeIssuer { issuer, .. } => one_address(issuer),
            ExecuteMsg::UpdateIssuer { issuer, .. } => one_address(issuer),
            ExecuteMsg::UpdateAdmin { new_admin } => one_address(new_admin),
        }
    }
}

impl QueryMsg {
    pub open spec fn spec_addresses(&self) -> Seq<Seq<char>> {
        match self {
            QueryMsg::IsAuthorized { issuer, .. } => seq![issuer@],
            QueryMsg::Issuer { issuer } => seq![issuer@],
            QueryMsg::ListIssuers { start_after, .. } => opt_list(*start_after),
            QueryMsg::IssuersByType { start_after, .. } => opt_list(*start_after),
            QueryMsg::Admin {} => seq![],
        }
    }

    /// The address strings this message names, which the chain is to validate.
    pub fn addresses(&self) -> (r: Vec<String>)
        ensures
            r.deep_view() == self.spec_addresses(),
    {
        match self {
            QueryMsg::IsAuthorized { issuer, .. } => one_address(issuer),
            QueryMsg::Issuer { issuer } => one_address(issuer),
            QueryMsg::ListIssuers { start_after, .. } => opt_addresses(start_after),
            QueryMsg::IssuersByType { start_after, .. } => opt_addresses(start_after),
            QueryMsg::Admin {} => {
                let r: Vec<String> = Vec::new();
                assert(r.deep_view() =~= seq![]);
                r
            },
        }
    }
}

// ── State types ───────────────────────────────────────────────────────

#[derive(Debug, Clone, PartialEq, Eq)]
pub struct IssuerRecord {
    pub address: String,
    pub name: String,
    pub description: String,
    pub credential_types: Vec<String>,
    pub registered_at: u64,
    pub active: bool,
    pub revoked_at: Option<u64>,
    pub revocation_reason: Option<String>,
}

pub struct IssuerRecordView {
    pub address: Seq<char>,
    pub name: Seq<char>,
    pub description: Seq<char>,
    pub credential_types: Seq<Seq<char>>,
    pub registered_at: u64,
    pub active: bool,
    pub revoked_at: Option<u64>,
    pub revocation_reason: Option<Seq<char>>,
}

impl View for IssuerRecord {
    type V = IssuerRecordView;

    open spec fn view(&self) -> IssuerRecordView {
        IssuerRecordView {
            address: self.address@,
            name: self.name@,
            description: self.description@,
            credential_types: self.credential_types.deep_view(),
            registered_at: self.registered_at,
            active: self.active,
            revoked_at: self.revoked_at,
            revocation_reason: self.revocation_reason.deep_view(),
        }
    }
}

impl DeepView for IssuerRecord {
    type V = IssuerRecordView;

    open spec fn deep_view(&self) -> IssuerRecordView {
        self@
    }
}

impl IssuerRecord {
    /// A copy of this record.
    pub fn duplicate(&self) -> (r: IssuerRecord)
        ensures
            r@ == self@,
    {
        IssuerRecord {
            address: self.address.clone(),
            name: self.name.clone(),
            description: self.description.clone(),
            credential_types: copy_strings(&self.credential_types),
            registered_at: self.registered_at,
            active: self.active,
            revoked_at: self.revoked_at,
            revocation_reason: copy_opt_string(&self.revocation_reason),
        }
    }
}

// ── Response types ────────────────────────────────────────────────────

#[derive(Debug, Clone, PartialEq, Eq)]
pub struct IsAuthorizedResponse {
    pub authorized: bool,
    pub issuer_name: Option<String>,
}

#[derive(Debug, Clone, PartialEq, Eq)]
pub struct IssuerResponse {
    pub issuer: IssuerRecord,
}

#[derive(Debug, Clone, PartialEq, Eq)]
pub struct IssuersResponse {
    pub issuers: Vec<IssuerRecord>,
}

#[derive(Debug, Clone, PartialEq, Eq)]
pub struct AdminResponse {
    pub admin: String,
}

pub struct IsAuthorizedResponseView {
    pub authorized: bool,
    pub issuer_name: Option<Seq<char>>,
}

impl View for IsAuthorizedResponse {
    type V = IsAuthorizedResponseView;

    open spec fn view(&self) -> IsAuthorizedResponseView {
        IsAuthorizedResponseView {
            authorized: self.authorized,
            issuer_name: self.issuer_name.deep_view(),
        }
    }
}

impl View for IssuerResponse {
    type V = IssuerRecordView;

    open spec fn view(&self) -> IssuerRecordView {
        self.issuer@
    }
}

impl View for IssuersResponse {
    type V = Seq<IssuerRecordView>;

    open spec fn view(&self) -> Seq<IssuerRecordView> {
        self.issuers.deep_view()
    }
}

impl View for AdminResponse {
    type V = Seq<char>;

    open spec fn view(&self) -> Seq<char> {
        self.admin@
    }
}

} // verus!
