//! The issuer registry's state, how each message changes it, and what each
//! query answers.
//!
//! Issuers are kept in the order of their addresses' stored keys, which is
//! the order in which listings return them.

use vstd::prelude::*;

use super::error::{ContractError, ContractErrorView};
use crate::common::api::{addr_check, std_result_matches, Api, StdError, StdErrorView};
use crate::common::paging::{
    clamp_limit, effective_limit, lemma_filter_take_step, lemma_page_all, lemma_page_full, page,
};
use crate::common::response::{attributes_response, Response, ResponseView};
use crate::common::text::{
    contains_str, join, joined, key_bytes, key_lt, lemma_str_lt_strict, lemma_str_lt_total,
    lemma_str_lt_transitive, str_lt,
};
use crate::types::issuer_registry::{
    AdminResponse, ExecuteMsg, InstantiateMsg, IsAuthorizedResponse, IsAuthorizedResponseView,
    IssuerRecord, IssuerRecordView, IssuerResponse, IssuersResponse, QueryMsg,
};
use crate::types::MAX_DESCRIPTION_LENGTH;

verus! {

// ── State ─────────────────────────────────────────────────────────────

/// The registry: its admin and the registered issuers, ordered by address.
pub struct IssuerRegistry {
    admin: String,
    issuers: Vec<IssuerRecord>,
}

pub struct IssuerRegistryView {
    pub admin: Seq<char>,
    pub issuers: Seq<IssuerRecordView>,
}

/// Each issuer's address is listed before the next one's: strictly
/// ascending, so no address occurs twice.
pub open spec fn addresses_ascending(s: Seq<IssuerRecordView>) -> bool {
    forall|i: int, j: int|
        0 <= i < j < s.len() ==> str_lt(#[trigger] s[i].address, #[trigger] s[j].address)
}

/// `p` is where an issuer with address `a` belongs in `s`.
pub open spec fn insertion_point(s: Seq<IssuerRecordView>, a: Seq<char>, p: int) -> bool {
    &&& 0 <= p <= s.len()
    &&& forall|j: int| 0 <= j < p ==> str_lt(#[trigger] s[j].address, a)
    &&& forall|j: int| p <= j < s.len() ==> str_lt(a, #[trigger] s[j].address)
}

impl IssuerRegistryView {
    pub open spec fn wf(self) -> bool {
        addresses_ascending(self.issuers)
    }

    pub open spec fn has_issuer(self, a: Seq<char>) -> bool {
        exists|i: int| 0 <= i < self.issuers.len() && #[trigger] self.issuers[i].address == a
    }

    /// The position of the issuer with address `a`.
    pub open spec fn index_of(self, a: Seq<char>) -> int {
        choose|i: int| 0 <= i < self.issuers.len() && #[trigger] self.issuers[i].address == a
    }

    /// The record of the issuer with address `a`.
    pub open spec fn issuer(self, a: Seq<char>) -> IssuerRecordView {
        self.issuers[self.index_of(a)]
    }

    /// Whether `a` is a registered, active issuer authorized for `credential_type`.
    pub open spec fn authorizes(self, a: Seq<char>, credential_type: Seq<char>) -> bool {
        &&& self.has_issuer(a)
        &&& self.issuer(a).active
        &&& self.issuer(a).credential_types.contains(credential_type)
    }

    /// Where an issuer with address `a` belongs.
    pub open spec fn insert_pos(self, a: Seq<char>) -> int {
        choose|p: int| insertion_point(self.issuers, a, p)
    }

    /// The registry with `rec` added in its place.
    pub open spec fn with_issuer(self, rec: IssuerRecordView) -> IssuerRegistryView {
        IssuerRegistryView {
            admin: self.admin,
            issuers: self.issuers.insert(self.insert_pos(rec.address), rec),
        }
    }

    /// The registry with the record of issuer `a` replaced by `rec`.
    pub open spec fn with_record(self, a: Seq<char>, rec: IssuerRecordView) -> IssuerRegistryView {
        IssuerRegistryView { admin: self.admin, issuers: self.issuers.update(self.index_of(a), rec) }
    }

    /// The registry with `a` as admin.
    pub open spec fn with_admin(self, a: Seq<char>) -> IssuerRegistryView {
        IssuerRegistryView { admin: a, issuers: self.issuers }
    }
}

impl View for IssuerRegistry {
    type V = IssuerRegistryView;

    closed spec fn view(&self) -> IssuerRegistryView {
        IssuerRegistryView { admin: self.admin@, issuers: self.issuers.deep_view() }
    }
}

impl IssuerRegistry {
    #[verifier::type_invariant]
    spec fn inv(self) -> bool {
        self@.wf()
    }
}

// ── Facts about the order of issuers ──────────────────────────────────

/// In a well-formed registry, an issuer found at `i` is the one `index_of` names.
pub proof fn lemma_index_of(s: IssuerRegistryView, a: Seq<char>, i: int)
    requires
        s.wf(),
        0 <= i < s.issuers.len(),
        s.issuers[i].address == a,
    ensures
        s.has_issuer(a),
        s.index_of(a) == i,
{
    let k = s.index_of(a);
    assert(s.issuers[i].address == a);
    if k < i {
        lemma_str_lt_strict(s.issuers[k].address, s.issuers[i].address);
    } else if k > i {
        lemma_str_lt_strict(s.issuers[i].address, s.issuers[k].address);
    }
}

/// There is only one place for an address.
pub proof fn lemma_insert_pos(s: IssuerRegistryView, a: Seq<char>, p: int)
    requires
        insertion_point(s.issuers, a, p),
    ensures
        s.insert_pos(a) == p,
        !s.has_issuer(a),
{
    let q = s.insert_pos(a);
    assert(insertion_point(s.issuers, a, q));
    if q < p {
        lemma_str_lt_strict(s.issuers[q].address, a);
    } else if q > p {
        lemma_str_lt_strict(s.issuers[p].address, a);
        lemma_str_lt_strict(a, s.issuers[p].address);
    }
    if s.has_issuer(a) {
        let i = choose|i: int| 0 <= i < s.issuers.len() && #[trigger] s.issuers[i].address == a;
        if i < p {
            lemma_str_lt_strict(s.issuers[i].address, a);
        } else {
            lemma_str_lt_strict(a, s.issuers[i].address);
        }
    }
}

/// Adding a record at its place keeps the order.
pub proof fn lemma_insert_ascending(s: Seq<IssuerRecordView>, rec: IssuerRecordView, p: int)
    requires
        addresses_ascending(s),
        insertion_point(s, rec.address, p),
    ensures
        addresses_ascending(s.insert(p, rec)),
{
    let t = s.insert(p, rec);
    assert forall|i: int, j: int| 0 <= i < j < t.len() implies str_lt(
        #[trigger] t[i].address,
        #[trigger] t[j].address,
    ) by {
        if j < p {
            assert(t[i] == s[i] && t[j] == s[j]);
        } else if j == p {
            assert(t[i] == s[i]);
        } else if i < p {
            assert(t[i] == s[i] && t[j] == s[j - 1]);
            lemma_str_lt_transitive(s[i].address, rec.address, s[j - 1].address);
        } else if i == p {
            assert(t[j] == s[j - 1]);
        } else {
            assert(t[i] == s[i - 1] && t[j] == s[j - 1]);
        }
    }
}

/// Replacing a record by one with the same address keeps the order.
pub proof fn lemma_update_ascending(s: Seq<IssuerRecordView>, k: int, rec: IssuerRecordView)
    requires
        addresses_ascending(s),
        0 <= k < s.len(),
        rec.address == s[k].address,
    ensures
        addresses_ascending(s.update(k, rec)),
{
    let t = s.update(k, rec);
    assert forall|i: int, j: int| 0 <= i < j < t.len() implies str_lt(
        #[trigger] t[i].address,
        #[trigger] t[j].address,
    ) by {
        assert(t[i].address == s[i].address);
        assert(t[j].address == s[j].address);
    }
}

// ── Construction and access ───────────────────────────────────────────

/// The admin address that instantiation sets: the one the message names,
/// once validated, or else the sender.
pub open spec fn instantiate_admin(
    sender: Seq<char>,
    admin: Option<Seq<char>>,
    api: Seq<(Seq<char>, Option<Seq<char>>)>,
) -> Result<Seq<char>, StdErrorView> {
    match admin {
        None => Ok(sender),
        Some(a) => addr_check(api, a),
    }
}

/// The registry at instantiation, with the admin address validated first.
pub fn instantiate(sender: &String, msg: InstantiateMsg, api: &Api) -> (r: Result<
    (IssuerRegistry, Response),
    ContractError,
>)
    ensures
        match instantiate_admin(sender@, msg.admin.deep_view(), api@) {
            Err(e) => r is Err && r->Err_0@ == ContractErrorView::Std(e),
            Ok(a) => r is Ok && r->Ok_0.0@ == (IssuerRegistryView { admin: a, issuers: seq![] })
                && r->Ok_0.1@ == attributes_response(
                seq![("action"@, "instantiate"@), ("admin"@, a)],
            ),
        },
{
    let admin = match &msg.admin {
        Some(a) => match api.addr_validate(a) {
            Ok(v) => v,
            Err(e) => {
                return Err(ContractError::Std(e));
            },
        },
        None => sender.clone(),
    };
    let mut resp = Response::new();
    resp.add_attribute("action", String::from_str("instantiate"));
    resp.add_attribute("admin", admin.clone());
    let state = IssuerRegistry { admin, issuers: Vec::new() };
    assert(state@.issuers =~= seq![]);
    assert(resp@.attributes =~= seq![("action"@, "instantiate"@), ("admin"@, state@.admin)]);
    Ok((state, resp))
}

impl IssuerRegistry {
    /// Rebuilds a registry from its admin and its issuers; `None` unless the
    /// issuers are strictly ascending by address.
    pub fn from_parts(admin: String, issuers: Vec<IssuerRecord>) -> (r: Option<IssuerRegistry>)
        ensures
            r is Some <==> addresses_ascending(issuers.deep_view()),
            r is Some ==> r->Some_0@ == (IssuerRegistryView {
                admin: admin@,
                issuers: issuers.deep_view(),
            }),
    {
        let ghost s = issuers.deep_view();
        let mut i: usize = 1;
        while i < issuers.len()
            invariant
                1 <= i,
                s == issuers.deep_view(),
                issuers.len() > 0 ==> i <= issuers.len(),
                forall|a: int, b: int| 0 <= a < b < i && b < s.len() ==> str_lt(
                    #[trigger] s[a].address,
                    #[trigger] s[b].address,
                ),
            decreases issuers.len() - i,
        {
            if !key_lt(issuers[i - 1].address.as_str(), issuers[i].address.as_str()) {
                assert(!str_lt(s[i - 1].address, s[i as int].address));
                return None;
            }
            assert forall|a: int, b: int| 0 <= a < b < i + 1 && b < s.len() implies str_lt(
                #[trigger] s[a].address,
                #[trigger] s[b].address,
            ) by {
                if b == i && a < i - 1 {
                    lemma_str_lt_transitive(s[a].address, s[i - 1].address, s[b].address);
                }
            }
            i = i + 1;
        }
        Some(IssuerRegistry { admin, issuers })
    }

    /// The admin address.
    pub fn admin(&self) -> (r: &String)
        ensures
            r@ == self@.admin,
    {
        &self.admin
    }

    /// The registered issuers, in address order.
    pub fn issuers(&self) -> (r: &Vec<IssuerRecord>)
        ensures
            r.deep_view() == self@.issuers,
    {
        &self.issuers
    }

    /// Where the issuer with address `a` stands (`found`), or where it
    /// belongs (`!found`).
    fn locate(&self, a: &String) -> (r: (bool, usize))
        ensures
            r.0 == self@.has_issuer(a@),
            r.0 ==> r.1 < self@.issuers.len() && self@.index_of(a@) == r.1 as int
                && self@.issuers[r.1 as int].address == a@,
            !r.0 ==> self@.insert_pos(a@) == r.1 as int && insertion_point(
                self@.issuers,
                a@,
                r.1 as int,
            ),
    {
        proof {
            use_type_invariant(self);
        }
        let ghost s = self@;
        let mut i: usize = 0;
        let mut scanning = true;
        while scanning && i < self.issuers.len()
            invariant
                s == self@,
                s.wf(),
                i <= s.issuers.len(),
                forall|j: int| 0 <= j < i ==> str_lt(#[trigger] s.issuers[j].address, a@),
                !scanning ==> i < s.issuers.len() && !str_lt(s.issuers[i as int].address, a@),
            decreases self.issuers.len() - i + (if scanning { 1int } else { 0int }),
        {
            if key_lt(self.issuers[i].address.as_str(), a.as_str()) {
                i = i + 1;
            } else {
                scanning = false;
            }
        }
        if i < self.issuers.len() && self.issuers[i].address == *a {
            proof {
                lemma_index_of(s, a@, i as int);
            }
            (true, i)
        } else {
            proof {
                if i < s.issuers.len() {
                    let x = s.issuers[i as int].address;
                    lemma_str_lt_total(x, a@);
                    assert forall|j: int| i <= j < s.issuers.len() implies str_lt(
                        a@,
                        #[trigger] s.issuers[j].address,
                    ) by {
                        if j > i {
                            lemma_str_lt_transitive(a@, x, s.issuers[j].address);
                        }
                    }
                }
                lemma_insert_pos(s, a@, i as int);
            }
            (false, i)
        }
    }
}

// ── Execute ───────────────────────────────────────────────────────────

/// The outcome of a message as views: the state after it and the
/// response or error.
pub open spec fn result_view(r: Result<Response, ContractError>) -> Result<
    ResponseView,
    ContractErrorView,
> {
    match r {
        Ok(x) => Ok(x@),
        Err(e) => Err(e@),
    }
}

/// The record of a newly registered issuer.
pub open spec fn new_issuer_record(
    address: Seq<char>,
    name: Seq<char>,
    description: Seq<char>,
    credential_types: Seq<Seq<char>>,
    now: u64,
) -> IssuerRecordView {
    IssuerRecordView {
        address,
        name,
        description,
        credential_types,
        registered_at: now,
        active: true,
        revoked_at: None,
        revocation_reason: None,
    }
}

/// Whether a description is longer than allowed (counted in bytes).
pub open spec fn description_too_long(d: Seq<char>) -> bool {
    key_bytes(d).len() > MAX_DESCRIPTION_LENGTH
}

/// Registering an issuer: the admin only; a non-empty name, a description
/// within bounds, at least one credential type, a valid address not yet
/// registered. The new issuer is active.
pub open spec fn register_issuer_outcome(
    s: IssuerRegistryView,
    now: u64,
    sender: Seq<char>,
    issuer: Seq<char>,
    name: Seq<char>,
    description: Seq<char>,
    credential_types: Seq<Seq<char>>,
    api: Seq<(Seq<char>, Option<Seq<char>>)>,
) -> (IssuerRegistryView, Result<ResponseView, ContractErrorView>) {
    if sender != s.admin {
        (s, Err(ContractErrorView::Unauthorized))
    } else if name.len() == 0 {
        (s, Err(ContractErrorView::EmptyName))
    } else if description_too_long(description) {
        (s, Err(ContractErrorView::DescriptionTooLong { max: MAX_DESCRIPTION_LENGTH }))
    } else if credential_types.len() == 0 {
        (s, Err(ContractErrorView::EmptyCredentialTypes))
    } else {
        match addr_check(api, issuer) {
            Err(e) => (s, Err(ContractErrorView::Std(e))),
            Ok(a) => if s.has_issuer(a) {
                (s, Err(ContractErrorView::IssuerAlreadyRegistered { issuer }))
            } else {
                (
                    s.with_issuer(new_issuer_record(a, name, description, credential_types, now)),
                    Ok(
                        attributes_response(
                            seq![
                                ("action"@, "register_issuer"@),
                                ("issuer"@, a),
                                ("name"@, name),
                                ("credential_types"@, joined(credential_types, ","@)),
                            ],
                        ),
                    ),
                )
            },
        }
    }
}

/// A record as revocation leaves it.
pub open spec fn revoked_record(r: IssuerRecordView, now: u64, reason: Seq<char>) -> IssuerRecordView {
    IssuerRecordView {
        address: r.address,
        name: r.name,
        description: r.description,
        credential_types: r.credential_types,
        registered_at: r.registered_at,
        active: false,
        revoked_at: Some(now),
        revocation_reason: Some(reason),
    }
}

/// Revoking an issuer: the admin only; a non-empty reason; a valid address
/// of a registered, active issuer. The record stays, marked inactive.
pub open spec fn revoke_issuer_outcome(
    s: IssuerRegistryView,
    now: u64,
    sender: Seq<char>,
    issuer: Seq<char>,
    reason: Seq<char>,
    api: Seq<(Seq<char>, Option<Seq<char>>)>,
) -> (IssuerRegistryView, Result<ResponseView, ContractErrorView>) {
    if sender != s.admin {
        (s, Err(ContractErrorView::Unauthorized))
    } else if reason.len() == 0 {
        (s, Err(ContractErrorView::EmptyRevocationReason))
    } else {
        match addr_check(api, issuer) {
            Err(e) => (s, Err(ContractErrorView::Std(e))),
            Ok(a) => if !s.has_issuer(a) {
                (s, Err(ContractErrorView::IssuerNotFound { issuer }))
            } else if !s.issuer(a).active {
                (s, Err(ContractErrorView::IssuerAlreadyRevoked { issuer }))
            } else {
                (
                    s.with_record(a, revoked_record(s.issuer(a), now, reason)),
                    Ok(
                        attributes_response(
                            seq![
                                ("action"@, "revoke_issuer"@),
                                ("issuer"@, a),
                                ("reason"@, reason),
                            ],
                        ),
                    ),
                )
            },
        }
    }
}

/// A record with the given fields replaced.
pub open spec fn updated_record(
    r: IssuerRecordView,
    name: Option<Seq<char>>,
    description: Option<Seq<char>>,
    credential_types: Option<Seq<Seq<char>>>,
) -> IssuerRecordView {
    IssuerRecordView {
        address: r.address,
        name: match name {
            Some(n) => n,
            None => r.name,
        },
        description: match description {
            Some(d) => d,
            None => r.description,
        },
        credential_types: match credential_types {
            Some(t) => t,
            None => r.credential_types,
        },
        registered_at: r.registered_at,
        active: r.active,
        revoked_at: r.revoked_at,
        revocation_reason: r.revocation_reason,
    }
}

/// Updating an issuer: the admin only; at least one field; a valid address
/// of a registered issuer (active or not); each given field acceptable.
pub open spec fn update_issuer_outcome(
    s: IssuerRegistryView,
    sender: Seq<char>,
    issuer: Seq<char>,
    name: Option<Seq<char>>,
    description: Option<Seq<char>>,
    credential_types: Option<Seq<Seq<char>>>,
    api: Seq<(Seq<char>, Option<Seq<char>>)>,
) -> (IssuerRegistryView, Result<ResponseView, ContractErrorView>) {
    if sender != s.admin {
        (s, Err(ContractErrorView::Unauthorized))
    } else if name is None && description is None && credential_types is None {
        (s, Err(ContractErrorView::NoFieldsToUpdate))
    } else {
        match addr_check(api, issuer) {
            Err(e) => (s, Err(ContractErrorView::Std(e))),
            Ok(a) => if !s.has_issuer(a) {
                (s, Err(ContractErrorView::IssuerNotFound { issuer }))
            } else if name matches Some(n) && n.len() == 0 {
                (s, Err(ContractErrorView::EmptyName))
            } else if description matches Some(d) && description_too_long(d) {
                (s, Err(ContractErrorView::DescriptionTooLong { max: MAX_DESCRIPTION_LENGTH }))
            } else if credential_types matches Some(t) && t.len() == 0 {
                (s, Err(ContractErrorView::EmptyCredentialTypes))
            } else {
                (
                    s.with_record(a, updated_record(s.issuer(a), name, description, credential_types)),
                    Ok(attributes_response(seq![("action"@, "update_issuer"@), ("issuer"@, a)])),
                )
            },
        }
    }
}

/// Changing the admin: the admin only; a valid new address.
pub open spec fn update_admin_outcome(
    s: IssuerRegistryView,
    sender: Seq<char>,
    new_admin: Seq<char>,
    api: Seq<(Seq<char>, Option<Seq<char>>)>,
) -> (IssuerRegistryView, Result<ResponseView, ContractErrorView>) {
    if sender != s.admin {
        (s, Err(ContractErrorView::Unauthorized))
    } else {
        match addr_check(api, new_admin) {
            Err(e) => (s, Err(ContractErrorView::Std(e))),
            Ok(a) => (
                s.with_admin(a),
                Ok(attributes_response(seq![("action"@, "update_admin"@), ("new_admin"@, a)])),
            ),
        }
    }
}

/// The outcome of any execute message.
pub open spec fn execute_outcome(
    s: IssuerRegistryView,
    now: u64,
    sender: Seq<char>,
    msg: ExecuteMsg,
    api: Seq<(Seq<char>, Option<Seq<char>>)>,
) -> (IssuerRegistryView, Result<ResponseView, ContractErrorView>) {
    match msg {
        ExecuteMsg::RegisterIssuer { issuer, name, description, credential_types } =>
            register_issuer_outcome(
            s,
            now,
            sender,
            issuer@,
            name@,
            description@,
            credential_types.deep_view(),
            api,
        ),
        ExecuteMsg::RevokeIssuer { issuer, reason } => revoke_issuer_outcome(
            s,
            now,
            sender,
            issuer@,
            reason@,
            api,
        ),
        ExecuteMsg::UpdateIssuer { issuer, name, description, credential_types } =>
            update_issuer_outcome(
            s,
            sender,
            issuer@,
            name.deep_view(),
            description.deep_view(),
            credential_types.deep_view(),
            api,
        ),
        ExecuteMsg::UpdateAdmin { new_admin } => update_admin_outcome(s, sender, new_admin@, api),
    }
}

impl IssuerRegistry {
    /// Registers a new trusted issuer (admin only).
    pub fn execute_register_issuer(
        &mut self,
        now: u64,
        sender: &String,
        issuer: String,
        name: String,
        description: String,
        credential_types: Vec<String>,
        api: &Api,
    ) -> (r: Result<Response, ContractError>)
        ensures
            (final(self)@, result_view(r)) == register_issuer_outcome(
                old(self)@,
                now,
                sender@,
                issuer@,
                name@,
                description@,
                credential_types.deep_view(),
                api@,
            ),
    {
        proof {
            use_type_invariant(&*self);
        }
        if !(*sender == self.admin) {
            return Err(ContractError::Unauthorized);
        }
        if name.as_str().is_empty() {
            return Err(ContractError::EmptyName);
        }
        if description.as_str().as_bytes().len() > MAX_DESCRIPTION_LENGTH {
            return Err(ContractError::DescriptionTooLong { max: MAX_DESCRIPTION_LENGTH });
        }
        if credential_types.len() == 0 {
            return Err(ContractError::EmptyCredentialTypes);
        }
        let issuer_addr = match api.addr_validate(&issuer) {
            Ok(a) => a,
            Err(e) => {
                return Err(ContractError::Std(e));
            },
        };
        let (found, pos) = self.locate(&issuer_addr);
        if found {
            return Err(ContractError::IssuerAlreadyRegistered { issuer });
        }
        let types_text = join(&credential_types, ",");
        let mut resp = Response::new();
        resp.add_attribute("action", String::from_str("register_issuer"));
        resp.add_attribute("issuer", issuer_addr.clone());
        resp.add_attribute("name", name.clone());
        resp.add_attribute("credential_types", types_text);
        let record = IssuerRecord {
            address: issuer_addr,
            name,
            description,
            credential_types,
            registered_at: now,
            active: true,
            revoked_at: None,
            revocation_reason: None,
        };
        proof {
            lemma_insert_ascending(self@.issuers, record@, pos as int);
        }
        let mut list: Vec<IssuerRecord> = Vec::new();
        std::mem::swap(&mut list, &mut self.issuers);
        list.insert(pos, record);
        assert(list.deep_view() =~= old(self)@.issuers.insert(pos as int, record@));
        std::mem::swap(&mut list, &mut self.issuers);
        assert(self@.issuers =~= old(self)@.issuers.insert(pos as int, record@));
        assert(resp@.attributes =~= seq![
            ("action"@, "register_issuer"@),
            ("issuer"@, record@.address),
            ("name"@, record@.name),
            ("credential_types"@, joined(record@.credential_types, ","@)),
        ]);
        Ok(resp)
    }

    /// Revokes an active issuer (admin only).
    pub fn execute_revoke_issuer(
        &mut self,
        now: u64,
        sender: &String,
        issuer: String,
        reason: String,
        api: &Api,
    ) -> (r: Result<Response, ContractError>)
        ensures
            (final(self)@, result_view(r)) == revoke_issuer_outcome(
                old(self)@,
                now,
                sender@,
                issuer@,
                reason@,
                api@,
            ),
    {
        proof {
            use_type_invariant(&*self);
        }
        if !(*sender == self.admin) {
            return Err(ContractError::Unauthorized);
        }
        if reason.as_str().is_empty() {
            return Err(ContractError::EmptyRevocationReason);
        }
        let issuer_addr = match api.addr_validate(&issuer) {
            Ok(a) => a,
            Err(e) => {
                return Err(ContractError::Std(e));
            },
        };
        let (found, pos) = self.locate(&issuer_addr);
        if !found {
            return Err(ContractError::IssuerNotFound { issuer });
        }
        if !self.issuers[pos].active {
            return Err(ContractError::IssuerAlreadyRevoked { issuer });
        }
        let mut resp = Response::new();
        resp.add_attribute("action", String::from_str("revoke_issuer"));
        resp.add_attribute("issuer", issuer_addr);
        resp.add_attribute("reason", reason.clone());
        let mut record = self.issuers[pos].duplicate();
        record.active = false;
        record.revoked_at = Some(now);
        record.revocation_reason = Some(reason);
        proof {
            lemma_update_ascending(self@.issuers, pos as int, record@);
        }
        let mut list: Vec<IssuerRecord> = Vec::new();
        std::mem::swap(&mut list, &mut self.issuers);
        list.set(pos, record);
        assert(list.deep_view() =~= old(self)@.issuers.update(pos as int, record@));
        std::mem::swap(&mut list, &mut self.issuers);
        assert(self@.issuers =~= old(self)@.issuers.update(pos as int, record@));
        assert(resp@.attributes =~= seq![
            ("action"@, "revoke_issuer"@),
            ("issuer"@, old(self)@.issuers[pos as int].address),
            ("reason"@, reason@),
        ]);
        Ok(resp)
    }

    /// Changes an issuer's name, description or credential types (admin only).
    pub fn execute_update_issuer(
        &mut self,
        sender: &String,
        issuer: String,
        name: Option<String>,
        description: Option<String>,
        credential_types: Option<Vec<String>>,
        api: &Api,
    ) -> (r: Result<Response, ContractError>)
        ensures
            (final(self)@, result_view(r)) == update_issuer_outcome(
                old(self)@,
                sender@,
                issuer@,
                name.deep_view(),
                description.deep_view(),
                credential_types.deep_view(),
                api@,
            ),
    {
        proof {
            use_type_invariant(&*self);
        }
        if !(*sender == self.admin) {
            return Err(ContractError::Unauthorized);
        }
        if name.is_none() && description.is_none() && credential_types.is_none() {
            return Err(ContractError::NoFieldsToUpdate);
        }
        let issuer_addr = match api.addr_validate(&issuer) {
            Ok(a) => a,
            Err(e) => {
                return Err(ContractError::Std(e));
            },
        };
        let (found, pos) = self.locate(&issuer_addr);
        if !found {
            return Err(ContractError::IssuerNotFound { issuer });
        }
        let mut record = self.issuers[pos].duplicate();
        let ghost old_record = record@;
        match name {
            Some(new_name) => {
                if new_name.as_str().is_empty() {
                    return Err(ContractError::EmptyName);
                }
                record.name = new_name;
            },
            None => {},
        }
        match description {
            Some(new_desc) => {
                if new_desc.as_str().as_bytes().len() > MAX_DESCRIPTION_LENGTH {
                    return Err(ContractError::DescriptionTooLong { max: MAX_DESCRIPTION_LENGTH });
                }
                record.description = new_desc;
            },
            None => {},
        }
        match credential_types {
            Some(new_types) => {
                if new_types.len() == 0 {
                    return Err(ContractError::EmptyCredentialTypes);
                }
                record.credential_types = new_types;
            },
            None => {},
        }
        let mut resp = Response::new();
        resp.add_attribute("action", String::from_str("update_issuer"));
        resp.add_attribute("issuer", issuer_addr);
        proof {
            lemma_update_ascending(self@.issuers, pos as int, record@);
        }
        let mut list: Vec<IssuerRecord> = Vec::new();
        std::mem::swap(&mut list, &mut self.issuers);
        list.set(pos, record);
        assert(list.deep_view() =~= old(self)@.issuers.update(pos as int, record@));
        std::mem::swap(&mut list, &mut self.issuers);
        assert(self@.issuers =~= old(self)@.issuers.update(pos as int, record@));
        assert(resp@.attributes =~= seq![
            ("action"@, "update_issuer"@),
            ("issuer"@, old(self)@.issuers[pos as int].address),
        ]);
        Ok(resp)
    }

    /// Hands the admin role to another address (admin only).
    pub fn execute_update_admin(&mut self, sender: &String, new_admin: String, api: &Api) -> (r:
        Result<Response, ContractError>)
        ensures
            (final(self)@, result_view(r)) == update_admin_outcome(
                old(self)@,
                sender@,
                new_admin@,
                api@,
            ),
    {
        proof {
            use_type_invariant(&*self);
        }
        if !(*sender == self.admin) {
            return Err(ContractError::Unauthorized);
        }
        let new_admin_addr = match api.addr_validate(&new_admin) {
            Ok(a) => a,
            Err(e) => {
                return Err(ContractError::Std(e));
            },
        };
        let mut resp = Response::new();
        resp.add_attribute("action", String::from_str("update_admin"));
        resp.add_attribute("new_admin", new_admin_addr.clone());
        self.admin = new_admin_addr;
        assert(resp@.attributes =~= seq![("action"@, "update_admin"@), ("new_admin"@, self@.admin)]);
        Ok(resp)
    }
}

/// Executes `msg` sent by `sender` at block time `now`.
pub fn execute(
    state: &mut IssuerRegistry,
    now: u64,
    sender: &String,
    msg: ExecuteMsg,
    api: &Api,
) -> (r: Result<Response, ContractError>)
    ensures
        (final(state)@, result_view(r)) == execute_outcome(old(state)@, now, sender@, msg, api@),
{
    match msg {
        ExecuteMsg::RegisterIssuer { issuer, name, description, credential_types } => state.execute_register_issuer(
            now,
            sender,
            issuer,
            name,
            description,
            credential_types,
            api,
        ),
        ExecuteMsg::RevokeIssuer { issuer, reason } => state.execute_revoke_issuer(
            now,
            sender,
            issuer,
            reason,
            api,
        ),
        ExecuteMsg::UpdateIssuer { issuer, name, description, credential_types } => state.execute_update_issuer(
            sender,
            issuer,
            name,
            description,
            credential_types,
            api,
        ),
        ExecuteMsg::UpdateAdmin { new_admin } => state.execute_update_admin(sender, new_admin, api),
    }
}

// ── Query ─────────────────────────────────────────────────────────────

/// The answer to any query.
#[derive(Debug, Clone, PartialEq, Eq)]
pub enum QueryResponse {
    IsAuthorized(IsAuthorizedResponse),
    Issuer(IssuerResponse),
    Issuers(IssuersResponse),
    Admin(AdminResponse),
}

pub enum QueryResponseView {
    IsAuthorized(IsAuthorizedResponseView),
    Issuer(IssuerRecordView),
    Issuers(Seq<IssuerRecordView>),
    Admin(Seq<char>),
}

impl View for QueryResponse {
    type V = QueryResponseView;

    open spec fn view(&self) -> QueryResponseView {
        match self {
            QueryResponse::IsAuthorized(r) => QueryResponseView::IsAuthorized(r@),
            QueryResponse::Issuer(r) => QueryResponseView::Issuer(r@),
            QueryResponse::Issuers(r) => QueryResponseView::Issuers(r@),
            QueryResponse::Admin(r) => QueryResponseView::Admin(r@),
        }
    }
}

/// What the framework names an issuer record that a lookup did not find.
pub open spec fn issuer_record_kind() -> Seq<char> {
    "proofkit_types::issuer_registry::IssuerRecord"@
}

/// The exclusive lower bound a listing starts after: none, or the
/// validated address.
pub open spec fn start_bound(
    start_after: Option<Seq<char>>,
    api: Seq<(Seq<char>, Option<Seq<char>>)>,
) -> Result<Option<Seq<char>>, StdErrorView> {
    match start_after {
        None => Ok(None),
        Some(a) => match addr_check(api, a) {
            Ok(v) => Ok(Some(v)),
            Err(e) => Err(e),
        },
    }
}

/// Which issuers a listing holds: those after `bound` and, when a
/// credential type is given, active and authorized for it.
pub open spec fn listed(bound: Option<Seq<char>>, credential_type: Option<Seq<char>>) -> spec_fn(
    IssuerRecordView,
) -> bool {
    |r: IssuerRecordView|
        (match bound {
            None => true,
            Some(b) => str_lt(b, r.address),
        }) && (match credential_type {
            None => true,
            Some(t) => r.active && r.credential_types.contains(t),
        })
}

pub open spec fn is_authorized_outcome(
    s: IssuerRegistryView,
    issuer: Seq<char>,
    credential_type: Seq<char>,
    api: Seq<(Seq<char>, Option<Seq<char>>)>,
) -> Result<IsAuthorizedResponseView, StdErrorView> {
    match addr_check(api, issuer) {
        Err(e) => Err(e),
        Ok(a) => Ok(
            IsAuthorizedResponseView {
                authorized: s.authorizes(a, credential_type),
                issuer_name: if s.authorizes(a, credential_type) {
                    Some(s.issuer(a).name)
                } else {
                    None
                },
            },
        ),
    }
}

pub open spec fn issuer_outcome(
    s: IssuerRegistryView,
    issuer: Seq<char>,
    api: Seq<(Seq<char>, Option<Seq<char>>)>,
) -> Result<IssuerRecordView, StdErrorView> {
    match addr_check(api, issuer) {
        Err(e) => Err(e),
        Ok(a) => if s.has_issuer(a) {
            Ok(s.issuer(a))
        } else {
            Err(StdErrorView::NotFound { kind: issuer_record_kind() })
        },
    }
}

pub open spec fn list_issuers_outcome(
    s: IssuerRegistryView,
    start_after: Option<Seq<char>>,
    limit: Option<u32>,
    api: Seq<(Seq<char>, Option<Seq<char>>)>,
) -> Result<Seq<IssuerRecordView>, StdErrorView> {
    match start_bound(start_after, api) {
        Err(e) => Err(e),
        Ok(b) => Ok(page(s.issuers.filter(listed(b, None)), effective_limit(limit))),
    }
}

pub open spec fn issuers_by_type_outcome(
    s: IssuerRegistryView,
    credential_type: Seq<char>,
    start_after: Option<Seq<char>>,
    limit: Option<u32>,
    api: Seq<(Seq<char>, Option<Seq<char>>)>,
) -> Result<Seq<IssuerRecordView>, StdErrorView> {
    match start_bound(start_after, api) {
        Err(e) => Err(e),
        Ok(b) => Ok(page(s.issuers.filter(listed(b, Some(credential_type))), effective_limit(limit))),
    }
}

/// The answer to any query.
pub open spec fn query_outcome(
    s: IssuerRegistryView,
    msg: QueryMsg,
    api: Seq<(Seq<char>, Option<Seq<char>>)>,
) -> Result<QueryResponseView, StdErrorView> {
    match msg {
        QueryMsg::IsAuthorized { issuer, credential_type } => match is_authorized_outcome(
            s,
            issuer@,
            credential_type@,
            api,
        ) {
            Ok(v) => Ok(QueryResponseView::IsAuthorized(v)),
            Err(e) => Err(e),
        },
        QueryMsg::Issuer { issuer } => match issuer_outcome(s, issuer@, api) {
            Ok(v) => Ok(QueryResponseView::Issuer(v)),
            Err(e) => Err(e),
        },
        QueryMsg::ListIssuers { start_after, limit } => match list_issuers_outcome(
            s,
            start_after.deep_view(),
            limit,
            api,
        ) {
            Ok(v) => Ok(QueryResponseView::Issuers(v)),
            Err(e) => Err(e),
        },
        QueryMsg::IssuersByType { credential_type, start_after, limit } =>
            match issuers_by_type_outcome(s, credential_type@, start_after.deep_view(), limit, api) {
            Ok(v) => Ok(QueryResponseView::Issuers(v)),
            Err(e) => Err(e),
        },
        QueryMsg::Admin {  } => Ok(QueryResponseView::Admin(s.admin)),
    }
}

/// Validates the address a listing starts after.
fn validate_start(start_after: Option<String>, api: &Api) -> (r: Result<Option<String>, StdError>)
    ensures
        match start_bound(start_after.deep_view(), api@) {
            Ok(b) => r is Ok && r->Ok_0.deep_view() == b,
            Err(e) => r is Err && r->Err_0@ == e,
        },
{
    match start_after {
        None => Ok(None),
        Some(a) => match api.addr_validate(&a) {
            Ok(v) => Ok(Some(v)),
            Err(e) => Err(e),
        },
    }
}

impl IssuerRegistry {
    /// The first `limit` issuers after `bound` that, when `credential_type`
    /// is given, are active and authorized for it.
    fn list_where(&self, bound: &Option<String>, credential_type: &Option<String>, limit: usize) -> (r:
        Vec<IssuerRecord>)
        ensures
            r.deep_view() == page(
                self@.issuers.filter(listed(bound.deep_view(), credential_type.deep_view())),
                limit as nat,
            ),
    {
        let ghost s = self@.issuers;
        let ghost pred = listed(bound.deep_view(), credential_type.deep_view());
        let mut out: Vec<IssuerRecord> = Vec::new();
        let mut i: usize = 0;
        assert(s.take(0).filter(pred) =~= seq![]) by {
            reveal(Seq::filter);
        }
        assert(out.deep_view() =~= seq![]);
        while i < self.issuers.len() && out.len() < limit
            invariant
                s == self@.issuers,
                pred == listed(bound.deep_view(), credential_type.deep_view()),
                i <= s.len(),
                out.deep_view() == s.take(i as int).filter(pred),
                out.len() <= limit,
            decreases self.issuers.len() - i,
        {
            let rec = &self.issuers[i];
            let after = match bound {
                None => true,
                Some(b) => key_lt(b.as_str(), rec.address.as_str()),
            };
            let of_type = match credential_type {
                None => true,
                Some(t) => rec.active && contains_str(&rec.credential_types, t),
            };
            proof {
                lemma_filter_take_step(s, pred, i as int);
                assert(s[i as int] == rec@);
            }
            if after && of_type {
                let ghost before = out.deep_view();
                out.push(rec.duplicate());
                assert(out.deep_view() =~= before.push(rec@));
            }
            i = i + 1;
        }
        proof {
            if out.len() == limit {
                lemma_page_full(s, pred, i as int, limit as nat);
            } else {
                assert(s.take(i as int) =~= s);
                lemma_page_all(s, pred, limit as nat);
            }
        }
        out
    }

    /// Whether `issuer` is an active issuer authorized for `credential_type`.
    pub fn query_is_authorized(&self, issuer: String, credential_type: String, api: &Api) -> (r:
        Result<IsAuthorizedResponse, StdError>)
        ensures
            std_result_matches(r, is_authorized_outcome(self@, issuer@, credential_type@, api@)),
    {
        let issuer_addr = match api.addr_validate(&issuer) {
            Ok(a) => a,
            Err(e) => {
                return Err(e);
            },
        };
        let (found, pos) = self.locate(&issuer_addr);
        if found {
            let record = &self.issuers[pos];
            if record.active && contains_str(&record.credential_types, &credential_type) {
                return Ok(IsAuthorizedResponse { authorized: true, issuer_name: Some(record.name.clone()) });
            }
        }
        Ok(IsAuthorizedResponse { authorized: false, issuer_name: None })
    }

    /// The record of `issuer`.
    pub fn query_issuer(&self, issuer: String, api: &Api) -> (r: Result<IssuerResponse, StdError>)
        ensures
            std_result_matches(r, issuer_outcome(self@, issuer@, api@)),
    {
        let issuer_addr = match api.addr_validate(&issuer) {
            Ok(a) => a,
            Err(e) => {
                return Err(e);
            },
        };
        let (found, pos) = self.locate(&issuer_addr);
        if !found {
            return Err(
                StdError::NotFound {
                    kind: String::from_str("proofkit_types::issuer_registry::IssuerRecord"),
                },
            );
        }
        Ok(IssuerResponse { issuer: self.issuers[pos].duplicate() })
    }

    /// A page of all issuers, in address order.
    pub fn query_list_issuers(&self, start_after: Option<String>, limit: Option<u32>, api: &Api) -> (r:
        Result<IssuersResponse, StdError>)
        ensures
            std_result_matches(r, list_issuers_outcome(self@, start_after.deep_view(), limit, api@)),
    {
        let limit = clamp_limit(limit);
        let start = validate_start(start_after, api)?;
        let issuers = self.list_where(&start, &None, limit);
        Ok(IssuersResponse { issuers })
    }

    /// A page of the active issuers authorized for `credential_type`, in
    /// address order.
    pub fn query_issuers_by_type(
        &self,
        credential_type: String,
        start_after: Option<String>,
        limit: Option<u32>,
        api: &Api,
    ) -> (r: Result<IssuersResponse, StdError>)
        ensures
            std_result_matches(
                r,
                issuers_by_type_outcome(
                    self@,
                    credential_type@,
                    start_after.deep_view(),
                    limit,
                    api@,
                ),
            ),
    {
        let limit = clamp_limit(limit);
        let start = validate_start(start_after, api)?;
        let issuers = self.list_where(&start, &Some(credential_type), limit);
        Ok(IssuersResponse { issuers })
    }

    /// The admin address.
    pub fn query_admin(&self) -> (r: AdminResponse)
        ensures
            r@ == self@.admin,
    {
        AdminResponse { admin: self.admin.clone() }
    }
}

/// Answers `msg`.
pub fn query(state: &IssuerRegistry, msg: QueryMsg, api: &Api) -> (r: Result<QueryResponse, StdError>)
    ensures
        std_result_matches(r, query_outcome(state@, msg, api@)),
{
    match msg {
        QueryMsg::IsAuthorized { issuer, credential_type } => {
            let v = state.query_is_authorized(issuer, credential_type, api)?;
            Ok(QueryResponse::IsAuthorized(v))
        },
        QueryMsg::Issuer { issuer } => {
            let v = state.query_issuer(issuer, api)?;
            Ok(QueryResponse::Issuer(v))
        },
        QueryMsg::ListIssuers { start_after, limit } => {
            let v = state.query_list_issuers(start_after, limit, api)?;
            Ok(QueryResponse::Issuers(v))
        },
        QueryMsg::IssuersByType { credential_type, start_after, limit } => {
            let v = state.query_issuers_by_type(credential_type, start_after, limit, api)?;
            Ok(QueryResponse::Issuers(v))
        },
        QueryMsg::Admin {  } => Ok(QueryResponse::Admin(state.query_admin())),
    }
}

} // verus!
