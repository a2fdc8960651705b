//! What holds of the issuer registry across its messages and queries.

use vstd::prelude::*;

use super::contract::{
    addresses_ascending, execute_outcome, insertion_point, is_authorized_outcome, issuer_outcome,
    issuers_by_type_outcome, lemma_index_of, lemma_insert_ascending, lemma_insert_pos,
    lemma_update_ascending, list_issuers_outcome, listed, start_bound,
    new_issuer_record, query_outcome, register_issuer_outcome, revoke_issuer_outcome,
    revoked_record, update_admin_outcome, update_issuer_outcome, updated_record,
    IssuerRegistryView, QueryResponseView,
};
use super::error::ContractErrorView;
use crate::common::api::{addr_check, StdErrorView};
use crate::common::paging::{
    effective_limit, lemma_filter_member, lemma_listing_resumes, ordered_by, page, passing_after,
};
use crate::common::text::{lemma_str_lt_strict, lemma_str_lt_total, lemma_str_lt_transitive, str_lt};
use crate::types::issuer_registry::{ExecuteMsg, IsAuthorizedResponseView, IssuerRecordView, QueryMsg};

verus! {

/// An address not yet registered has a place among the issuers.
pub proof fn lemma_insertion_point_exists(s: Seq<IssuerRecordView>, a: Seq<char>) -> (p: int)
    requires
        addresses_ascending(s),
        forall|i: int| 0 <= i < s.len() ==> #[trigger] s[i].address != a,
    ensures
        insertion_point(s, a, p),
    decreases s.len(),
{
    if s.len() == 0 {
        0
    } else {
        let t = s.drop_last();
        assert forall|i: int, j: int| 0 <= i < j < t.len() implies str_lt(
            #[trigger] t[i].address,
            #[trigger] t[j].address,
        ) by {
            assert(t[i] == s[i] && t[j] == s[j]);
        }
        assert forall|i: int| 0 <= i < t.len() implies #[trigger] t[i].address != a by {
            assert(t[i] == s[i]);
        }
        let q = lemma_insertion_point_exists(t, a);
        let last = s.len() - 1;
        lemma_str_lt_total(s[last].address, a);
        if str_lt(s[last].address, a) {
            assert forall|j: int| 0 <= j < s.len() implies str_lt(#[trigger] s[j].address, a) by {
                if j < last {
                    lemma_str_lt_transitive(s[j].address, s[last].address, a);
                }
            }
            s.len() as int
        } else {
            assert forall|j: int| 0 <= j < q implies str_lt(#[trigger] s[j].address, a) by {
                assert(t[j] == s[j]);
            }
            assert forall|j: int| q <= j < s.len() implies str_lt(a, #[trigger] s[j].address) by {
                if j < last {
                    assert(t[j] == s[j]);
                }
            }
            q
        }
    }
}

/// Facts about the registry just after a new issuer is added.
proof fn lemma_with_issuer(s: IssuerRegistryView, rec: IssuerRecordView)
    requires
        s.wf(),
        !s.has_issuer(rec.address),
    ensures
        s.with_issuer(rec).wf(),
        s.with_issuer(rec).has_issuer(rec.address),
        s.with_issuer(rec).issuer(rec.address) == rec,
        forall|b: Seq<char>|
            b != rec.address ==> (#[trigger] s.with_issuer(rec).has_issuer(b) <==> s.has_issuer(b)),
{
    let a = rec.address;
    let p = lemma_insertion_point_exists(s.issuers, a);
    lemma_insert_pos(s, a, p);
    lemma_insert_ascending(s.issuers, rec, p);
    let t = s.with_issuer(rec);
    assert(t.issuers[p] == rec);
    lemma_index_of(t, a, p);
    assert forall|b: Seq<char>| b != a implies (#[trigger] t.has_issuer(b) <==> s.has_issuer(b)) by {
        if s.has_issuer(b) {
            let i = choose|i: int| 0 <= i < s.issuers.len() && #[trigger] s.issuers[i].address == b;
            if i < p {
                assert(t.issuers[i] == s.issuers[i]);
            } else {
                assert(t.issuers[i + 1] == s.issuers[i]);
            }
        }
        if t.has_issuer(b) {
            let i = choose|i: int| 0 <= i < t.issuers.len() && #[trigger] t.issuers[i].address == b;
            if i < p {
                assert(t.issuers[i] == s.issuers[i]);
            } else if i > p {
                assert(t.issuers[i] == s.issuers[i - 1]);
            }
        }
    }
}

/// Facts about the registry just after the record of `a` is replaced.
proof fn lemma_with_record(s: IssuerRegistryView, a: Seq<char>, rec: IssuerRecordView)
    requires
        s.wf(),
        s.has_issuer(a),
        rec.address == a,
    ensures
        s.with_record(a, rec).wf(),
        s.with_record(a, rec).has_issuer(a),
        s.with_record(a, rec).issuer(a) == rec,
{
    let k = s.index_of(a);
    lemma_update_ascending(s.issuers, k, rec);
    let t = s.with_record(a, rec);
    lemma_index_of(t, a, k);
}

/// Every message keeps the issuers strictly ascending by address, so no
/// issuer is registered twice and listings come out in address order.
pub proof fn law_execute_keeps_order(
    s: IssuerRegistryView,
    now: u64,
    sender: Seq<char>,
    msg: ExecuteMsg,
    api: Seq<(Seq<char>, Option<Seq<char>>)>,
)
    requires
        s.wf(),
    ensures
        execute_outcome(s, now, sender, msg, api).0.wf(),
{
    match msg {
        ExecuteMsg::RegisterIssuer { issuer, name, description, credential_types } => {
            if let Ok(a) = addr_check(api, issuer@) {
                if !s.has_issuer(a) {
                    lemma_with_issuer(
                        s,
                        new_issuer_record(a, name@, description@, credential_types.deep_view(), now),
                    );
                }
            }
        },
        ExecuteMsg::RevokeIssuer { issuer, reason } => {
            if let Ok(a) = addr_check(api, issuer@) {
                if s.has_issuer(a) {
                    lemma_index_of(s, a, s.index_of(a));
                    lemma_with_record(s, a, revoked_record(s.issuer(a), now, reason@));
                }
            }
        },
        ExecuteMsg::UpdateIssuer { issuer, name, description, credential_types } => {
            if let Ok(a) = addr_check(api, issuer@) {
                if s.has_issuer(a) {
                    lemma_index_of(s, a, s.index_of(a));
                    lemma_with_record(
                        s,
                        a,
                        updated_record(
                            s.issuer(a),
                            name.deep_view(),
                            description.deep_view(),
                            credential_types.deep_view(),
                        ),
                    );
                }
            }
        },
        ExecuteMsg::UpdateAdmin { .. } => {},
    }
}

/// A rejected message leaves the registry as it was.
pub proof fn law_rejected_message_changes_nothing(
    s: IssuerRegistryView,
    now: u64,
    sender: Seq<char>,
    msg: ExecuteMsg,
    api: Seq<(Seq<char>, Option<Seq<char>>)>,
)
    requires
        execute_outcome(s, now, sender, msg, api).1 is Err,
    ensures
        execute_outcome(s, now, sender, msg, api).0 == s,
{
}

/// Only the admin changes the registry: every message from anyone else is
/// refused as unauthorized.
pub proof fn law_only_admin_executes(
    s: IssuerRegistryView,
    now: u64,
    sender: Seq<char>,
    msg: ExecuteMsg,
    api: Seq<(Seq<char>, Option<Seq<char>>)>,
)
    requires
        sender != s.admin,
    ensures
        execute_outcome(s, now, sender, msg, api) == (s, Err::<
            crate::common::response::ResponseView,
            ContractErrorView,
        >(ContractErrorView::Unauthorized)),
{
}

/// A registered issuer is authorized, under its name, for each credential
/// type it was registered with.
pub proof fn law_registered_issuer_is_authorized(
    s: IssuerRegistryView,
    now: u64,
    sender: Seq<char>,
    issuer: Seq<char>,
    name: Seq<char>,
    description: Seq<char>,
    credential_types: Seq<Seq<char>>,
    api: Seq<(Seq<char>, Option<Seq<char>>)>,
    credential_type: Seq<char>,
)
    requires
        s.wf(),
        register_issuer_outcome(s, now, sender, issuer, name, description, credential_types, api).1 is Ok,
        credential_types.contains(credential_type),
    ensures
        is_authorized_outcome(
            register_issuer_outcome(
                s,
                now,
                sender,
                issuer,
                name,
                description,
                credential_types,
                api,
            ).0,
            issuer,
            credential_type,
            api,
        ) == Ok::<IsAuthorizedResponseView, crate::common::api::StdErrorView>(
            IsAuthorizedResponseView { authorized: true, issuer_name: Some(name) },
        ),
{
    let a = addr_check(api, issuer)->Ok_0;
    lemma_with_issuer(s, new_issuer_record(a, name, description, credential_types, now));
}

/// A revoked issuer is authorized for nothing, and its record remains,
/// marked inactive at the block time with the reason given, its name,
/// description, credential types and registration time unchanged.
pub proof fn law_revoked_issuer_is_not_authorized(
    s: IssuerRegistryView,
    now: u64,
    sender: Seq<char>,
    issuer: Seq<char>,
    reason: Seq<char>,
    api: Seq<(Seq<char>, Option<Seq<char>>)>,
    credential_type: Seq<char>,
)
    requires
        s.wf(),
        revoke_issuer_outcome(s, now, sender, issuer, reason, api).1 is Ok,
    ensures
        is_authorized_outcome(
            revoke_issuer_outcome(s, now, sender, issuer, reason, api).0,
            issuer,
            credential_type,
            api,
        ) == Ok::<IsAuthorizedResponseView, crate::common::api::StdErrorView>(
            IsAuthorizedResponseView { authorized: false, issuer_name: None },
        ),
        issuer_outcome(revoke_issuer_outcome(s, now, sender, issuer, reason, api).0, issuer, api)
            matches Ok(r) && !r.active && r.revoked_at == Some(now) && r.revocation_reason
            == Some(reason),
        issuer_outcome(s, issuer, api) matches Ok(old) && issuer_outcome(
            revoke_issuer_outcome(s, now, sender, issuer, reason, api).0,
            issuer,
            api,
        ) matches Ok(r) && r.address == old.address && r.name == old.name && r.description
            == old.description && r.credential_types == old.credential_types && r.registered_at
            == old.registered_at,
{
    let a = addr_check(api, issuer)->Ok_0;
    lemma_with_record(s, a, revoked_record(s.issuer(a), now, reason));
}

/// Giving an inactive issuer new credential types does not authorize it.
pub proof fn law_update_keeps_revoked_issuer_unauthorized(
    s: IssuerRegistryView,
    sender: Seq<char>,
    issuer: Seq<char>,
    name: Option<Seq<char>>,
    description: Option<Seq<char>>,
    credential_types: Option<Seq<Seq<char>>>,
    api: Seq<(Seq<char>, Option<Seq<char>>)>,
    credential_type: Seq<char>,
)
    requires
        s.wf(),
        addr_check(api, issuer) is Ok,
        s.has_issuer(issuer),
        !s.issuer(issuer).active,
    ensures
        !update_issuer_outcome(
            s,
            sender,
            issuer,
            name,
            description,
            credential_types,
            api,
        ).0.authorizes(issuer, credential_type),
{
    let t = update_issuer_outcome(s, sender, issuer, name, description, credential_types, api);
    if t.1 is Ok {
        lemma_with_record(
            s,
            issuer,
            updated_record(s.issuer(issuer), name, description, credential_types),
        );
    }
}

/// The issuers listed for a credential type are exactly the issuers that
/// the authorization query approves for it.
pub proof fn law_type_listing_agrees_with_authorization(
    s: IssuerRegistryView,
    credential_type: Seq<char>,
    i: int,
)
    requires
        s.wf(),
        0 <= i < s.issuers.len(),
    ensures
        listed(None, Some(credential_type))(s.issuers[i]) <==> s.authorizes(
            s.issuers[i].address,
            credential_type,
        ),
{
    lemma_index_of(s, s.issuers[i].address, i);
}

/// After the admin hands over the role, the admin query names the new admin.
pub proof fn law_admin_query_after_update(
    s: IssuerRegistryView,
    sender: Seq<char>,
    new_admin: Seq<char>,
    api: Seq<(Seq<char>, Option<Seq<char>>)>,
)
    requires
        update_admin_outcome(s, sender, new_admin, api).1 is Ok,
    ensures
        query_outcome(update_admin_outcome(s, sender, new_admin, api).0, QueryMsg::Admin {  }, api)
            == Ok::<QueryResponseView, crate::common::api::StdErrorView>(
            QueryResponseView::Admin(new_admin),
        ),
{
}

/// Adding an issuer leaves every other issuer's record where it was found.
proof fn lemma_other_after_insert(s: IssuerRegistryView, rec: IssuerRecordView, b: Seq<char>)
    requires
        s.wf(),
        !s.has_issuer(rec.address),
        b != rec.address,
    ensures
        s.with_issuer(rec).has_issuer(b) == s.has_issuer(b),
        s.has_issuer(b) ==> s.with_issuer(rec).issuer(b) == s.issuer(b),
{
    lemma_with_issuer(s, rec);
    let a = rec.address;
    let p = lemma_insertion_point_exists(s.issuers, a);
    lemma_insert_pos(s, a, p);
    let t = s.with_issuer(rec);
    if s.has_issuer(b) {
        let i = s.index_of(b);
        lemma_index_of(s, b, i);
        if i < p {
            assert(t.issuers[i] == s.issuers[i]);
            lemma_index_of(t, b, i);
        } else {
            assert(t.issuers[i + 1] == s.issuers[i]);
            lemma_index_of(t, b, i + 1);
        }
    }
}

/// Replacing one issuer's record leaves every other issuer's record as it
/// was.
proof fn lemma_other_after_update(s: IssuerRegistryView, a: Seq<char>, rec: IssuerRecordView, b: Seq<char>)
    requires
        s.wf(),
        s.has_issuer(a),
        rec.address == a,
        b != a,
    ensures
        s.with_record(a, rec).has_issuer(b) == s.has_issuer(b),
        s.has_issuer(b) ==> s.with_record(a, rec).issuer(b) == s.issuer(b),
{
    let k = s.index_of(a);
    lemma_index_of(s, a, k);
    lemma_with_record(s, a, rec);
    let t = s.with_record(a, rec);
    if s.has_issuer(b) {
        let i = s.index_of(b);
        lemma_index_of(s, b, i);
        assert(t.issuers[i] == s.issuers[i]);
        lemma_index_of(t, b, i);
    }
    if t.has_issuer(b) {
        let i = t.index_of(b);
        lemma_index_of(t, b, i);
        assert(t.issuers[i] == s.issuers[i]);
        lemma_index_of(s, b, i);
    }
}

/// Whether `msg` is about the issuer with address `b`.
pub open spec fn names_issuer(msg: ExecuteMsg, b: Seq<char>) -> bool {
    match msg {
        ExecuteMsg::RegisterIssuer { issuer, .. } => issuer@ == b,
        ExecuteMsg::RevokeIssuer { issuer, .. } => issuer@ == b,
        ExecuteMsg::UpdateIssuer { issuer, .. } => issuer@ == b,
        ExecuteMsg::UpdateAdmin { .. } => false,
    }
}

/// A message about one issuer, or about the admin, leaves every other
/// issuer's record, and so what it is authorized for, as it was.
pub proof fn law_other_issuers_unaffected(
    s: IssuerRegistryView,
    now: u64,
    sender: Seq<char>,
    msg: ExecuteMsg,
    api: Seq<(Seq<char>, Option<Seq<char>>)>,
    b: Seq<char>,
    credential_type: Seq<char>,
)
    requires
        s.wf(),
        !names_issuer(msg, b),
    ensures
        execute_outcome(s, now, sender, msg, api).0.has_issuer(b) == s.has_issuer(b),
        s.has_issuer(b) ==> execute_outcome(s, now, sender, msg, api).0.issuer(b) == s.issuer(b),
        execute_outcome(s, now, sender, msg, api).0.authorizes(b, credential_type) == s.authorizes(
            b,
            credential_type,
        ),
{
    match msg {
        ExecuteMsg::RegisterIssuer { issuer, name, description, credential_types } => {
            if register_issuer_outcome(
                s,
                now,
                sender,
                issuer@,
                name@,
                description@,
                credential_types.deep_view(),
                api,
            ).1 is Ok {
                let a = addr_check(api, issuer@)->Ok_0;
                lemma_other_after_insert(
                    s,
                    new_issuer_record(a, name@, description@, credential_types.deep_view(), now),
                    b,
                );
            }
        },
        ExecuteMsg::RevokeIssuer { issuer, reason } => {
            if revoke_issuer_outcome(s, now, sender, issuer@, reason@, api).1 is Ok {
                let a = addr_check(api, issuer@)->Ok_0;
                lemma_index_of(s, a, s.index_of(a));
                lemma_other_after_update(s, a, revoked_record(s.issuer(a), now, reason@), b);
            }
        },
        ExecuteMsg::UpdateIssuer { issuer, name, description, credential_types } => {
            if update_issuer_outcome(
                s,
                sender,
                issuer@,
                name.deep_view(),
                description.deep_view(),
                credential_types.deep_view(),
                api,
            ).1 is Ok {
                let a = addr_check(api, issuer@)->Ok_0;
                lemma_index_of(s, a, s.index_of(a));
                lemma_other_after_update(
                    s,
                    a,
                    updated_record(
                        s.issuer(a),
                        name.deep_view(),
                        description.deep_view(),
                        credential_types.deep_view(),
                    ),
                    b,
                );
            }
        },
        ExecuteMsg::UpdateAdmin { .. } => {},
    }
}

/// The issuer listing: all issuers, or those authorized for one
/// credential type.
pub open spec fn issuer_listing(
    s: IssuerRegistryView,
    credential_type: Option<Seq<char>>,
    start_after: Option<Seq<char>>,
    limit: Option<u32>,
    api: Seq<(Seq<char>, Option<Seq<char>>)>,
) -> Result<Seq<IssuerRecordView>, StdErrorView> {
    match credential_type {
        None => list_issuers_outcome(s, start_after, limit, api),
        Some(t) => issuers_by_type_outcome(s, t, start_after, limit, api),
    }
}

/// Listing issuers again, after the last issuer of a page, goes on exactly
/// where that page ended: no issuer is skipped or repeated.
pub proof fn law_issuer_pages_resume(
    s: IssuerRegistryView,
    credential_type: Option<Seq<char>>,
    start_after: Option<Seq<char>>,
    limit: Option<u32>,
    next_limit: Option<u32>,
    api: Seq<(Seq<char>, Option<Seq<char>>)>,
)
    requires
        s.wf(),
        issuer_listing(s, credential_type, start_after, limit, api) matches Ok(p) && p.len() > 0
            && addr_check(api, p.last().address) is Ok,
    ensures
        ({
            let p = issuer_listing(s, credential_type, start_after, limit, api)->Ok_0;
            let all = s.issuers.filter(
                listed(start_bound(start_after, api)->Ok_0, credential_type),
            );
            issuer_listing(s, credential_type, Some(p.last().address), next_limit, api) == Ok::<
                Seq<IssuerRecordView>,
                StdErrorView,
            >(page(all.skip(p.len() as int), effective_limit(next_limit)))
        }),
{
    let b0 = start_bound(start_after, api)->Ok_0;
    let pred = listed(b0, credential_type);
    let all = s.issuers.filter(pred);
    let p = page(all, effective_limit(limit));
    let n = p.len() as int;
    assert(p.last() == all[n - 1]);
    let before = |x: IssuerRecordView, y: IssuerRecordView| str_lt(x.address, y.address);
    assert(ordered_by(s.issuers, before)) by {
        assert forall|i: int, j: int| 0 <= i < j < s.issuers.len() implies before(
            #[trigger] s.issuers[i],
            #[trigger] s.issuers[j],
        ) && !before(s.issuers[j], s.issuers[i]) by {
            lemma_str_lt_strict(s.issuers[i].address, s.issuers[j].address);
        }
        assert forall|i: int| 0 <= i < s.issuers.len() implies !before(
            #[trigger] s.issuers[i],
            s.issuers[i],
        ) by {
            if str_lt(s.issuers[i].address, s.issuers[i].address) {
                lemma_str_lt_strict(s.issuers[i].address, s.issuers[i].address);
            }
        }
    }
    lemma_listing_resumes(s.issuers, pred, before, n);
    let b = all[n - 1];
    s.issuers.lemma_filter_pred(pred, n - 1);
    assert forall|r: IssuerRecordView| #[trigger] listed(Some(b.address), credential_type)(r)
        == passing_after(pred, before, b)(r) by {
        if let Some(x) = b0 {
            if str_lt(b.address, r.address) {
                lemma_str_lt_transitive(x, b.address, r.address);
            }
        }
    }
    assert(listed(Some(b.address), credential_type) =~= passing_after(pred, before, b));
}

/// The full listing of issuers for a credential type, over all its pages,
/// holds an issuer exactly when that issuer is registered, active and
/// authorized for the type; every message keeps this so, since the
/// listing is read from the issuers' own records.
pub proof fn law_type_listing_is_authorized_issuers(
    s: IssuerRegistryView,
    credential_type: Seq<char>,
    a: Seq<char>,
)
    requires
        s.wf(),
    ensures
        (exists|i: int|
            0 <= i < s.issuers.filter(listed(None, Some(credential_type))).len()
                && (#[trigger] s.issuers.filter(listed(None, Some(credential_type)))[i]).address
                == a) <==> s.authorizes(a, credential_type),
{
    let pred = listed(None, Some(credential_type));
    let all = s.issuers.filter(pred);
    if exists|i: int| 0 <= i < all.len() && (#[trigger] all[i]).address == a {
        let i = choose|i: int| 0 <= i < all.len() && (#[trigger] all[i]).address == a;
        lemma_filter_member(s.issuers, pred, i);
        let j = choose|j: int| 0 <= j < s.issuers.len() && s.issuers[j] == #[trigger] all[i];
        s.issuers.lemma_filter_pred(pred, i);
        lemma_index_of(s, a, j);
    }
    if s.authorizes(a, credential_type) {
        let k = s.index_of(a);
        s.issuers.lemma_filter_contains(pred, k);
        let i = choose|i: int| 0 <= i < all.len() && all[i] == s.issuers[k];
        assert(all[i].address == a);
    }
}

/// A registered issuer, looked up by its address, carries exactly what it
/// was registered with: its name, description and credential types, the
/// registration time, and an active standing with no revocation.
pub proof fn law_registered_issuer_keeps_its_details(
    s: IssuerRegistryView,
    now: u64,
    sender: Seq<char>,
    issuer: Seq<char>,
    name: Seq<char>,
    description: Seq<char>,
    credential_types: Seq<Seq<char>>,
    api: Seq<(Seq<char>, Option<Seq<char>>)>,
)
    requires
        s.wf(),
        register_issuer_outcome(s, now, sender, issuer, name, description, credential_types, api).1 is Ok,
    ensures
        ({
            let t = register_issuer_outcome(
                s,
                now,
                sender,
                issuer,
                name,
                description,
                credential_types,
                api,
            ).0;
            &&& issuer_outcome(t, issuer, api) is Ok
            &&& issuer_outcome(t, issuer, api)->Ok_0.address == issuer
            &&& issuer_outcome(t, issuer, api)->Ok_0.name == name
            &&& issuer_outcome(t, issuer, api)->Ok_0.description == description
            &&& issuer_outcome(t, issuer, api)->Ok_0.credential_types == credential_types
            &&& issuer_outcome(t, issuer, api)->Ok_0.registered_at == now
            &&& issuer_outcome(t, issuer, api)->Ok_0.active
            &&& issuer_outcome(t, issuer, api)->Ok_0.revoked_at is None
            &&& issuer_outcome(t, issuer, api)->Ok_0.revocation_reason is None
        }),
{
    let a = addr_check(api, issuer)->Ok_0;
    lemma_with_issuer(s, new_issuer_record(a, name, description, credential_types, now));
}

/// After an update, the issuer's record holds each field given in the
/// update and keeps each field left out; its standing, registration and
/// revocation are untouched. Given credential types replace the old ones:
/// the issuer is then authorized for no type outside them.
pub proof fn law_update_replaces_given_fields(
    s: IssuerRegistryView,
    sender: Seq<char>,
    issuer: Seq<char>,
    name: Option<Seq<char>>,
    description: Option<Seq<char>>,
    credential_types: Option<Seq<Seq<char>>>,
    api: Seq<(Seq<char>, Option<Seq<char>>)>,
    credential_type: Seq<char>,
)
    requires
        s.wf(),
        update_issuer_outcome(s, sender, issuer, name, description, credential_types, api).1 is Ok,
    ensures
        ({
            let t = update_issuer_outcome(
                s,
                sender,
                issuer,
                name,
                description,
                credential_types,
                api,
            ).0;
            let old = issuer_outcome(s, issuer, api)->Ok_0;
            let new = issuer_outcome(t, issuer, api)->Ok_0;
            &&& issuer_outcome(s, issuer, api) is Ok
            &&& issuer_outcome(t, issuer, api) is Ok
            &&& new.address == issuer
            &&& new.name == (match name {
                Some(n) => n,
                None => old.name,
            })
            &&& new.description == (match description {
                Some(d) => d,
                None => old.description,
            })
            &&& new.credential_types == (match credential_types {
                Some(ts) => ts,
                None => old.credential_types,
            })
            &&& new.registered_at == old.registered_at
            &&& new.active == old.active
            &&& new.revoked_at == old.revoked_at
            &&& new.revocation_reason == old.revocation_reason
            &&& (credential_types is Some && !credential_types->Some_0.contains(credential_type))
                ==> (is_authorized_outcome(t, issuer, credential_type, api) is Ok
                && !is_authorized_outcome(t, issuer, credential_type, api)->Ok_0.authorized)
        }),
{
    let a = addr_check(api, issuer)->Ok_0;
    lemma_index_of(s, a, s.index_of(a));
    lemma_with_record(s, a, updated_record(s.issuer(a), name, description, credential_types));
}

/// Filtering with a test every entry passes keeps the whole listing.
proof fn lemma_filter_all<T>(v: Seq<T>, pred: spec_fn(T) -> bool)
    requires
        forall|i: int| 0 <= i < v.len() ==> pred(#[trigger] v[i]),
    ensures
        v.filter(pred) == v,
    decreases v.len(),
{
    reveal(Seq::filter);
    if v.len() > 0 {
        let t = v.drop_last();
        assert forall|i: int| 0 <= i < t.len() implies pred(#[trigger] t[i]) by {
            assert(t[i] == v[i]);
        }
        lemma_filter_all(t, pred);
        assert(pred(v.last()));
        assert(v =~= t.push(v.last()));
    }
}

/// Listing all issuers from the start gives every registered issuer,
/// active or revoked, in address order, a page at a time: the first page
/// is the first issuers up to the page size, and each registered issuer is
/// on it when they all fit.
pub proof fn law_issuer_listing_holds_every_record(
    s: IssuerRegistryView,
    limit: Option<u32>,
    api: Seq<(Seq<char>, Option<Seq<char>>)>,
    a: Seq<char>,
)
    ensures
        list_issuers_outcome(s, None, limit, api) == Ok::<Seq<IssuerRecordView>, StdErrorView>(
            page(s.issuers, effective_limit(limit)),
        ),
        s.has_issuer(a) && s.issuers.len() <= effective_limit(limit) ==> exists|i: int|
            0 <= i < list_issuers_outcome(s, None, limit, api)->Ok_0.len() && (
            #[trigger] list_issuers_outcome(s, None, limit, api)->Ok_0[i]) == s.issuer(a),
{
    lemma_filter_all(s.issuers, listed(None, None));
    if s.has_issuer(a) && s.issuers.len() <= effective_limit(limit) {
        let i = s.index_of(a);
        assert(list_issuers_outcome(s, None, limit, api)->Ok_0[i] == s.issuer(a));
    }
}

/// Revoking an issuer keeps it in the full listing: the listing from the
/// start, when every issuer fits on the page, still holds its record,
/// marked inactive with the revocation time and reason.
pub proof fn law_revoked_issuer_stays_listed(
    s: IssuerRegistryView,
    now: u64,
    sender: Seq<char>,
    issuer: Seq<char>,
    reason: Seq<char>,
    limit: Option<u32>,
    api: Seq<(Seq<char>, Option<Seq<char>>)>,
)
    requires
        s.wf(),
        revoke_issuer_outcome(s, now, sender, issuer, reason, api).1 is Ok,
        s.issuers.len() <= effective_limit(limit),
    ensures
        ({
            let t = revoke_issuer_outcome(s, now, sender, issuer, reason, api).0;
            let listing = list_issuers_outcome(t, None, limit, api)->Ok_0;
            &&& list_issuers_outcome(t, None, limit, api) is Ok
            &&& listing.len() == s.issuers.len()
            &&& exists|i: int|
                0 <= i < listing.len() && (#[trigger] listing[i]).address == issuer
                    && !listing[i].active && listing[i].revoked_at == Some(now)
                    && listing[i].revocation_reason == Some(reason)
        }),
{
    let a = addr_check(api, issuer)->Ok_0;
    let rec = revoked_record(s.issuer(a), now, reason);
    lemma_with_record(s, a, rec);
    let t = s.with_record(a, rec);
    assert(t.issuers.len() == s.issuers.len());
    law_issuer_listing_holds_every_record(t, limit, api, a);
    let listing = list_issuers_outcome(t, None, limit, api)->Ok_0;
    let i = t.index_of(a);
    assert(listing[i] == t.issuer(a));
}

} // verus!
