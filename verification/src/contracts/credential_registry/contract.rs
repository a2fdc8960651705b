//! The credential registry's state, how each message changes it, and what
//! each query answers.
//!
//! Schemas are kept in the order of their identifiers' stored keys; proof
//! records are numbered from 1 in the order they were recorded.

use vstd::prelude::*;

use super::error::{ContractError, ContractErrorView};
use crate::common::api::{addr_check, std_result_matches, Api, StdError, StdErrorView};
use crate::common::paging::{
    clamp_limit, effective_limit, lemma_filter_take_step, lemma_page_all, lemma_page_full, page,
};
use crate::common::response::{attributes_response, Response, ResponseView};
use crate::common::text::{
    decimal, decimal_string, key_bytes, key_lt, lemma_str_lt_strict, lemma_str_lt_total,
    lemma_str_lt_transitive, str_lt,
};
use crate::types::credential_registry::{
    AdminResponse, CredentialSchema, CredentialSchemaView, ExecuteMsg, InstantiateMsg,
    IsVerifiedResponse, IsVerifiedResponseView, ProofRecord, ProofRecordResponse, ProofRecordView,
    ProofRecordsResponse, QueryMsg, SchemaResponse, SchemasResponse,
};
use crate::types::{MAX_DESCRIPTION_LENGTH, MAX_ID_LENGTH};

verus! {

// ── State ─────────────────────────────────────────────────────────────

/// The registry: its admin, the schemas ordered by identifier, and the
/// proof records in the order they were recorded.
pub struct CredentialRegistry {
    admin: String,
    schemas: Vec<CredentialSchema>,
    proofs: Vec<ProofRecord>,
}

pub struct CredentialRegistryView {
    pub admin: Seq<char>,
    pub schemas: Seq<CredentialSchemaView>,
    pub proofs: Seq<ProofRecordView>,
}

/// Schema identifiers strictly ascend, so none occurs twice.
pub open spec fn schema_ids_ascending(s: Seq<CredentialSchemaView>) -> bool {
    forall|i: int, j: int|
        0 <= i < j < s.len() ==> str_lt(#[trigger] s[i].schema_id, #[trigger] s[j].schema_id)
}

/// `p` is where a schema with identifier `id` belongs in `s`.
pub open spec fn schema_insertion_point(s: Seq<CredentialSchemaView>, id: Seq<char>, p: int) -> bool {
    &&& 0 <= p <= s.len()
    &&& forall|j: int| 0 <= j < p ==> str_lt(#[trigger] s[j].schema_id, id)
    &&& forall|j: int| p <= j < s.len() ==> str_lt(id, #[trigger] s[j].schema_id)
}

/// Proof `k` (counting from 0) carries the identifier `k + 1`.
pub open spec fn proofs_numbered(p: Seq<ProofRecordView>) -> bool {
    forall|k: int| 0 <= k < p.len() ==> #[trigger] p[k].id == k + 1
}

/// The position of the most recent proof recorded for `subject` under
/// `schema_id`.
pub open spec fn latest_index(p: Seq<ProofRecordView>, schema_id: Seq<char>, subject: Seq<char>) -> Option<
    int,
>
    decreases p.len(),
{
    if p.len() == 0 {
        None
    } else if p.last().schema_id == schema_id && p.last().subject == subject {
        Some(p.len() - 1)
    } else {
        latest_index(p.drop_last(), schema_id, subject)
    }
}

/// The most recent proof for a pair is one of the proofs, and it is for
/// that pair.
pub proof fn lemma_latest_index(p: Seq<ProofRecordView>, schema_id: Seq<char>, subject: Seq<char>)
    ensures
        latest_index(p, schema_id, subject) matches Some(k) ==> 0 <= k < p.len()
            && p[k].schema_id == schema_id && p[k].subject == subject,
    decreases p.len(),
{
    if p.len() > 0 {
        let t = p.drop_last();
        lemma_latest_index(t, schema_id, subject);
        if let Some(k) = latest_index(t, schema_id, subject) {
            assert(t[k] == p[k]);
        }
    }
}

/// Whether a proof with expiry `expires_at` has expired at time `now`:
/// only strictly after its expiry.
pub open spec fn expired(expires_at: Option<u64>, now: u64) -> bool {
    match expires_at {
        Some(e) => now > e,
        None => false,
    }
}

/// Whether proof `r` is for `subject` under `schema_id`.
pub open spec fn for_pair(r: ProofRecordView, schema_id: Seq<char>, subject: Seq<char>) -> bool {
    r.schema_id == schema_id && r.subject == subject
}

/// Whether proof `r` is valid at time `now`: neither revoked nor expired.
pub open spec fn valid_at(r: ProofRecordView, now: u64) -> bool {
    !r.revoked && !expired(r.expires_at, now)
}

/// The position of the most recent proof for `subject` under `schema_id`
/// that is valid at time `now`.
pub open spec fn latest_valid_index(
    p: Seq<ProofRecordView>,
    schema_id: Seq<char>,
    subject: Seq<char>,
    now: u64,
) -> Option<int>
    decreases p.len(),
{
    if p.len() == 0 {
        None
    } else if for_pair(p.last(), schema_id, subject) && valid_at(p.last(), now) {
        Some(p.len() - 1)
    } else {
        latest_valid_index(p.drop_last(), schema_id, subject, now)
    }
}

/// The most recent valid proof for a pair is a valid proof for that pair,
/// and no later proof for the pair is valid; when there is none, no proof
/// for the pair is valid.
pub proof fn lemma_latest_valid_index(
    p: Seq<ProofRecordView>,
    schema_id: Seq<char>,
    subject: Seq<char>,
    now: u64,
)
    ensures
        match latest_valid_index(p, schema_id, subject, now) {
            None => forall|j: int|
                0 <= j < p.len() ==> !(for_pair(#[trigger] p[j], schema_id, subject) && valid_at(
                    p[j],
                    now,
                )),
            Some(k) => 0 <= k < p.len() && for_pair(p[k], schema_id, subject) && valid_at(p[k], now)
                && forall|j: int|
                k < j < p.len() ==> !(for_pair(#[trigger] p[j], schema_id, subject) && valid_at(
                    p[j],
                    now,
                )),
        },
    decreases p.len(),
{
    if p.len() > 0 {
        let t = p.drop_last();
        lemma_latest_valid_index(t, schema_id, subject, now);
        assert forall|j: int| 0 <= j < t.len() implies #[trigger] t[j] == p[j] by {}
        if !(for_pair(p.last(), schema_id, subject) && valid_at(p.last(), now)) {
            match latest_valid_index(t, schema_id, subject, now) {
                None => {
                    assert forall|j: int| 0 <= j < p.len() implies !(for_pair(
                        #[trigger] p[j],
                        schema_id,
                        subject,
                    ) && valid_at(p[j], now)) by {
                        if j < t.len() {
                            assert(t[j] == p[j]);
                        }
                    }
                },
                Some(k) => {
                    assert(t[k] == p[k]);
                    assert forall|j: int| k < j < p.len() implies !(for_pair(
                        #[trigger] p[j],
                        schema_id,
                        subject,
                    ) && valid_at(p[j], now)) by {
                        if j < t.len() {
                            assert(t[j] == p[j]);
                        }
                    }
                },
            }
        }
    }
}

impl CredentialRegistryView {
    pub open spec fn wf(self) -> bool {
        &&& schema_ids_ascending(self.schemas)
        &&& proofs_numbered(self.proofs)
    }

    pub open spec fn has_schema(self, id: Seq<char>) -> bool {
        exists|i: int| 0 <= i < self.schemas.len() && #[trigger] self.schemas[i].schema_id == id
    }

    pub open spec fn schema_index(self, id: Seq<char>) -> int {
        choose|i: int| 0 <= i < self.schemas.len() && #[trigger] self.schemas[i].schema_id == id
    }

    pub open spec fn schema(self, id: Seq<char>) -> CredentialSchemaView {
        self.schemas[self.schema_index(id)]
    }

    pub open spec fn schema_insert_pos(self, id: Seq<char>) -> int {
        choose|p: int| schema_insertion_point(self.schemas, id, p)
    }

    pub open spec fn with_schema(self, rec: CredentialSchemaView) -> CredentialRegistryView {
        CredentialRegistryView {
            admin: self.admin,
            schemas: self.schemas.insert(self.schema_insert_pos(rec.schema_id), rec),
            proofs: self.proofs,
        }
    }

    /// Whether a proof record with identifier `id` exists.
    pub open spec fn has_proof(self, id: u64) -> bool {
        1 <= id <= self.proofs.len()
    }

    /// The proof record with identifier `id`.
    pub open spec fn proof_record(self, id: u64) -> ProofRecordView {
        self.proofs[id - 1]
    }

    /// The registry with `rec` recorded after all earlier proofs.
    pub open spec fn with_proof(self, rec: ProofRecordView) -> CredentialRegistryView {
        CredentialRegistryView { admin: self.admin, schemas: self.schemas, proofs: self.proofs.push(rec) }
    }

    /// The registry with proof record `id` replaced by `rec`.
    pub open spec fn with_proof_at(self, id: u64, rec: ProofRecordView) -> CredentialRegistryView {
        CredentialRegistryView {
            admin: self.admin,
            schemas: self.schemas,
            proofs: self.proofs.update(id - 1, rec),
        }
    }

    pub open spec fn with_admin(self, a: Seq<char>) -> CredentialRegistryView {
        CredentialRegistryView { admin: a, schemas: self.schemas, proofs: self.proofs }
    }
}

impl View for CredentialRegistry {
    type V = CredentialRegistryView;

    closed spec fn view(&self) -> CredentialRegistryView {
        CredentialRegistryView {
            admin: self.admin@,
            schemas: self.schemas.deep_view(),
            proofs: self.proofs.deep_view(),
        }
    }
}

impl CredentialRegistry {
    #[verifier::type_invariant]
    spec fn inv(self) -> bool {
        self@.wf()
    }
}

// ── Facts about the order of schemas ──────────────────────────────────

pub proof fn lemma_schema_index(s: CredentialRegistryView, id: Seq<char>, i: int)
    requires
        s.wf(),
        0 <= i < s.schemas.len(),
        s.schemas[i].schema_id == id,
    ensures
        s.has_schema(id),
        s.schema_index(id) == i,
{
    let k = s.schema_index(id);
    assert(s.schemas[i].schema_id == id);
    if k < i {
        lemma_str_lt_strict(s.schemas[k].schema_id, s.schemas[i].schema_id);
    } else if k > i {
        lemma_str_lt_strict(s.schemas[i].schema_id, s.schemas[k].schema_id);
    }
}

pub proof fn lemma_schema_insert_pos(s: CredentialRegistryView, id: Seq<char>, p: int)
    requires
        schema_insertion_point(s.schemas, id, p),
    ensures
        s.schema_insert_pos(id) == p,
        !s.has_schema(id),
{
    let q = s.schema_insert_pos(id);
    assert(schema_insertion_point(s.schemas, id, q));
    if q < p {
        lemma_str_lt_strict(s.schemas[q].schema_id, id);
    } else if q > p {
        lemma_str_lt_strict(s.schemas[p].schema_id, id);
        lemma_str_lt_strict(id, s.schemas[p].schema_id);
    }
    if s.has_schema(id) {
        let i = choose|i: int| 0 <= i < s.schemas.len() && #[trigger] s.schemas[i].schema_id == id;
        if i < p {
            lemma_str_lt_strict(s.schemas[i].schema_id, id);
        } else {
            lemma_str_lt_strict(id, s.schemas[i].schema_id);
        }
    }
}

pub proof fn lemma_schema_insert_ascending(s: Seq<CredentialSchemaView>, rec: CredentialSchemaView, p: int)
    requires
        schema_ids_ascending(s),
        schema_insertion_point(s, rec.schema_id, p),
    ensures
        schema_ids_ascending(s.insert(p, rec)),
{
    let t = s.insert(p, rec);
    assert forall|i: int, j: int| 0 <= i < j < t.len() implies str_lt(
        #[trigger] t[i].schema_id,
        #[trigger] t[j].schema_id,
    ) by {
        if j < p {
            assert(t[i] == s[i] && t[j] == s[j]);
        } else if j == p {
            assert(t[i] == s[i]);
        } else if i < p {
            assert(t[i] == s[i] && t[j] == s[j - 1]);
            lemma_str_lt_transitive(s[i].schema_id, rec.schema_id, s[j - 1].schema_id);
        } else if i == p {
            assert(t[j] == s[j - 1]);
        } else {
            assert(t[i] == s[i - 1] && t[j] == s[j - 1]);
        }
    }
}

/// A schema identifier not yet registered has a place among the schemas.
pub proof fn lemma_schema_insertion_point_exists(s: Seq<CredentialSchemaView>, id: Seq<char>) -> (p:
    int)
    requires
        schema_ids_ascending(s),
        forall|i: int| 0 <= i < s.len() ==> #[trigger] s[i].schema_id != id,
    ensures
        schema_insertion_point(s, id, p),
    decreases s.len(),
{
    if s.len() == 0 {
        0
    } else {
        let t = s.drop_last();
        assert forall|i: int, j: int| 0 <= i < j < t.len() implies str_lt(
            #[trigger] t[i].schema_id,
            #[trigger] t[j].schema_id,
        ) by {
            assert(t[i] == s[i] && t[j] == s[j]);
        }
        assert forall|i: int| 0 <= i < t.len() implies #[trigger] t[i].schema_id != id by {
            assert(t[i] == s[i]);
        }
        let q = lemma_schema_insertion_point_exists(t, id);
        let last = s.len() - 1;
        lemma_str_lt_total(s[last].schema_id, id);
        if str_lt(s[last].schema_id, id) {
            assert forall|j: int| 0 <= j < s.len() implies str_lt(#[trigger] s[j].schema_id, id) by {
                if j < last {
                    lemma_str_lt_transitive(s[j].schema_id, s[last].schema_id, id);
                }
            }
            s.len() as int
        } else {
            assert forall|j: int| 0 <= j < q implies str_lt(#[trigger] s[j].schema_id, id) by {
                assert(t[j] == s[j]);
            }
            assert forall|j: int| q <= j < s.len() implies str_lt(id, #[trigger] s[j].schema_id) by {
                if j < last {
                    assert(t[j] == s[j]);
                }
            }
            q
        }
    }
}

// ── Construction and access ───────────────────────────────────────────

/// The admin address that instantiation sets.
pub open spec fn instantiate_admin(
    sender: Seq<char>,
    admin: Option<Seq<char>>,
    api: Seq<(Seq<char>, Option<Seq<char>>)>,
) -> Result<Seq<char>, StdErrorView> {
    match admin {
        None => Ok(sender),
        Some(a) => addr_check(api, a),
    }
}

/// The registry at instantiation: no schemas, no proofs.
pub fn instantiate(sender: &String, msg: InstantiateMsg, api: &Api) -> (r: Result<
    (CredentialRegistry, Response),
    ContractError,
>)
    ensures
        match instantiate_admin(sender@, msg.admin.deep_view(), api@) {
            Err(e) => r is Err && r->Err_0@ == ContractErrorView::Std(e),
            Ok(a) => r is Ok && r->Ok_0.0@ == (CredentialRegistryView {
                admin: a,
                schemas: seq![],
                proofs: seq![],
            }) && r->Ok_0.1@ == attributes_response(
                seq![("action"@, "instantiate"@), ("admin"@, a)],
            ),
        },
{
    let admin = match &msg.admin {
        Some(a) => match api.addr_validate(a) {
            Ok(v) => v,
            Err(e) => {
                return Err(ContractError::Std(e));
            },
        },
        None => sender.clone(),
    };
    let mut resp = Response::new();
    resp.add_attribute("action", String::from_str("instantiate"));
    resp.add_attribute("admin", admin.clone());
    let state = CredentialRegistry { admin, schemas: Vec::new(), proofs: Vec::new() };
    assert(state@.schemas =~= seq![]);
    assert(state@.proofs =~= seq![]);
    assert(resp@.attributes =~= seq![("action"@, "instantiate"@), ("admin"@, state@.admin)]);
    Ok((state, resp))
}

impl CredentialRegistry {
    /// Rebuilds a registry from its parts; `None` unless the schemas are
    /// strictly ascending by identifier and the proofs are numbered 1, 2, ...
    pub fn from_parts(admin: String, schemas: Vec<CredentialSchema>, proofs: Vec<ProofRecord>) -> (r:
        Option<CredentialRegistry>)
        ensures
            r is Some <==> schema_ids_ascending(schemas.deep_view()) && proofs_numbered(
                proofs.deep_view(),
            ),
            r is Some ==> r->Some_0@ == (CredentialRegistryView {
                admin: admin@,
                schemas: schemas.deep_view(),
                proofs: proofs.deep_view(),
            }),
    {
        let ghost s = schemas.deep_view();
        let mut i: usize = 1;
        while i < schemas.len()
            invariant
                1 <= i,
                s == schemas.deep_view(),
                schemas.len() > 0 ==> i <= schemas.len(),
                forall|a: int, b: int| 0 <= a < b < i && b < s.len() ==> str_lt(
                    #[trigger] s[a].schema_id,
                    #[trigger] s[b].schema_id,
                ),
            decreases schemas.len() - i,
        {
            if !key_lt(schemas[i - 1].schema_id.as_str(), schemas[i].schema_id.as_str()) {
                assert(!str_lt(s[i - 1].schema_id, s[i as int].schema_id));
                return None;
            }
            assert forall|a: int, b: int| 0 <= a < b < i + 1 && b < s.len() implies str_lt(
                #[trigger] s[a].schema_id,
                #[trigger] s[b].schema_id,
            ) by {
                if b == i && a < i - 1 {
                    lemma_str_lt_transitive(s[a].schema_id, s[i - 1].schema_id, s[b].schema_id);
                }
            }
            i = i + 1;
        }
        let ghost p = proofs.deep_view();
        let mut k: usize = 0;
        while k < proofs.len()
            invariant
                k <= proofs.len(),
                p == proofs.deep_view(),
                forall|j: int| 0 <= j < k ==> #[trigger] p[j].id == j + 1,
            decreases proofs.len() - k,
        {
            if proofs[k].id as u128 != k as u128 + 1 {
                assert(p[k as int].id != k + 1);
                return None;
            }
            k = k + 1;
        }
        Some(CredentialRegistry { admin, schemas, proofs })
    }

    /// The admin address.
    pub fn admin(&self) -> (r: &String)
        ensures
            r@ == self@.admin,
    {
        &self.admin
    }

    /// The registered schemas, in identifier order.
    pub fn schemas(&self) -> (r: &Vec<CredentialSchema>)
        ensures
            r.deep_view() == self@.schemas,
    {
        &self.schemas
    }

    /// The proof records, in the order they were recorded.
    pub fn proofs(&self) -> (r: &Vec<ProofRecord>)
        ensures
            r.deep_view() == self@.proofs,
    {
        &self.proofs
    }

    /// How many proofs have been recorded.
    pub fn proof_count(&self) -> (r: u64)
        ensures
            r == self@.proofs.len(),
    {
        self.proofs.len() as u64
    }

    /// Where the schema `id` stands (`found`), or where it belongs (`!found`).
    fn locate_schema(&self, id: &String) -> (r: (bool, usize))
        ensures
            r.0 == self@.has_schema(id@),
            r.0 ==> r.1 < self@.schemas.len() && self@.schema_index(id@) == r.1 as int
                && self@.schemas[r.1 as int].schema_id == id@,
            !r.0 ==> self@.schema_insert_pos(id@) == r.1 as int && schema_insertion_point(
                self@.schemas,
                id@,
                r.1 as int,
            ),
    {
        proof {
            use_type_invariant(self);
        }
        let ghost s = self@;
        let mut i: usize = 0;
        let mut scanning = true;
        while scanning && i < self.schemas.len()
            invariant
                s == self@,
                s.wf(),
                i <= s.schemas.len(),
                forall|j: int| 0 <= j < i ==> str_lt(#[trigger] s.schemas[j].schema_id, id@),
                !scanning ==> i < s.schemas.len() && !str_lt(s.schemas[i as int].schema_id, id@),
            decreases self.schemas.len() - i + (if scanning { 1int } else { 0int }),
        {
            if key_lt(self.schemas[i].schema_id.as_str(), id.as_str()) {
                i = i + 1;
            } else {
                scanning = false;
            }
        }
        if i < self.schemas.len() && self.schemas[i].schema_id == *id {
            proof {
                lemma_schema_index(s, id@, i as int);
            }
            (true, i)
        } else {
            proof {
                if i < s.schemas.len() {
                    let x = s.schemas[i as int].schema_id;
                    lemma_str_lt_total(x, id@);
                    assert forall|j: int| i <= j < s.schemas.len() implies str_lt(
                        id@,
                        #[trigger] s.schemas[j].schema_id,
                    ) by {
                        if j > i {
                            lemma_str_lt_transitive(id@, x, s.schemas[j].schema_id);
                        }
                    }
                }
                lemma_schema_insert_pos(s, id@, i as int);
            }
            (false, i)
        }
    }

    /// The position of the most recent proof for `subject` under `schema_id`.
    fn latest_proof(&self, schema_id: &String, subject: &String) -> (r: Option<usize>)
        ensures
            match r {
                None => latest_index(self@.proofs, schema_id@, subject@) is None,
                Some(k) => latest_index(self@.proofs, schema_id@, subject@) == Some(k as int),
            },
    {
        let ghost p = self@.proofs;
        let mut i: usize = self.proofs.len();
        assert(p.take(i as int) =~= p);
        while i > 0
            invariant
                p == self@.proofs,
                i <= p.len(),
                latest_index(p, schema_id@, subject@) == latest_index(
                    p.take(i as int),
                    schema_id@,
                    subject@,
                ),
            decreases i,
        {
            let ghost t = p.take(i as int);
            assert(t.last() == p[i - 1]);
            assert(t.drop_last() =~= p.take(i - 1));
            if self.proofs[i - 1].schema_id == *schema_id && self.proofs[i - 1].subject == *subject {
                return Some(i - 1);
            }
            i = i - 1;
        }
        None
    }

    /// The position of the most recent proof for `subject` under `schema_id`
    /// that is valid at time `now`.
    fn latest_valid_proof(&self, schema_id: &String, subject: &String, now: u64) -> (r: Option<
        usize,
    >)
        ensures
            match r {
                None => latest_valid_index(self@.proofs, schema_id@, subject@, now) is None,
                Some(k) => latest_valid_index(self@.proofs, schema_id@, subject@, now) == Some(
                    k as int,
                ),
            },
    {
        let ghost p = self@.proofs;
        let mut i: usize = self.proofs.len();
        assert(p.take(i as int) =~= p);
        while i > 0
            invariant
                p == self@.proofs,
                i <= p.len(),
                latest_valid_index(p, schema_id@, subject@, now) == latest_valid_index(
                    p.take(i as int),
                    schema_id@,
                    subject@,
                    now,
                ),
            decreases i,
        {
            let ghost t = p.take(i as int);
            assert(t.last() == p[i - 1]);
            assert(t.drop_last() =~= p.take(i - 1));
            let rec = &self.proofs[i - 1];
            assert(rec@ == p[i - 1]);
            let unexpired = match rec.expires_at {
                Some(exp) => now <= exp,
                None => true,
            };
            if rec.schema_id == *schema_id && rec.subject == *subject && !rec.revoked && unexpired {
                return Some(i - 1);
            }
            i = i - 1;
        }
        None
    }
}

// ── Execute ───────────────────────────────────────────────────────────

pub open spec fn result_view(r: Result<Response, ContractError>) -> Result<
    ResponseView,
    ContractErrorView,
> {
    match r {
        Ok(x) => Ok(x@),
        Err(e) => Err(e@),
    }
}

/// Whether a description is longer than allowed (counted in bytes).
pub open spec fn description_too_long(d: Seq<char>) -> bool {
    key_bytes(d).len() > MAX_DESCRIPTION_LENGTH
}

/// Whether a schema identifier is longer than allowed (counted in bytes).
pub open spec fn schema_id_too_long(id: Seq<char>) -> bool {
    key_bytes(id).len() > MAX_ID_LENGTH
}

/// A newly registered schema, active from the start.
pub open spec fn new_schema(
    schema_id: Seq<char>,
    name: Seq<char>,
    description: Seq<char>,
    verifier_contract: Seq<char>,
    credential_types: Seq<Seq<char>>,
    now: u64,
) -> CredentialSchemaView {
    CredentialSchemaView {
        schema_id,
        name,
        description,
        verifier_contract,
        credential_types,
        created_at: now,
        active: true,
    }
}

/// Registering a schema: the admin only; an identifier that is neither
/// empty nor too long nor taken; a name; a description within bounds; at
/// least one credential type; a valid verifier contract address.
pub open spec fn register_schema_outcome(
    s: CredentialRegistryView,
    now: u64,
    sender: Seq<char>,
    schema_id: Seq<char>,
    name: Seq<char>,
    description: Seq<char>,
    verifier_contract: Seq<char>,
    credential_types: Seq<Seq<char>>,
    api: Seq<(Seq<char>, Option<Seq<char>>)>,
) -> (CredentialRegistryView, Result<ResponseView, ContractErrorView>) {
    if sender != s.admin {
        (s, Err(ContractErrorView::Unauthorized))
    } else if schema_id.len() == 0 {
        (s, Err(ContractErrorView::EmptySchemaId))
    } else if schema_id_too_long(schema_id) {
        (s, Err(ContractErrorView::SchemaIdTooLong { max: MAX_ID_LENGTH }))
    } else if name.len() == 0 {
        (s, Err(ContractErrorView::EmptyName))
    } else if description_too_long(description) {
        (s, Err(ContractErrorView::DescriptionTooLong { max: MAX_DESCRIPTION_LENGTH }))
    } else if credential_types.len() == 0 {
        (s, Err(ContractErrorView::EmptyCredentialTypes))
    } else if s.has_schema(schema_id) {
        (s, Err(ContractErrorView::SchemaAlreadyExists { schema_id }))
    } else {
        match addr_check(api, verifier_contract) {
            Err(e) => (s, Err(ContractErrorView::Std(e))),
            Ok(v) => (
                s.with_schema(new_schema(schema_id, name, description, v, credential_types, now)),
                Ok(
                    attributes_response(
                        seq![
                            ("action"@, "register_schema"@),
                            ("schema_id"@, schema_id),
                            ("name"@, name),
                        ],
                    ),
                ),
            ),
        }
    }
}

/// The identifier the next recorded proof gets.
pub open spec fn next_proof_id(s: CredentialRegistryView) -> u64 {
    (s.proofs.len() + 1) as u64
}

/// A newly recorded proof.
pub open spec fn new_proof(
    id: u64,
    schema_id: Seq<char>,
    subject: Seq<char>,
    proof_hash: Seq<char>,
    issuer: Seq<char>,
    now: u64,
    expires_at: Option<u64>,
) -> ProofRecordView {
    ProofRecordView {
        id,
        schema_id,
        subject,
        proof_hash,
        issuer,
        verified_at: now,
        expires_at,
        revoked: false,
        revoked_at: None,
        revocation_reason: None,
    }
}

/// Recording a proof: a non-empty hash; a registered schema; sent by that
/// schema's verifier contract or by the admin; valid subject and issuer
/// addresses. The proof gets the next identifier.
pub open spec fn record_proof_outcome(
    s: CredentialRegistryView,
    now: u64,
    sender: Seq<char>,
    schema_id: Seq<char>,
    subject: Seq<char>,
    proof_hash: Seq<char>,
    issuer: Seq<char>,
    expires_at: Option<u64>,
    api: Seq<(Seq<char>, Option<Seq<char>>)>,
) -> (CredentialRegistryView, Result<ResponseView, ContractErrorView>) {
    if proof_hash.len() == 0 {
        (s, Err(ContractErrorView::EmptyProofHash))
    } else if !s.has_schema(schema_id) {
        (s, Err(ContractErrorView::SchemaNotFound { schema_id }))
    } else if sender != s.schema(schema_id).verifier_contract && sender != s.admin {
        (s, Err(ContractErrorView::UnauthorizedRecorder))
    } else {
        match addr_check(api, subject) {
            Err(e) => (s, Err(ContractErrorView::Std(e))),
            Ok(sub) => match addr_check(api, issuer) {
                Err(e) => (s, Err(ContractErrorView::Std(e))),
                Ok(iss) => (
                    s.with_proof(
                        new_proof(next_proof_id(s), schema_id, sub, proof_hash, iss, now, expires_at),
                    ),
                    Ok(
                        attributes_response(
                            seq![
                                ("action"@, "record_proof"@),
                                ("proof_id"@, decimal(next_proof_id(s) as nat)),
                                ("schema_id"@, schema_id),
                                ("subject"@, sub),
                                ("proof_hash"@, proof_hash),
                            ],
                        ),
                    ),
                ),
            },
        }
    }
}

/// A proof as revocation leaves it.
pub open spec fn revoked_proof(r: ProofRecordView, now: u64, reason: Seq<char>) -> ProofRecordView {
    ProofRecordView {
        id: r.id,
        schema_id: r.schema_id,
        subject: r.subject,
        proof_hash: r.proof_hash,
        issuer: r.issuer,
        verified_at: r.verified_at,
        expires_at: r.expires_at,
        revoked: true,
        revoked_at: Some(now),
        revocation_reason: Some(reason),
    }
}

/// Revoking a proof: a non-empty reason; an existing, unrevoked proof;
/// sent by the admin or by the proof's issuer.
pub open spec fn revoke_proof_outcome(
    s: CredentialRegistryView,
    now: u64,
    sender: Seq<char>,
    proof_id: u64,
    reason: Seq<char>,
) -> (CredentialRegistryView, Result<ResponseView, ContractErrorView>) {
    if reason.len() == 0 {
        (s, Err(ContractErrorView::EmptyRevocationReason))
    } else if !s.has_proof(proof_id) {
        (s, Err(ContractErrorView::ProofNotFound { proof_id }))
    } else if s.proof_record(proof_id).revoked {
        (s, Err(ContractErrorView::ProofAlreadyRevoked { proof_id }))
    } else if sender != s.admin && sender != s.proof_record(proof_id).issuer {
        (s, Err(ContractErrorView::Unauthorized))
    } else {
        (
            s.with_proof_at(proof_id, revoked_proof(s.proof_record(proof_id), now, reason)),
            Ok(
                attributes_response(
                    seq![
                        ("action"@, "revoke_proof"@),
                        ("proof_id"@, decimal(proof_id as nat)),
                        ("reason"@, reason),
                    ],
                ),
            ),
        )
    }
}

/// Changing the admin: the admin only; a valid new address.
pub open spec fn update_admin_outcome(
    s: CredentialRegistryView,
    sender: Seq<char>,
    new_admin: Seq<char>,
    api: Seq<(Seq<char>, Option<Seq<char>>)>,
) -> (CredentialRegistryView, Result<ResponseView, ContractErrorView>) {
    if sender != s.admin {
        (s, Err(ContractErrorView::Unauthorized))
    } else {
        match addr_check(api, new_admin) {
            Err(e) => (s, Err(ContractErrorView::Std(e))),
            Ok(a) => (
                s.with_admin(a),
                Ok(attributes_response(seq![("action"@, "update_admin"@), ("new_admin"@, a)])),
            ),
        }
    }
}

/// The outcome of any execute message.
pub open spec fn execute_outcome(
    s: CredentialRegistryView,
    now: u64,
    sender: Seq<char>,
    msg: ExecuteMsg,
    api: Seq<(Seq<char>, Option<Seq<char>>)>,
) -> (CredentialRegistryView, Result<ResponseView, ContractErrorView>) {
    match msg {
        ExecuteMsg::RegisterSchema {
            schema_id,
            name,
            description,
            verifier_contract,
            credential_types,
        } => register_schema_outcome(
            s,
            now,
            sender,
            schema_id@,
            name@,
            description@,
            verifier_contract@,
            credential_types.deep_view(),
            api,
        ),
        ExecuteMsg::RecordProof { schema_id, subject, proof_hash, issuer, expires_at } =>
            record_proof_outcome(
            s,
            now,
            sender,
            schema_id@,
            subject@,
            proof_hash@,
            issuer@,
            expires_at,
            api,
        ),
        ExecuteMsg::RevokeProof { proof_id, reason } => revoke_proof_outcome(
            s,
            now,
            sender,
            proof_id,
            reason@,
        ),
        ExecuteMsg::UpdateAdmin { new_admin } => update_admin_outcome(s, sender, new_admin@, api),
    }
}

impl CredentialRegistry {
    /// Registers a new credential schema (admin only).
    pub fn execute_register_schema(
        &mut self,
        now: u64,
        sender: &String,
        schema_id: String,
        name: String,
        description: String,
        verifier_contract: String,
        credential_types: Vec<String>,
        api: &Api,
    ) -> (r: Result<Response, ContractError>)
        ensures
            (final(self)@, result_view(r)) == register_schema_outcome(
                old(self)@,
                now,
                sender@,
                schema_id@,
                name@,
                description@,
                verifier_contract@,
                credential_types.deep_view(),
                api@,
            ),
    {
        proof {
            use_type_invariant(&*self);
        }
        if !(*sender == self.admin) {
            return Err(ContractError::Unauthorized);
        }
        if schema_id.as_str().is_empty() {
            return Err(ContractError::EmptySchemaId);
        }
        if schema_id.as_str().as_bytes().len() > MAX_ID_LENGTH {
            return Err(ContractError::SchemaIdTooLong { max: MAX_ID_LENGTH });
        }
        if name.as_str().is_empty() {
            return Err(ContractError::EmptyName);
        }
        if description.as_str().as_bytes().len() > MAX_DESCRIPTION_LENGTH {
            return Err(ContractError::DescriptionTooLong { max: MAX_DESCRIPTION_LENGTH });
        }
        if credential_types.len() == 0 {
            return Err(ContractError::EmptyCredentialTypes);
        }
        let (found, pos) = self.locate_schema(&schema_id);
        if found {
            return Err(ContractError::SchemaAlreadyExists { schema_id });
        }
        let verifier_addr = match api.addr_validate(&verifier_contract) {
            Ok(a) => a,
            Err(e) => {
                return Err(ContractError::Std(e));
            },
        };
        let mut resp = Response::new();
        resp.add_attribute("action", String::from_str("register_schema"));
        resp.add_attribute("schema_id", schema_id.clone());
        resp.add_attribute("name", name.clone());
        let schema = CredentialSchema {
            schema_id,
            name,
            description,
            verifier_contract: verifier_addr,
            credential_types,
            created_at: now,
            active: true,
        };
        proof {
            lemma_schema_insert_ascending(self@.schemas, schema@, pos as int);
        }
        let mut list: Vec<CredentialSchema> = Vec::new();
        std::mem::swap(&mut list, &mut self.schemas);
        list.insert(pos, schema);
        assert(list.deep_view() =~= old(self)@.schemas.insert(pos as int, schema@));
        std::mem::swap(&mut list, &mut self.schemas);
        assert(resp@.attributes =~= seq![
            ("action"@, "register_schema"@),
            ("schema_id"@, schema@.schema_id),
            ("name"@, schema@.name),
        ]);
        Ok(resp)
    }

    /// Records a verified proof (the schema's verifier contract or the admin).
    pub fn execute_record_proof(
        &mut self,
        now: u64,
        sender: &String,
        schema_id: String,
        subject: String,
        proof_hash: String,
        issuer: String,
        expires_at: Option<u64>,
        api: &Api,
    ) -> (r: Result<Response, ContractError>)
        requires
            old(self)@.proofs.len() < u64::MAX,
        ensures
            (final(self)@, result_view(r)) == record_proof_outcome(
                old(self)@,
                now,
                sender@,
                schema_id@,
                subject@,
                proof_hash@,
                issuer@,
                expires_at,
                api@,
            ),
    {
        proof {
            use_type_invariant(&*self);
        }
        if proof_hash.as_str().is_empty() {
            return Err(ContractError::EmptyProofHash);
        }
        let (found, pos) = self.locate_schema(&schema_id);
        if !found {
            return Err(ContractError::SchemaNotFound { schema_id });
        }
        if !(*sender == self.schemas[pos].verifier_contract) && !(*sender == self.admin) {
            return Err(ContractError::UnauthorizedRecorder);
        }
        let subject_addr = match api.addr_validate(&subject) {
            Ok(a) => a,
            Err(e) => {
                return Err(ContractError::Std(e));
            },
        };
        let issuer_addr = match api.addr_validate(&issuer) {
            Ok(a) => a,
            Err(e) => {
                return Err(ContractError::Std(e));
            },
        };
        let id = self.proofs.len() as u64 + 1;
        let mut resp = Response::new();
        resp.add_attribute("action", String::from_str("record_proof"));
        resp.add_attribute("proof_id", decimal_string(id));
        resp.add_attribute("schema_id", schema_id.clone());
        resp.add_attribute("subject", subject_addr.clone());
        resp.add_attribute("proof_hash", proof_hash.clone());
        let record = ProofRecord {
            id,
            schema_id,
            subject: subject_addr,
            proof_hash,
            issuer: issuer_addr,
            verified_at: now,
            expires_at,
            revoked: false,
            revoked_at: None,
            revocation_reason: None,
        };
        let mut list: Vec<ProofRecord> = Vec::new();
        std::mem::swap(&mut list, &mut self.proofs);
        list.push(record);
        assert(list.deep_view() =~= old(self)@.proofs.push(record@));
        std::mem::swap(&mut list, &mut self.proofs);
        assert(resp@.attributes =~= seq![
            ("action"@, "record_proof"@),
            ("proof_id"@, decimal(id as nat)),
            ("schema_id"@, record@.schema_id),
            ("subject"@, record@.subject),
            ("proof_hash"@, record@.proof_hash),
        ]);
        Ok(resp)
    }

    /// Revokes a recorded proof (its issuer or the admin).
    pub fn execute_revoke_proof(&mut self, now: u64, sender: &String, proof_id: u64, reason: String) -> (r:
        Result<Response, ContractError>)
        ensures
            (final(self)@, result_view(r)) == revoke_proof_outcome(
                old(self)@,
                now,
                sender@,
                proof_id,
                reason@,
            ),
    {
        proof {
            use_type_invariant(&*self);
        }
        if reason.as_str().is_empty() {
            return Err(ContractError::EmptyRevocationReason);
        }
        if proof_id == 0 || proof_id > self.proofs.len() as u64 {
            return Err(ContractError::ProofNotFound { proof_id });
        }
        let k = (proof_id - 1) as usize;
        if self.proofs[k].revoked {
            return Err(ContractError::ProofAlreadyRevoked { proof_id });
        }
        if !(*sender == self.admin) && !(*sender == self.proofs[k].issuer) {
            return Err(ContractError::Unauthorized);
        }
        let mut record = self.proofs[k].duplicate();
        record.revoked = true;
        record.revoked_at = Some(now);
        record.revocation_reason = Some(reason.clone());
        let mut resp = Response::new();
        resp.add_attribute("action", String::from_str("revoke_proof"));
        resp.add_attribute("proof_id", decimal_string(proof_id));
        resp.add_attribute("reason", reason);
        let mut list: Vec<ProofRecord> = Vec::new();
        std::mem::swap(&mut list, &mut self.proofs);
        list.set(k, record);
        assert(list.deep_view() =~= old(self)@.proofs.update(k as int, record@));
        std::mem::swap(&mut list, &mut self.proofs);
        assert(resp@.attributes =~= seq![
            ("action"@, "revoke_proof"@),
            ("proof_id"@, decimal(proof_id as nat)),
            ("reason"@, record@.revocation_reason->Some_0),
        ]);
        Ok(resp)
    }

    /// Hands the admin role to another address (admin only).
    pub fn execute_update_admin(&mut self, sender: &String, new_admin: String, api: &Api) -> (r:
        Result<Response, ContractError>)
        ensures
            (final(self)@, result_view(r)) == update_admin_outcome(
                old(self)@,
                sender@,
                new_admin@,
                api@,
            ),
    {
        proof {
            use_type_invariant(&*self);
        }
        if !(*sender == self.admin) {
            return Err(ContractError::Unauthorized);
        }
        let new_admin_addr = match api.addr_validate(&new_admin) {
            Ok(a) => a,
            Err(e) => {
                return Err(ContractError::Std(e));
            },
        };
        let mut resp = Response::new();
        resp.add_attribute("action", String::from_str("update_admin"));
        resp.add_attribute("new_admin", new_admin_addr.clone());
        self.admin = new_admin_addr;
        assert(resp@.attributes =~= seq![("action"@, "update_admin"@), ("new_admin"@, self@.admin)]);
        Ok(resp)
    }
}

/// Executes `msg` sent by `sender` at block time `now`.
pub fn execute(
    state: &mut CredentialRegistry,
    now: u64,
    sender: &String,
    msg: ExecuteMsg,
    api: &Api,
) -> (r: Result<Response, ContractError>)
    requires
        msg is RecordProof ==> old(state)@.proofs.len() < u64::MAX,
    ensures
        (final(state)@, result_view(r)) == execute_outcome(old(state)@, now, sender@, msg, api@),
{
    match msg {
        ExecuteMsg::RegisterSchema {
            schema_id,
            name,
            description,
            verifier_contract,
            credential_types,
        } => state.execute_register_schema(
            now,
            sender,
            schema_id,
            name,
            description,
            verifier_contract,
            credential_types,
            api,
        ),
        ExecuteMsg::RecordProof { schema_id, subject, proof_hash, issuer, expires_at } => state.execute_record_proof(
            now,
            sender,
            schema_id,
            subject,
            proof_hash,
            issuer,
            expires_at,
            api,
        ),
        ExecuteMsg::RevokeProof { proof_id, reason } => state.execute_revoke_proof(
            now,
            sender,
            proof_id,
            reason,
        ),
        ExecuteMsg::UpdateAdmin { new_admin } => state.execute_update_admin(sender, new_admin, api),
    }
}

// ── Query ─────────────────────────────────────────────────────────────

/// The answer to any query.
#[derive(Debug, Clone, PartialEq, Eq)]
pub enum QueryResponse {
    IsVerified(IsVerifiedResponse),
    ProofRecord(ProofRecordResponse),
    ProofRecords(ProofRecordsResponse),
    Schema(SchemaResponse),
    Schemas(SchemasResponse),
    Admin(AdminResponse),
}

pub enum QueryResponseView {
    IsVerified(IsVerifiedResponseView),
    ProofRecord(ProofRecordView),
    ProofRecords(Seq<ProofRecordView>),
    Schema(CredentialSchemaView),
    Schemas(Seq<CredentialSchemaView>),
    Admin(Seq<char>),
}

impl View for QueryResponse {
    type V = QueryResponseView;

    open spec fn view(&self) -> QueryResponseView {
        match self {
            QueryResponse::IsVerified(r) => QueryResponseView::IsVerified(r@),
            QueryResponse::ProofRecord(r) => QueryResponseView::ProofRecord(r@),
            QueryResponse::ProofRecords(r) => QueryResponseView::ProofRecords(r@),
            QueryResponse::Schema(r) => QueryResponseView::Schema(r@),
            QueryResponse::Schemas(r) => QueryResponseView::Schemas(r@),
            QueryResponse::Admin(r) => QueryResponseView::Admin(r@),
        }
    }
}

/// What the framework names a proof record that a lookup did not find.
pub open spec fn proof_record_kind() -> Seq<char> {
    "proofkit_types::credential_registry::ProofRecord"@
}

/// What the framework names a schema that a lookup did not find.
pub open spec fn schema_kind() -> Seq<char> {
    "proofkit_types::credential_registry::CredentialSchema"@
}

/// Whether `subject` holds a valid proof for `schema_id` at time `now`:
/// verified exactly when some proof recorded for the pair is neither
/// revoked nor expired. The answer names the most recent such proof and its
/// expiry; when there is none, it names the most recent proof for the pair,
/// if any.
pub open spec fn is_verified_outcome(
    s: CredentialRegistryView,
    now: u64,
    subject: Seq<char>,
    schema_id: Seq<char>,
    api: Seq<(Seq<char>, Option<Seq<char>>)>,
) -> Result<IsVerifiedResponseView, StdErrorView> {
    match addr_check(api, subject) {
        Err(e) => Err(e),
        Ok(a) => match latest_valid_index(s.proofs, schema_id, a, now) {
            Some(k) => Ok(
                IsVerifiedResponseView {
                    verified: true,
                    proof_id: Some(s.proofs[k].id),
                    expires_at: s.proofs[k].expires_at,
                },
            ),
            None => match latest_index(s.proofs, schema_id, a) {
                None => Ok(IsVerifiedResponseView { verified: false, proof_id: None, expires_at: None }),
                Some(k) => Ok(
                    IsVerifiedResponseView {
                        verified: false,
                        proof_id: Some(s.proofs[k].id),
                        expires_at: s.proofs[k].expires_at,
                    },
                ),
            },
        },
    }
}

pub open spec fn proof_record_outcome(s: CredentialRegistryView, proof_id: u64) -> Result<
    ProofRecordView,
    StdErrorView,
> {
    if s.has_proof(proof_id) {
        Ok(s.proof_record(proof_id))
    } else {
        Err(StdErrorView::NotFound { kind: proof_record_kind() })
    }
}

/// Which proofs a subject listing holds: the subject's, after `start_after`.
pub open spec fn subject_listed(subject: Seq<char>, start_after: Option<u64>) -> spec_fn(
    ProofRecordView,
) -> bool {
    |r: ProofRecordView|
        r.subject == subject && (match start_after {
            None => true,
            Some(b) => b < r.id,
        })
}

pub open spec fn proofs_by_subject_outcome(
    s: CredentialRegistryView,
    subject: Seq<char>,
    start_after: Option<u64>,
    limit: Option<u32>,
    api: Seq<(Seq<char>, Option<Seq<char>>)>,
) -> Result<Seq<ProofRecordView>, StdErrorView> {
    match addr_check(api, subject) {
        Err(e) => Err(e),
        Ok(a) => Ok(page(s.proofs.filter(subject_listed(a, start_after)), effective_limit(limit))),
    }
}

pub open spec fn schema_outcome(s: CredentialRegistryView, schema_id: Seq<char>) -> Result<
    CredentialSchemaView,
    StdErrorView,
> {
    if s.has_schema(schema_id) {
        Ok(s.schema(schema_id))
    } else {
        Err(StdErrorView::NotFound { kind: schema_kind() })
    }
}

/// Which schemas a listing holds: those after `start_after`.
pub open spec fn schema_listed(start_after: Option<Seq<char>>) -> spec_fn(CredentialSchemaView) -> bool {
    |r: CredentialSchemaView|
        match start_after {
            None => true,
            Some(b) => str_lt(b, r.schema_id),
        }
}

pub open spec fn list_schemas_outcome(
    s: CredentialRegistryView,
    start_after: Option<Seq<char>>,
    limit: Option<u32>,
) -> Seq<CredentialSchemaView> {
    page(s.schemas.filter(schema_listed(start_after)), effective_limit(limit))
}

/// The answer to any query at block time `now`.
pub open spec fn query_outcome(
    s: CredentialRegistryView,
    now: u64,
    msg: QueryMsg,
    api: Seq<(Seq<char>, Option<Seq<char>>)>,
) -> Result<QueryResponseView, StdErrorView> {
    match msg {
        QueryMsg::IsVerified { subject, schema_id } => match is_verified_outcome(
            s,
            now,
            subject@,
            schema_id@,
            api,
        ) {
            Ok(v) => Ok(QueryResponseView::IsVerified(v)),
            Err(e) => Err(e),
        },
        QueryMsg::ProofRecord { proof_id } => match proof_record_outcome(s, proof_id) {
            Ok(v) => Ok(QueryResponseView::ProofRecord(v)),
            Err(e) => Err(e),
        },
        QueryMsg::ProofsBySubject { subject, start_after, limit } => match proofs_by_subject_outcome(
            s,
            subject@,
            start_after,
            limit,
            api,
        ) {
            Ok(v) => Ok(QueryResponseView::ProofRecords(v)),
            Err(e) => Err(e),
        },
        QueryMsg::Schema { schema_id } => match schema_outcome(s, schema_id@) {
            Ok(v) => Ok(QueryResponseView::Schema(v)),
            Err(e) => Err(e),
        },
        QueryMsg::ListSchemas { start_after, limit } => Ok(
            QueryResponseView::Schemas(list_schemas_outcome(s, start_after.deep_view(), limit)),
        ),
        QueryMsg::Admin {  } => Ok(QueryResponseView::Admin(s.admin)),
    }
}

impl CredentialRegistry {
    /// Whether `subject` holds a valid proof for `schema_id` at time `now`.
    pub fn query_is_verified(&self, now: u64, subject: String, schema_id: String, api: &Api) -> (r:
        Result<IsVerifiedResponse, StdError>)
        ensures
            std_result_matches(r, is_verified_outcome(self@, now, subject@, schema_id@, api@)),
    {
        let subject_addr = match api.addr_validate(&subject) {
            Ok(a) => a,
            Err(e) => {
                return Err(e);
            },
        };
        proof {
            lemma_latest_index(self@.proofs, schema_id@, subject_addr@);
            lemma_latest_valid_index(self@.proofs, schema_id@, subject_addr@, now);
        }
        match self.latest_valid_proof(&schema_id, &subject_addr, now) {
            Some(k) => {
                let record = &self.proofs[k];
                assert(self@.proofs[k as int] == record@);
                Ok(
                    IsVerifiedResponse {
                        verified: true,
                        proof_id: Some(record.id),
                        expires_at: record.expires_at,
                    },
                )
            },
            None => match self.latest_proof(&schema_id, &subject_addr) {
                None => Ok(IsVerifiedResponse { verified: false, proof_id: None, expires_at: None }),
                Some(k) => {
                    let record = &self.proofs[k];
                    assert(self@.proofs[k as int] == record@);
                    Ok(
                        IsVerifiedResponse {
                            verified: false,
                            proof_id: Some(record.id),
                            expires_at: record.expires_at,
                        },
                    )
                },
            },
        }
    }

    /// The proof record `proof_id`.
    pub fn query_proof_record(&self, proof_id: u64) -> (r: Result<ProofRecordResponse, StdError>)
        ensures
            std_result_matches(r, proof_record_outcome(self@, proof_id)),
    {
        if proof_id == 0 || proof_id > self.proofs.len() as u64 {
            return Err(
                StdError::NotFound {
                    kind: String::from_str("proofkit_types::credential_registry::ProofRecord"),
                },
            );
        }
        Ok(ProofRecordResponse { record: self.proofs[(proof_id - 1) as usize].duplicate() })
    }

    /// A page of the proofs recorded for `subject`, oldest first.
    pub fn query_proofs_by_subject(
        &self,
        subject: String,
        start_after: Option<u64>,
        limit: Option<u32>,
        api: &Api,
    ) -> (r: Result<ProofRecordsResponse, StdError>)
        ensures
            std_result_matches(
                r,
                proofs_by_subject_outcome(self@, subject@, start_after, limit, api@),
            ),
    {
        let subject_addr = match api.addr_validate(&subject) {
            Ok(a) => a,
            Err(e) => {
                return Err(e);
            },
        };
        let limit = clamp_limit(limit);
        let ghost s = self@.proofs;
        let ghost pred = subject_listed(subject_addr@, start_after);
        let mut out: Vec<ProofRecord> = Vec::new();
        let mut i: usize = 0;
        assert(s.take(0).filter(pred) =~= seq![]) by {
            reveal(Seq::filter);
        }
        assert(out.deep_view() =~= seq![]);
        while i < self.proofs.len() && out.len() < limit
            invariant
                s == self@.proofs,
                pred == subject_listed(subject_addr@, start_after),
                i <= s.len(),
                out.deep_view() == s.take(i as int).filter(pred),
                out.len() <= limit,
            decreases self.proofs.len() - i,
        {
            let rec = &self.proofs[i];
            let after = match start_after {
                None => true,
                Some(b) => b < rec.id,
            };
            proof {
                lemma_filter_take_step(s, pred, i as int);
                assert(s[i as int] == rec@);
            }
            if rec.subject == subject_addr && after {
                let ghost before = out.deep_view();
                out.push(rec.duplicate());
                assert(out.deep_view() =~= before.push(rec@));
            }
            i = i + 1;
        }
        proof {
            if out.len() == limit {
                lemma_page_full(s, pred, i as int, limit as nat);
            } else {
                assert(s.take(i as int) =~= s);
                lemma_page_all(s, pred, limit as nat);
            }
        }
        Ok(ProofRecordsResponse { records: out })
    }

    /// The schema `schema_id`.
    pub fn query_schema(&self, schema_id: String) -> (r: Result<SchemaResponse, StdError>)
        ensures
            std_result_matches(r, schema_outcome(self@, schema_id@)),
    {
        let (found, pos) = self.locate_schema(&schema_id);
        if !found {
            return Err(
                StdError::NotFound {
                    kind: String::from_str("proofkit_types::credential_registry::CredentialSchema"),
                },
            );
        }
        Ok(SchemaResponse { schema: self.schemas[pos].duplicate() })
    }

    /// A page of all schemas, in identifier order.
    pub fn query_list_schemas(&self, start_after: Option<String>, limit: Option<u32>) -> (r:
        SchemasResponse)
        ensures
            r@ == list_schemas_outcome(self@, start_after.deep_view(), limit),
    {
        let limit = clamp_limit(limit);
        let ghost s = self@.schemas;
        let ghost pred = schema_listed(start_after.deep_view());
        let mut out: Vec<CredentialSchema> = Vec::new();
        let mut i: usize = 0;
        assert(s.take(0).filter(pred) =~= seq![]) by {
            reveal(Seq::filter);
        }
        assert(out.deep_view() =~= seq![]);
        while i < self.schemas.len() && out.len() < limit
            invariant
                s == self@.schemas,
                pred == schema_listed(start_after.deep_view()),
                i <= s.len(),
                out.deep_view() == s.take(i as int).filter(pred),
                out.len() <= limit,
            decreases self.schemas.len() - i,
        {
            let rec = &self.schemas[i];
            let after = match &start_after {
                None => true,
                Some(b) => key_lt(b.as_str(), rec.schema_id.as_str()),
            };
            proof {
                lemma_filter_take_step(s, pred, i as int);
                assert(s[i as int] == rec@);
            }
            if after {
                let ghost before = out.deep_view();
                out.push(rec.duplicate());
                assert(out.deep_view() =~= before.push(rec@));
            }
            i = i + 1;
        }
        proof {
            if out.len() == limit {
                lemma_page_full(s, pred, i as int, limit as nat);
            } else {
                assert(s.take(i as int) =~= s);
                lemma_page_all(s, pred, limit as nat);
            }
        }
        SchemasResponse { schemas: out }
    }

    /// The admin address.
    pub fn query_admin(&self) -> (r: AdminResponse)
        ensures
            r@ == self@.admin,
    {
        AdminResponse { admin: self.admin.clone() }
    }
}

/// Answers `msg` at block time `now`.
pub fn query(state: &CredentialRegistry, now: u64, msg: QueryMsg, api: &Api) -> (r: Result<
    QueryResponse,
    StdError,
>)
    ensures
        std_result_matches(r, query_outcome(state@, now, msg, api@)),
{
    match msg {
        QueryMsg::IsVerified { subject, schema_id } => {
            let v = state.query_is_verified(now, subject, schema_id, api)?;
            Ok(QueryResponse::IsVerified(v))
        },
        QueryMsg::ProofRecord { proof_id } => {
            let v = state.query_proof_record(proof_id)?;
            Ok(QueryResponse::ProofRecord(v))
        },
        QueryMsg::ProofsBySubject { subject, start_after, limit } => {
            let v = state.query_proofs_by_subject(subject, start_after, limit, api)?;
            Ok(QueryResponse::ProofRecords(v))
        },
        QueryMsg::Schema { schema_id } => {
            let v = state.query_schema(schema_id)?;
            Ok(QueryResponse::Schema(v))
        },
        QueryMsg::ListSchemas { start_after, limit } => Ok(
            QueryResponse::Schemas(state.query_list_schemas(start_after, limit)),
        ),
        QueryMsg::Admin {  } => Ok(QueryResponse::Admin(state.query_admin())),
    }
}

} // verus!
