//! Pagination of listings: how many entries a page holds, and which
//! entries a page of a filtered listing holds.

use vstd::prelude::*;

use crate::types::{DEFAULT_LIMIT, MAX_LIMIT};

verus! {

/// The page size that a query with `limit` gets.
pub open spec fn effective_limit(limit: Option<u32>) -> nat {
    let asked: u32 = match limit {
        Some(l) => l,
        None => DEFAULT_LIMIT,
    };
    if asked < MAX_LIMIT {
        asked as nat
    } else {
        MAX_LIMIT as nat
    }
}

/// The first `limit` entries of `s` (all of them when there are fewer).
pub open spec fn page<T>(s: Seq<T>, limit: nat) -> Seq<T> {
    if s.len() <= limit {
        s
    } else {
        s.take(limit as int)
    }
}

/// The page size for `limit`: the requested size, `DEFAULT_LIMIT` when
/// none is given, and never more than `MAX_LIMIT`.
pub fn clamp_limit(limit: Option<u32>) -> (r: usize)
    ensures
        r as nat == effective_limit(limit),
{
    let asked = match limit {
        Some(l) => l,
        None => DEFAULT_LIMIT,
    };
    if asked < MAX_LIMIT {
        asked as usize
    } else {
        MAX_LIMIT as usize
    }
}

/// Filtering a prefix one entry longer adds that entry when it passes.
pub proof fn lemma_filter_take_step<T>(s: Seq<T>, pred: spec_fn(T) -> bool, i: int)
    requires
        0 <= i < s.len(),
    ensures
        s.take(i + 1).filter(pred) == (if pred(s[i]) {
            s.take(i).filter(pred).push(s[i])
        } else {
            s.take(i).filter(pred)
        }),
{
    reveal(Seq::filter);
    assert(s.take(i + 1).drop_last() =~= s.take(i));
    assert(s.take(i + 1).last() == s[i]);
}

/// Once the filtered prefix fills a page, the page is complete.
pub proof fn lemma_page_full<T>(s: Seq<T>, pred: spec_fn(T) -> bool, i: int, limit: nat)
    requires
        0 <= i <= s.len(),
        s.take(i).filter(pred).len() == limit,
    ensures
        page(s.filter(pred), limit) == s.take(i).filter(pred),
{
    assert(s =~= s.take(i) + s.skip(i));
    Seq::filter_distributes_over_add(s.take(i), s.skip(i), pred);
    let a = s.take(i).filter(pred);
    let b = s.skip(i).filter(pred);
    assert((a + b).take(limit as int) =~= a);
}

/// When the whole listing has been filtered without filling a page,
/// the page is the whole filtered listing.
pub proof fn lemma_page_all<T>(s: Seq<T>, pred: spec_fn(T) -> bool, limit: nat)
    requires
        s.filter(pred).len() <= limit,
    ensures
        page(s.filter(pred), limit) == s.filter(pred),
{
}

/// `s` is strictly ordered by `before`: each entry comes before every
/// later one, never after it, and never before itself.
pub open spec fn ordered_by<T>(s: Seq<T>, before: spec_fn(T, T) -> bool) -> bool {
    &&& forall|i: int, j: int|
        0 <= i < j < s.len() ==> before(#[trigger] s[i], #[trigger] s[j]) && !before(s[j], s[i])
    &&& forall|i: int| 0 <= i < s.len() ==> !before(#[trigger] s[i], s[i])
}

/// The entries passing `pred` that come after `b`.
pub open spec fn passing_after<T>(pred: spec_fn(T) -> bool, before: spec_fn(T, T) -> bool, b: T) -> spec_fn(
    T,
) -> bool {
    |x: T| pred(x) && before(b, x)
}

/// Each entry of a filtered listing is an entry of the listing.
pub proof fn lemma_filter_member<T>(s: Seq<T>, pred: spec_fn(T) -> bool, i: int)
    requires
        0 <= i < s.filter(pred).len(),
    ensures
        exists|j: int| 0 <= j < s.len() && s[j] == #[trigger] s.filter(pred)[i],
    decreases s.len(),
{
    reveal(Seq::filter);
    let t = s.drop_last();
    if i < t.filter(pred).len() {
        lemma_filter_member(t, pred, i);
        let j = choose|j: int| 0 <= j < t.len() && t[j] == #[trigger] t.filter(pred)[i];
        assert(s[j] == s.filter(pred)[i]);
    } else {
        assert(s[s.len() - 1] == s.filter(pred)[i]);
    }
}

/// A filtered listing of entries none of which passes is empty.
proof fn lemma_filter_none<T>(s: Seq<T>, pred: spec_fn(T) -> bool)
    requires
        forall|i: int| 0 <= i < s.len() ==> !pred(#[trigger] s[i]),
    ensures
        s.filter(pred).len() == 0,
    decreases s.len(),
{
    reveal(Seq::filter);
    if s.len() > 0 {
        let t = s.drop_last();
        assert forall|i: int| 0 <= i < t.len() implies !pred(#[trigger] t[i]) by {
            assert(t[i] == s[i]);
        }
        lemma_filter_none(t, pred);
    }
}

/// In a listing ordered by `before`, the entries that pass `pred` and come
/// after its `n`-th passing entry are the passing entries beyond the first
/// `n`: a listing resumed after the last entry of a page goes on exactly
/// where the page ended.
pub proof fn lemma_listing_resumes<T>(
    s: Seq<T>,
    pred: spec_fn(T) -> bool,
    before: spec_fn(T, T) -> bool,
    n: int,
)
    requires
        ordered_by(s, before),
        0 < n <= s.filter(pred).len(),
    ensures
        s.filter(passing_after(pred, before, s.filter(pred)[n - 1])) == s.filter(pred).skip(n),
    decreases s.len(),
{
    reveal(Seq::filter);
    let t = s.drop_last();
    let last = s.last();
    let f = s.filter(pred);
    let ft = t.filter(pred);
    let b = f[n - 1];
    let q = passing_after(pred, before, b);
    assert(ordered_by(t, before)) by {
        assert forall|i: int, j: int| 0 <= i < j < t.len() implies before(
            #[trigger] t[i],
            #[trigger] t[j],
        ) && !before(t[j], t[i]) by {
            assert(t[i] == s[i] && t[j] == s[j]);
        }
        assert forall|i: int| 0 <= i < t.len() implies !before(#[trigger] t[i], t[i]) by {
            assert(t[i] == s[i]);
        }
    }
    if n <= ft.len() {
        assert(b == ft[n - 1]);
        lemma_listing_resumes(t, pred, before, n);
        lemma_filter_member(t, pred, n - 1);
        let j = choose|j: int| 0 <= j < t.len() && t[j] == #[trigger] t.filter(pred)[n - 1];
        assert(s[j] == b);
        assert(before(s[j], s[s.len() - 1]));
        if pred(last) {
            assert(s.filter(q) =~= t.filter(q).push(last));
            assert(f.skip(n) =~= ft.skip(n).push(last));
        } else {
            assert(s.filter(q) =~= t.filter(q));
            assert(f.skip(n) =~= ft.skip(n));
        }
    } else {
        assert(pred(last) && b == last);
        assert forall|i: int| 0 <= i < t.len() implies !q(#[trigger] t[i]) by {
            assert(t[i] == s[i]);
            assert(!before(s[s.len() - 1], s[i]));
        }
        lemma_filter_none(t, q);
        assert(!before(s[s.len() - 1], s[s.len() - 1]));
        assert(s.filter(q) =~= t.filter(q));
        assert(f.skip(n) =~= seq![]);
    }
}

} // verus!
