//! Entity queries: one catalog lookup, either by package name or by
//! catalog identifier.

use vstd::prelude::*;

use crate::utils::{spec_str_lt, str_eq, str_lt, lemma_str_lt_connected, lemma_str_lt_trans};

verus! {

/// A tagged entity lookup. The tag picks the upstream lookup field; the
/// payload is the looked-up value. The order on queries is total and is
/// what member lists are sorted and deduplicated by.
#[derive(Debug, Clone, PartialEq, Eq)]
pub enum AppQuery {
    PkgName(String),
    AppId(String),
}

/// Model of a query: its variant's rank and its text.
pub open spec fn qv(q: AppQuery) -> (int, Seq<char>) {
    match q {
        AppQuery::PkgName(s) => (0, s@),
        AppQuery::AppId(s) => (1, s@),
    }
}

/// The total order on queries: by variant rank, then by text.
pub open spec fn spec_query_lt(a: AppQuery, b: AppQuery) -> bool {
    qv(a).0 < qv(b).0 || (qv(a).0 == qv(b).0 && spec_str_lt(qv(a).1, qv(b).1))
}

impl AppQuery {
    /// A lookup by package name.
    pub fn pkg_name(pkg_name: &str) -> (r: Self)
        ensures
            qv(r) == (0int, pkg_name@),
    {
        AppQuery::PkgName(pkg_name.to_owned())
    }

    /// A lookup by catalog identifier.
    pub fn app_id(app_id: &str) -> (r: Self)
        ensures
            qv(r) == (1int, app_id@),
    {
        AppQuery::AppId(app_id.to_owned())
    }

    /// The upstream request field this query fills.
    pub fn app_info_type(&self) -> (r: &str)
        ensures
            self is PkgName ==> r@ == "pkgName"@,
            self is AppId ==> r@ == "appId"@,
    {
        match self {
            AppQuery::PkgName(_) => "pkgName",
            AppQuery::AppId(_) => "appId",
        }
    }

    /// The stored column this query matches against.
    pub fn app_db_name(&self) -> (r: &str)
        ensures
            self is PkgName ==> r@ == "pkg_name"@,
            self is AppId ==> r@ == "app_id"@,
    {
        match self {
            AppQuery::PkgName(_) => "pkg_name",
            AppQuery::AppId(_) => "app_id",
        }
    }

    /// The page identifier of the entity's detail view. Only an
    /// identifier query can ask for a detail page.
    pub fn page_detail_fmt(&self) -> (r: String)
        requires
            self is AppId,
        ensures
            r@ == "webAgAppDetail|"@ + qv(*self).1,
    {
        match self {
            AppQuery::PkgName(_) => vstd::pervasive::unreached(),
            AppQuery::AppId(app_id) => "webAgAppDetail|".to_owned().concat(app_id.as_str()),
        }
    }

    /// The looked-up value itself.
    pub fn name(&self) -> (r: &str)
        ensures
            r@ == qv(*self).1,
    {
        match self {
            AppQuery::PkgName(pkg_name) => pkg_name.as_str(),
            AppQuery::AppId(app_id) => app_id.as_str(),
        }
    }
}

/// Compares two queries in the total query order.
pub fn query_lt(a: &AppQuery, b: &AppQuery) -> (r: bool)
    ensures
        r == spec_query_lt(*a, *b),
{
    match (a, b) {
        (AppQuery::PkgName(x), AppQuery::PkgName(y)) => str_lt(x.as_str(), y.as_str()),
        (AppQuery::PkgName(_), AppQuery::AppId(_)) => true,
        (AppQuery::AppId(_), AppQuery::PkgName(_)) => false,
        (AppQuery::AppId(x), AppQuery::AppId(y)) => str_lt(x.as_str(), y.as_str()),
    }
}

/// Reports whether two queries are the same lookup.
pub fn query_eq(a: &AppQuery, b: &AppQuery) -> (r: bool)
    ensures
        r == (qv(*a) == qv(*b)),
{
    match (a, b) {
        (AppQuery::PkgName(x), AppQuery::PkgName(y)) => str_eq(x.as_str(), y.as_str()),
        (AppQuery::AppId(x), AppQuery::AppId(y)) => str_eq(x.as_str(), y.as_str()),
        _ => false,
    }
}

/// An exact copy of a query.
pub fn query_copy(q: &AppQuery) -> (r: AppQuery)
    ensures
        qv(r) == qv(*q),
{
    match q {
        AppQuery::PkgName(s) => AppQuery::PkgName(s.clone()),
        AppQuery::AppId(s) => AppQuery::AppId(s.clone()),
    }
}

/// The models of a sequence of queries.
pub open spec fn qvs(v: Seq<AppQuery>) -> Seq<(int, Seq<char>)>
    decreases v,
{
    if v.len() == 0 {
        Seq::empty()
    } else {
        qvs(v.drop_last()).push(qv(v.last()))
    }
}

/// True when some query of the sequence has the given model.
pub open spec fn contains_q(s: Seq<AppQuery>, t: (int, Seq<char>)) -> bool {
    exists|i: int| 0 <= i < s.len() && qv(s[i]) == t
}

/// True when the queries are in strictly increasing order: sorted, with
/// no duplicate.
pub open spec fn strictly_sorted_q(s: Seq<AppQuery>) -> bool {
    forall|i: int, j: int| 0 <= i < j < s.len() ==> spec_query_lt(#[trigger] s[i], #[trigger] s[j])
}

/// Sorts a list of queries and drops duplicates: the result is strictly
/// increasing in the query order and holds exactly the queries of the
/// input.
#[verifier::loop_isolation(false)]
pub fn sorted_dedup(input: &Vec<AppQuery>) -> (out: Vec<AppQuery>)
    ensures
        strictly_sorted_q(out@),
        forall|t: (int, Seq<char>)| #[trigger] contains_q(out@, t) == contains_q(input@, t),
{
    let mut out: Vec<AppQuery> = Vec::new();
    let n = input.len();
    let mut i: usize = 0;
    while i < n
        invariant
            i <= n,
            strictly_sorted_q(out@),
            forall|t: (int, Seq<char>)| #[trigger] contains_q(out@, t) == contains_q(
                input@.subrange(0, i as int),
                t,
            ),
        decreases n - i,
    {
        let x = query_copy(&input[i]);
        let m = out.len();
        let mut p: usize = 0;
        while p < m && query_lt(&out[p], &x)
            invariant
                p <= m,
                m == out@.len(),
                forall|k: int| 0 <= k < p ==> spec_query_lt(#[trigger] out@[k], x),
            decreases m - p,
        {
            p = p + 1;
        }
        let ghost prev = out@;
        let ghost pre = input@.subrange(0, i as int);
        let ghost cur = input@.subrange(0, i + 1);
        proof {
            assert(cur.drop_last() =~= pre);
            assert(cur.last() == input@[i as int]);
            assert(qv(x) == qv(input@[i as int]));
            assert forall|t: (int, Seq<char>)| #[trigger] contains_q(cur, t) == (contains_q(pre, t)
                || t == qv(x)) by {
                if contains_q(cur, t) {
                    let w = choose|w: int| 0 <= w < cur.len() && qv(cur[w]) == t;
                    if w < pre.len() {
                        assert(pre[w] == cur[w]);
                        assert(contains_q(pre, t));
                    }
                }
                if contains_q(pre, t) {
                    let w = choose|w: int| 0 <= w < pre.len() && qv(pre[w]) == t;
                    assert(cur[w] == pre[w]);
                    assert(contains_q(cur, t));
                }
                if t == qv(x) {
                    assert(qv(cur[i as int]) == t);
                    assert(contains_q(cur, t));
                }
            }
        }
        let duplicate = if p < m {
            query_eq(&out[p], &x)
        } else {
            false
        };
        if duplicate {
            proof {
                assert(qv(out@[p as int]) == qv(x));
                assert(contains_q(out@, qv(x)));
            }
        } else {
            proof {
                if p < m {
                    lemma_query_lt_connected(out@[p as int], x);
                    assert(spec_query_lt(x, out@[p as int]));
                }
                assert forall|k: int| p <= k < m implies spec_query_lt(x, #[trigger] prev[k]) by {
                    if k > p {
                        assert(spec_query_lt(prev[p as int], prev[k]));
                        lemma_query_lt_trans(x, prev[p as int], prev[k]);
                    }
                }
                assert(!contains_q(prev, qv(x))) by {
                    if contains_q(prev, qv(x)) {
                        let w = choose|w: int| 0 <= w < prev.len() && qv(prev[w]) == qv(x);
                        lemma_query_lt_connected(prev[w], x);
                        if w < p {
                            assert(spec_query_lt(prev[w], x));
                        } else {
                            assert(spec_query_lt(x, prev[w]));
                        }
                    }
                }
            }
            out.insert(p, x);
            proof {
                assert(out@ =~= prev.insert(p as int, x));
                assert forall|a: int, b: int| 0 <= a < b < out@.len() implies spec_query_lt(
                    #[trigger] out@[a],
                    #[trigger] out@[b],
                ) by {
                    assert(out@[a] == (if a < p {
                        prev[a]
                    } else if a == p {
                        x
                    } else {
                        prev[a - 1]
                    }));
                    assert(out@[b] == (if b < p {
                        prev[b]
                    } else if b == p {
                        x
                    } else {
                        prev[b - 1]
                    }));
                }
                assert forall|t: (int, Seq<char>)| #[trigger] contains_q(out@, t) == (contains_q(
                    prev,
                    t,
                ) || t == qv(x)) by {
                    if contains_q(out@, t) {
                        let w = choose|w: int| 0 <= w < out@.len() && qv(out@[w]) == t;
                        if w < p {
                            assert(qv(prev[w]) == t);
                            assert(contains_q(prev, t));
                        } else if w > p {
                            assert(qv(prev[w - 1]) == t);
                            assert(contains_q(prev, t));
                        }
                    }
                    if contains_q(prev, t) {
                        let w = choose|w: int| 0 <= w < prev.len() && qv(prev[w]) == t;
                        if w < p {
                            assert(qv(out@[w]) == t);
                        } else {
                            assert(qv(out@[w + 1]) == t);
                        }
                        assert(contains_q(out@, t));
                    }
                    if t == qv(x) {
                        assert(qv(out@[p as int]) == t);
                        assert(contains_q(out@, t));
                    }
                }
            }
        }
        i = i + 1;
    }
    proof {
        assert(input@.subrange(0, n as int) =~= input@);
    }
    out
}

/// Two queries out of order either way are the same query.
pub proof fn lemma_query_lt_connected(a: AppQuery, b: AppQuery)
    ensures
        !spec_query_lt(a, b) && !spec_query_lt(b, a) ==> qv(a) == qv(b),
        qv(a) == qv(b) ==> !spec_query_lt(a, b),
{
    lemma_str_lt_connected(qv(a).1, qv(b).1);
}

/// The query order is transitive.
pub proof fn lemma_query_lt_trans(a: AppQuery, b: AppQuery, c: AppQuery)
    requires
        spec_query_lt(a, b),
        spec_query_lt(b, c),
    ensures
        spec_query_lt(a, c),
{
    if qv(a).0 == qv(b).0 && qv(b).0 == qv(c).0 {
        lemma_str_lt_trans(qv(a).1, qv(b).1, qv(c).1);
    }
}

} // verus!
