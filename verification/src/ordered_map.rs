//! A map whose entries stand in ascending key order, and a set on top of it.
use vstd::prelude::*;

use crate::duplicate::{option_view, views};
use crate::ordered::{OrderedKey, Ranked};
use crate::sequences::{holds_of_some, is_first};

verus! {

/// The entries stand in strictly ascending key order.
#[verifier::opaque]
pub open spec fn ascending<M: Ranked, X>(s: Seq<(M, X)>) -> bool {
    forall|i: int, j: int| 0 <= i < j < s.len() ==> (#[trigger] s[i]).0.before((#[trigger] s[j]).0)
}

/// Entry `i` is the one of key `k`.
pub open spec fn bound_at<M, X>(s: Seq<(M, X)>, k: M, i: int) -> bool {
    0 <= i < s.len() && s[i].0 == k
}

/// Whether some entry has key `k`.
pub open spec fn binds<M, X>(s: Seq<(M, X)>, k: M) -> bool {
    exists|i: int| bound_at(s, k, i)
}

/// What key `k` is bound to.
#[verifier::opaque]
pub open spec fn lookup<M, X>(s: Seq<(M, X)>, k: M) -> Option<X> {
    if binds(s, k) {
        Some(s[choose|i: int| bound_at(s, k, i)].1)
    } else {
        None
    }
}

/// The entries whose keys come before `k`.
pub open spec fn below<M: Ranked, X>(s: Seq<(M, X)>, k: M) -> Seq<(M, X)> {
    s.filter(|e: (M, X)| e.0.before(k))
}

/// The entries whose keys come after `k`.
pub open spec fn above<M: Ranked, X>(s: Seq<(M, X)>, k: M) -> Seq<(M, X)> {
    s.filter(|e: (M, X)| k.before(e.0))
}

/// The entries with `k` bound to `x`, in place of what it was bound to.
#[verifier::opaque]
pub open spec fn put<M: Ranked, X>(s: Seq<(M, X)>, k: M, x: X) -> Seq<(M, X)> {
    below(s, k).push((k, x)) + above(s, k)
}

/// The entries without the one of key `k`.
#[verifier::opaque]
pub open spec fn delete<M: Ranked, X>(s: Seq<(M, X)>, k: M) -> Seq<(M, X)> {
    below(s, k) + above(s, k)
}

/// The values in key order.
pub open spec fn values<M, X>(s: Seq<(M, X)>) -> Seq<X> {
    s.map_values(|e: (M, X)| e.1)
}

/// Filtering one element more.
pub proof fn lemma_filter_step<A>(s: Seq<A>, p: spec_fn(A) -> bool, i: int)
    requires
        0 <= i < s.len(),
    ensures
        s.take(i + 1).filter(p) == (if p(s[i]) {
            s.take(i).filter(p).push(s[i])
        } else {
            s.take(i).filter(p)
        }),
{
    reveal(Seq::filter);
    assert(s.take(i + 1).drop_last() =~= s.take(i));
    assert(s.take(i + 1).last() == s[i]);
}

/// A predicate that holds of a prefix and of nothing behind it selects that prefix.
pub proof fn lemma_filter_prefix<A>(s: Seq<A>, p: spec_fn(A) -> bool, n: int, i: int)
    requires
        0 <= n <= s.len(),
        0 <= i <= s.len(),
        forall|j: int| 0 <= j < n ==> p(s[j]),
        forall|j: int| n <= j < s.len() ==> !p(s[j]),
    ensures
        s.take(i).filter(p) == s.take(if i < n { i } else { n }),
    decreases i,
{
    if i == 0 {
        reveal(Seq::filter);
        assert(s.take(0).filter(p) =~= s.take(0));
    } else {
        lemma_filter_prefix(s, p, n, i - 1);
        lemma_filter_step(s, p, i - 1);
        if i <= n {
            assert(s.take(i - 1).push(s[i - 1]) =~= s.take(i));
        }
    }
}

/// A predicate that holds of a suffix and of nothing before it selects that suffix.
pub proof fn lemma_filter_suffix<A>(s: Seq<A>, p: spec_fn(A) -> bool, n: int, i: int)
    requires
        0 <= n <= s.len(),
        0 <= i <= s.len(),
        forall|j: int| 0 <= j < n ==> !p(s[j]),
        forall|j: int| n <= j < s.len() ==> p(s[j]),
    ensures
        s.take(i).filter(p) == (if i < n { Seq::empty() } else { s.subrange(n, i) }),
    decreases i,
{
    if i == 0 {
        reveal(Seq::filter);
        assert(s.take(0).filter(p) =~= Seq::<A>::empty());
    } else {
        lemma_filter_suffix(s, p, n, i - 1);
        lemma_filter_step(s, p, i - 1);
        if n < i {
            assert(s.subrange(n, i - 1).push(s[i - 1]) =~= s.subrange(n, i));
        } else if i == n {
            assert(s.subrange(n, i) =~= Seq::<A>::empty());
        }
    }
}

/// Where the entries split at `k`: `n` of them come before it, and `m` do not come after it.
pub proof fn lemma_split<M: Ranked, X>(s: Seq<(M, X)>, k: M, n: int, m: int)
    requires
        0 <= n <= m <= s.len(),
        forall|j: int| 0 <= j < n ==> (#[trigger] s[j]).0.before(k),
        forall|j: int| n <= j < m ==> (#[trigger] s[j]).0 == k,
        forall|j: int| m <= j < s.len() ==> k.before((#[trigger] s[j]).0),
    ensures
        below(s, k) == s.take(n),
        above(s, k) == s.skip(m),
{
    let p = |e: (M, X)| e.0.before(k);
    let q = |e: (M, X)| k.before(e.0);
    assert forall|j: int| n <= j < s.len() implies !p(s[j]) by {
        M::before_irreflexive(k);
        if m <= j && s[j].0.before(k) {
            M::before_transitive(k, s[j].0, k);
        }
    }
    assert forall|j: int| 0 <= j < m implies !q(s[j]) by {
        M::before_irreflexive(k);
        if j < n && k.before(s[j].0) {
            M::before_transitive(k, s[j].0, k);
        }
    }
    lemma_filter_prefix(s, p, n, s.len() as int);
    lemma_filter_suffix(s, q, m, s.len() as int);
    assert(s.take(s.len() as int) =~= s);
    assert(s.subrange(m, s.len() as int) =~= s.skip(m));
}

/// In ascending entries a key has at most one entry, and `lookup` finds it.
pub proof fn lemma_lookup_at<M: Ranked, X>(s: Seq<(M, X)>, i: int)
    requires
        ascending(s),
        0 <= i < s.len(),
    ensures
        lookup(s, s[i].0) == Some(s[i].1),
{
    reveal(lookup);
    reveal(ascending);
    let k = s[i].0;
    assert(bound_at(s, k, i));
    let j = choose|j: int| bound_at(s, k, j);
    M::before_irreflexive(k);
    if i < j {
        assert(s[i].0.before(s[j].0));
    } else if j < i {
        assert(s[j].0.before(s[i].0));
    }
}

/// The number of entries that come before `k`.
pub open spec fn rank<M: Ranked, X>(s: Seq<(M, X)>, k: M) -> int
    decreases s.len(),
{
    if s.len() == 0 || !s.first().0.before(k) {
        0
    } else {
        1 + rank(s.drop_first(), k)
    }
}

proof fn lemma_rank<M: Ranked, X>(s: Seq<(M, X)>, k: M)
    requires
        ascending(s),
    ensures
        0 <= rank(s, k) <= s.len(),
        forall|j: int| 0 <= j < rank(s, k) ==> (#[trigger] s[j]).0.before(k),
        forall|j: int| rank(s, k) < j < s.len() ==> k.before((#[trigger] s[j]).0),
        rank(s, k) < s.len() ==> s[rank(s, k)].0 == k || k.before(s[rank(s, k)].0),
    decreases s.len(),
{
    reveal(ascending);
    if s.len() == 0 {
    } else if !s.first().0.before(k) {
        M::before_total(s[0].0, k);
        assert forall|j: int| 0 < j < s.len() implies k.before((#[trigger] s[j]).0) by {
            assert(s[0].0.before(s[j].0));
            if s[0].0 != k {
                M::before_transitive(k, s[0].0, s[j].0);
            }
        }
    } else {
        let t = s.drop_first();
        assert forall|i: int, j: int| 0 <= i < j < t.len() implies (#[trigger] t[i]).0.before(
            (#[trigger] t[j]).0,
        ) by {
            assert(s[i + 1].0.before(s[j + 1].0));
        }
        lemma_rank(t, k);
        let r = rank(t, k);
        assert forall|j: int| 0 <= j < 1 + r implies (#[trigger] s[j]).0.before(k) by {
            if j > 0 {
                assert(t[j - 1].0.before(k));
            }
        }
        assert forall|j: int| 1 + r < j < s.len() implies k.before((#[trigger] s[j]).0) by {
            assert(k.before(t[j - 1].0));
        }
        if 1 + r < s.len() {
            assert(t[r] == s[r + 1]);
        }
    }
}

/// The shape of `put`, `delete` and `lookup` on ascending entries.
proof fn lemma_shape<M: Ranked, X>(s: Seq<(M, X)>, k: M, x: X)
    requires
        ascending(s),
    ensures
        ({
            let n = rank(s, k);
            let m = if n < s.len() && s[n].0 == k { n + 1 } else { n };
            &&& 0 <= n <= m <= s.len()
            &&& put(s, k, x) == s.take(n).push((k, x)) + s.skip(m)
            &&& delete(s, k) == s.take(n) + s.skip(m)
            &&& lookup(s, k) == (if n < m { Some(s[n].1) } else { None })
            &&& forall|j: int| 0 <= j < n ==> (#[trigger] s[j]).0.before(k)
            &&& forall|j: int| m <= j < s.len() ==> k.before((#[trigger] s[j]).0)
        }),
{
    reveal(lookup);
    reveal(put);
    reveal(delete);
    lemma_rank(s, k);
    let n = rank(s, k);
    let m = if n < s.len() && s[n].0 == k { n + 1 } else { n };
    lemma_split(s, k, n, m);
    if n < m {
        lemma_lookup_at(s, n);
    } else if binds(s, k) {
        let j = choose|j: int| bound_at(s, k, j);
        M::before_irreflexive(k);
        assert(false);
    }
}

/// What `delete` leaves, by position.
proof fn lemma_delete_shape<M: Ranked, X>(s: Seq<(M, X)>, k: M)
    requires
        ascending(s),
    ensures
        0 <= rank(s, k) <= s.len(),
        rank(s, k) < s.len() && s[rank(s, k)].0 == k ==> {
            &&& delete(s, k) == s.take(rank(s, k)) + s.skip(rank(s, k) + 1)
            &&& lookup(s, k) == Some(s[rank(s, k)].1)
        },
        !(rank(s, k) < s.len() && s[rank(s, k)].0 == k) ==> {
            &&& delete(s, k) == s
            &&& lookup(s, k) is None
        },
{
    let x: X = arbitrary();
    lemma_shape(s, k, x);
    let n = rank(s, k);
    if !(n < s.len() && s[n].0 == k) {
        assert(s.take(n) + s.skip(n) =~= s);
    }
}

/// Binding a key keeps the entries ascending.
pub proof fn lemma_put_ascending<M: Ranked, X>(s: Seq<(M, X)>, k: M, x: X)
    requires
        ascending(s),
    ensures
        ascending(put(s, k, x)),
        put(s, k, x).len() == (if lookup(s, k) is Some { s.len() } else { s.len() + 1 }),
{
    reveal(ascending);
    lemma_shape(s, k, x);
    let n = rank(s, k);
    let m = if n < s.len() && s[n].0 == k { n + 1 } else { n };
    let t = put(s, k, x);
    assert forall|i: int, j: int| 0 <= i < j < t.len() implies (#[trigger] t[i]).0.before(
        (#[trigger] t[j]).0,
    ) by {
        let si = if i < n { i } else { i - (n + 1) + m };
        let sj = if j < n { j } else { j - (n + 1) + m };
        if i < n && j == n {
            assert(s[i].0.before(k));
        } else if i == n {
            assert(t[j] == s[sj]);
            assert(k.before(s[sj].0));
        } else {
            assert(t[i] == s[si]);
            assert(t[j] == s[sj]);
            assert(s[si].0.before(s[sj].0));
        }
    }
}

/// Unbinding a key keeps the entries ascending.
pub proof fn lemma_delete_ascending<M: Ranked, X>(s: Seq<(M, X)>, k: M)
    requires
        ascending(s),
    ensures
        ascending(delete(s, k)),
        delete(s, k).len() == (if lookup(s, k) is Some { s.len() - 1 } else { s.len() as int }),
{
    reveal(ascending);
    let x: X = arbitrary();
    lemma_shape(s, k, x);
    let n = rank(s, k);
    let m = if n < s.len() && s[n].0 == k { n + 1 } else { n };
    let t = delete(s, k);
    assert forall|i: int, j: int| 0 <= i < j < t.len() implies (#[trigger] t[i]).0.before(
        (#[trigger] t[j]).0,
    ) by {
        let si = if i < n { i } else { i - n + m };
        let sj = if j < n { j } else { j - n + m };
        assert(t[i] == s[si]);
        assert(t[j] == s[sj]);
        assert(s[si].0.before(s[sj].0));
    }
}

/// After `put` the key is bound to the new value, and no other key changes.
pub broadcast proof fn lemma_lookup_put<M: Ranked, X>(s: Seq<(M, X)>, k: M, x: X, k2: M)
    requires
        ascending(s),
    ensures
        #[trigger] lookup(put(s, k, x), k2) == (if k2 == k { Some(x) } else { lookup(s, k2) }),
{
    reveal(lookup);
    lemma_shape(s, k, x);
    lemma_put_ascending(s, k, x);
    let n = rank(s, k);
    let m = if n < s.len() && s[n].0 == k { n + 1 } else { n };
    let t = put(s, k, x);
    if k2 == k {
        assert(t[n] == (k, x));
        lemma_lookup_at(t, n);
    } else if binds(s, k2) {
        let j = choose|j: int| bound_at(s, k2, j);
        let tj = if j < n { j } else { j - m + n + 1 };
        assert(j < n || m <= j);
        assert(t[tj] == s[j]);
        lemma_lookup_at(s, j);
        lemma_lookup_at(t, tj);
    } else if binds(t, k2) {
        let j = choose|j: int| bound_at(t, k2, j);
        let sj = if j < n { j } else { j - (n + 1) + m };
        assert(j != n);
        assert(t[j] == s[sj]);
        assert(bound_at(s, k2, sj));
    }
}

/// After `delete` the key is unbound, and no other key changes.
pub broadcast proof fn lemma_lookup_delete<M: Ranked, X>(s: Seq<(M, X)>, k: M, k2: M)
    requires
        ascending(s),
    ensures
        #[trigger] lookup(delete(s, k), k2) == (if k2 == k { None } else { lookup(s, k2) }),
{
    reveal(lookup);
    let x: X = arbitrary();
    lemma_shape(s, k, x);
    lemma_delete_ascending(s, k);
    let n = rank(s, k);
    let m = if n < s.len() && s[n].0 == k { n + 1 } else { n };
    let t = delete(s, k);
    if k2 == k {
        if binds(t, k2) {
            let j = choose|j: int| bound_at(t, k2, j);
            let sj = if j < n { j } else { j - n + m };
            assert(t[j] == s[sj]);
            M::before_irreflexive(k);
            assert(s[sj].0.before(k) || k.before(s[sj].0));
            assert(false);
        }
    } else if binds(s, k2) {
        let j = choose|j: int| bound_at(s, k2, j);
        let tj = if j < n { j } else { j - m + n };
        assert(t[tj] == s[j]);
        lemma_lookup_at(s, j);
        lemma_lookup_at(t, tj);
    } else if binds(t, k2) {
        let j = choose|j: int| bound_at(t, k2, j);
        let sj = if j < n { j } else { j - n + m };
        assert(t[j] == s[sj]);
        assert(bound_at(s, k2, sj));
    }
}

/// Unbinding an unbound key changes nothing.
pub broadcast proof fn lemma_delete_absent<M: Ranked, X>(s: Seq<(M, X)>, k: M)
    requires
        ascending(s),
        lookup(s, k) is None,
    ensures
        #[trigger] delete(s, k) == s,
{
    lemma_delete_shape(s, k);
}

/// Binding a key that was unbound just before is binding it.
pub broadcast proof fn lemma_put_delete<M: Ranked, X>(s: Seq<(M, X)>, k: M, x: X)
    requires
        ascending(s),
    ensures
        #[trigger] put(delete(s, k), k, x) == put(s, k, x),
{
    reveal(put);
    reveal(delete);
    let p = |e: (M, X)| e.0.before(k);
    let q = |e: (M, X)| k.before(e.0);
    let lo = below(s, k);
    let hi = above(s, k);
    assert forall|j: int| 0 <= j < lo.len() implies p(#[trigger] lo[j]) && !q(lo[j]) by {
        s.lemma_filter_pred(p, j);
        M::before_irreflexive(k);
        if q(lo[j]) {
            M::before_transitive(k, lo[j].0, k);
        }
    }
    assert forall|j: int| 0 <= j < hi.len() implies q(#[trigger] hi[j]) && !p(hi[j]) by {
        s.lemma_filter_pred(q, j);
        M::before_irreflexive(k);
        if p(hi[j]) {
            M::before_transitive(k, hi[j].0, k);
        }
    }
    Seq::filter_distributes_over_add(lo, hi, p);
    Seq::filter_distributes_over_add(lo, hi, q);
    lemma_filter_prefix(lo, p, lo.len() as int, lo.len() as int);
    lemma_filter_prefix(lo, q, 0, lo.len() as int);
    lemma_filter_prefix(hi, q, hi.len() as int, hi.len() as int);
    lemma_filter_prefix(hi, p, 0, hi.len() as int);
    assert(lo.take(lo.len() as int) =~= lo);
    assert(hi.take(hi.len() as int) =~= hi);
    assert(lo + hi.take(0) =~= lo);
    assert(lo.take(0) + hi =~= hi);
}

/// Entries with the keys of ascending entries are ascending.
pub proof fn lemma_same_keys<M: Ranked, X, Y>(s: Seq<(M, X)>, t: Seq<(M, Y)>)
    requires
        ascending(s),
        s.len() == t.len(),
        forall|i: int| 0 <= i < s.len() ==> (#[trigger] t[i]).0 == s[i].0,
    ensures
        ascending(t),
{
    reveal(ascending);
    assert forall|i: int, j: int| 0 <= i < j < t.len() implies (#[trigger] t[i]).0.before(
        (#[trigger] t[j]).0,
    ) by {
        assert(s[i].0.before(s[j].0));
    }
}

/// Selecting entries keeps them ascending.
pub proof fn lemma_filter_ascending<M: Ranked, X>(s: Seq<(M, X)>, p: spec_fn((M, X)) -> bool)
    requires
        ascending(s),
    ensures
        ascending(s.filter(p)),
        forall|k: M|
            #[trigger] lookup(s.filter(p), k) == (match lookup(s, k) {
                Some(x) if p((k, x)) => Some(x),
                _ => None,
            }),
    decreases s.len(),
{
    reveal(lookup);
    reveal(ascending);
    reveal(Seq::filter);
    let f = s.filter(p);
    if s.len() == 0 {
        assert forall|k: M| #[trigger] lookup(f, k) == (match lookup(s, k) {
            Some(x) if p((k, x)) => Some(x),
            _ => None,
        }) by {
            assert(!binds(s, k));
        }
    } else {
        let t = s.drop_last();
        assert forall|i: int, j: int| 0 <= i < j < t.len() implies (#[trigger] t[i]).0.before(
            (#[trigger] t[j]).0,
        ) by {
            assert(s[i].0.before(s[j].0));
        }
        lemma_filter_ascending(t, p);
        let g = t.filter(p);
        let last = s.last();
        assert forall|i: int| 0 <= i < g.len() implies (#[trigger] g[i]).0.before(last.0) by {
            lemma_lookup_at(g, i);
            let k = g[i].0;
            let j = choose|j: int| bound_at(t, k, j);
            assert(lookup(t, k) is Some);
            assert(s[j].0.before(s[s.len() - 1].0));
        }
        assert forall|i: int, j: int| 0 <= i < j < f.len() implies (#[trigger] f[i]).0.before(
            (#[trigger] f[j]).0,
        ) by {
            if j < g.len() {
                assert(g[i].0.before(g[j].0));
            } else {
                assert(g[i].0.before(last.0));
            }
        }
        assert forall|k: M| #[trigger] lookup(f, k) == (match lookup(s, k) {
            Some(x) if p((k, x)) => Some(x),
            _ => None,
        }) by {
            assert(lookup(g, k) == (match lookup(t, k) {
                Some(x) if p((k, x)) => Some(x),
                _ => None,
            }));
            if k == last.0 {
                lemma_lookup_at(s, s.len() - 1);
                if binds(t, k) {
                    let j = choose|j: int| bound_at(t, k, j);
                    M::before_irreflexive(k);
                    assert(s[j].0.before(s[s.len() - 1].0));
                }
                if p(last) {
                    assert(f[f.len() - 1] == last);
                    lemma_lookup_at(f, f.len() - 1);
                } else if binds(f, k) {
                    let j = choose|j: int| bound_at(f, k, j);
                    lemma_lookup_at(g, j);
                }
            } else {
                if binds(s, k) {
                    let j = choose|j: int| bound_at(s, k, j);
                    assert(t[j] == s[j]);
                    lemma_lookup_at(s, j);
                    lemma_lookup_at(t, j);
                } else {
                    if binds(t, k) {
                        let j = choose|j: int| bound_at(t, k, j);
                        assert(bound_at(s, k, j));
                    }
                }
                if binds(g, k) {
                    let j = choose|j: int| bound_at(g, k, j);
                    assert(f[j] == g[j]);
                    lemma_lookup_at(f, j);
                    lemma_lookup_at(g, j);
                } else if binds(f, k) {
                    let j = choose|j: int| bound_at(f, k, j);
                    assert(j < g.len());
                    assert(bound_at(g, k, j));
                }
            }
        }
    }
}

/// Selecting twice is selecting by both predicates.
pub proof fn lemma_filter_twice<A>(
    s: Seq<A>,
    p: spec_fn(A) -> bool,
    q: spec_fn(A) -> bool,
    both: spec_fn(A) -> bool,
)
    requires
        forall|x: A| #[trigger] both(x) == (p(x) && q(x)),
    ensures
        s.filter(p).filter(q) == s.filter(both),
    decreases s.len(),
{
    reveal(Seq::filter);
    if s.len() > 0 {
        lemma_filter_twice(s.drop_last(), p, q, both);
        let f = s.drop_last().filter(p);
        if p(s.last()) {
            assert(f.push(s.last()).drop_last() =~= f);
        }
    }
}

/// Predicates that agree on the elements select the same.
pub proof fn lemma_filter_agree<A>(s: Seq<A>, p: spec_fn(A) -> bool, q: spec_fn(A) -> bool)
    requires
        forall|i: int| 0 <= i < s.len() ==> p(#[trigger] s[i]) == q(s[i]),
    ensures
        s.filter(p) == s.filter(q),
    decreases s.len(),
{
    reveal(Seq::filter);
    if s.len() > 0 {
        let t = s.drop_last();
        assert forall|i: int| 0 <= i < t.len() implies p(#[trigger] t[i]) == q(t[i]) by {
            assert(t[i] == s[i]);
        }
        lemma_filter_agree(t, p, q);
        assert(p(s[s.len() - 1]) == q(s[s.len() - 1]));
    }
}

/// A key is bound exactly if some entry has it.
pub proof fn lemma_lookup_found<M: Ranked, X>(s: Seq<(M, X)>, k: M)
    ensures
        lookup(s, k) is Some <==> binds(s, k),
{
    reveal(lookup);
}

/// Selecting entries keeps what the selected keys are bound to.
pub proof fn lemma_lookup_filter<M: Ranked, X>(s: Seq<(M, X)>, p: spec_fn((M, X)) -> bool, k: M)
    requires
        ascending(s),
    ensures
        ascending(s.filter(p)),
        lookup(s.filter(p), k) == (match lookup(s, k) {
            Some(x) => if p((k, x)) {
                Some(x)
            } else {
                None
            },
            None => None,
        }),
{
    let left = s.filter(p);
    lemma_filter_ascending(s, p);
    lemma_lookup_found(s, k);
    lemma_lookup_found(left, k);
    if binds(left, k) {
        let j = choose|j: int| bound_at(left, k, j);
        lemma_lookup_at(left, j);
        s.lemma_filter_pred(p, j);
        assert(left.contains(left[j]));
        s.lemma_filter_contains_rev(p, left[j]);
        let i = choose|i: int| 0 <= i < s.len() && s[i] == left[j];
        lemma_lookup_at(s, i);
    } else if binds(s, k) {
        let i = choose|i: int| bound_at(s, k, i);
        lemma_lookup_at(s, i);
        if p(s[i]) {
            s.lemma_filter_contains(p, i);
            let j = choose|j: int| 0 <= j < left.len() && left[j] == s[i];
            assert(bound_at(left, k, j));
        }
    }
}

/// The model of executable entries.
pub open spec fn model<K: OrderedKey, V: View>(entries: Seq<(K, V)>) -> Seq<(K::M, V::V)> {
    entries.map_values(|e: (K, V)| (e.0.key(), e.1@))
}

proof fn lemma_empty_ascending<K: OrderedKey, V: View>(entries: Seq<(K, V)>)
    requires
        entries.len() == 0,
    ensures
        ascending(model(entries)),
{
    reveal(ascending);
}

/// Takes entry `n` out of a vector of entries, and hands out its value.
fn drop_entry<K: OrderedKey, V: View>(entries: &mut Vec<(K, V)>, n: usize) -> (r: V)
    requires
        n < old(entries)@.len(),
    ensures
        model(final(entries)@) == model(old(entries)@).take(n as int) + model(
            old(entries)@,
        ).skip(n + 1),
        r@ == model(old(entries)@)[n as int].1,
{
    let ghost before = entries@;
    let pair: (K, V) = entries.remove(n);
    assert(model(entries@) =~= model(before).take(n as int) + model(before).skip(n + 1));
    pair.1
}

/// A map with its entries in ascending key order.
pub struct OrderedMap<K: OrderedKey, V: View> {
    entries: Vec<(K, V)>,
}

impl<K: OrderedKey, V: View> View for OrderedMap<K, V> {
    type V = Seq<(K::M, V::V)>;

    closed spec fn view(&self) -> Seq<(K::M, V::V)> {
        model(self.entries@)
    }
}

impl<K: OrderedKey, V: View> OrderedMap<K, V> {
    /// The keys stand in ascending order, each of them once.
    #[verifier::type_invariant]
    pub open spec fn in_order(self) -> bool {
        ascending(self@)
    }

    /// A map without entries.
    pub fn new() -> (r: Self)
        ensures
            r@ == Seq::<(K::M, V::V)>::empty(),
    {
        proof {
            reveal(ascending);
        }
        let r = OrderedMap { entries: Vec::new() };
        assert(r@ =~= Seq::<(K::M, V::V)>::empty());
        r
    }

    pub fn len(&self) -> (r: usize)
        ensures
            r == self@.len(),
            ascending(self@),
    {
        proof {
            use_type_invariant(self);
        }
        self.entries.len()
    }

    pub fn is_empty(&self) -> (r: bool)
        ensures
            r == (self@.len() == 0),
    {
        self.entries.len() == 0
    }

    /// The key of entry `i`.
    pub fn key_at(&self, i: usize) -> (r: &K)
        requires
            i < self@.len(),
        ensures
            r.key() == self@[i as int].0,
    {
        &self.entries[i].0
    }

    /// The value of entry `i`.
    pub fn value_at(&self, i: usize) -> (r: &V)
        requires
            i < self@.len(),
        ensures
            r@ == self@[i as int].1,
    {
        &self.entries[i].1
    }

    /// How many entries come before `k`.
    fn position(&self, k: &K) -> (n: usize)
        ensures
            n == rank(self@, k.key()),
            0 <= n <= self@.len(),
    {
        proof {
            use_type_invariant(self);
            lemma_rank(self@, k.key());
            assert(self@.skip(0) =~= self@);
        }
        let mut n: usize = 0;
        while n < self.entries.len() && self.entries[n].0.precedes(k)
            invariant
                ascending(self@),
                self@ == model(self.entries@),
                0 <= n <= self@.len(),
                n + rank(self@.skip(n as int), k.key()) == rank(self@, k.key()),
            decreases self@.len() - n,
        {
            assert(self@.skip(n as int).drop_first() =~= self@.skip(n + 1));
            n = n + 1;
        }
        n
    }

    /// The value bound to a key.
    pub fn get(&self, k: &K) -> (r: Option<&V>)
        ensures
            r is Some <==> lookup(self@, k.key()) is Some,
            r matches Some(v) ==> lookup(self@, k.key()) == Some(v@),
            ascending(self@),
    {
        proof {
            use_type_invariant(self);
            lemma_shape(self@, k.key(), arbitrary());
        }
        let n: usize = self.position(k);
        if n < self.entries.len() && self.entries[n].0.same(k) {
            Some(&self.entries[n].1)
        } else {
            None
        }
    }

    pub fn contains_key(&self, k: &K) -> (r: bool)
        ensures
            r == (lookup(self@, k.key()) is Some),
            ascending(self@),
    {
        self.get(k).is_some()
    }

    /// Binds a key to a value.
    pub fn insert(&mut self, k: K, v: V)
        ensures
            final(self)@ == put(old(self)@, k.key(), v@),
            ascending(old(self)@),
            ascending(final(self)@),
    {
        proof {
            use_type_invariant(&*self);
            lemma_shape(self@, k.key(), v@);
            lemma_put_ascending(self@, k.key(), v@);
        }
        let n: usize = self.position(&k);
        let ghost before = self@;
        let mut entries: Vec<(K, V)> = Vec::new();
        proof {
            lemma_empty_ascending::<K, V>(entries@);
        }
        std::mem::swap(&mut entries, &mut self.entries);
        if n < entries.len() && entries[n].0.same(&k) {
            let ghost pair = (k, v);
            entries.set(n, (k, v));
            assert(model(entries@) =~= put(before, pair.0.key(), pair.1@));
        } else {
            let ghost pair = (k, v);
            entries.insert(n, (k, v));
            assert(model(entries@) =~= put(before, pair.0.key(), pair.1@));
        }
        self.entries = entries;
    }

    /// Unbinds a key, and hands out what it was bound to.
    pub fn remove(&mut self, k: &K) -> (r: Option<V>)
        ensures
            final(self)@ == delete(old(self)@, k.key()),
            ascending(old(self)@),
            ascending(final(self)@),
            r is Some <==> lookup(old(self)@, k.key()) is Some,
            r matches Some(v) ==> lookup(old(self)@, k.key()) == Some(v@),
            r is None ==> final(self)@ == old(self)@,
    {
        proof {
            use_type_invariant(&*self);
            lemma_delete_shape(self@, k.key());
            lemma_delete_ascending(self@, k.key());
        }
        let n: usize = self.position(k);
        let ghost before = self@;
        let mut entries: Vec<(K, V)> = Vec::new();
        proof {
            lemma_empty_ascending::<K, V>(entries@);
        }
        std::mem::swap(&mut entries, &mut self.entries);
        assert(model(entries@) == before);
        if n < entries.len() && entries[n].0.same(k) {
            let value: V = drop_entry(&mut entries, n);
            self.entries = entries;
            Some(value)
        } else {
            self.entries = entries;
            None
        }
    }

    /// The entries as a vector.
    pub fn into_entries(self) -> (r: Vec<(K, V)>)
        ensures
            model(r@) == self@,
            ascending(model(r@)),
    {
        proof {
            use_type_invariant(&self);
        }
        self.entries
    }

    /// The map of the given entries, which stand in ascending key order.
    pub fn from_entries(entries: Vec<(K, V)>) -> (r: Self)
        requires
            ascending(model(entries@)),
        ensures
            r@ == model(entries@),
    {
        OrderedMap { entries }
    }

    /// Takes all entries out of the map.
    pub fn take_entries(&mut self) -> (r: Vec<(K, V)>)
        ensures
            model(r@) == old(self)@,
            ascending(model(r@)),
            final(self)@ == Seq::<(K::M, V::V)>::empty(),
    {
        let mut whole = OrderedMap::new();
        std::mem::swap(&mut whole, self);
        whole.into_entries()
    }
}

/// Whether a test of entries decides the predicate `p` of their models.
pub open spec fn decides<K: OrderedKey, V: View, F: Fn(&K, &V) -> bool>(
    test: F,
    p: spec_fn((K::M, V::V)) -> bool,
) -> bool {
    &&& forall|k: &K, v: &V| #[trigger] call_requires(test, (k, v))
    &&& forall|k: &K, v: &V, b: bool| #[trigger]
        call_ensures(test, (k, v), b) ==> b == p((k.key(), v@))
}

impl<K: OrderedKey, V: View> OrderedMap<K, V> {
    /// Keeps the entries that pass a test.
    pub fn retain<F: Fn(&K, &V) -> bool>(
        &mut self,
        keep: F,
        Ghost(p): Ghost<spec_fn((K::M, V::V)) -> bool>,
    )
        requires
            decides(keep, p),
        ensures
            final(self)@ == old(self)@.filter(p),
            ascending(old(self)@),
            ascending(final(self)@),
    {
        let ghost before = self@;
        let entries: Vec<(K, V)> = self.take_entries();
        let mut kept: Vec<(K, V)> = Vec::new();
        assert(before.take(0).filter(p) =~= Seq::empty()) by {
            reveal(Seq::filter);
        }
        assert(model(kept@) =~= before.take(0).filter(p));
        for e in it: entries
            invariant
                before == model(it.seq()),
                decides(keep, p),
                model(kept@) == before.take(it.index() as int).filter(p),
        {
            let ghost i = it.index() as int;
            let ghost old_kept = kept@;
            proof {
                lemma_filter_step(before, p, i);
                assert(before[i] == (e.0.key(), e.1@));
            }
            if keep(&e.0, &e.1) {
                kept.push(e);
                assert(model(kept@) =~= model(old_kept).push((e.0.key(), e.1@)));
            }
        }
        proof {
            assert(before.take(before.len() as int) =~= before);
            lemma_filter_ascending(before, p);
        }
        let mut whole = OrderedMap::from_entries(kept);
        std::mem::swap(&mut whole, self);
    }

    /// The number of entries that pass a test.
    pub fn count_where<F: Fn(&K, &V) -> bool>(
        &self,
        test: F,
        Ghost(p): Ghost<spec_fn((K::M, V::V)) -> bool>,
    ) -> (r: usize)
        requires
            decides(test, p),
        ensures
            r == self@.filter(p).len(),
            ascending(self@),
    {
        let n: usize = self.len();
        let mut count: usize = 0;
        let mut i: usize = 0;
        assert(self@.take(0).filter(p) =~= Seq::empty()) by {
            reveal(Seq::filter);
        }
        while i < n
            invariant
                n == self@.len(),
                decides(test, p),
                0 <= i <= n,
                count <= i,
                count == self@.take(i as int).filter(p).len(),
            decreases n - i,
        {
            proof {
                lemma_filter_step(self@, p, i as int);
            }
            if test(self.key_at(i), self.value_at(i)) {
                count = count + 1;
            }
            i = i + 1;
        }
        assert(self@.take(n as int) =~= self@);
        count
    }

    /// Whether some entry passes a test.
    pub fn any<F: Fn(&K, &V) -> bool>(
        &self,
        test: F,
        Ghost(p): Ghost<spec_fn((K::M, V::V)) -> bool>,
    ) -> (r: bool)
        requires
            decides(test, p),
        ensures
            r == holds_of_some(self@, p),
            ascending(self@),
    {
        let n: usize = self.len();
        let mut i: usize = 0;
        while i < n
            invariant
                n == self@.len(),
                decides(test, p),
                0 <= i <= n,
                ascending(self@),
                forall|j: int| 0 <= j < i ==> !p(#[trigger] self@[j]),
            decreases n - i,
        {
            if test(self.key_at(i), self.value_at(i)) {
                assert(p(self@[i as int]));
                return true;
            }
            i = i + 1;
        }
        false
    }
}

/// Whether an update of values computes `g` of the models.
pub open spec fn computes<K: OrderedKey, V: View, F: Fn(&K, V) -> V>(
    update: F,
    g: spec_fn((K::M, V::V)) -> V::V,
) -> bool {
    &&& forall|k: &K, v: V| #[trigger] call_requires(update, (k, v))
    &&& forall|k: &K, v: V, w: V| #[trigger]
        call_ensures(update, (k, v), w) ==> w@ == g((k.key(), v@))
}

/// Whether an update of values makes of each what `rel` allows.
pub open spec fn relates<K: OrderedKey, V: View, F: Fn(&K, V) -> V>(
    update: F,
    rel: spec_fn(V::V, V::V) -> bool,
) -> bool {
    &&& forall|k: &K, v: V| #[trigger] call_requires(update, (k, v))
    &&& forall|k: &K, v: V, w: V| #[trigger] call_ensures(update, (k, v), w) ==> rel(v@, w@)
}

/// Entries with the same keys, whose values `rel` relates.
pub open spec fn reworked<M, X>(s: Seq<(M, X)>, t: Seq<(M, X)>, rel: spec_fn(X, X) -> bool) -> bool {
    &&& t.len() == s.len()
    &&& forall|i: int|
        0 <= i < s.len() ==> {
            let new_entry = #[trigger] t[i];
            new_entry.0 == s[i].0 && rel(s[i].1, new_entry.1)
        }
}

/// Whether a choice of results from entries computes `g` of their models.
pub open spec fn extracts<K: OrderedKey, V: View, T: View, F: Fn(&K, &V) -> Option<T>>(
    choice: F,
    g: spec_fn((K::M, V::V)) -> Option<T::V>,
) -> bool {
    &&& forall|k: &K, v: &V| #[trigger] call_requires(choice, (k, v))
    &&& forall|k: &K, v: &V, t: Option<T>| #[trigger]
        call_ensures(choice, (k, v), t) ==> option_view(t) == g((k.key(), v@))
}

impl<K: OrderedKey, V: View> OrderedMap<K, V> {
    /// Replaces each value by what an update makes of it.
    pub fn update_values<F: Fn(&K, V) -> V>(
        &mut self,
        update: F,
        Ghost(g): Ghost<spec_fn((K::M, V::V)) -> V::V>,
    )
        requires
            computes(update, g),
        ensures
            final(self)@ == old(self)@.map_values(|e: (K::M, V::V)| (e.0, g(e))),
            ascending(old(self)@),
            ascending(final(self)@),
    {
        let ghost before = self@;
        let ghost after = before.map_values(|e: (K::M, V::V)| (e.0, g(e)));
        let entries: Vec<(K, V)> = self.take_entries();
        let mut updated: Vec<(K, V)> = Vec::new();
        assert(model(updated@) =~= after.take(0));
        for e in it: entries
            invariant
                before == model(it.seq()),
                after == before.map_values(|e: (K::M, V::V)| (e.0, g(e))),
                computes(update, g),
                model(updated@) == after.take(it.index() as int),
        {
            let ghost i = it.index() as int;
            let ghost earlier = updated@;
            assert(before[i] == (e.0.key(), e.1@));
            let (k, v) = e;
            let w: V = update(&k, v);
            let ghost pair = (k.key(), w@);
            updated.push((k, w));
            assert(model(updated@) =~= model(earlier).push(pair));
            assert(after.take(i + 1) =~= after.take(i).push(after[i]));
        }
        proof {
            assert(after.take(after.len() as int) =~= after);
            lemma_same_keys(before, after);
        }
        let mut whole = OrderedMap::from_entries(updated);
        std::mem::swap(&mut whole, self);
    }

    /// Replaces each value by what an update makes of it, where `rel` says what that can be.
    pub fn rework<F: Fn(&K, V) -> V>(
        &mut self,
        update: F,
        Ghost(rel): Ghost<spec_fn(V::V, V::V) -> bool>,
    )
        requires
            relates(update, rel),
        ensures
            reworked(old(self)@, final(self)@, rel),
            ascending(old(self)@),
            ascending(final(self)@),
    {
        let ghost before = self@;
        let entries: Vec<(K, V)> = self.take_entries();
        let mut updated: Vec<(K, V)> = Vec::new();
        for e in it: entries
            invariant
                before == model(it.seq()),
                relates(update, rel),
                updated@.len() == it.index(),
                forall|j: int|
                    0 <= j < it.index() ==> {
                        let new_entry = #[trigger] model(updated@)[j];
                        new_entry.0 == before[j].0 && rel(before[j].1, new_entry.1)
                    },
        {
            let ghost i = it.index() as int;
            let ghost earlier = updated@;
            assert(before[i] == (e.0.key(), e.1@));
            let (k, v) = e;
            let w: V = update(&k, v);
            let ghost pair = (k.key(), w@);
            updated.push((k, w));
            assert(model(updated@) =~= model(earlier).push(pair));
            assert(forall|j: int| 0 <= j < i ==> model(updated@)[j] == model(earlier)[j]);
        }
        proof {
            lemma_same_keys(before, model(updated@));
        }
        let mut whole = OrderedMap::from_entries(updated);
        std::mem::swap(&mut whole, self);
        assert(reworked(before, self@, rel));
    }

    /// The results chosen from the entries, in key order.
    pub fn collect<T: View, F: Fn(&K, &V) -> Option<T>>(
        &self,
        choice: F,
        Ghost(g): Ghost<spec_fn((K::M, V::V)) -> Option<T::V>>,
    ) -> (r: Vec<T>)
        requires
            extracts::<K, V, T, F>(choice, g),
        ensures
            views(r@) == self@.filter_map(g),
            ascending(self@),
    {
        let n: usize = self.len();
        let mut out: Vec<T> = Vec::new();
        let mut i: usize = 0;
        proof {
            reveal(Seq::filter_map);
            assert(views(out@) =~= self@.take(0).filter_map(g));
        }
        while i < n
            invariant
                n == self@.len(),
                extracts::<K, V, T, F>(choice, g),
                0 <= i <= n,
                views(out@) == self@.take(i as int).filter_map(g),
            decreases n - i,
        {
            let ghost earlier = out@;
            proof {
                self@.lemma_filter_map_take_succ(g, i as int);
            }
            match choice(self.key_at(i), self.value_at(i)) {
                Some(t) => {
                    let ghost shown = t@;
                    out.push(t);
                    assert(views(out@) =~= views(earlier).push(shown));
                    assert(views(earlier) + seq![shown] =~= views(earlier).push(shown));
                },
                None => {
                    assert(views(earlier) + Seq::<T::V>::empty() =~= views(earlier));
                },
            }
            i = i + 1;
        }
        assert(self@.take(n as int) =~= self@);
        out
    }
}

/// How many entries `p` holds of, after a key was unbound.
pub proof fn lemma_count_delete<M: Ranked, X>(s: Seq<(M, X)>, k: M, p: spec_fn((M, X)) -> bool)
    requires
        ascending(s),
    ensures
        delete(s, k).filter(p).len() == s.filter(p).len() - (if lookup(s, k) matches Some(x) && p(
            (k, x),
        ) {
            1int
        } else {
            0
        }),
{
    let x: X = arbitrary();
    lemma_shape(s, k, x);
    lemma_delete_shape(s, k);
    let n = rank(s, k);
    let m = if n < s.len() && s[n].0 == k { n + 1 } else { n };
    let lo = s.take(n);
    let mid = s.subrange(n, m);
    let hi = s.skip(m);
    assert(s =~= lo + mid + hi);
    assert(delete(s, k) =~= lo + hi);
    Seq::filter_distributes_over_add(lo + mid, hi, p);
    Seq::filter_distributes_over_add(lo, mid, p);
    Seq::filter_distributes_over_add(lo, hi, p);
    reveal_with_fuel(Seq::filter, 2);
    if n < s.len() && s[n].0 == k {
        lemma_lookup_at(s, n);
        assert(mid =~= seq![s[n]]);
        assert(mid.drop_last() =~= Seq::empty());
        assert(s[n] == (k, s[n].1));
    } else {
        assert(mid =~= Seq::empty());
        lemma_lookup_found(s, k);
    }
}

/// How many entries `p` holds of, after a key was bound.
pub proof fn lemma_count_put<M: Ranked, X>(s: Seq<(M, X)>, k: M, x: X, p: spec_fn((M, X)) -> bool)
    requires
        ascending(s),
    ensures
        put(s, k, x).filter(p).len() == delete(s, k).filter(p).len() + (if p((k, x)) {
            1int
        } else {
            0
        }),
{
    reveal(put);
    reveal(delete);
    let lo = below(s, k);
    let hi = above(s, k);
    let one = seq![(k, x)];
    assert(put(s, k, x) =~= lo + one + hi);
    Seq::filter_distributes_over_add(lo + one, hi, p);
    Seq::filter_distributes_over_add(lo, one, p);
    Seq::filter_distributes_over_add(lo, hi, p);
    reveal_with_fuel(Seq::filter, 2);
    assert(one.drop_last() =~= Seq::empty());
}

/// Selecting from what was selected leaves no more.
pub proof fn lemma_filter_fewer<A>(s: Seq<A>, p: spec_fn(A) -> bool, q: spec_fn(A) -> bool)
    ensures
        s.filter(p).filter(q).len() <= s.filter(q).len(),
    decreases s.len(),
{
    reveal(Seq::filter);
    if s.len() > 0 {
        lemma_filter_fewer(s.drop_last(), p, q);
        let f = s.drop_last().filter(p);
        if p(s.last()) {
            assert(f.push(s.last()).drop_last() =~= f);
        }
    }
}

/// Whether a measure of values computes `f` of their models.
pub open spec fn measures<V: View, F: Fn(&V) -> u64>(measure: F, f: spec_fn(V::V) -> u64) -> bool {
    &&& forall|v: &V| #[trigger] call_requires(measure, (v,))
    &&& forall|v: &V, n: u64| #[trigger] call_ensures(measure, (v,), n) ==> n == f(v@)
}

/// Entry `i` is the first of those with the least measure that `p` holds of.
pub open spec fn is_least_at<M, X>(
    s: Seq<(M, X)>,
    p: spec_fn((M, X)) -> bool,
    f: spec_fn(X) -> u64,
    i: int,
) -> bool {
    &&& 0 <= i < s.len()
    &&& p(s[i])
    &&& forall|j: int|
        0 <= j < s.len() && p(#[trigger] s[j]) ==> f(s[i].1) <= f(s[j].1) && (j < i ==> f(s[i].1)
            < f(s[j].1))
}

/// The key of the entry with the least measure that `p` holds of.
pub open spec fn least_key<M, X>(
    s: Seq<(M, X)>,
    p: spec_fn((M, X)) -> bool,
    f: spec_fn(X) -> u64,
) -> Option<M> {
    if exists|i: int| is_least_at(s, p, f, i) {
        Some(s[choose|i: int| is_least_at(s, p, f, i)].0)
    } else {
        None
    }
}

/// At most one entry is the first with the least measure.
pub proof fn lemma_least_key<M, X>(
    s: Seq<(M, X)>,
    p: spec_fn((M, X)) -> bool,
    f: spec_fn(X) -> u64,
    i: int,
)
    requires
        is_least_at(s, p, f, i),
    ensures
        least_key(s, p, f) == Some(s[i].0),
{
    let j = choose|j: int| is_least_at(s, p, f, j);
    assert(is_least_at(s, p, f, j));
    assert(p(s[i]) && p(s[j]));
    assert(i == j);
}

impl<K: OrderedKey, V: View> OrderedMap<K, V> {
    /// The place of the first entry that passes a test.
    pub fn find<F: Fn(&K, &V) -> bool>(
        &self,
        test: F,
        Ghost(p): Ghost<spec_fn((K::M, V::V)) -> bool>,
    ) -> (r: Option<usize>)
        requires
            decides(test, p),
        ensures
            r is Some <==> holds_of_some(self@, p),
            r matches Some(i) ==> is_first(self@, p, i as int),
            ascending(self@),
    {
        let n: usize = self.len();
        let mut i: usize = 0;
        while i < n
            invariant
                n == self@.len(),
                decides(test, p),
                0 <= i <= n,
                ascending(self@),
                forall|j: int| 0 <= j < i ==> !p(#[trigger] self@[j]),
            decreases n - i,
        {
            if test(self.key_at(i), self.value_at(i)) {
                assert(p(self@[i as int]));
                return Some(i);
            }
            i = i + 1;
        }
        None
    }

    /// The key of the entry with the least measure among those that pass a test.
    pub fn find_least<F: Fn(&K, &V) -> bool, G: Fn(&V) -> u64>(
        &self,
        test: F,
        measure: G,
        Ghost(p): Ghost<spec_fn((K::M, V::V)) -> bool>,
        Ghost(f): Ghost<spec_fn(V::V) -> u64>,
    ) -> (r: Option<K>)
        requires
            decides(test, p),
            measures(measure, f),
        ensures
            r is Some <==> least_key(self@, p, f) is Some,
            r matches Some(k) ==> least_key(self@, p, f) == Some(k.key()),
            r is None ==> !holds_of_some(self@, p),
            ascending(self@),
    {
        let n: usize = self.len();
        let ghost s = self@;
        let mut best: Option<usize> = None;
        let mut i: usize = 0;
        while i < n
            invariant
                n == s.len(),
                s == self@,
                decides(test, p),
                measures(measure, f),
                0 <= i <= n,
                best matches Some(b) ==> b < i && p(s[b as int]) && forall|j: int|
                    0 <= j < i && p(#[trigger] s[j]) ==> f(s[b as int].1) <= f(s[j].1) && (j < b
                        ==> f(s[b as int].1) < f(s[j].1)),
                best is None ==> forall|j: int| 0 <= j < i ==> !p(#[trigger] s[j]),
            decreases n - i,
        {
            let v: &V = self.value_at(i);
            let passes: bool = test(self.key_at(i), v);
            assert(passes == p(s[i as int]));
            if passes {
                match best {
                    None => {
                        best = Some(i);
                    },
                    Some(b) => {
                        if measure(v) < measure(self.value_at(b)) {
                            best = Some(i);
                        }
                    },
                }
            }
            i = i + 1;
        }
        match best {
            Some(b) => {
                assert(is_least_at(s, p, f, b as int));
                proof {
                    lemma_least_key(s, p, f, b as int);
                }
                Some(self.key_at(b).copy_key())
            },
            None => {
                assert(forall|j: int| !is_least_at(s, p, f, j));
                None
            },
        }
    }
}

} // verus!
