//! Selecting, counting and mapping the items of vectors.
use vstd::prelude::*;

use crate::duplicate::{Duplicate, views};
use crate::ordered_map::lemma_filter_step;

verus! {

/// Whether a test of items decides the predicate `p` of their models.
pub open spec fn tells<T: View, F: Fn(&T) -> bool>(test: F, p: spec_fn(T::V) -> bool) -> bool {
    &&& forall|t: &T| #[trigger] call_requires(test, (t,))
    &&& forall|t: &T, b: bool| #[trigger] call_ensures(test, (t,), b) ==> b == p(t@)
}

/// The items that pass a test.
pub fn keep_items<T: View, F: Fn(&T) -> bool>(
    items: Vec<T>,
    keep: F,
    Ghost(p): Ghost<spec_fn(T::V) -> bool>,
) -> (r: Vec<T>)
    requires
        tells(keep, p),
    ensures
        views(r@) == views(items@).filter(p),
        r@.len() <= items@.len(),
{
    let ghost all = views(items@);
    let mut kept: Vec<T> = Vec::new();
    assert(all.take(0).filter(p) =~= Seq::empty()) by {
        reveal(Seq::filter);
    }
    assert(views(kept@) =~= all.take(0).filter(p));
    for item in it: items
        invariant
            all == views(it.seq()),
            tells(keep, p),
            kept@.len() <= it.index(),
            views(kept@) == all.take(it.index() as int).filter(p),
    {
        let ghost i = it.index() as int;
        let ghost earlier = kept@;
        proof {
            lemma_filter_step(all, p, i);
            assert(all[i] == item@);
        }
        if keep(&item) {
            kept.push(item);
            assert(views(kept@) =~= views(earlier).push(item@));
        }
    }
    assert(all.take(all.len() as int) =~= all);
    kept
}

/// The number of items that pass a test.
pub fn count_items<T: View, F: Fn(&T) -> bool>(
    items: &Vec<T>,
    test: F,
    Ghost(p): Ghost<spec_fn(T::V) -> bool>,
) -> (r: usize)
    requires
        tells(test, p),
    ensures
        r == views(items@).filter(p).len(),
{
    let ghost all = views(items@);
    let n: usize = items.len();
    let mut count: usize = 0;
    let mut i: usize = 0;
    assert(all.take(0).filter(p) =~= Seq::empty()) by {
        reveal(Seq::filter);
    }
    while i < n
        invariant
            n == items@.len(),
            all == views(items@),
            tells(test, p),
            0 <= i <= n,
            count <= i,
            count == all.take(i as int).filter(p).len(),
        decreases n - i,
    {
        proof {
            lemma_filter_step(all, p, i as int);
        }
        if test(&items[i]) {
            count = count + 1;
        }
        i = i + 1;
    }
    assert(all.take(n as int) =~= all);
    count
}

/// Item `i` is the first that `p` holds of.
pub open spec fn is_first<V>(s: Seq<V>, p: spec_fn(V) -> bool, i: int) -> bool {
    &&& 0 <= i < s.len()
    &&& p(s[i])
    &&& forall|j: int| 0 <= j < i ==> !p(#[trigger] s[j])
}

/// Whether `p` holds of some item.
pub open spec fn holds_of_some<V>(s: Seq<V>, p: spec_fn(V) -> bool) -> bool {
    exists|i: int| 0 <= i < s.len() && p(#[trigger] s[i])
}

/// The place of the first item that passes a test.
pub fn position<T: View, F: Fn(&T) -> bool>(
    items: &Vec<T>,
    test: F,
    Ghost(p): Ghost<spec_fn(T::V) -> bool>,
) -> (r: Option<usize>)
    requires
        tells(test, p),
    ensures
        r is Some <==> holds_of_some(views(items@), p),
        r matches Some(i) ==> is_first(views(items@), p, i as int),
{
    let ghost all = views(items@);
    let n: usize = items.len();
    let mut i: usize = 0;
    while i < n
        invariant
            n == items@.len(),
            all == views(items@),
            tells(test, p),
            0 <= i <= n,
            forall|j: int| 0 <= j < i ==> !p(#[trigger] all[j]),
        decreases n - i,
    {
        if test(&items[i]) {
            assert(p(all[i as int]));
            return Some(i);
        }
        i = i + 1;
    }
    None
}

/// Whether some item passes a test.
pub fn any_item<T: View, F: Fn(&T) -> bool>(
    items: &Vec<T>,
    test: F,
    Ghost(p): Ghost<spec_fn(T::V) -> bool>,
) -> (r: bool)
    requires
        tells(test, p),
    ensures
        r == holds_of_some(views(items@), p),
{
    position(items, test, Ghost(p)).is_some()
}

/// Copies of the items that pass a test.
pub fn copy_items<T: Duplicate, F: Fn(&T) -> bool>(
    items: &Vec<T>,
    test: F,
    Ghost(p): Ghost<spec_fn(T::V) -> bool>,
) -> (r: Vec<T>)
    requires
        tells(test, p),
    ensures
        views(r@) == views(items@).filter(p),
{
    let ghost all = views(items@);
    let n: usize = items.len();
    let mut out: Vec<T> = Vec::new();
    let mut i: usize = 0;
    assert(all.take(0).filter(p) =~= Seq::empty()) by {
        reveal(Seq::filter);
    }
    assert(views(out@) =~= all.take(0).filter(p));
    while i < n
        invariant
            n == items@.len(),
            all == views(items@),
            tells(test, p),
            0 <= i <= n,
            views(out@) == all.take(i as int).filter(p),
        decreases n - i,
    {
        let ghost earlier = out@;
        proof {
            lemma_filter_step(all, p, i as int);
        }
        if test(&items[i]) {
            let copy: T = items[i].duplicate();
            let ghost shown = copy@;
            out.push(copy);
            assert(views(out@) =~= views(earlier).push(shown));
        }
        i = i + 1;
    }
    assert(all.take(n as int) =~= all);
    out
}

/// The items without the first `n` that `p` holds of.
pub open spec fn drop_matching<V>(s: Seq<V>, p: spec_fn(V) -> bool, n: nat) -> Seq<V>
    decreases s.len(),
{
    if s.len() == 0 || n == 0 {
        s
    } else if p(s[0]) {
        drop_matching(s.skip(1), p, (n - 1) as nat)
    } else {
        seq![s[0]] + drop_matching(s.skip(1), p, n)
    }
}

/// Drops the first `n` items that pass a test.
pub fn drop_items<T: View, F: Fn(&T) -> bool>(
    items: Vec<T>,
    test: F,
    Ghost(p): Ghost<spec_fn(T::V) -> bool>,
    n: usize,
) -> (r: Vec<T>)
    requires
        tells(test, p),
    ensures
        views(r@) == drop_matching(views(items@), p, n as nat),
{
    let ghost all = views(items@);
    let mut kept: Vec<T> = Vec::new();
    let mut left: usize = n;
    assert(all.skip(0) =~= all);
    assert(views(kept@) + drop_matching(all, p, n as nat) =~= drop_matching(all, p, n as nat));
    for item in it: items
        invariant
            all == views(it.seq()),
            tells(test, p),
            views(kept@) + drop_matching(all.skip(it.index() as int), p, left as nat)
                == drop_matching(all, p, n as nat),
    {
        let ghost i = it.index() as int;
        let ghost earlier = kept@;
        let ghost rest = all.skip(i);
        assert(rest.skip(1) =~= all.skip(i + 1));
        assert(rest[0] == item@);
        let ghost shown = item@;
        if left > 0 && test(&item) {
            left = left - 1;
        } else {
            kept.push(item);
            assert(views(kept@) =~= views(earlier).push(shown));
            assert(views(kept@) + drop_matching(all.skip(i + 1), p, left as nat) =~= views(earlier)
                + drop_matching(rest, p, left as nat)) by {
                if left == 0 {
                    assert(rest =~= seq![shown] + all.skip(i + 1));
                }
            }
        }
    }
    assert(all.skip(all.len() as int).len() == 0);
    assert(views(kept@) + all.skip(all.len() as int) =~= views(kept@));
    kept
}

/// Without the first `n` items that `p` holds of, the items that it holds of are the later ones.
pub proof fn lemma_drop_matching<V>(s: Seq<V>, p: spec_fn(V) -> bool, n: nat)
    ensures
        drop_matching(s, p, n).filter(p).len() == (if s.filter(p).len() < n {
            0
        } else {
            s.filter(p).len() - n
        }),
        drop_matching(s, p, n).len() <= s.len(),
        forall|q: spec_fn(V) -> bool|
            (forall|v: V| !(#[trigger] q(v) && p(v))) ==> #[trigger] drop_matching(s, p, n).filter(q)
                == s.filter(q),
    decreases s.len(),
{
    reveal(Seq::filter);
    if s.len() > 0 && n > 0 {
        let rest = s.skip(1);
        assert(s =~= seq![s[0]] + rest);
        Seq::filter_distributes_over_add(seq![s[0]], rest, p);
        assert(seq![s[0]].filter(p) =~= (if p(s[0]) {
            seq![s[0]]
        } else {
            Seq::empty()
        })) by {
            reveal_with_fuel(Seq::filter, 2);
        }
        if p(s[0]) {
            lemma_drop_matching(rest, p, (n - 1) as nat);
        } else {
            lemma_drop_matching(rest, p, n);
            Seq::filter_distributes_over_add(seq![s[0]], drop_matching(rest, p, n), p);
        }
        assert forall|q: spec_fn(V) -> bool|
            (forall|v: V| !(#[trigger] q(v) && p(v))) implies #[trigger] drop_matching(s, p, n).filter(
            q,
        ) == s.filter(q) by {
            Seq::filter_distributes_over_add(seq![s[0]], rest, q);
            assert(seq![s[0]].filter(q) =~= (if q(s[0]) {
                seq![s[0]]
            } else {
                Seq::empty()
            })) by {
                reveal_with_fuel(Seq::filter, 2);
            }
            if p(s[0]) {
                assert(!q(s[0]));
                assert(drop_matching(rest, p, (n - 1) as nat).filter(q) == rest.filter(q));
                assert(seq![s[0]].filter(q) + rest.filter(q) =~= rest.filter(q));
            } else {
                Seq::filter_distributes_over_add(seq![s[0]], drop_matching(rest, p, n), q);
                assert(drop_matching(rest, p, n).filter(q) == rest.filter(q));
            }
        }
    }
}

} // verus!
