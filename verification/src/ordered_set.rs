//! A set whose members can be visited in ascending order.
use vstd::prelude::*;

use crate::duplicate::{TextList, texts};
use crate::ordered::{OrderedKey, Ranked};
use crate::ordered_map::{OrderedMap, ascending, bound_at, lemma_lookup_at, lemma_lookup_delete, lemma_lookup_put, lookup};

verus! {

/// The member that comes before all others.
pub open spec fn is_least<M: Ranked>(s: Set<M>, m: M) -> bool {
    &&& s.contains(m)
    &&& forall|x: M| #[trigger] s.contains(x) ==> x == m || m.before(x)
}

/// The sequence lists the members of the set in ascending order, each of them once.
pub open spec fn enumerates<M: Ranked>(items: Seq<M>, s: Set<M>) -> bool {
    &&& forall|i: int, j: int|
        0 <= i < j < items.len() ==> (#[trigger] items[i]).before(#[trigger] items[j])
    &&& forall|x: M| #[trigger] s.contains(x) <==> items.contains(x)
}

/// The members of a set model.
pub open spec fn members_of<M>(s: Seq<(M, ())>) -> Set<M> {
    Set::new(|m: M| lookup(s, m) is Some)
}

/// A set of ordered members.
pub struct OrderedSet<K: OrderedKey> {
    members: OrderedMap<K, ()>,
}

impl<K: OrderedKey> View for OrderedSet<K> {
    type V = Set<K::M>;

    closed spec fn view(&self) -> Set<K::M> {
        members_of(self.members@)
    }
}

proof fn lemma_enumerates<M: Ranked>(s: Seq<(M, ())>, i: int)
    requires
        ascending(s),
    ensures
        enumerates(s.map_values(|e: (M, ())| e.0), members_of(s)),
        0 <= i < s.len() ==> members_of(s).contains(s[i].0),
        s.len() > 0 ==> is_least(members_of(s), s[0].0),
        s.len() == 0 ==> members_of(s) == Set::<M>::empty(),
{
    reveal(ascending);
    reveal(lookup);
    let items = s.map_values(|e: (M, ())| e.0);
    assert forall|x: M| #[trigger] members_of(s).contains(x) implies items.contains(x) by {
        let j = choose|j: int| bound_at(s, x, j);
        assert(items[j] == x);
    }
    assert forall|x: M| items.contains(x) implies #[trigger] members_of(s).contains(x) by {
        let j = choose|j: int| 0 <= j < items.len() && items[j] == x;
        lemma_lookup_at(s, j);
    }
    if 0 <= i < s.len() {
        lemma_lookup_at(s, i);
    }
    if s.len() > 0 {
        lemma_lookup_at(s, 0);
        assert forall|x: M| #[trigger] members_of(s).contains(x) implies x == s[0].0
            || s[0].0.before(x) by {
            let j = choose|j: int| bound_at(s, x, j);
            if j > 0 {
                assert(s[0].0.before(s[j].0));
            }
        }
    } else {
        assert(members_of(s) =~= Set::<M>::empty());
    }
}

/// A sequence that lists a set has as many items as the set has members.
pub proof fn lemma_enumerates_len<M: Ranked>(items: Seq<M>, s: Set<M>)
    requires
        enumerates(items, s),
    ensures
        s.finite(),
        s.len() == items.len(),
{
    assert forall|i: int, j: int| 0 <= i < items.len() && 0 <= j < items.len() && i
        != j implies items[i] != items[j] by {
        M::before_irreflexive(items[i]);
        if i < j {
            assert(items[i].before(items[j]));
        } else {
            assert(items[j].before(items[i]));
        }
    }
    items.unique_seq_to_set();
    assert(items.to_set() =~= s);
}

proof fn lemma_enumerates_alike<M: Ranked>(a: Seq<M>, b: Seq<M>, s: Set<M>, i: int)
    requires
        enumerates(a, s),
        enumerates(b, s),
        a.len() == b.len(),
        0 <= i < a.len(),
    ensures
        a[i] == b[i],
    decreases i,
{
    assert forall|j: int| 0 <= j < i implies a[j] == b[j] by {
        lemma_enumerates_alike(a, b, s, j);
    }
    assert(a.contains(a[i]));
    assert(s.contains(a[i]));
    assert(b.contains(b[i]));
    assert(s.contains(b[i]));
    let k = choose|k: int| 0 <= k < b.len() && b[k] == a[i];
    let m = choose|m: int| 0 <= m < a.len() && a[m] == b[i];
    M::before_irreflexive(a[i]);
    M::before_irreflexive(b[i]);
    if k < i {
        assert(a[k].before(a[i]));
    } else if k > i {
        assert(b[i].before(b[k]));
        if m < i {
            assert(b[m].before(b[i]));
        } else if m > i {
            assert(a[i].before(a[m]));
            M::before_transitive(a[i], b[i], a[i]);
        }
    }
}

/// A set is listed in one way only.
pub proof fn lemma_enumerates_same<M: Ranked>(a: Seq<M>, b: Seq<M>, s: Set<M>)
    requires
        enumerates(a, s),
        enumerates(b, s),
    ensures
        a == b,
{
    lemma_enumerates_len(a, s);
    lemma_enumerates_len(b, s);
    assert forall|i: int| 0 <= i < a.len() implies a[i] == b[i] by {
        lemma_enumerates_alike(a, b, s, i);
    }
    assert(a =~= b);
}

impl<K: OrderedKey> OrderedSet<K> {
    /// The members in ascending order.
    pub closed spec fn items(&self) -> Seq<K::M> {
        self.members@.map_values(|e: (K::M, ())| e.0)
    }

    pub fn new() -> (r: Self)
        ensures
            r@ == Set::<K::M>::empty(),
    {
        let r = OrderedSet { members: OrderedMap::new() };
        proof {
            reveal(ascending);
            lemma_enumerates(r.members@, 0);
        }
        r
    }

    pub fn is_empty(&self) -> (r: bool)
        ensures
            r == (self@ == Set::<K::M>::empty()),
    {
        let n: usize = self.members.len();
        proof {
            lemma_enumerates(self.members@, 0);
        }
        n == 0
    }

    /// The number of members.
    pub fn count(&self) -> (r: usize)
        ensures
            r == self.items().len(),
            r == self@.len(),
            self@.finite(),
            enumerates(self.items(), self@),
    {
        let n: usize = self.members.len();
        proof {
            lemma_enumerates(self.members@, 0);
            lemma_enumerates_len(self.items(), self@);
        }
        n
    }

    /// Member `i` in ascending order.
    pub fn item(&self, i: usize) -> (r: &K)
        requires
            i < self.items().len(),
        ensures
            r.key() == self.items()[i as int],
            self@.contains(r.key()),
    {
        proof {
            use_type_invariant(&self.members);
            lemma_enumerates(self.members@, i as int);
        }
        self.members.key_at(i)
    }

    /// The least member.
    pub fn first(&self) -> (r: Option<&K>)
        ensures
            r is None <==> self@ == Set::<K::M>::empty(),
            r matches Some(k) ==> is_least(self@, k.key()),
    {
        let n: usize = self.members.len();
        proof {
            lemma_enumerates(self.members@, 0);
        }
        if n == 0 {
            None
        } else {
            Some(self.members.key_at(0))
        }
    }

    pub fn contains(&self, k: &K) -> (r: bool)
        ensures
            r == self@.contains(k.key()),
    {
        self.members.contains_key(k)
    }

    /// Adds a member; the result says whether it is new.
    pub fn insert(&mut self, k: K) -> (r: bool)
        ensures
            final(self)@ == old(self)@.insert(k.key()),
            r == !old(self)@.contains(k.key()),
    {
        broadcast use lemma_lookup_put;

        let known: bool = self.members.contains_key(&k);
        let ghost before = self.members@;
        let ghost m = k.key();
        self.members.insert(k, ());
        assert(members_of(self.members@) =~= members_of(before).insert(m));
        !known
    }

    /// Takes a member out; the result says whether it was there.
    pub fn remove(&mut self, k: &K) -> (r: bool)
        ensures
            final(self)@ == old(self)@.remove(k.key()),
            r == old(self)@.contains(k.key()),
    {
        broadcast use lemma_lookup_delete;

        let ghost before = self.members@;
        let removed: Option<()> = self.members.remove(k);
        assert(members_of(self.members@) =~= members_of(before).remove(k.key()));
        removed.is_some()
    }

    /// A set with the same members.
    pub fn copy_set(&self) -> (r: Self)
        ensures
            r@ == self@,
    {
        let mut out: OrderedSet<K> = OrderedSet::new();
        let n: usize = self.count();
        let mut i: usize = 0;
        while i < n
            invariant
                n == self.items().len(),
                enumerates(self.items(), self@),
                0 <= i <= n,
                forall|x: K::M| #[trigger] out@.contains(x) <==> self.items().take(i as int).contains(x),
            decreases n - i,
        {
            let ghost before = out@;
            let key: K = self.item(i).copy_key();
            let _fresh: bool = out.insert(key);
            proof {
                let t = self.items().take(i as int);
                let u = self.items().take(i + 1);
                assert(u =~= t.push(self.items()[i as int]));
                assert forall|x: K::M| #[trigger] out@.contains(x) <==> u.contains(x) by {
                    if before.contains(x) {
                        let j = choose|j: int| 0 <= j < t.len() && t[j] == x;
                        assert(u[j] == x);
                    }
                    if x == self.items()[i as int] {
                        assert(u[i as int] == x);
                    }
                    if u.contains(x) && x != self.items()[i as int] {
                        let j = choose|j: int| 0 <= j < u.len() && u[j] == x;
                        assert(t[j] == x);
                    }
                }
            }
            i = i + 1;
        }
        assert(self.items().take(n as int) =~= self.items());
        assert(out@ =~= self@);
        out
    }
}

/// Whether a test of members decides `p` of their models.
pub open spec fn sorts<K: OrderedKey, F: Fn(&K) -> bool>(test: F, p: spec_fn(K::M) -> bool) -> bool {
    &&& forall|k: &K| #[trigger] call_requires(test, (k,))
    &&& forall|k: &K, b: bool| #[trigger] call_ensures(test, (k,), b) ==> b == p(k.key())
}

impl<K: OrderedKey> OrderedSet<K> {
    /// Keeps the members that pass a test.
    pub fn retain<F: Fn(&K) -> bool>(&mut self, test: F, Ghost(p): Ghost<spec_fn(K::M) -> bool>)
        requires
            sorts(test, p),
        ensures
            final(self)@ == old(self)@.filter(p),
    {
        let ghost q = |e: (K::M, ())| p(e.0);
        let keep = |k: &K, _nothing: &()| -> (b: bool)
            ensures
                b == p(k.key()),
        { test(k) };
        let ghost before = self.members@;
        self.members.retain(keep, Ghost(q));
        proof {
            use_type_invariant(&self.members);
            assert forall|m: K::M| #[trigger] members_of(self.members@).contains(m) <==> members_of(
                before,
            ).filter(p).contains(m) by {
                crate::ordered_map::lemma_lookup_filter(before, q, m);
            }
            assert(members_of(self.members@) =~= members_of(before).filter(p));
        }
    }

    /// The members that pass a test.
    pub fn select<F: Fn(&K) -> bool>(&self, test: F, Ghost(p): Ghost<spec_fn(K::M) -> bool>) -> (r: Self)
        requires
            sorts(test, p),
        ensures
            r@ == self@.filter(p),
    {
        let mut found: OrderedSet<K> = self.copy_set();
        found.retain(test, Ghost(p));
        found
    }
}

/// The members of a set of texts, in ascending order.
pub fn list_texts(set: &OrderedSet<String>) -> (r: TextList)
    ensures
        enumerates(r@, set@),
{
    let n: usize = set.count();
    let ghost items = set.items();
    let mut out: Vec<String> = Vec::new();
    let mut i: usize = 0;
    assert(texts(out@) =~= items.take(0));
    while i < n
        invariant
            n == items.len(),
            items == set.items(),
            enumerates(items, set@),
            0 <= i <= n,
            texts(out@) == items.take(i as int),
        decreases n - i,
    {
        let item: &String = set.item(i);
        assert(item.key() == item@);
        let ghost earlier = out@;
        out.push(item.clone());
        assert(texts(out@) =~= texts(earlier).push(items[i as int]));
        assert(items.take(i + 1) =~= items.take(i as int).push(items[i as int]));
        i = i + 1;
    }
    assert(items.take(n as int) =~= items);
    TextList { items: out }
}

} // verus!
