//! Maps and sets that keep their keys in ascending order.
//!
//! The view of an [`OrderedMap`] is the sequence of its entries, least key first, so that
//! a contract can speak both of what a key is bound to and of the order in which the entries
//! are visited.
use vstd::prelude::*;
use vstd::string::*;
use vstd::utf8::*;

verus! {

/// A key model with a strict total order.
pub trait Ranked: Sized {
    /// Whether this key comes strictly before the other.
    spec fn before(self, other: Self) -> bool;

    proof fn before_irreflexive(a: Self)
        ensures
            !a.before(a),
    ;

    proof fn before_transitive(a: Self, b: Self, c: Self)
        requires
            a.before(b),
            b.before(c),
        ensures
            a.before(c),
    ;

    proof fn before_total(a: Self, b: Self)
        ensures
            a.before(b) || a == b || b.before(a),
    ;
}

/// An executable key: its model, and the operations that a map needs of it.
pub trait OrderedKey: Sized {
    type M: Ranked;

    spec fn key(&self) -> Self::M;

    fn precedes(&self, other: &Self) -> (r: bool)
        ensures
            r == self.key().before(other.key()),
    ;

    fn same(&self, other: &Self) -> (r: bool)
        ensures
            r == (self.key() == other.key()),
    ;

    fn copy_key(&self) -> (r: Self)
        ensures
            r.key() == self.key(),
    ;
}

/// The byte strings agree up to `i`, where the first one ends or is smaller.
pub open spec fn smaller_at(a: Seq<u8>, b: Seq<u8>, i: int) -> bool {
    &&& 0 <= i <= a.len()
    &&& i < b.len()
    &&& forall|j: int| 0 <= j < i ==> a[j] == b[j]
    &&& i < a.len() ==> a[i] < b[i]
}

/// Lexicographic order of byte strings.
pub open spec fn bytes_before(a: Seq<u8>, b: Seq<u8>) -> bool {
    exists|i: int| smaller_at(a, b, i)
}

/// Order of texts: that of their UTF-8 bytes.
pub open spec fn text_before(a: Seq<char>, b: Seq<char>) -> bool {
    bytes_before(encode_utf8(a), encode_utf8(b))
}

proof fn lemma_bytes_total(a: Seq<u8>, b: Seq<u8>, i: int)
    requires
        0 <= i <= a.len(),
        i <= b.len(),
        forall|j: int| 0 <= j < i ==> a[j] == b[j],
    ensures
        bytes_before(a, b) || a == b || bytes_before(b, a),
    decreases a.len() - i,
{
    if i == a.len() {
        if i == b.len() {
            assert(a =~= b);
        } else {
            assert(smaller_at(a, b, i));
        }
    } else if i == b.len() {
        assert(smaller_at(b, a, i));
    } else if a[i] < b[i] {
        assert(smaller_at(a, b, i));
    } else if b[i] < a[i] {
        assert(smaller_at(b, a, i));
    } else {
        lemma_bytes_total(a, b, i + 1);
    }
}

proof fn lemma_bytes_transitive(a: Seq<u8>, b: Seq<u8>, c: Seq<u8>)
    requires
        bytes_before(a, b),
        bytes_before(b, c),
    ensures
        bytes_before(a, c),
{
    let i = choose|i: int| smaller_at(a, b, i);
    let j = choose|j: int| smaller_at(b, c, j);
    let k = if i < j { i } else { j };
    assert(smaller_at(a, c, k));
}

/// Whether the first text comes strictly before the second.
pub fn text_precedes(a: &str, b: &str) -> (r: bool)
    ensures
        r == text_before(a@, b@),
{
    let x: &[u8] = a.as_bytes();
    let y: &[u8] = b.as_bytes();
    let mut i: usize = 0;
    while i < x.len() && i < y.len()
        invariant
            x@ == encode_utf8(a@),
            y@ == encode_utf8(b@),
            0 <= i <= x@.len(),
            i <= y@.len(),
            forall|j: int| 0 <= j < i ==> x@[j] == y@[j],
        decreases x@.len() - i,
    {
        if x[i] < y[i] {
            assert(smaller_at(x@, y@, i as int));
            return true;
        }
        if x[i] > y[i] {
            proof {
                assert(smaller_at(y@, x@, i as int));
                lemma_bytes_asymmetric(y@, x@);
            }
            return false;
        }
        i = i + 1;
    }
    proof {
        if i < y@.len() {
            assert(smaller_at(x@, y@, i as int));
        } else if bytes_before(x@, y@) {
            let k = choose|k: int| smaller_at(x@, y@, k);
            assert(k < i);
            assert(x@[k] == y@[k]);
        }
    }
    i < y.len()
}

proof fn lemma_bytes_asymmetric(a: Seq<u8>, b: Seq<u8>)
    requires
        bytes_before(a, b),
    ensures
        !bytes_before(b, a),
{
    if bytes_before(b, a) {
        let i = choose|i: int| smaller_at(a, b, i);
        let j = choose|j: int| smaller_at(b, a, j);
        if i < j {
            assert(b[i] == a[i]);
        } else if j < i {
            assert(a[j] == b[j]);
        }
    }
}

impl Ranked for Seq<char> {
    open spec fn before(self, other: Seq<char>) -> bool {
        text_before(self, other)
    }

    proof fn before_irreflexive(a: Seq<char>) {
        let x = encode_utf8(a);
        if bytes_before(x, x) {
            let i = choose|i: int| smaller_at(x, x, i);
            assert(false);
        }
        assert(!a.before(a));
    }

    proof fn before_transitive(a: Seq<char>, b: Seq<char>, c: Seq<char>) {
        assert(a.before(b) && b.before(c));
        lemma_bytes_transitive(encode_utf8(a), encode_utf8(b), encode_utf8(c));
        assert(a.before(c));
    }

    proof fn before_total(a: Seq<char>, b: Seq<char>) {
        lemma_bytes_total(encode_utf8(a), encode_utf8(b), 0);
        encode_utf8_decode_utf8(a);
        encode_utf8_decode_utf8(b);
        assert(a.before(b) || a == b || b.before(a));
    }
}

impl OrderedKey for String {
    type M = Seq<char>;

    open spec fn key(&self) -> Seq<char> {
        self@
    }

    fn precedes(&self, other: &Self) -> (r: bool) {
        let r: bool = text_precedes(self.as_str(), other.as_str());
        assert(self@.before(other@) == text_before(self@, other@));
        r
    }

    fn same(&self, other: &Self) -> (r: bool) {
        *self == *other
    }

    fn copy_key(&self) -> (r: Self) {
        self.clone()
    }
}

impl<A: Ranked, B: Ranked> Ranked for (A, B) {
    open spec fn before(self, other: (A, B)) -> bool {
        self.0.before(other.0) || (self.0 == other.0 && (self.1.before(other.1)))
    }

    proof fn before_irreflexive(a: (A, B)) {
        A::before_irreflexive(a.0);
        B::before_irreflexive(a.1);
        assert(!a.before(a));
    }

    proof fn before_transitive(a: (A, B), b: (A, B), c: (A, B)) {
        assert(a.before(b) && b.before(c));
        if a.0.before(b.0) && b.0.before(c.0) {
            A::before_transitive(a.0, b.0, c.0);
        } else if a.0 == b.0 && b.0 == c.0 {
            B::before_transitive(a.1, b.1, c.1);
        }
        assert(a.before(c));
    }

    proof fn before_total(a: (A, B), b: (A, B)) {
        A::before_total(a.0, b.0);
        B::before_total(a.1, b.1);
        assert(a.before(b) || a == b || b.before(a));
    }
}

impl<A: OrderedKey, B: OrderedKey> OrderedKey for (A, B) {
    type M = (A::M, B::M);

    open spec fn key(&self) -> Self::M {
        (self.0.key(), self.1.key())
    }

    fn precedes(&self, other: &Self) -> (r: bool) {
        let r: bool = self.0.precedes(&other.0) || (self.0.same(&other.0) && (self.1.precedes(&other.1)));
        assert((self.0.key(), self.1.key()).before((other.0.key(), other.1.key())) == r);
        r
    }

    fn same(&self, other: &Self) -> (r: bool) {
        self.0.same(&other.0) && self.1.same(&other.1)
    }

    fn copy_key(&self) -> (r: Self) {
        (self.0.copy_key(), self.1.copy_key())
    }
}

impl<A: Ranked, B: Ranked, C: Ranked> Ranked for (A, B, C) {
    open spec fn before(self, other: (A, B, C)) -> bool {
        self.0.before(other.0) || (self.0 == other.0 && (self.1.before(other.1) || (self.1 == other.1 && (self.2.before(other.2)))))
    }

    proof fn before_irreflexive(a: (A, B, C)) {
        A::before_irreflexive(a.0);
        <(B, C) as Ranked>::before_irreflexive((a.1, a.2));
        assert(!a.before(a));
    }

    proof fn before_transitive(a: (A, B, C), b: (A, B, C), c: (A, B, C)) {
        assert(a.before(b) && b.before(c));
        if a.0.before(b.0) && b.0.before(c.0) {
            A::before_transitive(a.0, b.0, c.0);
        } else if a.0 == b.0 && b.0 == c.0 {
            <(B, C) as Ranked>::before_transitive((a.1, a.2), (b.1, b.2), (c.1, c.2));
        }
        assert(a.before(c));
    }

    proof fn before_total(a: (A, B, C), b: (A, B, C)) {
        A::before_total(a.0, b.0);
        <(B, C) as Ranked>::before_total((a.1, a.2), (b.1, b.2));
        assert(a.before(b) || a == b || b.before(a));
    }
}

impl<A: OrderedKey, B: OrderedKey, C: OrderedKey> OrderedKey for (A, B, C) {
    type M = (A::M, B::M, C::M);

    open spec fn key(&self) -> Self::M {
        (self.0.key(), self.1.key(), self.2.key())
    }

    fn precedes(&self, other: &Self) -> (r: bool) {
        let r: bool = self.0.precedes(&other.0) || (self.0.same(&other.0) && (self.1.precedes(&other.1) || (self.1.same(&other.1) && (self.2.precedes(&other.2)))));
        assert((self.0.key(), self.1.key(), self.2.key()).before((other.0.key(), other.1.key(), other.2.key())) == r);
        r
    }

    fn same(&self, other: &Self) -> (r: bool) {
        self.0.same(&other.0) && self.1.same(&other.1) && self.2.same(&other.2)
    }

    fn copy_key(&self) -> (r: Self) {
        (self.0.copy_key(), self.1.copy_key(), self.2.copy_key())
    }
}

impl<A: Ranked, B: Ranked, C: Ranked, D: Ranked> Ranked for (A, B, C, D) {
    open spec fn before(self, other: (A, B, C, D)) -> bool {
        self.0.before(other.0) || (self.0 == other.0 && (self.1.before(other.1) || (self.1 == other.1 && (self.2.before(other.2) || (self.2 == other.2 && (self.3.before(other.3)))))))
    }

    proof fn before_irreflexive(a: (A, B, C, D)) {
        A::before_irreflexive(a.0);
        <(B, C, D) as Ranked>::before_irreflexive((a.1, a.2, a.3));
        assert(!a.before(a));
    }

    proof fn before_transitive(a: (A, B, C, D), b: (A, B, C, D), c: (A, B, C, D)) {
        assert(a.before(b) && b.before(c));
        if a.0.before(b.0) && b.0.before(c.0) {
            A::before_transitive(a.0, b.0, c.0);
        } else if a.0 == b.0 && b.0 == c.0 {
            <(B, C, D) as Ranked>::before_transitive((a.1, a.2, a.3), (b.1, b.2, b.3), (c.1, c.2, c.3));
        }
        assert(a.before(c));
    }

    proof fn before_total(a: (A, B, C, D), b: (A, B, C, D)) {
        A::before_total(a.0, b.0);
        <(B, C, D) as Ranked>::before_total((a.1, a.2, a.3), (b.1, b.2, b.3));
        assert(a.before(b) || a == b || b.before(a));
    }
}

impl<A: OrderedKey, B: OrderedKey, C: OrderedKey, D: OrderedKey> OrderedKey for (A, B, C, D) {
    type M = (A::M, B::M, C::M, D::M);

    open spec fn key(&self) -> Self::M {
        (self.0.key(), self.1.key(), self.2.key(), self.3.key())
    }

    fn precedes(&self, other: &Self) -> (r: bool) {
        let r: bool = self.0.precedes(&other.0) || (self.0.same(&other.0) && (self.1.precedes(&other.1) || (self.1.same(&other.1) && (self.2.precedes(&other.2) || (self.2.same(&other.2) && (self.3.precedes(&other.3)))))));
        assert((self.0.key(), self.1.key(), self.2.key(), self.3.key()).before((other.0.key(), other.1.key(), other.2.key(), other.3.key())) == r);
        r
    }

    fn same(&self, other: &Self) -> (r: bool) {
        self.0.same(&other.0) && self.1.same(&other.1) && self.2.same(&other.2) && self.3.same(&other.3)
    }

    fn copy_key(&self) -> (r: Self) {
        (self.0.copy_key(), self.1.copy_key(), self.2.copy_key(), self.3.copy_key())
    }
}

impl<A: Ranked, B: Ranked, C: Ranked, D: Ranked, E: Ranked> Ranked for (A, B, C, D, E) {
    open spec fn before(self, other: (A, B, C, D, E)) -> bool {
        self.0.before(other.0) || (self.0 == other.0 && (self.1.before(other.1) || (self.1 == other.1 && (self.2.before(other.2) || (self.2 == other.2 && (self.3.before(other.3) || (self.3 == other.3 && (self.4.before(other.4)))))))))
    }

    proof fn before_irreflexive(a: (A, B, C, D, E)) {
        A::before_irreflexive(a.0);
        <(B, C, D, E) as Ranked>::before_irreflexive((a.1, a.2, a.3, a.4));
        assert(!a.before(a));
    }

    proof fn before_transitive(a: (A, B, C, D, E), b: (A, B, C, D, E), c: (A, B, C, D, E)) {
        assert(a.before(b) && b.before(c));
        if a.0.before(b.0) && b.0.before(c.0) {
            A::before_transitive(a.0, b.0, c.0);
        } else if a.0 == b.0 && b.0 == c.0 {
            <(B, C, D, E) as Ranked>::before_transitive((a.1, a.2, a.3, a.4), (b.1, b.2, b.3, b.4), (c.1, c.2, c.3, c.4));
        }
        assert(a.before(c));
    }

    proof fn before_total(a: (A, B, C, D, E), b: (A, B, C, D, E)) {
        A::before_total(a.0, b.0);
        <(B, C, D, E) as Ranked>::before_total((a.1, a.2, a.3, a.4), (b.1, b.2, b.3, b.4));
        assert(a.before(b) || a == b || b.before(a));
    }
}

impl<A: OrderedKey, B: OrderedKey, C: OrderedKey, D: OrderedKey, E: OrderedKey> OrderedKey for (A, B, C, D, E) {
    type M = (A::M, B::M, C::M, D::M, E::M);

    open spec fn key(&self) -> Self::M {
        (self.0.key(), self.1.key(), self.2.key(), self.3.key(), self.4.key())
    }

    fn precedes(&self, other: &Self) -> (r: bool) {
        let r: bool = self.0.precedes(&other.0) || (self.0.same(&other.0) && (self.1.precedes(&other.1) || (self.1.same(&other.1) && (self.2.precedes(&other.2) || (self.2.same(&other.2) && (self.3.precedes(&other.3) || (self.3.same(&other.3) && (self.4.precedes(&other.4)))))))));
        assert((self.0.key(), self.1.key(), self.2.key(), self.3.key(), self.4.key()).before((other.0.key(), other.1.key(), other.2.key(), other.3.key(), other.4.key())) == r);
        r
    }

    fn same(&self, other: &Self) -> (r: bool) {
        self.0.same(&other.0) && self.1.same(&other.1) && self.2.same(&other.2) && self.3.same(&other.3) && self.4.same(&other.4)
    }

    fn copy_key(&self) -> (r: Self) {
        (self.0.copy_key(), self.1.copy_key(), self.2.copy_key(), self.3.copy_key(), self.4.copy_key())
    }
}

impl Ranked for u64 {
    open spec fn before(self, other: u64) -> bool {
        self < other
    }

    proof fn before_irreflexive(a: u64) {
    }

    proof fn before_transitive(a: u64, b: u64, c: u64) {
    }

    proof fn before_total(a: u64, b: u64) {
    }
}

impl OrderedKey for u64 {
    type M = u64;

    open spec fn key(&self) -> u64 {
        *self
    }

    fn precedes(&self, other: &Self) -> (r: bool) {
        *self < *other
    }

    fn same(&self, other: &Self) -> (r: bool) {
        *self == *other
    }

    fn copy_key(&self) -> (r: Self) {
        *self
    }
}

} // verus!
