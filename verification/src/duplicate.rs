//! Copies whose contents are stated.
use vstd::prelude::*;
use vstd::string::*;

use crate::ordered::OrderedKey;
use crate::ordered_map::{OrderedMap, model};
use crate::ordered_set::OrderedSet;

verus! {

/// A value that can be copied.
pub trait Duplicate: View + Sized {
    /// A value with the same contents.
    fn duplicate(&self) -> (r: Self)
        ensures
            r@ == self@,
    ;
}

/// A copy of an optional text.
pub fn copy_text(text: &Option<String>) -> (r: Option<String>)
    ensures
        r == *text,
{
    match text {
        Some(t) => Some(t.clone()),
        None => None,
    }
}

/// An optional value with the same contents.
pub open spec fn same_option<T: View>(a: Option<T>, b: Option<T>) -> bool {
    match (a, b) {
        (Some(x), Some(y)) => x@ == y@,
        (None, None) => true,
        _ => false,
    }
}

/// A copy of an optional value.
pub fn copy_option<T: Duplicate>(value: &Option<T>) -> (r: Option<T>)
    ensures
        same_option(r, *value),
{
    match value {
        Some(t) => Some(t.duplicate()),
        None => None,
    }
}

/// The model of an optional value.
pub open spec fn option_view<T: View>(value: Option<T>) -> Option<T::V> {
    match value {
        Some(t) => Some(t@),
        None => None,
    }
}

/// A copy of a vector of values.
pub fn copy_all<T: Duplicate>(values: &Vec<T>) -> (r: Vec<T>)
    ensures
        views(r@) == views(values@),
{
    let mut out: Vec<T> = Vec::new();
    let mut i: usize = 0;
    while i < values.len()
        invariant
            0 <= i <= values@.len(),
            views(out@) == views(values@).take(i as int),
        decreases values@.len() - i,
    {
        let ghost before = out@;
        out.push(values[i].duplicate());
        assert(views(out@) =~= views(before).push(values@[i as int]@));
        assert(views(values@).take(i + 1) =~= views(values@).take(i as int).push(
            values@[i as int]@,
        ));
        i = i + 1;
    }
    assert(views(values@).take(i as int) =~= views(values@));
    out
}

/// The models of a sequence of values.
pub open spec fn views<T: View>(values: Seq<T>) -> Seq<T::V> {
    values.map_values(|v: T| v@)
}

/// The texts of a sequence of strings.
pub open spec fn texts(values: Seq<String>) -> Seq<Seq<char>> {
    values.map_values(|v: String| v@)
}

/// A list of texts.
pub struct TextList {
    pub items: Vec<String>,
}

impl View for TextList {
    type V = Seq<Seq<char>>;

    open spec fn view(&self) -> Seq<Seq<char>> {
        texts(self.items@)
    }
}

impl Duplicate for TextList {
    fn duplicate(&self) -> (r: Self) {
        let mut items: Vec<String> = Vec::new();
        let mut i: usize = 0;
        while i < self.items.len()
            invariant
                0 <= i <= self.items@.len(),
                texts(items@) == texts(self.items@).take(i as int),
            decreases self.items@.len() - i,
        {
            let ghost before = items@;
            items.push(self.items[i].clone());
            assert(texts(items@) =~= texts(before).push(self.items@[i as int]@));
            assert(texts(self.items@).take(i + 1) =~= texts(self.items@).take(i as int).push(
                self.items@[i as int]@,
            ));
            i = i + 1;
        }
        assert(texts(self.items@).take(i as int) =~= texts(self.items@));
        TextList { items }
    }
}

impl TextList {
    /// A list without texts.
    pub fn empty() -> (r: Self)
        ensures
            r@ == Seq::<Seq<char>>::empty(),
    {
        let r = TextList { items: Vec::new() };
        assert(r@ =~= Seq::<Seq<char>>::empty());
        r
    }

    /// Whether a text stands in the list.
    pub fn holds(&self, text: &str) -> (r: bool)
        ensures
            r == self@.contains(text@),
    {
        let wanted: String = text.to_owned();
        let mut i: usize = 0;
        while i < self.items.len()
            invariant
                0 <= i <= self.items@.len(),
                wanted@ == text@,
                forall|j: int| 0 <= j < i ==> texts(self.items@)[j] != text@,
            decreases self.items@.len() - i,
        {
            if self.items[i] == wanted {
                assert(texts(self.items@)[i as int] == text@);
                return true;
            }
            i = i + 1;
        }
        false
    }
}

impl Duplicate for String {
    fn duplicate(&self) -> (r: Self) {
        self.clone()
    }
}

impl Duplicate for u64 {
    fn duplicate(&self) -> (r: Self) {
        *self
    }
}

impl<K: OrderedKey> Duplicate for OrderedSet<K> {
    fn duplicate(&self) -> (r: Self) {
        self.copy_set()
    }
}

impl<K: OrderedKey, V: Duplicate> Duplicate for OrderedMap<K, V> {
    fn duplicate(&self) -> (r: Self) {
        let n: usize = self.len();
        let mut entries: Vec<(K, V)> = Vec::new();
        let mut i: usize = 0;
        while i < n
            invariant
                n == self@.len(),
                0 <= i <= n,
                model(entries@) == self@.take(i as int),
            decreases n - i,
        {
            let k: K = self.key_at(i).copy_key();
            let v: V = self.value_at(i).duplicate();
            let ghost last = (k.key(), v@);
            entries.push((k, v));
            assert(model(entries@) =~= self@.take(i as int).push(last));
            assert(self@.take(i + 1) =~= self@.take(i as int).push(self@[i as int]));
            i = i + 1;
        }
        assert(self@.take(n as int) =~= self@);
        OrderedMap::from_entries(entries)
    }
}

/// Whether two optional texts are the same.
pub fn same_text(a: &Option<String>, b: &Option<String>) -> (r: bool)
    ensures
        r == (option_view(*a) == option_view(*b)),
{
    match (a, b) {
        (Some(x), Some(y)) => *x == *y,
        (None, None) => true,
        _ => false,
    }
}

} // verus!
