//! Sets of identifiers, kept as vectors in which no key occurs twice and the
//! order of arrival is preserved.

use crate::text::{first_index, lemma_first_index, lemma_first_index_bounds};
use crate::types::peripheral_id::PeripheralId;
use vstd::prelude::*;

verus! {

/// An item that is found again by its view.
pub trait Keyed: View + Sized {
    /// Whether two items have the same view.
    fn same(&self, other: &Self) -> (res: bool)
        ensures
            res == (self@ == other@),
    ;

    /// Another item with the same view.
    fn duplicate(&self) -> (res: Self)
        ensures
            res@ == self@,
    ;
}

impl Keyed for String {
    fn same(&self, other: &Self) -> (res: bool) {
        *self == *other
    }

    fn duplicate(&self) -> (res: Self) {
        self.clone()
    }
}

impl Keyed for PeripheralId {
    fn same(&self, other: &Self) -> (res: bool) {
        PeripheralId::same(self, other)
    }

    fn duplicate(&self) -> (res: Self) {
        self.clone()
    }
}

/// The views of the items, in order.
pub open spec fn keys<T: View>(items: Seq<T>) -> Seq<T::V> {
    items.map_values(|item: T| item@)
}

/// `keys` with `key` added at the end, unless it is there already.
pub open spec fn with_key<K>(keys: Seq<K>, key: K) -> Seq<K> {
    if keys.contains(key) {
        keys
    } else {
        keys.push(key)
    }
}

/// `keys` without the first occurrence of `key`.
pub open spec fn without_key<K>(keys: Seq<K>, key: K) -> Seq<K> {
    let at = first_index(keys, key);
    if at < keys.len() {
        keys.remove(at)
    } else {
        keys
    }
}

/// The keys of `all` in order of first occurrence, each once.
pub open spec fn distinct_keys<K>(all: Seq<K>) -> Seq<K>
    decreases all.len(),
{
    if all.len() == 0 {
        all
    } else {
        with_key(distinct_keys(all.drop_last()), all.last())
    }
}

/// Adding a key to keys that do not repeat gives keys that do not repeat,
/// and as a set the old keys and the new one.
pub proof fn lemma_with_key<K>(keys: Seq<K>, key: K)
    ensures
        keys.no_duplicates() ==> with_key(keys, key).no_duplicates(),
        with_key(keys, key).to_set() == keys.to_set().insert(key),
        with_key(keys, key).contains(key),
{
    let out = with_key(keys, key);
    if keys.contains(key) {
        assert(out.to_set() =~= keys.to_set().insert(key));
    } else {
        assert(out[keys.len() as int] == key);
        assert forall|k: K| out.to_set().contains(k) <==> keys.to_set().insert(key).contains(
            k,
        ) by {
            if out.contains(k) {
                let i = choose|i: int| 0 <= i < out.len() && out[i] == k;
                if i < keys.len() {
                    assert(keys[i] == k);
                }
            }
            if keys.contains(k) {
                let i = choose|i: int| 0 <= i < keys.len() && keys[i] == k;
                assert(out[i] == k);
            }
        }
        assert(out.to_set() =~= keys.to_set().insert(key));
    }
}

/// Removing a key from keys that do not repeat gives keys that do not
/// repeat, and as a set the old keys but that one.
pub proof fn lemma_without_key<K>(keys: Seq<K>, key: K)
    requires
        keys.no_duplicates(),
    ensures
        without_key(keys, key).no_duplicates(),
        without_key(keys, key).to_set() == keys.to_set().remove(key),
        !without_key(keys, key).contains(key),
{
    lemma_first_index_bounds(keys, key);
    let at = first_index(keys, key);
    let out = without_key(keys, key);
    if at < keys.len() {
        assert forall|i: int, j: int| 0 <= i < out.len() && 0 <= j < out.len() && i != j implies out[i]
            != out[j] by {
            let a = if i < at { i } else { i + 1 };
            let b = if j < at { j } else { j + 1 };
            assert(out[i] == keys[a] && out[j] == keys[b]);
        }
        assert forall|k: K| out.to_set().contains(k) <==> keys.to_set().remove(key).contains(
            k,
        ) by {
            if out.contains(k) {
                let i = choose|i: int| 0 <= i < out.len() && out[i] == k;
                let a = if i < at { i } else { i + 1 };
                assert(keys[a] == k);
            }
            if keys.contains(k) && k != key {
                let a = choose|a: int| 0 <= a < keys.len() && keys[a] == k;
                let i = if a < at { a } else { a - 1 };
                assert(out[i] == k);
            }
        }
        assert(out.to_set() =~= keys.to_set().remove(key));
    } else {
        assert(out.to_set() =~= keys.to_set().remove(key));
    }
}

/// The distinct keys of a sequence do not repeat and are, as a set, the keys
/// of the sequence.
pub proof fn lemma_distinct_keys<K>(all: Seq<K>)
    ensures
        distinct_keys(all).no_duplicates(),
        distinct_keys(all).to_set() == all.to_set(),
    decreases all.len(),
{
    if all.len() == 0 {
    } else {
        let rest = all.drop_last();
        lemma_distinct_keys(rest);
        lemma_with_key(distinct_keys(rest), all.last());
        assert(rest.push(all.last()) =~= all);
        assert forall|k: K| all.to_set().contains(k) <==> rest.to_set().insert(
            all.last(),
        ).contains(k) by {
            if all.contains(k) {
                let i = choose|i: int| 0 <= i < all.len() && all[i] == k;
                if i < rest.len() {
                    assert(rest[i] == k);
                }
            }
            if rest.contains(k) {
                let i = choose|i: int| 0 <= i < rest.len() && rest[i] == k;
                assert(all[i] == k);
            }
            assert(all[all.len() - 1] == all.last());
        }
        assert(all.to_set() =~= rest.to_set().insert(all.last()));
    }
}

/// Copies the items, in order.
pub fn duplicate_all<T: Keyed>(items: &Vec<T>) -> (res: Vec<T>)
    ensures
        keys(res@) == keys(items@),
{
    let mut out: Vec<T> = Vec::new();
    let mut i: usize = 0;
    while i < items.len()
        invariant
            i <= items.len(),
            out@.len() == i,
            forall|j: int| 0 <= j < i ==> out@[j]@ == items@[j]@,
        decreases items.len() - i,
    {
        out.push(items[i].duplicate());
        i += 1;
    }
    assert(keys(out@) =~= keys(items@));
    out
}

/// Counts the items before the first one whose view is that of `key`.
pub fn position<T: Keyed>(items: &Vec<T>, key: &T) -> (res: usize)
    ensures
        res == first_index(keys(items@), key@),
        res <= items@.len(),
        res < items@.len() <==> keys(items@).contains(key@),
{
    let mut at: usize = 0;
    while at < items.len()
        invariant
            at <= items.len(),
            forall|j: int| 0 <= j < at ==> keys(items@)[j] != key@,
        decreases items.len() - at,
    {
        if items[at].same(key) {
            proof {
                lemma_first_index(keys(items@), key@, at as int);
                lemma_first_index_bounds(keys(items@), key@);
            }
            return at;
        }
        at += 1;
    }
    proof {
        lemma_first_index(keys(items@), key@, at as int);
        lemma_first_index_bounds(keys(items@), key@);
    }
    at
}

/// Whether an item with the view of `key` is among `items`.
pub fn contains<T: Keyed>(items: &Vec<T>, key: &T) -> (res: bool)
    ensures
        res == keys(items@).contains(key@),
        res == keys(items@).to_set().contains(key@),
{
    position(items, key) < items.len()
}

/// Adds `item` at the end, unless an item with its view is there already.
pub fn insert<T: Keyed>(items: Vec<T>, item: T) -> (res: Vec<T>)
    ensures
        keys(res@) == with_key(keys(items@), item@),
{
    let mut out = items;
    if !contains(&out, &item) {
        out.push(item);
        assert(keys(out@) =~= keys(items@).push(item@));
    }
    out
}

/// Keeps the first item of each view, in order.
pub fn distinct<T: Keyed>(items: Vec<T>) -> (res: Vec<T>)
    ensures
        keys(res@) == distinct_keys(keys(items@)),
        keys(res@).no_duplicates(),
        keys(res@).to_set() == keys(items@).to_set(),
{
    let ghost all = keys(items@);
    let mut out: Vec<T> = Vec::new();
    assert(keys(out@) =~= distinct_keys(all.take(0)));
    for item in it: items
        invariant
            all == keys(it.seq()),
            keys(out@) == distinct_keys(all.take(it.index() as int)),
    {
        proof {
            let n = it.index() as int;
            assert(all.take(n + 1).drop_last() =~= all.take(n));
            assert(all.take(n + 1).last() == item@);
        }
        out = insert(out, item);
    }
    proof {
        assert(all.take(all.len() as int) =~= all);
        lemma_distinct_keys(all);
    }
    out
}

/// Takes out the first item with the view of `key`, if there is one.
pub fn remove<T: Keyed>(items: Vec<T>, key: &T) -> (res: Vec<T>)
    ensures
        keys(res@) == without_key(keys(items@), key@),
{
    let mut out = items;
    let at = position(&out, key);
    if at < out.len() {
        out.remove(at);
        assert(keys(out@) =~= keys(items@).remove(at as int));
    }
    out
}

} // verus!
