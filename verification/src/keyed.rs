//! Sequences that stand for keyed tables: at most one item under a key,
//! looked up by first match, replaced in place or added at the end.

use vstd::prelude::*;

verus! {

/// A value that is kept under a key.
pub trait Keyed {
    /// The type of the key.
    type Key;

    /// The key of the value.
    spec fn key(self) -> Self::Key;
}

/// The index of the first item under `k` at or after `from`, or the length
/// if there is none.
pub open spec fn first_from<T: Keyed>(s: Seq<T>, k: T::Key, from: int) -> int
    decreases s.len() - from,
{
    if from < 0 || from >= s.len() {
        s.len() as int
    } else if s[from].key() == k {
        from
    } else {
        first_from(s, k, from + 1)
    }
}

/// The index of the first item under `k`, or the length if there is none.
pub open spec fn position<T: Keyed>(s: Seq<T>, k: T::Key) -> int {
    first_from(s, k, 0)
}

/// The item under `k`, if there is one.
pub open spec fn find<T: Keyed>(s: Seq<T>, k: T::Key) -> Option<T> {
    if position(s, k) < s.len() {
        Some(s[position(s, k)])
    } else {
        None
    }
}

/// The table with `x` under its key: in the place of the item that was
/// there, or else at the end.
pub open spec fn put<T: Keyed>(s: Seq<T>, x: T) -> Seq<T> {
    if position(s, x.key()) < s.len() {
        s.update(position(s, x.key()), x)
    } else {
        s.push(x)
    }
}

/// No two items share a key.
pub open spec fn distinct<T: Keyed>(s: Seq<T>) -> bool {
    forall|i: int, j: int| 0 <= i < j < s.len() ==> s[i].key() != s[j].key()
}

/// What `first_from` finds: an index in range under the key with none before
/// it, or the length and no item under the key.
pub proof fn first_from_found<T: Keyed>(s: Seq<T>, k: T::Key, from: int)
    requires
        0 <= from <= s.len(),
    ensures
        from <= first_from(s, k, from) <= s.len(),
        first_from(s, k, from) < s.len() ==> s[first_from(s, k, from)].key() == k,
        forall|j: int| from <= j < first_from(s, k, from) ==> s[j].key() != k,
    decreases s.len() - from,
{
    if from < s.len() && s[from].key() != k {
        first_from_found(s, k, from + 1);
    }
}

/// What `position` finds.
pub proof fn position_found<T: Keyed>(s: Seq<T>, k: T::Key)
    ensures
        0 <= position(s, k) <= s.len(),
        position(s, k) < s.len() ==> s[position(s, k)].key() == k,
        forall|j: int| 0 <= j < position(s, k) ==> s[j].key() != k,
{
    first_from_found(s, k, 0);
}

/// An index under the key with none before it is the position.
pub proof fn position_is<T: Keyed>(s: Seq<T>, k: T::Key, i: int)
    requires
        0 <= i <= s.len(),
        i < s.len() ==> s[i].key() == k,
        forall|j: int| 0 <= j < i ==> s[j].key() != k,
    ensures
        position(s, k) == i,
{
    position_found(s, k);
}

/// Looking up after `put`: the new item under its own key, and what was
/// there before under every other key.
pub proof fn find_after_put<T: Keyed>(s: Seq<T>, x: T, k: T::Key)
    ensures
        find(put(s, x), k) == if k == x.key() {
            Some(x)
        } else {
            find(s, k)
        },
{
    let p = position(s, x.key());
    let q = position(s, k);
    position_found(s, x.key());
    position_found(s, k);
    let t = put(s, x);
    if k == x.key() {
        position_is(t, k, p);
    } else {
        position_is(t, k, if q < s.len() { q } else { t.len() as int });
    }
}

/// `put` keeps the keys distinct.
pub proof fn put_keeps_distinct<T: Keyed>(s: Seq<T>, x: T)
    requires
        distinct(s),
    ensures
        distinct(put(s, x)),
{
    position_found(s, x.key());
}

/// The items that are found under the first `n` of the keys, in the order
/// of the keys.
pub open spec fn found_under<T: Keyed>(table: Seq<T>, keys: Seq<T::Key>, n: nat) -> Seq<T>
    decreases n,
{
    if n == 0 {
        Seq::empty()
    } else {
        let so_far = found_under(table, keys, (n - 1) as nat);
        match find(table, keys[n - 1]) {
            Some(item) => so_far.push(item),
            None => so_far,
        }
    }
}

/// Putting an item and then another under the same key leaves the second.
pub proof fn put_twice<T: Keyed>(s: Seq<T>, first: T, second: T)
    requires
        first.key() == second.key(),
    ensures
        put(put(s, first), second) == put(s, second),
{
    position_found(s, first.key());
    let at = position(s, first.key());
    position_is(put(s, first), first.key(), at);
    assert(put(put(s, first), second) =~= put(s, second));
}

/// A selection from a table with distinct keys has distinct keys.
pub proof fn filter_keeps_distinct<T: Keyed>(s: Seq<T>, pred: spec_fn(T) -> bool)
    requires
        distinct(s),
    ensures
        distinct(s.filter(pred)),
    decreases s.len(),
{
    reveal(Seq::filter);
    if s.len() > 0 {
        filter_keeps_distinct(s.drop_last(), pred);
        let rest = s.drop_last().filter(pred);
        if pred(s.last()) {
            assert forall|i: int| 0 <= i < rest.len() implies rest[i].key() != s.last().key() by {
                assert(rest.contains(rest[i]));
                s.drop_last().lemma_filter_contains_rev(pred, rest[i]);
                let j = choose|j: int| 0 <= j < s.drop_last().len() && s.drop_last()[j] == rest[i];
                assert(s[j] == rest[i]);
            }
        }
    }
}

} // verus!
