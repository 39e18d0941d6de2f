//! Ordering a sequence by a relation, keeping what is equal in its order.

use vstd::prelude::*;
use vstd::seq_lib::{to_multiset_build, to_multiset_insert};

verus! {

/// Where `x` enters a sequence that is ordered by `le`: before the first
/// item at or after `from` that `le` does not let stand before `x`, so
/// behind every item that may.
pub open spec fn slot_by<T>(sorted: Seq<T>, x: T, le: spec_fn(T, T) -> bool, from: int) -> int
    decreases sorted.len() - from,
{
    if from < 0 || from >= sorted.len() {
        sorted.len() as int
    } else if !le(sorted[from], x) {
        from
    } else {
        slot_by(sorted, x, le, from + 1)
    }
}

/// The first `n` items of a sequence, ordered by `le`; items that `le` lets
/// stand either way stay in the order of the sequence.
pub open spec fn sorted_by<T>(s: Seq<T>, le: spec_fn(T, T) -> bool, n: nat) -> Seq<T>
    decreases n,
{
    if n == 0 {
        Seq::empty()
    } else {
        let sorted = sorted_by(s, le, (n - 1) as nat);
        sorted.insert(slot_by(sorted, s[n - 1], le, 0), s[n - 1])
    }
}

/// Every item may stand before all that follow it.
pub open spec fn ordered_by<T>(s: Seq<T>, le: spec_fn(T, T) -> bool) -> bool {
    forall|i: int, j: int| 0 <= i < j < s.len() ==> le(s[i], s[j])
}

/// The relation lets any two items stand one way or the other, and what it
/// lets stand before an item it lets stand before all that the item may
/// stand before.
pub open spec fn is_order<T>(le: spec_fn(T, T) -> bool) -> bool {
    &&& forall|a: T, b: T| #[trigger] le(a, b) || #[trigger] le(b, a)
    &&& forall|a: T, b: T, c: T| #[trigger] le(a, b) && #[trigger] le(b, c) ==> le(a, c)
}

/// What `slot_by` finds: an index in range whose item may not stand before
/// `x`, with only items before it that may, or the length.
pub proof fn slot_by_found<T>(sorted: Seq<T>, x: T, le: spec_fn(T, T) -> bool, from: int)
    requires
        0 <= from <= sorted.len(),
    ensures
        from <= slot_by(sorted, x, le, from) <= sorted.len(),
        slot_by(sorted, x, le, from) < sorted.len() ==> !le(
            sorted[slot_by(sorted, x, le, from)],
            x,
        ),
        forall|j: int| from <= j < slot_by(sorted, x, le, from) ==> le(sorted[j], x),
    decreases sorted.len() - from,
{
    if from < sorted.len() && le(sorted[from], x) {
        slot_by_found(sorted, x, le, from + 1);
    }
}

/// Ordering keeps the number of items.
pub proof fn sorted_by_len<T>(s: Seq<T>, le: spec_fn(T, T) -> bool, n: nat)
    requires
        n <= s.len(),
    ensures
        sorted_by(s, le, n).len() == n,
    decreases n,
{
    if n > 0 {
        sorted_by_len(s, le, (n - 1) as nat);
        slot_by_found(sorted_by(s, le, (n - 1) as nat), s[n - 1], le, 0);
    }
}

/// The order of the first `n` items depends on them alone.
pub proof fn sorted_by_of_prefix<T>(a: Seq<T>, b: Seq<T>, le: spec_fn(T, T) -> bool, n: nat)
    requires
        n <= a.len(),
        n <= b.len(),
        forall|i: int| 0 <= i < n ==> a[i] == b[i],
    ensures
        sorted_by(a, le, n) == sorted_by(b, le, n),
    decreases n,
{
    if n > 0 {
        sorted_by_of_prefix(a, b, le, (n - 1) as nat);
    }
}

/// The ordered items are the items of the sequence, each as often as there.
pub proof fn sorted_by_keeps_all<T>(s: Seq<T>, le: spec_fn(T, T) -> bool, n: nat)
    requires
        n <= s.len(),
    ensures
        sorted_by(s, le, n).to_multiset() == s.take(n as int).to_multiset(),
    decreases n,
{
    if n == 0 {
        assert(s.take(0) =~= Seq::<T>::empty());
    } else {
        let sorted = sorted_by(s, le, (n - 1) as nat);
        sorted_by_keeps_all(s, le, (n - 1) as nat);
        sorted_by_len(s, le, (n - 1) as nat);
        slot_by_found(sorted, s[n - 1], le, 0);
        to_multiset_insert(sorted, slot_by(sorted, s[n - 1], le, 0), s[n - 1]);
        to_multiset_build(s.take(n - 1), s[n - 1]);
        assert(s.take(n as int) =~= s.take(n - 1).push(s[n - 1]));
    }
}

/// Under a relation that is an order, the ordered items stand in order.
pub proof fn sorted_by_is_ordered<T>(s: Seq<T>, le: spec_fn(T, T) -> bool, n: nat)
    requires
        n <= s.len(),
        is_order(le),
    ensures
        ordered_by(sorted_by(s, le, n), le),
    decreases n,
{
    if n > 0 {
        let sorted = sorted_by(s, le, (n - 1) as nat);
        let x = s[n - 1];
        sorted_by_is_ordered(s, le, (n - 1) as nat);
        slot_by_found(sorted, x, le, 0);
        let at = slot_by(sorted, x, le, 0);
        let next = sorted.insert(at, x);
        assert forall|i: int, j: int| 0 <= i < j < next.len() implies le(next[i], next[j]) by {
            if j < at {
                assert(next[i] == sorted[i] && next[j] == sorted[j]);
            } else if j == at {
                assert(next[i] == sorted[i]);
            } else if i < at {
                assert(next[i] == sorted[i] && next[j] == sorted[j - 1]);
            } else if i == at {
                assert(next[j] == sorted[j - 1]);
                assert(!le(sorted[at], x));
                assert(le(x, sorted[at]));
                if at < j - 1 {
                    assert(le(sorted[at], sorted[j - 1]));
                }
            } else {
                assert(next[i] == sorted[i - 1] && next[j] == sorted[j - 1]);
            }
        }
    }
}

} // verus!
