//! Ordering records from the newest to the oldest.

use crate::ordering::{is_order, ordered_by, sorted_by, sorted_by_is_ordered};
use vstd::prelude::*;

verus! {

/// A record that carries the time it was written at.
pub trait Dated {
    /// The time the record was written at.
    spec fn written_at(self) -> u64;
}

/// The order from the newest to the oldest: a record may stand before
/// another that is as old or older.
pub open spec fn newer_first<T: Dated>() -> spec_fn(T, T) -> bool {
    |a: T, b: T| a.written_at() >= b.written_at()
}

/// The first `n` records of a log from the newest to the oldest; those
/// written at the same time stay in the order of the log.
pub open spec fn newest_first<T: Dated>(log: Seq<T>, n: nat) -> Seq<T> {
    sorted_by(log, newer_first(), n)
}

/// The ordered records run from the newest to the oldest.
pub proof fn newest_first_is_ordered<T: Dated>(log: Seq<T>, n: nat)
    requires
        n <= log.len(),
    ensures
        ordered_by(newest_first(log, n), newer_first()),
        forall|i: int, j: int|
            0 <= i < j < newest_first(log, n).len() ==> newest_first(log, n)[i].written_at()
                >= newest_first(log, n)[j].written_at(),
{
    assert(is_order(newer_first::<T>()));
    sorted_by_is_ordered(log, newer_first(), n);
    let sorted = newest_first(log, n);
    assert forall|i: int, j: int| 0 <= i < j < sorted.len() implies sorted[i].written_at()
        >= sorted[j].written_at() by {
        assert((newer_first::<T>())(sorted[i], sorted[j]));
    }
}

} // verus!
