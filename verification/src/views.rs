//! Models of optional values and of vectors whose items have a model.

use vstd::prelude::*;

verus! {

/// The model of an optional value.
pub open spec fn opt_view<T: View>(o: Option<T>) -> Option<T::V> {
    match o {
        Some(x) => Some(x@),
        None => None,
    }
}

/// The models of the items of a sequence, in order.
pub open spec fn seq_view<T: View>(s: Seq<T>) -> Seq<T::V> {
    Seq::new(s.len(), |i: int| s[i]@)
}

/// The models of a sequence that grew by one item.
pub proof fn seq_view_push<T: View>(s: Seq<T>, x: T)
    ensures
        seq_view(s.push(x)) == seq_view(s).push(x@),
{
    assert(seq_view(s.push(x)) =~= seq_view(s).push(x@));
}

/// The models of a sequence in which one item was replaced.
pub proof fn seq_view_update<T: View>(s: Seq<T>, i: int, x: T)
    requires
        0 <= i < s.len(),
    ensures
        seq_view(s.update(i, x)) == seq_view(s).update(i, x@),
{
    assert(seq_view(s.update(i, x)) =~= seq_view(s).update(i, x@));
}

/// The models of a sequence into which one item was inserted.
pub proof fn seq_view_insert<T: View>(s: Seq<T>, i: int, x: T)
    requires
        0 <= i <= s.len(),
    ensures
        seq_view(s.insert(i, x)) == seq_view(s).insert(i, x@),
{
    assert(seq_view(s.insert(i, x)) =~= seq_view(s).insert(i, x@));
}

/// The models of the first items of a sequence.
pub proof fn seq_view_take<T: View>(s: Seq<T>, n: int)
    requires
        0 <= n <= s.len(),
    ensures
        seq_view(s.take(n)) == seq_view(s).take(n),
{
    assert(seq_view(s.take(n)) =~= seq_view(s).take(n));
}

/// Nothing is selected from no items.
pub proof fn filter_take_none<T>(s: Seq<T>, pred: spec_fn(T) -> bool)
    ensures
        s.take(0).filter(pred) == Seq::<T>::empty(),
{
    reveal(Seq::filter);
    assert(s.take(0) =~= Seq::<T>::empty());
}

/// What is selected from one more item.
pub proof fn filter_take_next<T>(s: Seq<T>, pred: spec_fn(T) -> bool, i: int)
    requires
        0 <= i < s.len(),
    ensures
        s.take(i + 1).filter(pred) == if pred(s[i]) {
            s.take(i).filter(pred).push(s[i])
        } else {
            s.take(i).filter(pred)
        },
{
    s.lemma_take_succ_push(i);
    s.take(i).lemma_filter_push(s[i], pred);
}

/// All the items of a sequence are the sequence.
pub proof fn take_all<T>(s: Seq<T>)
    ensures
        s.take(s.len() as int) == s,
{
    assert(s.take(s.len() as int) =~= s);
}

/// Whether a copy made by `T::clone` always has the model of its original.
pub open spec fn clone_keeps_view<T: Clone + View>() -> bool {
    forall|a: T, b: T| call_ensures(T::clone, (&a,), b) ==> a@ == b@
}

/// A copy of a vector, item by item.
pub fn clone_vec<T: Clone + View>(items: &Vec<T>) -> (r: Vec<T>)
    requires
        clone_keeps_view::<T>(),
    ensures
        seq_view(r@) == seq_view(items@),
{
    let mut copy: Vec<T> = Vec::new();
    let mut i: usize = 0;
    while i < items.len()
        invariant
            i <= items.len(),
            copy.len() == i,
            clone_keeps_view::<T>(),
            forall|j: int| 0 <= j < i ==> copy@[j]@ == items@[j]@,
        decreases items.len() - i,
    {
        copy.push(items[i].clone());
        i += 1;
    }
    assert(seq_view(copy@) =~= seq_view(items@));
    copy
}

/// A copy of an optional value.
pub fn clone_opt<T: Clone + View>(o: &Option<T>) -> (r: Option<T>)
    requires
        clone_keeps_view::<T>(),
    ensures
        opt_view(r) == opt_view(*o),
{
    match o {
        Some(x) => Some(x.clone()),
        None => None,
    }
}

} // verus!
