//! Views of sequences of values that have a view.

use vstd::prelude::*;

verus! {

/// The views of the elements, in order.
pub open spec fn views<T: View>(s: Seq<T>) -> Seq<T::V> {
    Seq::new(s.len(), |i: int| s[i]@)
}

/// The views of a sequence with an element added at its end.
pub proof fn lemma_views_push<T: View>(s: Seq<T>, x: T)
    ensures
        views(s.push(x)) == views(s).push(x@),
{
    assert(views(s.push(x)) =~= views(s).push(x@));
}

/// The views of a sequence with one element replaced.
pub proof fn lemma_views_update<T: View>(s: Seq<T>, i: int, x: T)
    requires
        0 <= i < s.len(),
    ensures
        views(s.update(i, x)) == views(s).update(i, x@),
{
    assert(views(s.update(i, x)) =~= views(s).update(i, x@));
}

/// The views of a sequence with an element inserted.
pub proof fn lemma_views_insert<T: View>(s: Seq<T>, i: int, x: T)
    requires
        0 <= i <= s.len(),
    ensures
        views(s.insert(i, x)) == views(s).insert(i, x@),
{
    assert(views(s.insert(i, x)) =~= views(s).insert(i, x@));
}

/// The views of a sequence with an element removed.
pub proof fn lemma_views_remove<T: View>(s: Seq<T>, i: int)
    requires
        0 <= i < s.len(),
    ensures
        views(s.remove(i)) == views(s).remove(i),
{
    assert(views(s.remove(i)) =~= views(s).remove(i));
}

/// The views of the empty sequence.
pub proof fn lemma_views_empty<T: View>()
    ensures
        views(Seq::<T>::empty()) == Seq::<T::V>::empty(),
{
    assert(views(Seq::<T>::empty()) =~= Seq::<T::V>::empty());
}

} // verus!
