//! Runs of appends, on the sequence that an array stands for.
//!
//! One append turns the contents `s` into `s.push(value)`; `appended` repeats
//! that over a run of values. The lemmas say what a run leaves behind.

use vstd::prelude::*;

verus! {

/// The contents of an array that held `start` and then took `values`, first
/// to last, one append each.
pub open spec fn appended<T>(start: Seq<T>, values: Seq<T>) -> Seq<T>
    decreases values.len(),
{
    if values.len() == 0 {
        start
    } else {
        appended(start, values.drop_last()).push(values.last())
    }
}

/// A run of appends puts the values behind what was there, in their order:
/// none is lost, none is doubled, none changes place.
pub proof fn lemma_appended_is_concatenation<T>(start: Seq<T>, values: Seq<T>)
    ensures
        appended(start, values) == start + values,
    decreases values.len(),
{
    if values.len() == 0 {
        assert(start + values =~= start);
    } else {
        lemma_appended_is_concatenation(start, values.drop_last());
        assert((start + values.drop_last()).push(values.last()) =~= start + values);
    }
}

/// After the first `done` of a run of appends to an empty array, the array
/// holds exactly those `done` values, so its size is the number of appends
/// that have completed.
pub proof fn lemma_size_tracks_appends<T>(values: Seq<T>, done: int)
    requires
        0 <= done <= values.len(),
    ensures
        appended(Seq::<T>::empty(), values.take(done)) == values.take(done),
        appended(Seq::<T>::empty(), values.take(done)).len() == done,
{
    lemma_appended_is_concatenation(Seq::<T>::empty(), values.take(done));
    assert(Seq::<T>::empty() + values.take(done) =~= values.take(done));
}

/// An element that the array holds stays what it is and where it is through
/// any run of later appends, and each value of the run is found behind it at
/// its place in the run.
pub proof fn lemma_appends_keep_elements<T>(start: Seq<T>, values: Seq<T>)
    ensures
        appended(start, values).len() == start.len() + values.len(),
        forall|i: int| 0 <= i < start.len() ==> #[trigger] appended(start, values)[i] == start[i],
        forall|j: int|
            0 <= j < values.len() ==> #[trigger] appended(start, values)[start.len() + j]
                == values[j],
{
    lemma_appended_is_concatenation(start, values);
}

} // verus!
