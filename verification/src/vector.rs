//! The growable array itself.

use vstd::prelude::*;
use crate::growth::{capacity_after_append, capacity_for};
use crate::region::Region;

verus! {

/// An owning, contiguous, growable sequence of `T`.
///
/// It starts empty and without a block, takes elements at its end, and never
/// gives one up; dropping it drops its elements in the order in which they
/// were appended. Its view is the sequence of its elements, oldest first.
pub struct Vector<T> {
    region: Region<T>,
}

impl<T> View for Vector<T> {
    type V = Seq<T>;

    closed spec fn view(&self) -> Seq<T> {
        self.region.live()
    }
}

impl<T> Vector<T> {
    /// The block is well formed, and has the capacity that the growth policy
    /// gives to an array that took this many appends.
    #[verifier::type_invariant]
    spec fn well_formed(&self) -> bool {
        &&& self.region.wf()
        &&& self.region.capacity() == capacity_for(self.region.live().len())
    }

    /// Number of slots in the block.
    pub closed spec fn spec_capacity(&self) -> nat {
        self.region.capacity()
    }

    /// An empty array. Nothing is allocated until the first append.
    pub fn new() -> (v: Self)
        ensures
            v@ == Seq::<T>::empty(),
            v.spec_capacity() == 0,
    {
        Vector { region: Region::empty() }
    }

    /// Appends `value`. The elements already held stay as they are and where
    /// they are; the block grows exactly when it was full, and otherwise
    /// stays as it is.
    pub fn push(&mut self, value: T)
        ensures
            final(self)@ == old(self)@.push(value),
            final(self).spec_capacity() == capacity_after_append(
                old(self)@.len(),
                old(self).spec_capacity(),
            ),
            forall|i: int|
                0 <= i < old(self)@.len() ==> #[trigger] final(self)@[i] == old(self)@[i],
            old(self).spec_capacity() <= final(self).spec_capacity(),
            final(self).spec_capacity() != old(self).spec_capacity() ==> old(self)@.len()
                == old(self).spec_capacity(),
    {
        proof {
            use_type_invariant(&*self);
        }
        let mut region = Region::empty();
        core::mem::swap(&mut self.region, &mut region);
        proof {
            region.lemma_live_fits();
        }
        if region.len() == region.slot_count() {
            region.grow();
        }
        region.place(value);
        core::mem::swap(&mut self.region, &mut region);
    }

    /// Number of elements.
    pub fn size(&self) -> (n: usize)
        ensures
            n == self@.len(),
            n <= self.spec_capacity(),
    {
        proof {
            use_type_invariant(self);
            self.region.lemma_live_fits();
        }
        self.region.len()
    }

    /// Number of slots in the block: what the growth policy gives to an array
    /// that took `size()` appends.
    pub fn capacity(&self) -> (c: usize)
        ensures
            c == self.spec_capacity(),
            c == capacity_for(self@.len()),
    {
        proof {
            use_type_invariant(self);
        }
        self.region.slot_count()
    }
}

} // verus!
