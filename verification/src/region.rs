//! The block of slots behind a growable array.
//!
//! A region is a run of slots of which a prefix is occupied. An occupied slot
//! owns one element; a vacant slot owns nothing. Nothing outside this module
//! reaches a slot directly.
//!
//! When a region is dropped, the elements of its occupied slots are dropped
//! lowest slot first, and the block is given back after the last of them.

use vstd::prelude::*;
use crate::growth::{grown, INITIAL_CAPACITY};

verus! {

pub(crate) struct Region<T> {
    slots: Vec<Option<T>>,
    length: usize,
}

impl<T> Region<T> {
    /// The first `length` slots are occupied and no other slot is.
    pub(crate) closed spec fn wf(&self) -> bool {
        &&& self.length <= self.slots@.len()
        &&& forall|i: int|
            0 <= i < self.slots@.len() ==> ((#[trigger] self.slots@[i]) is Some <==> i
                < self.length)
    }

    /// Number of slots, occupied or vacant.
    pub(crate) closed spec fn capacity(&self) -> nat {
        self.slots@.len()
    }

    /// The elements of the occupied slots, in slot order.
    pub(crate) closed spec fn live(&self) -> Seq<T> {
        Seq::new(self.length as nat, |i: int| self.slots@[i].unwrap())
    }

    /// The occupied slots are among the slots of the block.
    pub(crate) proof fn lemma_live_fits(&self)
        requires
            self.wf(),
        ensures
            self.live().len() <= self.capacity(),
    {
    }

    /// A region without any slot: nothing is allocated for it.
    pub(crate) fn empty() -> (r: Self)
        ensures
            r.wf(),
            r.live() == Seq::<T>::empty(),
            r.capacity() == 0,
    {
        Region { slots: Vec::new(), length: 0 }
    }

    /// Number of occupied slots.
    pub(crate) fn len(&self) -> (n: usize)
        ensures
            n == self.live().len(),
    {
        self.length
    }

    /// Number of slots.
    pub(crate) fn slot_count(&self) -> (n: usize)
        ensures
            n == self.capacity(),
    {
        self.slots.len()
    }

    /// Enlarges the block to `grown(capacity)` slots, asking the allocator once
    /// for the whole of it. The occupied slots keep their elements; every
    /// added slot is vacant. If the allocator cannot provide the block, the
    /// call does not return.
    pub(crate) fn grow(&mut self)
        requires
            old(self).wf(),
        ensures
            final(self).wf(),
            final(self).live() == old(self).live(),
            final(self).capacity() == grown(old(self).capacity()),
    {
        let held: usize = self.slots.len();
        let extra: usize = if held == 0 {
            INITIAL_CAPACITY
        } else {
            held
        };
        self.slots.reserve(extra);
        let mut added: usize = 0;
        while added < extra
            invariant
                self.wf(),
                self.length == old(self).length,
                held == old(self).slots@.len(),
                added <= extra,
                self.slots@.len() == held + added,
                self.slots@.subrange(0, held as int) == old(self).slots@,
            decreases extra - added,
        {
            self.slots.push(None);
            added += 1;
            assert(self.slots@.subrange(0, held as int) =~= old(self).slots@);
        }
        assert(self.live() =~= old(self).live()) by {
            assert forall|i: int| 0 <= i < self.length implies self.slots@[i] == old(
                self,
            ).slots@[i] by {
                assert(self.slots@.subrange(0, held as int)[i] == self.slots@[i]);
            }
        }
    }

    /// Moves `value` into the first vacant slot.
    pub(crate) fn place(&mut self, value: T)
        requires
            old(self).wf(),
            old(self).live().len() < old(self).capacity(),
        ensures
            final(self).wf(),
            final(self).live() == old(self).live().push(value),
            final(self).capacity() == old(self).capacity(),
    {
        assert(self.length < self.slots.len());
        self.slots.set(self.length, Some(value));
        self.length += 1;
        assert(self.live() =~= old(self).live().push(value));
    }
}

} // verus!
