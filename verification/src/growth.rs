//! The growth policy: how many slots the block has, as a function of what has
//! been appended.

use vstd::prelude::*;

verus! {

/// Number of slots that the first allocation provides.
pub const INITIAL_CAPACITY: usize = 4;

/// The capacity that a full block of `capacity` slots grows to.
pub open spec fn grown(capacity: nat) -> nat {
    if capacity == 0 {
        INITIAL_CAPACITY as nat
    } else {
        2 * capacity
    }
}

/// The capacity after one append to an array of `len` elements in `capacity`
/// slots: the block grows exactly when it is full.
pub open spec fn capacity_after_append(len: nat, capacity: nat) -> nat {
    if len == capacity {
        grown(capacity)
    } else {
        capacity
    }
}

/// The capacity of an array that started empty and took `len` appends.
pub open spec fn capacity_for(len: nat) -> nat
    decreases len,
{
    if len == 0 {
        0
    } else {
        capacity_after_append((len - 1) as nat, capacity_for((len - 1) as nat))
    }
}

/// A block that took `len` appends has room for all of them. Up to the
/// initial capacity it has exactly that many slots; beyond it, fewer than
/// twice the number of elements.
pub proof fn lemma_capacity_for_bounds(len: nat)
    ensures
        len <= capacity_for(len),
        0 < len <= INITIAL_CAPACITY ==> capacity_for(len) == INITIAL_CAPACITY,
        len > INITIAL_CAPACITY ==> capacity_for(len) < 2 * len,
    decreases len,
{
    if len > 0 {
        lemma_capacity_for_bounds((len - 1) as nat);
    }
}

/// Capacity never shrinks as appends accumulate.
pub proof fn lemma_capacity_for_monotone(fewer: nat, more: nat)
    requires
        fewer <= more,
    ensures
        capacity_for(fewer) <= capacity_for(more),
    decreases more,
{
    if fewer < more {
        lemma_capacity_for_monotone(fewer, (more - 1) as nat);
    }
}

/// One append never takes slots away, and changes their number only when
/// the block was full.
pub proof fn lemma_append_keeps_or_grows(len: nat, capacity: nat)
    ensures
        capacity <= capacity_after_append(len, capacity),
        capacity_after_append(len, capacity) != capacity ==> len == capacity,
        len <= capacity ==> len < capacity_after_append(len, capacity),
{
}

/// The number of elements that growth has had to carry over to a larger
/// block in the course of `len` appends to an empty array: at each growth,
/// as many as the block held.
pub open spec fn carried_over(len: nat) -> nat
    decreases len,
{
    if len == 0 {
        0
    } else {
        let before = (len - 1) as nat;
        if before == capacity_for(before) {
            carried_over(before) + before
        } else {
            carried_over(before)
        }
    }
}

/// Doubling keeps the cost of growth linear: over any run of appends
/// fewer elements are carried over than the block has slots, hence fewer
/// than two for each append.
pub proof fn lemma_carried_over_is_linear(len: nat)
    ensures
        len > 0 ==> carried_over(len) + INITIAL_CAPACITY <= capacity_for(len),
        carried_over(len) <= 2 * len,
    decreases len,
{
    if len > 0 {
        lemma_carried_over_is_linear((len - 1) as nat);
        lemma_capacity_for_bounds((len - 1) as nat);
        lemma_capacity_for_bounds(len);
    }
}

} // verus!
