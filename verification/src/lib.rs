//! A growable array: a contiguous sequence that starts empty, takes elements at
//! its end, and tells how many it holds.
//!
//! The storage is a block of slots whose first `len` hold the elements; the
//! block starts at four slots on the first append and doubles whenever it is
//! full.

pub mod appends;
pub mod growth;
mod region;
pub mod vector;
