//! A store of entities, each a bag of typed components, kept in a
//! generational arena of lock-guarded entities.

use vstd::prelude::*;

pub mod entities;
pub mod world;

verus! {

/// Sum of two sizes.
pub fn add(left: usize, right: usize) -> (r: usize)
    requires
        left + right <= usize::MAX,
    ensures
        r == left + right,
{
    left + right
}

/// Two more than `x`.
pub fn add_two(x: usize) -> (r: usize)
    requires
        x + 2 <= usize::MAX,
    ensures
        r == x + 2,
{
    crate::add(x, 2)
}

} // verus!
