//! Handles: how one node names another without owning it.

use vstd::prelude::*;

verus! {

/// A place in a graph's storage together with the generation that the place
/// had when the handle was given out. A handle never keeps a node alive.
#[derive(Clone, Copy, Debug, PartialEq, Eq, Structural)]
pub struct Handle {
    pub index: usize,
    pub generation: u32,
}

impl Handle {
    /// The handle that names nothing: no storage has a place with its index.
    pub open spec fn spec_none() -> Handle {
        Handle { index: usize::MAX, generation: 0 }
    }

    /// Returns the handle that names nothing.
    pub fn none() -> (r: Handle)
        ensures
            r == Self::spec_none(),
    {
        Handle { index: usize::MAX, generation: 0 }
    }

    /// Builds a handle from its parts.
    pub fn new(index: usize, generation: u32) -> (r: Handle)
        ensures
            r == (Handle { index, generation }),
    {
        Handle { index, generation }
    }

    /// Says whether this is the handle that names nothing.
    pub fn is_none(&self) -> (r: bool)
        ensures
            r == (*self == Self::spec_none()),
    {
        self.index == usize::MAX && self.generation == 0
    }
}

} // verus!
