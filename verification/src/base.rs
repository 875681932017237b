//! What every node of a graph has, whatever its kind.

use vstd::prelude::*;
use crate::math::{AxisAlignedBoundingBox, Vector3};

verus! {

/// The part that all node kinds share: where the node stands relative to its
/// parent, and the box it fills, in its own frame and in the world's.
#[derive(Clone, Copy, Debug, PartialEq, Eq, Structural)]
pub struct Base {
    pub local_position: Vector3,
    pub local_bounds: AxisAlignedBoundingBox,
    pub world_bounds: AxisAlignedBoundingBox,
}

/// Stands for the service that loads resources and hands them out again
/// after a scene was read back in.
#[derive(Clone, Copy, Debug, PartialEq, Eq, Structural)]
pub struct ResourceManager {
}

impl Base {
    /// A node part at the origin that fills no space.
    pub open spec fn spec_default() -> Base {
        Base {
            local_position: Vector3 { x: 0, y: 0, z: 0 },
            local_bounds: AxisAlignedBoundingBox::spec_collapsed(),
            world_bounds: AxisAlignedBoundingBox::spec_collapsed(),
        }
    }

    /// The box of the node in its own frame.
    pub fn local_bounding_box(&self) -> (r: AxisAlignedBoundingBox)
        ensures
            r == self.local_bounds,
    {
        self.local_bounds
    }

    /// The box of the node in the world's frame.
    pub fn world_bounding_box(&self) -> (r: AxisAlignedBoundingBox)
        ensures
            r == self.world_bounds,
    {
        self.world_bounds
    }

    /// Where the node stands relative to its parent.
    pub fn local_position(&self) -> (r: Vector3)
        ensures
            r == self.local_position,
    {
        self.local_position
    }

    /// Moves the node relative to its parent.
    pub fn set_local_position(&mut self, position: Vector3)
        ensures
            *final(self) == (Base { local_position: position, ..*old(self) }),
    {
        self.local_position = position;
    }

    /// Looks up again whatever resources this part refers to. It refers to
    /// none, so the call changes nothing, however often it is made.
    pub fn restore_resources(&mut self, resource_manager: ResourceManager)
        ensures
            *final(self) == *old(self),
    {
    }
}

impl Default for Base {
    fn default() -> (r: Base)
        ensures
            r == Base::spec_default(),
    {
        Base {
            local_position: Vector3 { x: 0, y: 0, z: 0 },
            local_bounds: AxisAlignedBoundingBox::collapsed(),
            world_bounds: AxisAlignedBoundingBox::collapsed(),
        }
    }
}

/// Collects what a [`Base`] is to be made of.
#[derive(Clone, Copy, Debug, PartialEq, Eq, Structural)]
pub struct BaseBuilder {
    pub local_position: Vector3,
    pub local_bounds: AxisAlignedBoundingBox,
}

impl BaseBuilder {
    /// The node part that this builder makes: the world's box starts out as
    /// the node's own, until the graph places the node.
    pub open spec fn spec_build_base(self) -> Base {
        Base {
            local_position: self.local_position,
            local_bounds: self.local_bounds,
            world_bounds: self.local_bounds,
        }
    }

    /// Starts with a node at the origin that fills no space.
    pub fn new() -> (r: BaseBuilder)
        ensures
            r.spec_build_base() == Base::spec_default(),
    {
        BaseBuilder {
            local_position: Vector3 { x: 0, y: 0, z: 0 },
            local_bounds: AxisAlignedBoundingBox::collapsed(),
        }
    }

    /// Sets where the node stands relative to its parent.
    pub fn with_local_position(self, position: Vector3) -> (r: BaseBuilder)
        ensures
            r == (BaseBuilder { local_position: position, ..self }),
    {
        BaseBuilder { local_position: position, local_bounds: self.local_bounds }
    }

    /// Sets the box that the node fills in its own frame.
    pub fn with_local_bounds(self, bounds: AxisAlignedBoundingBox) -> (r: BaseBuilder)
        ensures
            r == (BaseBuilder { local_bounds: bounds, ..self }),
    {
        BaseBuilder { local_position: self.local_position, local_bounds: bounds }
    }

    /// Makes the node part.
    pub fn build_base(self) -> (r: Base)
        ensures
            r == self.spec_build_base(),
    {
        Base {
            local_position: self.local_position,
            local_bounds: self.local_bounds,
            world_bounds: self.local_bounds,
        }
    }
}

} // verus!
