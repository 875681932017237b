//! Small value types: a position in fixed-point units and a box around one.

use vstd::prelude::*;

verus! {

/// One of the three coordinate axes.
#[derive(Clone, Copy, Debug, PartialEq, Eq, Structural)]
pub enum Axis {
    X,
    Y,
    Z,
}

/// A point or an offset, in thousandths of a unit.
#[derive(Clone, Copy, Debug, PartialEq, Eq, Structural)]
pub struct Vector3 {
    pub x: i32,
    pub y: i32,
    pub z: i32,
}

impl Vector3 {
    /// The vector with the given coordinate replaced.
    pub open spec fn spec_with(self, axis: Axis, value: i32) -> Vector3 {
        match axis {
            Axis::X => Vector3 { x: value, ..self },
            Axis::Y => Vector3 { y: value, ..self },
            Axis::Z => Vector3 { z: value, ..self },
        }
    }

    /// The coordinate on the given axis.
    pub open spec fn spec_get(self, axis: Axis) -> i32 {
        match axis {
            Axis::X => self.x,
            Axis::Y => self.y,
            Axis::Z => self.z,
        }
    }

    /// Builds a vector from its coordinates.
    pub fn new(x: i32, y: i32, z: i32) -> (r: Vector3)
        ensures
            r == (Vector3 { x, y, z }),
    {
        Vector3 { x, y, z }
    }

    /// Returns the vector with the given coordinate replaced.
    pub fn with(self, axis: Axis, value: i32) -> (r: Vector3)
        ensures
            r == self.spec_with(axis, value),
    {
        match axis {
            Axis::X => Vector3 { x: value, y: self.y, z: self.z },
            Axis::Y => Vector3 { x: self.x, y: value, z: self.z },
            Axis::Z => Vector3 { x: self.x, y: self.y, z: value },
        }
    }

    /// Returns the coordinate on the given axis.
    pub fn get(self, axis: Axis) -> (r: i32)
        ensures
            r == self.spec_get(axis),
    {
        match axis {
            Axis::X => self.x,
            Axis::Y => self.y,
            Axis::Z => self.z,
        }
    }
}

/// An axis-aligned box given by two corners.
#[derive(Clone, Copy, Debug, PartialEq, Eq, Structural)]
pub struct AxisAlignedBoundingBox {
    pub min: Vector3,
    pub max: Vector3,
}

impl AxisAlignedBoundingBox {
    /// The box that holds only the origin.
    pub open spec fn spec_collapsed() -> AxisAlignedBoundingBox {
        AxisAlignedBoundingBox {
            min: Vector3 { x: 0, y: 0, z: 0 },
            max: Vector3 { x: 0, y: 0, z: 0 },
        }
    }

    /// Returns the box that holds only the origin.
    pub fn collapsed() -> (r: AxisAlignedBoundingBox)
        ensures
            r == Self::spec_collapsed(),
    {
        AxisAlignedBoundingBox {
            min: Vector3 { x: 0, y: 0, z: 0 },
            max: Vector3 { x: 0, y: 0, z: 0 },
        }
    }
}

} // verus!
