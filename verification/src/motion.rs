use vstd::prelude::*;

verus! {

/// A three-component vector in fixed-point world units.
#[derive(Clone, Copy, PartialEq, Eq, Debug)]
pub struct Vector {
    pub x: i32,
    pub y: i32,
    pub z: i32,
}

/// Placement of one entity: a position vector and a rotation vector.
#[derive(Clone, Copy, PartialEq, Eq, Debug)]
pub struct MotionInfo {
    pub pos: Vector,
    pub rot: Vector,
}

/// A persisted position: coordinates and yaw in fixed-point units
/// (real-world units times 1000, truncated toward zero).
#[derive(Clone, Copy, PartialEq, Eq, Debug)]
pub struct Position {
    pub x: i32,
    pub y: i32,
    pub z: i32,
    pub rot_y: i32,
}

impl Position {
    /// The motion that places an entity at this position: the yaw becomes
    /// the y component of the rotation vector.
    pub open spec fn to_motion_spec(self) -> MotionInfo {
        MotionInfo {
            pos: Vector { x: self.x, y: self.y, z: self.z },
            rot: Vector { x: 0, y: self.rot_y, z: 0 },
        }
    }

    pub fn to_motion(&self) -> (m: MotionInfo)
        ensures
            m == self.to_motion_spec(),
    {
        MotionInfo {
            pos: Vector { x: self.x, y: self.y, z: self.z },
            rot: Vector { x: 0, y: self.rot_y, z: 0 },
        }
    }
}

} // verus!
