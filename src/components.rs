//! Per-entity state of the orbit camera and of the displayed model.
use vstd::prelude::*;

verus! {

/// Spherical position of the orbit camera around the pivot: `yaw` and
/// `pitch` in microradians, `radius` in millionths of a unit.
#[derive(Clone, Copy, Debug, PartialEq, Eq, Structural)]
pub struct OrbitCamera {
    pub radius: i64,
    pub yaw: i64,
    pub pitch: i64,
    pub is_dragging: bool,
}

impl OrbitCamera {
    /// A camera on the +Z axis at `radius`, not being dragged.
    pub open spec fn spec_new(radius: i64) -> OrbitCamera {
        OrbitCamera { radius, yaw: 0, pitch: 0, is_dragging: false }
    }

    /// A camera on the +Z axis at `radius`, not being dragged.
    pub fn new(radius: i64) -> (r: OrbitCamera)
        ensures
            r == OrbitCamera::spec_new(radius),
    {
        OrbitCamera { radius, yaw: 0, pitch: 0, is_dragging: false }
    }
}

/// Offset of the displayed model from the pivot, in millionths of a unit.
#[derive(Clone, Copy, Debug, PartialEq, Eq, Structural)]
pub struct ModelRotateReposition {
    pub x: i64,
    pub y: i64,
}

} // verus!
