//! Persisted drag state: the one record per handle that survives across
//! frames, seeded wholesale at pick time and advanced incrementally on every
//! update while the handle is active.

use vstd::prelude::*;

verus! {

use crate::fx::fits;
use crate::vec3::{Vec3, b3};
use crate::angle::{ANGLE_HALF, ANGLE_FULL};

/// Magnitude cap for accumulated rotation (in angle units) so that further
/// increments cannot overflow.
pub const ROTATION_DELTA_CAP: i64 = 1_000_000_000_000_000;

/// Magnitude bound for the start point a pick stores.
pub const DRAG_START_LIM: i64 = 70_000_000_000;

/// Magnitude bound for the points and offsets an update stores.
pub const DRAG_POINT_LIM: i64 = 400_000_000_000;

/// Drag state of a rotation handle.
#[derive(Clone, Copy, Debug, PartialEq, Eq, Structural, Default)]
pub struct RotationState {
    /// Pointer angle relative to the handle tangent at pick time.
    pub start_axis_angle: i64,
    /// Screen-space pointer angle around the projected center at pick time.
    pub start_rotation_angle: i64,
    /// Screen-space pointer angle resolved on the previous update.
    pub last_rotation_angle: i64,
    /// Accumulated signed rotation since the drag started.
    pub current_delta: i64,
}

impl RotationState {
    /// All angles within the ranges the update step preserves.
    pub open spec fn wf(self) -> bool {
        &&& fits(self.start_axis_angle as int, ANGLE_HALF as int)
        &&& fits(self.start_rotation_angle as int, ANGLE_HALF as int)
        &&& fits(self.last_rotation_angle as int, 2 * ANGLE_FULL as int)
        &&& fits(self.current_delta as int, ROTATION_DELTA_CAP as int)
    }
}

/// Drag state of a translation handle; the scale family reuses it and
/// interprets the delta as a per-axis factor downstream.
#[derive(Clone, Copy, Debug, PartialEq, Eq, Structural, Default)]
pub struct TranslationState {
    /// Point on the constraint line or plane at pick time.
    pub start_point: Vec3,
    /// Point resolved on the previous update.
    pub last_point: Vec3,
    /// Accumulated world-space offset since the drag started.
    pub current_delta: Vec3,
}

impl TranslationState {
    /// All points within the supported world volume.
    pub open spec fn wf(self) -> bool {
        &&& b3(self.start_point, DRAG_START_LIM as int)
        &&& b3(self.last_point, DRAG_POINT_LIM as int)
        &&& b3(self.current_delta, DRAG_POINT_LIM as int)
    }
}

/// The persisted record for one handle, keyed by the handle's identity in
/// the host's store; a handle reads the flavor its kind uses.
#[derive(Clone, Copy, Debug, PartialEq, Eq, Structural, Default)]
pub struct HandleState {
    /// State of the rotation family.
    pub rotation: RotationState,
    /// State of the translation and scale families.
    pub translation: TranslationState,
}

impl HandleState {
    /// Both flavors well-formed.
    pub open spec fn wf(self) -> bool {
        self.rotation.wf() && self.translation.wf()
    }
}

} // verus!
