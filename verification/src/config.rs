//! The per-frame configuration snapshot, the pointer ray, and the result of
//! an update: the data model around the picking and drag engines.
//!
//! The configuration is read-only to this library; update functions return a
//! proposed new transform and a raw delta value instead of mutating it.

use vstd::prelude::*;

verus! {

use crate::fx::FX_ONE;
use crate::vec3::{Vec3, b3};
use crate::quat::Quat;
use crate::mat4::{Mat4, Viewport, mat_wf, viewport_wf};
use crate::angle::ANGLE_FULL;

/// Magnitude bound for world positions the library accepts: a thousand
/// whole units on each axis, in fixed-point units.
pub const WORLD_LIM: i64 = 1_000_000_000;

/// Magnitude bound for the view-dependent handle scale factor.
pub const SCALE_FACTOR_LIM: i64 = 10_000_000;

/// Magnitude bound for the configured base sizes (gizmo size, stroke width).
pub const SIZE_LIM: i64 = 100_000_000;

/// Magnitude bound for ray parameters; intersections further along a ray are
/// clamped to the supported world volume.
pub const RAY_T_LIM: i64 = 2_000_000_000;

/// The axis or plane a handle is bound to; `Screen` means aligned to the
/// camera.
#[derive(Clone, Copy, Debug, PartialEq, Eq, Structural)]
pub enum GizmoDirection {
    X,
    Y,
    Z,
    Screen,
}

/// The operation family a result came from.
#[derive(Clone, Copy, Debug, PartialEq, Eq, Structural)]
pub enum GizmoMode {
    Rotate,
    Translate,
    Scale,
}

/// A pointer ray in world space: origin plus a unit direction.
#[derive(Clone, Copy, Debug, PartialEq, Eq, Structural)]
pub struct Ray {
    pub origin: Vec3,
    pub direction: Vec3,
}

/// A ray within the supported world volume, its direction unit-sized.
pub open spec fn ray_wf(r: Ray) -> bool {
    b3(r.origin, WORLD_LIM as int) && b3(r.direction, FX_ONE as int)
}

/// The configuration snapshot a gizmo is built from each frame.
#[derive(Clone, Copy, Debug, PartialEq, Eq, Structural)]
pub struct GizmoConfig {
    /// World position of the manipulated object.
    pub translation: Vec3,
    /// Orientation of the manipulated object (unit quaternion).
    pub rotation: Quat,
    /// Per-axis scale of the manipulated object.
    pub scale: Vec3,
    /// Camera forward direction (unit).
    pub view_forward: Vec3,
    /// Camera right direction (unit).
    pub view_right: Vec3,
    /// View-projection matrix, rows applied to world points.
    pub view_projection: Mat4,
    /// Screen rectangle of the rendered scene.
    pub viewport: Viewport,
    /// Whether handle axes follow the object's orientation.
    pub local_space: bool,
    /// Whether the view uses a left-handed convention.
    pub left_handed: bool,
    /// Whether manipulation quantities snap to increments.
    pub snapping: bool,
    /// Angular snap increment, in angle units.
    pub snap_angle: i64,
    /// Distance snap increment, in fixed-point units.
    pub snap_distance: i64,
    /// Pick tolerance around a handle, in fixed-point units.
    pub focus_distance: i64,
    /// View-dependent handle scale factor (counteracts foreshortening).
    pub scale_factor: i64,
    /// Configured base size of the gizmo.
    pub gizmo_size: i64,
    /// Configured stroke width of the handle glyphs.
    pub stroke_width: i64,
}

impl GizmoConfig {
    /// All fields within the supported ranges.
    pub open spec fn wf(self) -> bool {
        &&& b3(self.translation, WORLD_LIM as int)
        &&& self.rotation.wf()
        &&& b3(self.scale, 1_000_000_000_000)
        &&& b3(self.view_forward, FX_ONE as int)
        &&& b3(self.view_right, FX_ONE as int)
        &&& mat_wf(self.view_projection)
        &&& viewport_wf(self.viewport)
        &&& 0 <= self.snap_angle <= ANGLE_FULL
        &&& 0 <= self.snap_distance <= WORLD_LIM
        &&& 0 <= self.focus_distance <= WORLD_LIM
        &&& 0 <= self.scale_factor <= SCALE_FACTOR_LIM
        &&& 0 <= self.gizmo_size <= SIZE_LIM
        &&& 0 <= self.stroke_width <= SIZE_LIM
    }

    /// Whether handle axes follow the object's orientation.
    pub fn local_space(&self) -> (r: bool)
        ensures
            r == self.local_space,
    {
        self.local_space
    }

}

/// A proposed transform change: the new transform, the family that produced
/// it, and the raw magnitude of the gesture so far.
///
/// For a rotation the trigonometric composition stays with the host: the
/// result carries the base rotation together with the world-space axis and
/// this frame's signed angle increment, and the host applies the increment
/// as `axis_angle(rotation_axis, -rotation_delta) * rotation`.
#[derive(Clone, Copy, Debug, PartialEq, Eq, Structural)]
pub struct GizmoResult {
    /// Proposed per-axis scale.
    pub scale: Vec3,
    /// Base rotation the increment applies to.
    pub rotation: Quat,
    /// World-space rotation axis of the increment (unit); zero outside the
    /// rotation family.
    pub rotation_axis: Vec3,
    /// This frame's signed rotation increment, in angle units; zero outside
    /// the rotation family.
    pub rotation_delta: i64,
    /// Proposed world translation.
    pub translation: Vec3,
    /// The family of operation that produced this result.
    pub mode: GizmoMode,
    /// Raw accumulated gesture value: an axis-angle vector for a rotation, a
    /// world offset for a translation, a per-axis factor for a scale.
    pub value: Vec3,
}

} // verus!
