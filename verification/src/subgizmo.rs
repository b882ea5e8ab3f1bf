//! One manipulable handle: its kind, its direction, and its constraint axis
//! in local and world space.

use vstd::prelude::*;

verus! {

use crate::fx::{fits, FX_ONE};
use crate::vec3::{Vec3, b3};
use crate::quat::{spec_rotate, rotate3, lemma_rotate_fits};
use crate::config::{GizmoConfig, GizmoDirection, GizmoMode, GizmoResult, Ray, ray_wf};
use crate::state::{HandleState, ROTATION_DELTA_CAP};
use crate::angle::{ANGLE_HALF, ANGLE_FULL};
use crate::geom::NORMAL_LIM;

/// Everything the handles read from the pointer this frame: the world-space
/// ray, and the two pointer angles whose `atan2` the host takes (absent when
/// the pointer or a projection is unavailable, or the geometry degenerates).
#[derive(Clone, Copy, Debug, PartialEq, Eq, Structural)]
pub struct PointerState {
    /// The pointer ray in world space.
    pub ray: Ray,
    /// Raw screen-space angle of the pointer around the projected gizmo
    /// center, in angle units.
    pub pointer_angle: Option<i64>,
    /// Angle of the pointer around the handle axis, from
    /// [`crate::rotation::rotation_axis_angle_inputs`], in angle units.
    pub axis_angle: Option<i64>,
}

impl PointerState {
    /// A usable pointer frame: the ray within the supported volume, the
    /// angles within a half turn.
    pub open spec fn wf(self) -> bool {
        &&& ray_wf(self.ray)
        &&& self.pointer_angle matches Some(p) ==> -ANGLE_HALF < p <= ANGLE_HALF
        &&& self.axis_angle matches Some(a) ==> -ANGLE_HALF < a <= ANGLE_HALF
    }
}

/// The operation family and shape of a handle.
#[derive(Clone, Copy, Debug, PartialEq, Eq, Structural)]
pub enum SubGizmoKind {
    /// Rotation around an axis
    RotationAxis,
    /// Translation along a vector
    TranslationVector,
    /// Translation along a plane
    TranslationPlane,
    /// Scale along a vector
    ScaleVector,
    /// Scale along a plane
    ScalePlane,
}

/// One manipulable affordance, recreated fresh each frame from the current
/// configuration; only its persisted drag state survives across frames.
#[derive(Clone, Copy, Debug, PartialEq, Eq, Structural)]
pub struct SubGizmo {
    /// The configuration snapshot this handle reads.
    pub config: GizmoConfig,
    /// The axis or plane this handle is bound to.
    pub direction: GizmoDirection,
    /// The operation family of this handle.
    pub kind: SubGizmoKind,
    /// Whether the pointer is near enough to pick this handle this frame.
    pub focused: bool,
    /// Whether this handle is being dragged this frame.
    pub active: bool,
}

/// The handle's constraint axis in local (object) space: the matching unit
/// axis, or the negated camera forward for a screen-aligned handle.
pub open spec fn spec_local_normal(cfg: GizmoConfig, direction: GizmoDirection) -> Vec3 {
    match direction {
        GizmoDirection::X => Vec3 { x: FX_ONE, y: 0, z: 0 },
        GizmoDirection::Y => Vec3 { x: 0, y: FX_ONE, z: 0 },
        GizmoDirection::Z => Vec3 { x: 0, y: 0, z: FX_ONE },
        GizmoDirection::Screen => Vec3 {
            x: (-cfg.view_forward.x) as i64,
            y: (-cfg.view_forward.y) as i64,
            z: (-cfg.view_forward.z) as i64,
        },
    }
}

/// The constraint axis in world space: the local axis rotated by the object
/// when in local space, except that screen-aligned handles are never rotated.
pub open spec fn spec_normal(cfg: GizmoConfig, direction: GizmoDirection) -> Vec3 {
    if cfg.local_space && direction != GizmoDirection::Screen {
        spec_rotate(cfg.rotation, spec_local_normal(cfg, direction))
    } else {
        spec_local_normal(cfg, direction)
    }
}

impl SubGizmo {
    /// A handle for one frame; not yet focused nor active.
    pub fn new(config: GizmoConfig, direction: GizmoDirection, kind: SubGizmoKind) -> (r:
        SubGizmo)
        ensures
            r.config == config,
            r.direction == direction,
            r.kind == kind,
            !r.focused,
            !r.active,
    {
        SubGizmo { config, direction, kind, focused: false, active: false }
    }

    /// A handle whose configuration is within the supported ranges.
    pub open spec fn wf(self) -> bool {
        self.config.wf()
    }

    /// The handle's constraint axis in local (object) space.
    pub fn local_normal(&self) -> (r: Vec3)
        requires
            self.wf(),
        ensures
            r == spec_local_normal(self.config, self.direction),
            b3(r, FX_ONE as int),
    {
        match self.direction {
            GizmoDirection::X => Vec3 { x: FX_ONE, y: 0, z: 0 },
            GizmoDirection::Y => Vec3 { x: 0, y: FX_ONE, z: 0 },
            GizmoDirection::Z => Vec3 { x: 0, y: 0, z: FX_ONE },
            GizmoDirection::Screen => Vec3 {
                x: -self.config.view_forward.x,
                y: -self.config.view_forward.y,
                z: -self.config.view_forward.z,
            },
        }
    }

    /// The handle's constraint axis in world space.
    pub fn normal(&self) -> (r: Vec3)
        requires
            self.wf(),
        ensures
            r == spec_normal(self.config, self.direction),
            b3(r, NORMAL_LIM as int),
    {
        let local = self.local_normal();
        if self.config.local_space() && !matches!(self.direction, GizmoDirection::Screen) {
            proof {
                lemma_rotate_fits(self.config.rotation, local, FX_ONE as int);
            }
            rotate3(&self.config.rotation, &local)
        } else {
            local
        }
    }

    /// Tests this handle against the pointer and seeds its drag state: the
    /// distance along the ray comes back when the pointer is close enough to
    /// start a drag, `None` otherwise. Each kind applies its family's pick
    /// rule; the other family's state is never touched.
    pub fn pick(&self, input: &PointerState, state: &mut HandleState) -> (r: Option<i64>)
        requires
            self.wf(),
            input.wf(),
            old(state).wf(),
        ensures
            final(state).wf(),
            matches!(self.kind, SubGizmoKind::RotationAxis) ==> {
                &&& final(state).translation == old(state).translation
                &&& (r is Some) <==> (input.axis_angle matches Some(aa)
                    && crate::rotation::spec_rotation_pick_hit(self.config, self.direction,
                        input.ray, aa as int))
            },
            matches!(self.kind, SubGizmoKind::TranslationVector)
                || matches!(self.kind, SubGizmoKind::ScaleVector) ==> {
                &&& final(state).rotation == old(state).rotation
                &&& (r is Some) <==> crate::translation::spec_translation_pick_hit(self.config,
                    self.direction, input.ray)
                &&& crate::translation::spec_translation_visible(self.config, self.direction)
                    ==> final(state).translation.start_point
                    == crate::translation::spec_translation_handle_point(self.config,
                        self.direction, input.ray)
            },
            matches!(self.kind, SubGizmoKind::TranslationPlane)
                || matches!(self.kind, SubGizmoKind::ScalePlane) ==> {
                &&& final(state).rotation == old(state).rotation
                &&& (r is Some) <==> crate::translation::spec_plane_pick_hit(self.config,
                    self.direction, input.ray)
            },
    {
        match self.kind {
            SubGizmoKind::RotationAxis => crate::rotation::pick_rotation(self, &input.ray,
                input.axis_angle, input.pointer_angle, &mut state.rotation),
            SubGizmoKind::TranslationVector => crate::translation::pick_translation(self,
                &input.ray, &mut state.translation),
            SubGizmoKind::TranslationPlane => crate::translation::pick_translation_plane(self,
                &input.ray, &mut state.translation),
            SubGizmoKind::ScaleVector => crate::scale::pick_scale(self, &input.ray,
                &mut state.translation),
            SubGizmoKind::ScalePlane => crate::scale::pick_scale_plane(self, &input.ray,
                &mut state.translation),
        }
    }

    /// Advances this handle's drag by one frame and proposes the changed
    /// transform; `None` means no change this frame (pointer unavailable, or
    /// a projection degenerated). Each kind applies its family's update
    /// rule; the other family's state is never touched.
    pub fn update(&self, input: &PointerState, state: &mut HandleState) -> (r: Option<
        GizmoResult,
    >)
        requires
            self.wf(),
            input.wf(),
            old(state).wf(),
            fits(old(state).rotation.current_delta as int, ROTATION_DELTA_CAP as int
                - 5 * ANGLE_FULL as int),
        ensures
            final(state).wf(),
            matches!(self.kind, SubGizmoKind::RotationAxis) ==> {
                &&& final(state).translation == old(state).translation
                &&& ((r is Some) <==> (input.pointer_angle is Some))
                &&& r matches Some(g) ==> g.mode == GizmoMode::Rotate
            },
            matches!(self.kind, SubGizmoKind::TranslationVector)
                || matches!(self.kind, SubGizmoKind::ScaleVector) ==> {
                &&& final(state).rotation == old(state).rotation
                &&& r is Some
                &&& final(state).translation.current_delta
                    == crate::translation::spec_translation_new_delta(self.config,
                        self.direction, input.ray, old(state).translation.start_point)
            },
            matches!(self.kind, SubGizmoKind::TranslationVector) ==> (r matches Some(g)
                ==> g.mode == GizmoMode::Translate),
            matches!(self.kind, SubGizmoKind::ScaleVector) ==> (r matches Some(g)
                ==> g.mode == GizmoMode::Scale),
            matches!(self.kind, SubGizmoKind::TranslationPlane)
                || matches!(self.kind, SubGizmoKind::ScalePlane) ==> {
                &&& final(state).rotation == old(state).rotation
                &&& ((r is Some) <==> (crate::translation::spec_plane_pick_t(self.config,
                    self.direction, input.ray) is Some))
            },
            matches!(self.kind, SubGizmoKind::TranslationPlane) ==> (r matches Some(g)
                ==> g.mode == GizmoMode::Translate),
            matches!(self.kind, SubGizmoKind::ScalePlane) ==> (r matches Some(g)
                ==> g.mode == GizmoMode::Scale),
    {
        match self.kind {
            SubGizmoKind::RotationAxis => crate::rotation::update_rotation(self,
                input.pointer_angle, &mut state.rotation),
            SubGizmoKind::TranslationVector => crate::translation::update_translation(self,
                &input.ray, &mut state.translation),
            SubGizmoKind::TranslationPlane => crate::translation::update_translation_plane(
                self, &input.ray, &mut state.translation),
            SubGizmoKind::ScaleVector => crate::scale::update_scale(self, &input.ray,
                &mut state.translation),
            SubGizmoKind::ScalePlane => crate::scale::update_scale_plane(self, &input.ray,
                &mut state.translation),
        }
    }
}

} // verus!
