//! Picking and dragging of the rotation handles: an arc around the handle
//! axis, picked by distance from the arc's circle, and a drag resolved from
//! the screen-space pointer angle around the projected gizmo center.
//!
//! The pointer angle itself is an `atan2` the host computes; everything that
//! decides — the facing-dependent sign, snapping relative to the drag start,
//! the wrap-safe minimal increment, and the accumulation — is verified here.

use vstd::prelude::*;

verus! {

use crate::fx::{fits, tdiv, FX_ONE, mul_div, spec_round_to_interval, round_to_interval,
    lemma_mul_fits, lemma_tdiv_fits};
use crate::vec3::{Vec3, b3, v3, spec_dot3, spec_cross3, spec_scale3, spec_dist3, sqrt_of,
    add3, sub3, neg3, scale3, dot3, cross3, normalize3, lemma_dot3_fits, lemma_mul_div_self};
use crate::quat::{spec_rotate, rotate3, lemma_rotate_fits};
use crate::angle::{ANGLE_HALF, ANGLE_QUARTER, ANGLE_FULL, spec_min_angle, min_angle_delta};
use crate::config::{GizmoConfig, GizmoDirection, GizmoMode, GizmoResult, Ray, RAY_T_LIM};
use crate::state::{RotationState, ROTATION_DELTA_CAP};
use crate::subgizmo::{SubGizmo, spec_normal};
use crate::geom::{spec_plane_t, spec_ray_point, ray_to_plane_origin, ray_point, NORMAL_LIM};

/// The zero-angle reference for measuring the pointer angle around the
/// handle axis: world Z for the X and Y axes, negated world Y for the Z
/// axis, the negated camera right for a screen-aligned handle; rotated into
/// local space under the same rule as the normal.
pub open spec fn spec_tangent(cfg: GizmoConfig, direction: GizmoDirection) -> Vec3 {
    let base = match direction {
        GizmoDirection::X => Vec3 { x: 0, y: 0, z: FX_ONE },
        GizmoDirection::Y => Vec3 { x: 0, y: 0, z: FX_ONE },
        GizmoDirection::Z => Vec3 { x: 0, y: (-FX_ONE) as i64, z: 0 },
        GizmoDirection::Screen => Vec3 {
            x: (-cfg.view_right.x) as i64,
            y: (-cfg.view_right.y) as i64,
            z: (-cfg.view_right.z) as i64,
        },
    };
    if cfg.local_space && direction != GizmoDirection::Screen {
        spec_rotate(cfg.rotation, base)
    } else {
        base
    }
}

/// The zero-angle reference of the rotation handle.
pub fn tangent(subgizmo: &SubGizmo) -> (r: Vec3)
    requires
        subgizmo.wf(),
    ensures
        r == spec_tangent(subgizmo.config, subgizmo.direction),
        b3(r, NORMAL_LIM as int),
{
    let cfg = &subgizmo.config;
    let base = match subgizmo.direction {
        GizmoDirection::X => Vec3 { x: 0, y: 0, z: FX_ONE },
        GizmoDirection::Y => Vec3 { x: 0, y: 0, z: FX_ONE },
        GizmoDirection::Z => Vec3 { x: 0, y: -FX_ONE, z: 0 },
        GizmoDirection::Screen => Vec3 {
            x: -cfg.view_right.x,
            y: -cfg.view_right.y,
            z: -cfg.view_right.z,
        },
    };
    if cfg.local_space() && !matches!(subgizmo.direction, GizmoDirection::Screen) {
        proof {
            lemma_rotate_fits(cfg.rotation, base, FX_ONE as int);
        }
        rotate3(&cfg.rotation, &base)
    } else {
        base
    }
}

/// Radius of the rotation arc: the base size (with a small bonus for the
/// screen-aligned handle) times the view scale factor.
pub open spec fn spec_arc_radius(cfg: GizmoConfig, direction: GizmoDirection) -> int {
    let base = if direction == GizmoDirection::Screen {
        cfg.gizmo_size + cfg.stroke_width + 5 * FX_ONE
    } else {
        cfg.gizmo_size as int
    };
    tdiv(cfg.scale_factor * base, FX_ONE as int)
}

/// Radius of the rotation arc, non-negative.
pub fn arc_radius(subgizmo: &SubGizmo) -> (r: i64)
    requires
        subgizmo.wf(),
    ensures
        r == spec_arc_radius(subgizmo.config, subgizmo.direction),
        0 <= r <= 3_000_000_000,
{
    let cfg = &subgizmo.config;
    let base: i64 = if matches!(subgizmo.direction, GizmoDirection::Screen) {
        cfg.gizmo_size + cfg.stroke_width + 5 * FX_ONE
    } else {
        cfg.gizmo_size
    };
    proof {
        lemma_mul_fits(cfg.scale_factor as int, base as int, 10_000_000, 300_000_000);
        lemma_tdiv_fits(cfg.scale_factor as int * base as int, FX_ONE as int,
            3_000_000_000_000_000);
        crate::fx::lemma_tdiv_nonneg(cfg.scale_factor as int * base as int, FX_ONE as int);
        vstd::arithmetic::mul::lemma_mul_nonnegative(cfg.scale_factor as int, base as int);
    }
    mul_div(cfg.scale_factor, base, FX_ONE)
}

/// Half-span of the visible rotation arc as a function of how straight-on
/// the axis is viewed: a quarter turn when the magnitude of the
/// normal-to-forward alignment is at most 0.990, half a turn when it is at
/// least 0.995, linear in the alignment strictly between.
pub open spec fn spec_arc_angle_of(dot_abs: int) -> int {
    let clamped = if dot_abs < 990_000 {
        0
    } else if dot_abs > 995_000 {
        5_000
    } else {
        dot_abs - 990_000
    };
    ANGLE_QUARTER as int + 18_000 * clamped
}

/// The alignment of the handle axis with the camera forward direction, as a
/// non-negative fixed-point magnitude.
pub open spec fn spec_view_alignment(cfg: GizmoConfig, direction: GizmoDirection) -> int {
    let d = tdiv(spec_dot3(spec_normal(cfg, direction), cfg.view_forward), FX_ONE as int);
    if d >= 0 {
        d
    } else {
        -d
    }
}

/// Half-span of the visible rotation arc of this handle.
pub open spec fn spec_arc_angle(cfg: GizmoConfig, direction: GizmoDirection) -> int {
    spec_arc_angle_of(spec_view_alignment(cfg, direction))
}

/// Half-span of the visible rotation arc: the arc is a semicircle which
/// widens to a full circle as the view comes straight onto the axis.
pub fn arc_angle(subgizmo: &SubGizmo) -> (r: i64)
    requires
        subgizmo.wf(),
    ensures
        r == spec_arc_angle(subgizmo.config, subgizmo.direction),
        ANGLE_QUARTER <= r <= ANGLE_HALF,
{
    let cfg = &subgizmo.config;
    let normal = subgizmo.normal();
    proof {
        lemma_dot3_fits(spec_normal(*cfg, subgizmo.direction), cfg.view_forward,
            NORMAL_LIM as int, FX_ONE as int);
        lemma_tdiv_fits(spec_dot3(spec_normal(*cfg, subgizmo.direction), cfg.view_forward),
            FX_ONE as int, 60_000_000_000_000);
    }
    let draw: i128 = dot3(&normal, &cfg.view_forward);
    let d128: i128 = crate::fx::div_trunc(draw, FX_ONE as i128);
    let d: i64 = d128 as i64;
    let dot_abs: i64 = if d >= 0 {
        d
    } else {
        -d
    };
    let clamped: i64 = if dot_abs < 990_000 {
        0
    } else if dot_abs > 995_000 {
        5_000
    } else {
        dot_abs - 990_000
    };
    ANGLE_QUARTER + 18_000 * clamped
}

/// Arc widening law: the half-span is exactly a half turn at alignment 0.995
/// and above, exactly a quarter turn at 0.990 and below, and linear in the
/// alignment strictly between.
pub proof fn lemma_arc_angle_span(dot_abs: int)
    ensures
        dot_abs >= 995_000 ==> spec_arc_angle_of(dot_abs) == ANGLE_HALF as int,
        dot_abs <= 990_000 ==> spec_arc_angle_of(dot_abs) == ANGLE_QUARTER as int,
        990_000 < dot_abs < 995_000 ==> spec_arc_angle_of(dot_abs) == ANGLE_QUARTER as int
            + 18_000 * (dot_abs - 990_000),
{
}

/// A vector scaled to unit length (undefined for the zero vector).
pub open spec fn spec_unit(v: Vec3) -> Vec3 {
    v3(crate::vec3::spec_scale3(v, FX_ONE as int, sqrt_of(crate::vec3::spec_norm2(v))))
}

/// The two operands of the pointer's axis angle, whose `atan2` the host
/// takes: the pointer ray is cut with the circle plane, the cut is pulled
/// onto the circle, and the unit offset from the center is measured against
/// the tangent convention (tangent and normal for a screen-aligned handle;
/// the camera forward, sign-fixed for a left-handed view, for an oriented
/// axis). `None` when the ray is parallel to the plane or a direction
/// degenerates.
pub open spec fn spec_rotation_axis_angle_inputs(cfg: GizmoConfig, direction: GizmoDirection,
    ray: Ray) -> Option<(int, int)> {
    let normal = spec_normal(cfg, direction);
    match spec_plane_t(normal, cfg.translation, ray) {
        None => None,
        Some(t) => {
            let hit = spec_ray_point(ray.origin, ray.direction, t);
            let to_origin = Vec3 {
                x: (cfg.translation.x - hit.x) as i64,
                y: (cfg.translation.y - hit.y) as i64,
                z: (cfg.translation.z - hit.z) as i64,
            };
            if crate::vec3::spec_norm2(to_origin) == 0 {
                None
            } else {
                let d2o = spec_unit(to_origin);
                let k = sqrt_of(crate::vec3::spec_norm2(to_origin)) - spec_arc_radius(cfg,
                    direction);
                let step = v3(spec_scale3(d2o, k, FX_ONE as int));
                let off0 = Vec3 {
                    x: (hit.x + step.x - cfg.translation.x) as i64,
                    y: (hit.y + step.y - cfg.translation.y) as i64,
                    z: (hit.z + step.z - cfg.translation.z) as i64,
                };
                if crate::vec3::spec_norm2(off0) == 0 {
                    None
                } else {
                    let offset = spec_unit(off0);
                    if direction == GizmoDirection::Screen {
                        let tang = spec_tangent(cfg, direction);
                        Some((
                            tdiv(spec_dot3(v3(spec_cross3(tang, normal)), offset),
                                FX_ONE as int),
                            tdiv(spec_dot3(tang, offset), FX_ONE as int),
                        ))
                    } else {
                        let fwd = if cfg.left_handed {
                            Vec3 {
                                x: (-cfg.view_forward.x) as i64,
                                y: (-cfg.view_forward.y) as i64,
                                z: (-cfg.view_forward.z) as i64,
                            }
                        } else {
                            cfg.view_forward
                        };
                        Some((
                            tdiv(spec_dot3(v3(spec_cross3(offset, fwd)), normal),
                                FX_ONE as int),
                            tdiv(spec_dot3(offset, fwd), FX_ONE as int),
                        ))
                    }
                }
            }
        },
    }
}

/// Computes the operands of the pointer's axis angle for the host's `atan2`.
pub fn rotation_axis_angle_inputs(subgizmo: &SubGizmo, ray: &Ray) -> (r: Option<(i64, i64)>)
    requires
        subgizmo.wf(),
        crate::config::ray_wf(*ray),
    ensures
        (r is Some) <==> (spec_rotation_axis_angle_inputs(subgizmo.config, subgizmo.direction,
            *ray) is Some),
        r matches Some(yx) ==> spec_rotation_axis_angle_inputs(subgizmo.config,
            subgizmo.direction, *ray) == Some((yx.0 as int, yx.1 as int)),
{
    let cfg = &subgizmo.config;
    let normal = subgizmo.normal();
    let t = match crate::geom::intersect_plane(&normal, &cfg.translation, ray) {
        Some(t) => t,
        None => {
            return None;
        },
    };
    let hit = ray_point(ray, t);
    let to_origin = sub3(&cfg.translation, &hit);
    proof {
        assert(crate::vec3::spec_norm2(to_origin) >= 0) by (nonlinear_arith);
    }
    let d2o = match normalize3(&to_origin) {
        Some(u) => u,
        None => {
            return None;
        },
    };
    let dist = crate::vec3::length3(&to_origin);
    proof {
        crate::vec3::lemma_sqrt_unique(crate::vec3::spec_norm2(to_origin), dist as int);
        crate::vec3::lemma_dot3_fits(to_origin, to_origin, 7_000_000_000, 7_000_000_000);
        assert(dist as int <= 13_000_000_000) by (nonlinear_arith)
            requires
                (dist as int) * (dist as int) <= crate::vec3::spec_norm2(to_origin)
                && crate::vec3::spec_norm2(to_origin) <= 147_000_000_000_000_000_000
                && dist as int >= 0;
    }
    let radius = arc_radius(subgizmo);
    let k = dist - radius;
    proof {
        lemma_mul_fits(d2o.x as int, k as int, FX_ONE as int, 16_000_000_000);
        lemma_mul_fits(d2o.y as int, k as int, FX_ONE as int, 16_000_000_000);
        lemma_mul_fits(d2o.z as int, k as int, FX_ONE as int, 16_000_000_000);
        lemma_tdiv_fits(d2o.x as int * k as int, FX_ONE as int, 16_000_000_000_000_000);
        lemma_tdiv_fits(d2o.y as int * k as int, FX_ONE as int, 16_000_000_000_000_000);
        lemma_tdiv_fits(d2o.z as int * k as int, FX_ONE as int, 16_000_000_000_000_000);
    }
    let step = scale3(&d2o, k, FX_ONE);
    let off0 = sub3(&add3(&hit, &step), &cfg.translation);
    proof {
        assert(crate::vec3::spec_norm2(off0) >= 0) by (nonlinear_arith);
    }
    let offset = match normalize3(&off0) {
        Some(u) => u,
        None => {
            return None;
        },
    };
    if matches!(subgizmo.direction, GizmoDirection::Screen) {
        let tang = tangent(subgizmo);
        proof {
            lemma_mul_fits(tang.y as int, normal.z as int, NORMAL_LIM as int, NORMAL_LIM as int);
            lemma_mul_fits(tang.z as int, normal.y as int, NORMAL_LIM as int, NORMAL_LIM as int);
            lemma_mul_fits(tang.z as int, normal.x as int, NORMAL_LIM as int, NORMAL_LIM as int);
            lemma_mul_fits(tang.x as int, normal.z as int, NORMAL_LIM as int, NORMAL_LIM as int);
            lemma_mul_fits(tang.x as int, normal.y as int, NORMAL_LIM as int, NORMAL_LIM as int);
            lemma_mul_fits(tang.y as int, normal.x as int, NORMAL_LIM as int, NORMAL_LIM as int);
            lemma_tdiv_fits(tang.y as int * normal.z as int - tang.z as int * normal.y as int,
                FX_ONE as int, 800_000_000_000_000);
            lemma_tdiv_fits(tang.z as int * normal.x as int - tang.x as int * normal.z as int,
                FX_ONE as int, 800_000_000_000_000);
            lemma_tdiv_fits(tang.x as int * normal.y as int - tang.y as int * normal.x as int,
                FX_ONE as int, 800_000_000_000_000);
        }
        let c = cross3(&tang, &normal);
        proof {
            crate::vec3::lemma_dot3_fits(c, offset, 800_000_000, FX_ONE as int);
            crate::vec3::lemma_dot3_fits(tang, offset, NORMAL_LIM as int, FX_ONE as int);
            lemma_tdiv_fits(spec_dot3(c, offset), FX_ONE as int, 2_400_000_000_000_000);
            lemma_tdiv_fits(spec_dot3(tang, offset), FX_ONE as int, 60_000_000_000_000);
        }
        let y: i64 = crate::fx::div_trunc(dot3(&c, &offset), FX_ONE as i128) as i64;
        let x: i64 = crate::fx::div_trunc(dot3(&tang, &offset), FX_ONE as i128) as i64;
        Some((y, x))
    } else {
        let fwd = if cfg.left_handed {
            neg3(&cfg.view_forward)
        } else {
            cfg.view_forward
        };
        proof {
            lemma_mul_fits(offset.y as int, fwd.z as int, FX_ONE as int, FX_ONE as int);
            lemma_mul_fits(offset.z as int, fwd.y as int, FX_ONE as int, FX_ONE as int);
            lemma_mul_fits(offset.z as int, fwd.x as int, FX_ONE as int, FX_ONE as int);
            lemma_mul_fits(offset.x as int, fwd.z as int, FX_ONE as int, FX_ONE as int);
            lemma_mul_fits(offset.x as int, fwd.y as int, FX_ONE as int, FX_ONE as int);
            lemma_mul_fits(offset.y as int, fwd.x as int, FX_ONE as int, FX_ONE as int);
            lemma_tdiv_fits(offset.y as int * fwd.z as int - offset.z as int * fwd.y as int,
                FX_ONE as int, 2_000_000_000_000);
            lemma_tdiv_fits(offset.z as int * fwd.x as int - offset.x as int * fwd.z as int,
                FX_ONE as int, 2_000_000_000_000);
            lemma_tdiv_fits(offset.x as int * fwd.y as int - offset.y as int * fwd.x as int,
                FX_ONE as int, 2_000_000_000_000);
        }
        let c = cross3(&offset, &fwd);
        proof {
            crate::vec3::lemma_dot3_fits(c, spec_normal(*cfg, subgizmo.direction), 2_000_000,
                NORMAL_LIM as int);
            crate::vec3::lemma_dot3_fits(offset, fwd, FX_ONE as int, FX_ONE as int);
            lemma_tdiv_fits(spec_dot3(c, spec_normal(*cfg, subgizmo.direction)), FX_ONE as int,
                120_000_000_000_000);
            lemma_tdiv_fits(spec_dot3(offset, fwd), FX_ONE as int, 3_000_000_000_000);
        }
        let y: i64 = crate::fx::div_trunc(dot3(&c, &normal), FX_ONE as i128) as i64;
        let x: i64 = crate::fx::div_trunc(dot3(&offset, &fwd), FX_ONE as i128) as i64;
        Some((y, x))
    }
}

/// The resolved screen-space pointer angle: the raw angle around the
/// projected center, negated when the handle's normal faces away from the
/// camera (so the drag direction stays visually consistent), kept in
/// `(-ANGLE_HALF, ANGLE_HALF]`.
pub open spec fn spec_resolve_rotation_angle(cfg: GizmoConfig, direction: GizmoDirection,
    raw: int) -> int {
    if spec_dot3(cfg.view_forward, spec_normal(cfg, direction)) < 0 {
        spec_min_angle(-raw)
    } else {
        raw
    }
}

/// Applies the facing-dependent sign to a raw pointer angle.
pub fn resolve_rotation_angle(subgizmo: &SubGizmo, raw: i64) -> (r: i64)
    requires
        subgizmo.wf(),
        -ANGLE_HALF < raw <= ANGLE_HALF,
    ensures
        r == spec_resolve_rotation_angle(subgizmo.config, subgizmo.direction, raw as int),
        -ANGLE_HALF < r <= ANGLE_HALF,
{
    let normal = subgizmo.normal();
    let facing: i128 = dot3(&subgizmo.config.view_forward, &normal);
    if facing < 0 {
        min_angle_delta(-raw)
    } else {
        raw
    }
}

/// Distance from the pointer ray to the visible arc: the ray is cut with the
/// plane of the rotation circle, and the intersection's distance from the
/// circle is measured; `None` when the ray is parallel to that plane.
pub open spec fn spec_rotation_edge_dist(cfg: GizmoConfig, direction: GizmoDirection, ray: Ray)
    -> Option<(int, int)> {
    match spec_plane_t(spec_normal(cfg, direction), cfg.translation, ray) {
        Some(t) => {
            let dist = spec_dist3(spec_ray_point(ray.origin, ray.direction, t),
                cfg.translation);
            let edge = dist - spec_arc_radius(cfg, direction);
            Some((t, if edge >= 0 { edge } else { -edge }))
        },
        None => None,
    }
}

/// Whether a rotation pick hits: the ray meets the circle plane, the
/// intersection is within the focus tolerance of the circle's edge, and the
/// pointer's axis angle lies inside the visible arc span.
pub open spec fn spec_rotation_pick_hit(cfg: GizmoConfig, direction: GizmoDirection, ray: Ray,
    axis_angle: int) -> bool {
    spec_rotation_edge_dist(cfg, direction, ray) matches Some(td) && td.1
        <= cfg.focus_distance as int && (if axis_angle >= 0 { axis_angle } else { -axis_angle })
        < spec_arc_angle(cfg, direction)
}

/// Picks the rotation handle. `axis_angle` is the pointer's angle around the
/// handle axis and `pointer_angle` the raw screen-space pointer angle around
/// the projected center, both supplied by the host from the current frame
/// (`None` when the pointer or a projection is unavailable). On a usable
/// frame the drag state is seeded; the pick hits when the ray meets the
/// circle plane within the focus tolerance of the arc's edge and inside the
/// visible span, and the ray parameter of the intersection is returned.
pub fn pick_rotation(subgizmo: &SubGizmo, ray: &Ray, axis_angle: Option<i64>,
    pointer_angle: Option<i64>, state: &mut RotationState) -> (r: Option<i64>)
    requires
        subgizmo.wf(),
        crate::config::ray_wf(*ray),
        axis_angle matches Some(a) ==> -ANGLE_HALF < a <= ANGLE_HALF,
        pointer_angle matches Some(p) ==> -ANGLE_HALF < p <= ANGLE_HALF,
    ensures
        axis_angle is None ==> r is None && *final(state) == *old(state),
        (axis_angle matches Some(aa) && spec_rotation_edge_dist(subgizmo.config,
            subgizmo.direction, *ray) is None) ==> r is None && *final(state) == *old(state),
        axis_angle matches Some(aa) ==> spec_rotation_edge_dist(subgizmo.config,
            subgizmo.direction, *ray) matches Some(td) ==> {
            &&& final(state).start_axis_angle == aa
            &&& final(state).start_rotation_angle == (match pointer_angle {
                Some(p) => spec_resolve_rotation_angle(subgizmo.config, subgizmo.direction,
                    p as int),
                None => 0int,
            })
            &&& final(state).last_rotation_angle == final(state).start_rotation_angle
            &&& final(state).current_delta == 0
            &&& final(state).wf()
            &&& (r is Some) <==> spec_rotation_pick_hit(subgizmo.config, subgizmo.direction,
                *ray, aa as int)
            &&& r matches Some(t) ==> t as int == td.0
        },
{
    let aa = match axis_angle {
        Some(aa) => aa,
        None => {
            return None;
        },
    };
    let cfg = &subgizmo.config;
    let radius = arc_radius(subgizmo);
    let normal = subgizmo.normal();
    let td = match ray_to_plane_origin(&normal, &cfg.translation, ray) {
        Some(td) => td,
        None => {
            return None;
        },
    };
    let (t, dist_from_gizmo_origin) = td;
    let edge = dist_from_gizmo_origin - radius;
    let dist_from_gizmo_edge = if edge >= 0 {
        edge
    } else {
        -edge
    };
    let rotation_angle = match pointer_angle {
        Some(p) => resolve_rotation_angle(subgizmo, p),
        None => 0,
    };
    state.start_axis_angle = aa;
    state.start_rotation_angle = rotation_angle;
    state.last_rotation_angle = rotation_angle;
    state.current_delta = 0;
    let aa_abs = if aa >= 0 {
        aa
    } else {
        -aa
    };
    if dist_from_gizmo_edge <= cfg.focus_distance && aa_abs < arc_angle(subgizmo) {
        Some(t)
    } else {
        None
    }
}

/// The angle the drag resolves this frame: the pointer angle, snapped
/// relative to the angle at drag start when snapping is on.
pub open spec fn spec_resolved_drag_angle(cfg: GizmoConfig, direction: GizmoDirection,
    raw: int, start: int) -> int {
    let resolved = spec_resolve_rotation_angle(cfg, direction, raw);
    if cfg.snapping {
        spec_round_to_interval(resolved - start, cfg.snap_angle as int) + start
    } else {
        resolved
    }
}

/// Accumulation invariant of a rotation drag: the accumulated delta always
/// measures the current resolved angle against the angle captured at pick
/// time, up to full turns. A freshly seeded state satisfies it (zero delta,
/// last angle equal to the start angle), and one update step — adding the
/// minimal representation of the angle travelled since the previous frame —
/// preserves it.
pub proof fn lemma_rotation_delta_tracks_angles(current_delta: int, start: int, last: int,
    angle: int)
    requires
        (current_delta - (last - start)) % (ANGLE_FULL as int) == 0,
    ensures
        (current_delta + spec_min_angle(angle - last) - (angle - start)) % (ANGLE_FULL as int)
            == 0,
{
    let d0 = angle - last;
    let delta = spec_min_angle(d0);
    let a = current_delta - (last - start);
    let b = delta - d0;
    assert(b == 0 || b == ANGLE_FULL as int || b == -(ANGLE_FULL as int));
    if b == ANGLE_FULL as int {
        vstd::arithmetic::div_mod::lemma_mod_self_0(ANGLE_FULL as int);
    }
    if b == -(ANGLE_FULL as int) {
        vstd::arithmetic::div_mod::lemma_fundamental_div_mod_converse(
            -(ANGLE_FULL as int), ANGLE_FULL as int, -1, 0);
    }
    if b == 0 {
        vstd::arithmetic::div_mod::lemma_small_mod(0, ANGLE_FULL as nat);
    }
    vstd::arithmetic::div_mod::lemma_add_mod_noop(a, b, ANGLE_FULL as int);
    vstd::arithmetic::div_mod::lemma_small_mod(0, ANGLE_FULL as nat);
    assert(current_delta + delta - (angle - start) == a + b);
}

/// Updates the rotation handle during a drag: the screen-space pointer angle
/// (an `atan2` around the projected center, supplied by the host) is
/// resolved and snapped relative to the drag start, the frame-to-frame
/// increment always takes its minimal signed representation so a wrap past
/// the straight angle never jumps by a full turn, and the increment is
/// accumulated. `None` (no change this frame) exactly when the pointer is
/// unavailable. The result carries the world axis and this frame's signed
/// increment for the host to apply to the base rotation, and the
/// accumulated axis-angle vector as its raw value.
pub fn update_rotation(subgizmo: &SubGizmo, pointer_angle: Option<i64>,
    state: &mut RotationState) -> (r: Option<GizmoResult>)
    requires
        subgizmo.wf(),
        old(state).wf(),
        fits(old(state).current_delta as int, ROTATION_DELTA_CAP as int - 5 * ANGLE_FULL as int),
        pointer_angle matches Some(p) ==> -ANGLE_HALF < p <= ANGLE_HALF,
    ensures
        (r is Some) <==> (pointer_angle is Some),
        pointer_angle is None ==> *final(state) == *old(state),
        pointer_angle matches Some(p) ==> {
            let angle = spec_resolved_drag_angle(subgizmo.config, subgizmo.direction, p as int,
                old(state).start_rotation_angle as int);
            let delta = spec_min_angle(angle - old(state).last_rotation_angle);
            &&& final(state).start_axis_angle == old(state).start_axis_angle
            &&& final(state).start_rotation_angle == old(state).start_rotation_angle
            &&& final(state).last_rotation_angle == angle
            &&& final(state).current_delta == old(state).current_delta + delta
            &&& final(state).wf()
            &&& r matches Some(g) ==> {
                &&& g.scale == subgizmo.config.scale
                &&& g.rotation == subgizmo.config.rotation
                &&& g.rotation_axis == spec_normal(subgizmo.config, subgizmo.direction)
                &&& g.rotation_delta == delta
                &&& g.translation == subgizmo.config.translation
                &&& g.mode == GizmoMode::Rotate
                &&& (g.value.x as int, g.value.y as int, g.value.z as int) == spec_scale3(
                    spec_normal(subgizmo.config, subgizmo.direction),
                    final(state).current_delta as int, FX_ONE as int)
            }
        },
{
    let p = match pointer_angle {
        Some(p) => p,
        None => {
            return None;
        },
    };
    let cfg = &subgizmo.config;
    let resolved = resolve_rotation_angle(subgizmo, p);
    let rotation_angle = if cfg.snapping {
        round_to_interval(resolved - state.start_rotation_angle, cfg.snap_angle)
            + state.start_rotation_angle
    } else {
        resolved
    };
    let angle_delta = min_angle_delta(rotation_angle - state.last_rotation_angle);
    state.last_rotation_angle = rotation_angle;
    state.current_delta = state.current_delta + angle_delta;
    let normal = subgizmo.normal();
    proof {
        lemma_mul_fits(normal.x as int, state.current_delta as int, NORMAL_LIM as int,
            ROTATION_DELTA_CAP as int);
        lemma_mul_fits(normal.y as int, state.current_delta as int, NORMAL_LIM as int,
            ROTATION_DELTA_CAP as int);
        lemma_mul_fits(normal.z as int, state.current_delta as int, NORMAL_LIM as int,
            ROTATION_DELTA_CAP as int);
        lemma_tdiv_fits(normal.x as int * state.current_delta as int, FX_ONE as int,
            20_000_000_000_000_000_000_000);
        lemma_tdiv_fits(normal.y as int * state.current_delta as int, FX_ONE as int,
            20_000_000_000_000_000_000_000);
        lemma_tdiv_fits(normal.z as int * state.current_delta as int, FX_ONE as int,
            20_000_000_000_000_000_000_000);
    }
    let value = Vec3 {
        x: mul_div(normal.x, state.current_delta, FX_ONE),
        y: mul_div(normal.y, state.current_delta, FX_ONE),
        z: mul_div(normal.z, state.current_delta, FX_ONE),
    };
    Some(GizmoResult {
        scale: cfg.scale,
        rotation: cfg.rotation,
        rotation_axis: normal,
        rotation_delta: angle_delta,
        translation: cfg.translation,
        mode: GizmoMode::Rotate,
        value,
    })
}

} // verus!
