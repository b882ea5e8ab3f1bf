//! Picking and dragging of the scale handles.
//!
//! The scale family reuses the translation family's geometry unchanged: the
//! same segment test picks the linear handle, the same plane test picks the
//! planar one, and a drag resolves the same snapped offset. Only the
//! interpretation differs: the offset along the handle's axes becomes a
//! per-axis factor applied to the configured scale.

use vstd::prelude::*;

verus! {

use crate::fx::{fits, tdiv, FX_ONE, mul_div, lemma_mul_fits, lemma_tdiv_fits};
use crate::vec3::{Vec3, b3, spec_dot3, dot3, sub3, add3, lemma_dot3_fits};
use crate::mat4::spec_clamp;
use crate::config::{GizmoConfig, GizmoDirection, GizmoMode, GizmoResult, Ray};
use crate::state::TranslationState;
use crate::subgizmo::{SubGizmo, spec_normal};
use crate::geom::NORMAL_LIM;
use crate::translation::{spec_translation_visible, spec_translation_pick_hit,
    spec_translation_handle_point, spec_translation_ray_point, spec_translation_new_delta,
    spec_translation_plane_visible, spec_plane_pick_t, spec_plane_pick_hit,
    spec_plane_new_delta, spec_handle_length, spec_plane_size, spec_axis_world,
    spec_plane_binormal, spec_plane_tangent, pick_translation, pick_translation_plane,
    point_on_axis, point_on_plane, snap_translation_vector, snap_translation_plane,
    handle_length, translation_plane_size, translation_plane_global_origin,
    translation_plane_binormal, translation_plane_tangent};
use crate::vec3::spec_dist3;
use crate::geom::spec_ray_point;

/// Magnitude cap for a scale factor, in fixed-point units.
pub const SCALE_FACTOR_CAP: i64 = 1_000_000_000_000;

/// Picks the linear scale handle with the very segment test of the linear
/// translation handle: same hit rule, same seeded state, same distance.
pub fn pick_scale(subgizmo: &SubGizmo, ray: &Ray, state: &mut TranslationState) -> (r: Option<
    i64,
>)
    requires
        subgizmo.wf(),
        crate::config::ray_wf(*ray),
    ensures
        !spec_translation_visible(subgizmo.config, subgizmo.direction) ==> {
            &&& r is None
            &&& *final(state) == *old(state)
        },
        spec_translation_visible(subgizmo.config, subgizmo.direction) ==> {
            &&& final(state).start_point == spec_translation_handle_point(subgizmo.config,
                subgizmo.direction, *ray)
            &&& final(state).last_point == final(state).start_point
            &&& final(state).current_delta == (Vec3 { x: 0, y: 0, z: 0 })
            &&& final(state).wf()
            &&& (r is Some) <==> spec_translation_pick_hit(subgizmo.config, subgizmo.direction,
                *ray)
            &&& r matches Some(d) ==> d as int == spec_dist3(ray.origin,
                spec_translation_ray_point(subgizmo.config, subgizmo.direction, *ray))
        },
{
    pick_translation(subgizmo, ray, state)
}

/// Picks the planar scale handle with the very plane test of the planar
/// translation handle.
pub fn pick_scale_plane(subgizmo: &SubGizmo, ray: &Ray, state: &mut TranslationState) -> (r:
    Option<i64>)
    requires
        subgizmo.wf(),
        crate::config::ray_wf(*ray),
    ensures
        (r is Some) <==> spec_plane_pick_hit(subgizmo.config, subgizmo.direction, *ray),
        !spec_translation_plane_visible(subgizmo.config, subgizmo.direction) ==> *final(state)
            == *old(state),
        spec_translation_plane_visible(subgizmo.config, subgizmo.direction) ==> match
            spec_plane_pick_t(subgizmo.config, subgizmo.direction, *ray) {
            Some(t) => {
                &&& final(state).start_point == spec_ray_point(ray.origin, ray.direction, t)
                &&& final(state).last_point == final(state).start_point
                &&& final(state).current_delta == (Vec3 { x: 0, y: 0, z: 0 })
                &&& final(state).wf()
                &&& r matches Some(rt) ==> rt as int == t
            },
            None => *final(state) == *old(state),
        },
{
    pick_translation_plane(subgizmo, ray, state)
}

/// The per-axis factor the accumulated offset stands for: one plus the
/// offset's component along the handle axis, relative to the handle length,
/// kept within the supported factor range; a degenerate handle length means
/// no change.
pub open spec fn spec_scale_linear_factor(cfg: GizmoConfig, direction: GizmoDirection,
    delta: Vec3) -> int {
    let len = spec_handle_length(cfg);
    if len >= 1 {
        let s = tdiv(spec_dot3(delta, spec_normal(cfg, direction)), FX_ONE as int);
        FX_ONE as int + spec_clamp(tdiv(s * FX_ONE as int, len), SCALE_FACTOR_CAP as int)
    } else {
        FX_ONE as int
    }
}

/// The factor vector of a handle: the factor on the axes the handle spans,
/// one everywhere else; a screen-aligned handle scales uniformly.
pub open spec fn spec_scale_factors(direction: GizmoDirection, f: int, planar: bool) -> Vec3 {
    let fi = f as i64;
    if planar {
        match direction {
            GizmoDirection::X => Vec3 { x: FX_ONE, y: fi, z: fi },
            GizmoDirection::Y => Vec3 { x: fi, y: FX_ONE, z: fi },
            GizmoDirection::Z => Vec3 { x: fi, y: fi, z: FX_ONE },
            GizmoDirection::Screen => Vec3 { x: fi, y: fi, z: fi },
        }
    } else {
        match direction {
            GizmoDirection::X => Vec3 { x: fi, y: FX_ONE, z: FX_ONE },
            GizmoDirection::Y => Vec3 { x: FX_ONE, y: fi, z: FX_ONE },
            GizmoDirection::Z => Vec3 { x: FX_ONE, y: FX_ONE, z: fi },
            GizmoDirection::Screen => Vec3 { x: fi, y: fi, z: fi },
        }
    }
}

/// The configured scale with a factor vector applied per axis.
pub open spec fn spec_apply_factors(scale: Vec3, f: Vec3) -> Vec3 {
    Vec3 {
        x: tdiv(scale.x * f.x, FX_ONE as int) as i64,
        y: tdiv(scale.y * f.y, FX_ONE as int) as i64,
        z: tdiv(scale.z * f.z, FX_ONE as int) as i64,
    }
}

/// Builds the factor vector for one handle.
fn scale_factors(direction: GizmoDirection, f: i64, planar: bool) -> (r: Vec3)
    requires
        fits(f as int, FX_ONE as int + SCALE_FACTOR_CAP as int),
    ensures
        r == spec_scale_factors(direction, f as int, planar),
        b3(r, FX_ONE as int + SCALE_FACTOR_CAP as int),
{
    if planar {
        match direction {
            GizmoDirection::X => Vec3 { x: FX_ONE, y: f, z: f },
            GizmoDirection::Y => Vec3 { x: f, y: FX_ONE, z: f },
            GizmoDirection::Z => Vec3 { x: f, y: f, z: FX_ONE },
            GizmoDirection::Screen => Vec3 { x: f, y: f, z: f },
        }
    } else {
        match direction {
            GizmoDirection::X => Vec3 { x: f, y: FX_ONE, z: FX_ONE },
            GizmoDirection::Y => Vec3 { x: FX_ONE, y: f, z: FX_ONE },
            GizmoDirection::Z => Vec3 { x: FX_ONE, y: FX_ONE, z: f },
            GizmoDirection::Screen => Vec3 { x: f, y: f, z: f },
        }
    }
}

/// Applies a factor vector to the configured scale.
fn apply_factors(scale: &Vec3, f: &Vec3) -> (r: Vec3)
    requires
        b3(*scale, 1_000_000_000_000),
        b3(*f, FX_ONE as int + SCALE_FACTOR_CAP as int),
    ensures
        r == spec_apply_factors(*scale, *f),
{
    proof {
        lemma_mul_fits(scale.x as int, f.x as int, 1_000_000_000_000, 1_000_001_000_000);
        lemma_mul_fits(scale.y as int, f.y as int, 1_000_000_000_000, 1_000_001_000_000);
        lemma_mul_fits(scale.z as int, f.z as int, 1_000_000_000_000, 1_000_001_000_000);
        lemma_tdiv_fits(scale.x as int * f.x as int, FX_ONE as int,
            1_000_001_000_000_000_000_000_000);
        lemma_tdiv_fits(scale.y as int * f.y as int, FX_ONE as int,
            1_000_001_000_000_000_000_000_000);
        lemma_tdiv_fits(scale.z as int * f.z as int, FX_ONE as int,
            1_000_001_000_000_000_000_000_000);
    }
    Vec3 {
        x: mul_div(scale.x, f.x, FX_ONE),
        y: mul_div(scale.y, f.y, FX_ONE),
        z: mul_div(scale.z, f.z, FX_ONE),
    }
}

/// Computes the linear factor from an accumulated offset.
fn scale_linear_factor(subgizmo: &SubGizmo, delta: &Vec3) -> (r: i64)
    requires
        subgizmo.wf(),
        b3(*delta, 400_000_000_000),
    ensures
        r == spec_scale_linear_factor(subgizmo.config, subgizmo.direction, *delta),
        fits(r as int, FX_ONE as int + SCALE_FACTOR_CAP as int),
{
    let cfg = &subgizmo.config;
    let len = handle_length(cfg);
    if len >= 1 {
        let normal = subgizmo.normal();
        proof {
            lemma_dot3_fits(*delta, spec_normal(*cfg, subgizmo.direction), 400_000_000_000,
                NORMAL_LIM as int);
            lemma_tdiv_fits(spec_dot3(*delta, spec_normal(*cfg, subgizmo.direction)),
                FX_ONE as int, 24_000_000_000_000_000_000);
            lemma_mul_fits(tdiv(spec_dot3(*delta, spec_normal(*cfg, subgizmo.direction)),
                FX_ONE as int), FX_ONE as int, 24_000_000_000_000, FX_ONE as int);
        }
        let s: i64 = crate::fx::div_trunc(dot3(delta, &normal), FX_ONE as i128) as i64;
        let q: i128 = crate::fx::div_trunc((s as i128) * (FX_ONE as i128), len as i128);
        let clamped: i64 = if q > SCALE_FACTOR_CAP as i128 {
            SCALE_FACTOR_CAP
        } else if q < -(SCALE_FACTOR_CAP as i128) {
            -SCALE_FACTOR_CAP
        } else {
            q as i64
        };
        FX_ONE + clamped
    } else {
        FX_ONE
    }
}

/// Updates the linear scale handle during a drag: the very axis projection
/// and snapping of the linear translation handle resolve the offset, and the
/// offset's component along the axis becomes a factor on the configured
/// scale. The state advances exactly as a translation drag would.
pub fn update_scale(subgizmo: &SubGizmo, ray: &Ray, state: &mut TranslationState) -> (r: Option<
    GizmoResult,
>)
    requires
        subgizmo.wf(),
        crate::config::ray_wf(*ray),
        old(state).wf(),
    ensures
        r is Some,
        final(state).start_point == old(state).start_point,
        final(state).current_delta == spec_translation_new_delta(subgizmo.config,
            subgizmo.direction, *ray, old(state).start_point),
        final(state).last_point == old(state).start_point.spec_addv(final(state).current_delta),
        final(state).wf(),
        r matches Some(g) ==> {
            let f = spec_scale_linear_factor(subgizmo.config, subgizmo.direction,
                final(state).current_delta);
            &&& g.scale == spec_apply_factors(subgizmo.config.scale,
                spec_scale_factors(subgizmo.direction, f, false))
            &&& g.rotation == subgizmo.config.rotation
            &&& g.rotation_delta == 0
            &&& g.translation == subgizmo.config.translation
            &&& g.mode == GizmoMode::Scale
            &&& g.value == spec_scale_factors(subgizmo.direction, f, false)
        },
{
    let cfg = &subgizmo.config;
    let start = state.start_point;
    let point = point_on_axis(subgizmo, ray);
    let raw = sub3(&point, &start);
    let new_delta = if cfg.snapping {
        snap_translation_vector(cfg, &raw)
    } else {
        raw
    };
    let new_point = add3(&start, &new_delta);
    state.last_point = new_point;
    state.current_delta = new_delta;
    let f = scale_linear_factor(subgizmo, &new_delta);
    let factors = scale_factors(subgizmo.direction, f, false);
    let new_scale = apply_factors(&cfg.scale, &factors);
    Some(GizmoResult {
        scale: new_scale,
        rotation: cfg.rotation,
        rotation_axis: Vec3 { x: 0, y: 0, z: 0 },
        rotation_delta: 0,
        translation: cfg.translation,
        mode: GizmoMode::Scale,
        value: factors,
    })
}

/// The planar factor: one plus the mean of the offset's components along the
/// two spanned axes, relative to the patch size.
pub open spec fn spec_scale_planar_factor(cfg: GizmoConfig, direction: GizmoDirection,
    delta: Vec3) -> int {
    let len = spec_plane_size(cfg);
    if len >= 1 {
        let bi = spec_axis_world(cfg, spec_plane_binormal(direction));
        let ta = spec_axis_world(cfg, spec_plane_tangent(direction));
        let s = tdiv(spec_dot3(delta, bi) + spec_dot3(delta, ta), 2 * FX_ONE as int);
        FX_ONE as int + spec_clamp(tdiv(s * FX_ONE as int, len), SCALE_FACTOR_CAP as int)
    } else {
        FX_ONE as int
    }
}

/// Computes the planar factor from an accumulated offset.
fn scale_planar_factor(subgizmo: &SubGizmo, delta: &Vec3) -> (r: i64)
    requires
        subgizmo.wf(),
        b3(*delta, 400_000_000_000),
    ensures
        r == spec_scale_planar_factor(subgizmo.config, subgizmo.direction, *delta),
        fits(r as int, FX_ONE as int + SCALE_FACTOR_CAP as int),
{
    let cfg = &subgizmo.config;
    let len = translation_plane_size(subgizmo);
    if len >= 1 {
        let bi_local = translation_plane_binormal(subgizmo.direction);
        let ta_local = translation_plane_tangent(subgizmo.direction);
        let bi = if cfg.local_space() {
            proof {
                crate::quat::lemma_rotate_fits(cfg.rotation, bi_local, FX_ONE as int);
            }
            crate::quat::rotate3(&cfg.rotation, &bi_local)
        } else {
            bi_local
        };
        let ta = if cfg.local_space() {
            proof {
                crate::quat::lemma_rotate_fits(cfg.rotation, ta_local, FX_ONE as int);
            }
            crate::quat::rotate3(&cfg.rotation, &ta_local)
        } else {
            ta_local
        };
        proof {
            lemma_dot3_fits(*delta, bi, 400_000_000_000, 13_000_000);
            lemma_dot3_fits(*delta, ta, 400_000_000_000, 13_000_000);
            lemma_tdiv_fits(spec_dot3(*delta, bi) + spec_dot3(*delta, ta), 2 * FX_ONE as int,
                31_200_000_000_000_000_000);
            lemma_mul_fits(tdiv(spec_dot3(*delta, bi) + spec_dot3(*delta, ta),
                2 * FX_ONE as int), FX_ONE as int, 15_600_000_000_000, FX_ONE as int);
        }
        let s: i64 = crate::fx::div_trunc(dot3(delta, &bi) + dot3(delta, &ta),
            2 * (FX_ONE as i128)) as i64;
        let q: i128 = crate::fx::div_trunc((s as i128) * (FX_ONE as i128), len as i128);
        let clamped: i64 = if q > SCALE_FACTOR_CAP as i128 {
            SCALE_FACTOR_CAP
        } else if q < -(SCALE_FACTOR_CAP as i128) {
            -SCALE_FACTOR_CAP
        } else {
            q as i64
        };
        FX_ONE + clamped
    } else {
        FX_ONE
    }
}

/// Updates the planar scale handle during a drag: the very plane
/// intersection and snapping of the planar translation handle resolve the
/// offset, and its components along the spanned axes become a factor on the
/// configured scale; a ray parallel to the plane changes nothing this frame.
pub fn update_scale_plane(subgizmo: &SubGizmo, ray: &Ray, state: &mut TranslationState) -> (r:
    Option<GizmoResult>)
    requires
        subgizmo.wf(),
        crate::config::ray_wf(*ray),
        old(state).wf(),
    ensures
        (r is Some) <==> (spec_plane_pick_t(subgizmo.config, subgizmo.direction, *ray)
            is Some),
        r is None ==> *final(state) == *old(state),
        spec_plane_pick_t(subgizmo.config, subgizmo.direction, *ray) matches Some(t) ==> {
            &&& final(state).start_point == old(state).start_point
            &&& final(state).current_delta == spec_plane_new_delta(subgizmo.config,
                subgizmo.direction, *ray, old(state).start_point, t)
            &&& final(state).last_point == old(state).start_point.spec_addv(
                final(state).current_delta)
            &&& final(state).wf()
            &&& r matches Some(g) ==> {
                let f = spec_scale_planar_factor(subgizmo.config, subgizmo.direction,
                    final(state).current_delta);
                &&& g.scale == spec_apply_factors(subgizmo.config.scale,
                    spec_scale_factors(subgizmo.direction, f, true))
                &&& g.rotation == subgizmo.config.rotation
                &&& g.rotation_delta == 0
                &&& g.translation == subgizmo.config.translation
                &&& g.mode == GizmoMode::Scale
                &&& g.value == spec_scale_factors(subgizmo.direction, f, true)
            }
        },
{
    let cfg = &subgizmo.config;
    let start = state.start_point;
    let normal = subgizmo.normal();
    let origin = translation_plane_global_origin(subgizmo);
    let point = match point_on_plane(&normal, &origin, ray) {
        Some(p) => p,
        None => {
            return None;
        },
    };
    let raw = sub3(&point, &start);
    let new_delta = if cfg.snapping {
        snap_translation_plane(subgizmo, &raw)
    } else {
        raw
    };
    let new_point = add3(&start, &new_delta);
    state.last_point = new_point;
    state.current_delta = new_delta;
    let f = scale_planar_factor(subgizmo, &new_delta);
    let factors = scale_factors(subgizmo.direction, f, true);
    let new_scale = apply_factors(&cfg.scale, &factors);
    Some(GizmoResult {
        scale: new_scale,
        rotation: cfg.rotation,
        rotation_axis: Vec3 { x: 0, y: 0, z: 0 },
        rotation_delta: 0,
        translation: cfg.translation,
        mode: GizmoMode::Scale,
        value: factors,
    })
}

} // verus!
