//! Picking and dragging of the translation handles: a linear handle tested
//! as a finite arrow segment against a long pointer-ray segment, and a planar
//! handle tested as a plane patch offset diagonally from the object.
//!
//! The scale family reuses every geometric step of this module and differs
//! only in how the accumulated delta is interpreted downstream.

use vstd::prelude::*;

verus! {

use crate::fx::{fits, tdiv, FX_ONE, mul_div, spec_round_to_interval, round_to_interval,
    lemma_mul_fits, lemma_tdiv_fits};
use crate::vec3::{Vec3, b3, v3, spec_dot3, spec_cross3, spec_scale3, spec_norm2, spec_dist3,
    sqrt_of,
    add3, sub3, neg3, scale3, dot3, length3, dist3, lemma_dot3_fits, lemma_mul_div_self,
    lemma_sqrt_unique};
use crate::quat::{spec_rotate, rotate3, lemma_rotate_fits};
use crate::mat4::{spec_world_to_screen, spec_clamp, world_to_screen, dist2};
use crate::config::{GizmoConfig, GizmoDirection, GizmoMode, GizmoResult, Ray, RAY_T_LIM};
use crate::state::TranslationState;
use crate::subgizmo::{SubGizmo, spec_local_normal, spec_normal};
use crate::geom::{spec_plane_t, spec_ray_point, spec_ray_to_ray, spec_segment_to_segment,
    intersect_plane, ray_point, ray_to_ray, segment_to_segment, NORMAL_LIM};

/// Length of the pseudo-infinite segment that stands in for the pointer ray
/// in the linear pick test (the supported world volume's diameter).
pub const PICK_RAY_LEN: i64 = 2_000_000_000;

/// Projected handle endpoints closer than this on screen make the handle
/// edge-on and not interactable.
pub const VISIBILITY_EPS: i64 = 5_000_000;

/// Deltas shorter than this are not snapped (the direction would be
/// meaningless).
pub const SNAP_LEN_EPS: i64 = 10;

/// Per-component cap on a snapped offset: the supported drag volume.
pub const SNAP_CLAMP: i64 = 200_000_000_000;

/// The handle's visual arrow length: base size times the view scale factor.
pub open spec fn spec_handle_length(cfg: GizmoConfig) -> int {
    tdiv(cfg.scale_factor * cfg.gizmo_size, FX_ONE as int)
}

/// The handle's visual stroke width times the view scale factor.
pub open spec fn spec_handle_width(cfg: GizmoConfig) -> int {
    tdiv(cfg.scale_factor * cfg.stroke_width, FX_ONE as int)
}

/// A local point taken to world space: rotated by the object in local space,
/// then translated.
pub open spec fn spec_transform_local(cfg: GizmoConfig, p: Vec3) -> Vec3 {
    let q = if cfg.local_space {
        spec_rotate(cfg.rotation, p)
    } else {
        p
    };
    Vec3 {
        x: (q.x + cfg.translation.x) as i64,
        y: (q.y + cfg.translation.y) as i64,
        z: (q.z + cfg.translation.z) as i64,
    }
}

/// The handle's visual arrow length, non-negative.
pub fn handle_length(cfg: &GizmoConfig) -> (r: i64)
    requires
        cfg.wf(),
    ensures
        r == spec_handle_length(*cfg),
        0 <= r <= 1_000_000_000,
{
    proof {
        lemma_mul_fits(cfg.scale_factor as int, cfg.gizmo_size as int, 10_000_000, 100_000_000);
        lemma_tdiv_fits(cfg.scale_factor as int * cfg.gizmo_size as int, FX_ONE as int,
            1_000_000_000_000_000);
        crate::fx::lemma_tdiv_nonneg(cfg.scale_factor as int * cfg.gizmo_size as int,
            FX_ONE as int);
    }
    mul_div(cfg.scale_factor, cfg.gizmo_size, FX_ONE)
}

/// The handle's visual stroke width, non-negative.
pub fn handle_width(cfg: &GizmoConfig) -> (r: i64)
    requires
        cfg.wf(),
    ensures
        r == spec_handle_width(*cfg),
        0 <= r <= 1_000_000_000,
{
    proof {
        lemma_mul_fits(cfg.scale_factor as int, cfg.stroke_width as int, 10_000_000,
            100_000_000);
        lemma_tdiv_fits(cfg.scale_factor as int * cfg.stroke_width as int, FX_ONE as int,
            1_000_000_000_000_000);
        crate::fx::lemma_tdiv_nonneg(cfg.scale_factor as int * cfg.stroke_width as int,
            FX_ONE as int);
    }
    mul_div(cfg.scale_factor, cfg.stroke_width, FX_ONE)
}

/// Takes a local point to world space.
pub fn transform_local_point(cfg: &GizmoConfig, p: &Vec3) -> (r: Vec3)
    requires
        cfg.wf(),
        b3(*p, 4_200_000_000),
    ensures
        r == spec_transform_local(*cfg, *p),
        b3(r, 56_000_000_000),
{
    let q = if cfg.local_space() {
        rotate3(&cfg.rotation, p)
    } else {
        *p
    };
    add3(&q, &cfg.translation)
}

/// Whether the linear handle is interactable: its projected endpoints must
/// not (both) land within `VISIBILITY_EPS` of each other on screen.
pub open spec fn spec_translation_visible(cfg: GizmoConfig, direction: GizmoDirection) -> bool {
    let dir = spec_local_normal(cfg, direction);
    let width = spec_handle_width(cfg);
    let arrow = tdiv(width * 2_400_000, FX_ONE as int);
    let len2 = spec_handle_length(cfg) - arrow;
    let start = v3(spec_scale3(dir, width, FX_ONE as int));
    let end = v3(spec_scale3(dir, len2 as int, FX_ONE as int));
    let ws = spec_world_to_screen(cfg.viewport, cfg.view_projection,
        spec_transform_local(cfg, start));
    let we = spec_world_to_screen(cfg.viewport, cfg.view_projection,
        spec_transform_local(cfg, end));
    if (ws is Some) && (we is Some) {
        let s = ws.unwrap();
        let e = we.unwrap();
        sqrt_of((s.0 - e.0) * (s.0 - e.0) + (s.1 - e.1) * (s.1 - e.1)) >= VISIBILITY_EPS as int
    } else {
        true
    }
}

/// Whether the linear handle is interactable this frame.
pub fn translation_is_visible(subgizmo: &SubGizmo) -> (r: bool)
    requires
        subgizmo.wf(),
    ensures
        r == spec_translation_visible(subgizmo.config, subgizmo.direction),
{
    let cfg = &subgizmo.config;
    let dir = subgizmo.local_normal();
    let width = handle_width(cfg);
    let length = handle_length(cfg);
    proof {
        lemma_mul_fits(width as int, 2_400_000, 1_000_000_000, 2_400_000);
        lemma_tdiv_fits(width as int * 2_400_000, FX_ONE as int, 2_400_000_000_000_000);
        lemma_mul_fits(dir.x as int, width as int, FX_ONE as int, 1_000_000_000);
        lemma_mul_fits(dir.y as int, width as int, FX_ONE as int, 1_000_000_000);
        lemma_mul_fits(dir.z as int, width as int, FX_ONE as int, 1_000_000_000);
        lemma_tdiv_fits(dir.x as int * width as int, FX_ONE as int, 1_000_000_000_000_000);
        lemma_tdiv_fits(dir.y as int * width as int, FX_ONE as int, 1_000_000_000_000_000);
        lemma_tdiv_fits(dir.z as int * width as int, FX_ONE as int, 1_000_000_000_000_000);
    }
    let arrow = mul_div(width, 2_400_000, FX_ONE);
    let len2 = length - arrow;
    let start = scale3(&dir, width, FX_ONE);
    proof {
        lemma_mul_fits(dir.x as int, len2 as int, FX_ONE as int, 3_400_000_000);
        lemma_mul_fits(dir.y as int, len2 as int, FX_ONE as int, 3_400_000_000);
        lemma_mul_fits(dir.z as int, len2 as int, FX_ONE as int, 3_400_000_000);
        lemma_tdiv_fits(dir.x as int * len2 as int, FX_ONE as int, 3_400_000_000_000_000);
        lemma_tdiv_fits(dir.y as int * len2 as int, FX_ONE as int, 3_400_000_000_000_000);
        lemma_tdiv_fits(dir.z as int * len2 as int, FX_ONE as int, 3_400_000_000_000_000);
    }
    let end = scale3(&dir, len2, FX_ONE);
    let wstart = transform_local_point(cfg, &start);
    let wend = transform_local_point(cfg, &end);
    let ss = world_to_screen(&cfg.viewport, &cfg.view_projection, &wstart);
    let se = world_to_screen(&cfg.viewport, &cfg.view_projection, &wend);
    match (ss, se) {
        (Some(s), Some(e)) => {
            let d = dist2(&s, &e);
            proof {
                lemma_sqrt_unique(
                    (s.x - e.x) * (s.x - e.x) + (s.y - e.y) * (s.y - e.y),
                    d as int,
                );
            }
            d >= VISIBILITY_EPS
        },
        _ => true,
    }
}

/// The point a fraction `s` (in `FX_ONE` units) along the segment `a..b`.
pub open spec fn spec_seg_point(a: Vec3, b: Vec3, s: int) -> Vec3 {
    Vec3 {
        x: (a.x + tdiv((b.x - a.x) * s, FX_ONE as int)) as i64,
        y: (a.y + tdiv((b.y - a.y) * s, FX_ONE as int)) as i64,
        z: (a.z + tdiv((b.z - a.z) * s, FX_ONE as int)) as i64,
    }
}

/// The point a fraction `s` along the segment `a..b`.
pub fn seg_point(a: &Vec3, b: &Vec3, s: i64) -> (r: Vec3)
    requires
        b3(*a, 22_000_000_000),
        b3(*b, 22_000_000_000),
        0 <= s <= FX_ONE,
    ensures
        r == spec_seg_point(*a, *b, s as int),
        b3(r, 66_000_000_000),
{
    let d = sub3(b, a);
    proof {
        lemma_mul_fits(d.x as int, s as int, 44_000_000_000, FX_ONE as int);
        lemma_mul_fits(d.y as int, s as int, 44_000_000_000, FX_ONE as int);
        lemma_mul_fits(d.z as int, s as int, 44_000_000_000, FX_ONE as int);
        lemma_tdiv_fits(d.x as int * s as int, FX_ONE as int, 44_000_000_000_000_000);
        lemma_tdiv_fits(d.y as int * s as int, FX_ONE as int, 44_000_000_000_000_000);
        lemma_tdiv_fits(d.z as int * s as int, FX_ONE as int, 44_000_000_000_000_000);
    }
    let sd = scale3(&d, s, FX_ONE);
    add3(a, &sd)
}

/// The far end of the pick segment that stands in for the pointer ray.
pub open spec fn spec_pick_ray_end(ray: Ray) -> Vec3 {
    v3(spec_scale3(ray.direction, PICK_RAY_LEN as int, FX_ONE as int)).spec_addv(ray.origin)
}

/// World endpoint of the handle's arrow segment.
pub open spec fn spec_handle_seg_end(cfg: GizmoConfig, direction: GizmoDirection) -> Vec3 {
    v3(spec_scale3(spec_normal(cfg, direction), spec_handle_length(cfg), FX_ONE as int))
        .spec_addv(cfg.translation)
}

/// Both pick-segment fractions of the linear test: along the pointer
/// segment and along the handle segment.
pub open spec fn spec_translation_pick_fractions(cfg: GizmoConfig, direction: GizmoDirection,
    ray: Ray) -> (int, int) {
    spec_segment_to_segment(ray.origin, spec_pick_ray_end(ray), cfg.translation,
        spec_handle_seg_end(cfg, direction))
}

/// The point on the pointer segment closest to the handle segment.
pub open spec fn spec_translation_ray_point(cfg: GizmoConfig, direction: GizmoDirection,
    ray: Ray) -> Vec3 {
    spec_seg_point(ray.origin, spec_pick_ray_end(ray),
        spec_translation_pick_fractions(cfg, direction, ray).0)
}

/// The point on the handle segment closest to the pointer segment: the point
/// a linear pick seeds the drag state with.
pub open spec fn spec_translation_handle_point(cfg: GizmoConfig, direction: GizmoDirection,
    ray: Ray) -> Vec3 {
    spec_seg_point(cfg.translation, spec_handle_seg_end(cfg, direction),
        spec_translation_pick_fractions(cfg, direction, ray).1)
}

/// Whether a linear pick hits: the handle is interactable and the two
/// closest points lie within the focus tolerance.
pub open spec fn spec_translation_pick_hit(cfg: GizmoConfig, direction: GizmoDirection,
    ray: Ray) -> bool {
    &&& spec_translation_visible(cfg, direction)
    &&& spec_dist3(
        spec_translation_ray_point(cfg, direction, ray),
        spec_translation_handle_point(cfg, direction, ray),
    ) <= cfg.focus_distance as int
}

/// Picks the linear handle. Seeds the drag state with the closest point on
/// the handle segment and returns the distance from the ray origin to the
/// closest ray point when the handle is interactable and within the focus
/// tolerance; an edge-on handle leaves the state untouched.
pub fn pick_translation(subgizmo: &SubGizmo, ray: &Ray, state: &mut TranslationState) -> (r:
    Option<i64>)
    requires
        subgizmo.wf(),
        crate::config::ray_wf(*ray),
    ensures
        !spec_translation_visible(subgizmo.config, subgizmo.direction) ==> {
            &&& r is None
            &&& *final(state) == *old(state)
        },
        spec_translation_visible(subgizmo.config, subgizmo.direction) ==> {
            &&& final(state).start_point == spec_translation_handle_point(subgizmo.config,
                subgizmo.direction, *ray)
            &&& final(state).last_point == final(state).start_point
            &&& final(state).current_delta == (Vec3 { x: 0, y: 0, z: 0 })
            &&& final(state).wf()
            &&& (r is Some) <==> spec_translation_pick_hit(subgizmo.config, subgizmo.direction,
                *ray)
            &&& r matches Some(d) ==> d as int == spec_dist3(ray.origin,
                spec_translation_ray_point(subgizmo.config, subgizmo.direction, *ray))
        },
{
    if !translation_is_visible(subgizmo) {
        return None;
    }
    let cfg = &subgizmo.config;
    let origin = cfg.translation;
    let dir = subgizmo.normal();
    let length = handle_length(cfg);
    proof {
        lemma_mul_fits(ray.direction.x as int, PICK_RAY_LEN as int, FX_ONE as int,
            PICK_RAY_LEN as int);
        lemma_mul_fits(ray.direction.y as int, PICK_RAY_LEN as int, FX_ONE as int,
            PICK_RAY_LEN as int);
        lemma_mul_fits(ray.direction.z as int, PICK_RAY_LEN as int, FX_ONE as int,
            PICK_RAY_LEN as int);
        lemma_tdiv_fits(ray.direction.x as int * PICK_RAY_LEN as int, FX_ONE as int,
            2_000_000_000_000_000);
        lemma_tdiv_fits(ray.direction.y as int * PICK_RAY_LEN as int, FX_ONE as int,
            2_000_000_000_000_000);
        lemma_tdiv_fits(ray.direction.z as int * PICK_RAY_LEN as int, FX_ONE as int,
            2_000_000_000_000_000);
        lemma_mul_fits(dir.x as int, length as int, NORMAL_LIM as int, 1_000_000_000);
        lemma_mul_fits(dir.y as int, length as int, NORMAL_LIM as int, 1_000_000_000);
        lemma_mul_fits(dir.z as int, length as int, NORMAL_LIM as int, 1_000_000_000);
        lemma_tdiv_fits(dir.x as int * length as int, FX_ONE as int,
            20_000_000_000_000_000);
        lemma_tdiv_fits(dir.y as int * length as int, FX_ONE as int,
            20_000_000_000_000_000);
        lemma_tdiv_fits(dir.z as int * length as int, FX_ONE as int,
            20_000_000_000_000_000);
    }
    let ray_end = add3(&ray.origin, &scale3(&ray.direction, PICK_RAY_LEN, FX_ONE));
    let handle_end = add3(&origin, &scale3(&dir, length, FX_ONE));
    let (ray_t, subgizmo_t) = segment_to_segment(&ray.origin, &ray_end, &origin, &handle_end);
    let rp = seg_point(&ray.origin, &ray_end, ray_t);
    let sp = seg_point(&origin, &handle_end, subgizmo_t);
    let dist = dist3(&rp, &sp);
    state.start_point = sp;
    state.last_point = sp;
    state.current_delta = Vec3 { x: 0, y: 0, z: 0 };
    if dist <= cfg.focus_distance {
        Some(dist3(&ray.origin, &rp))
    } else {
        None
    }
}

/// Each component clamped to `[-lim, lim]`.
pub open spec fn spec_clamp3(v: Vec3, lim: int) -> Vec3 {
    Vec3 {
        x: spec_clamp(v.x as int, lim) as i64,
        y: spec_clamp(v.y as int, lim) as i64,
        z: spec_clamp(v.z as int, lim) as i64,
    }
}

/// Clamps each component to `[-lim, lim]`.
fn clamp3(v: &Vec3, lim: i64) -> (r: Vec3)
    requires
        0 <= lim,
    ensures
        r == spec_clamp3(*v, lim as int),
        b3(r, lim as int),
{
    let x = if v.x > lim { lim } else if v.x < -lim { -lim } else { v.x };
    let y = if v.y > lim { lim } else if v.y < -lim { -lim } else { v.y };
    let z = if v.z > lim { lim } else if v.z < -lim { -lim } else { v.z };
    Vec3 { x, y, z }
}

/// The point on the handle's constraint line nearest the pointer ray.
pub open spec fn spec_point_on_axis(cfg: GizmoConfig, direction: GizmoDirection, ray: Ray)
    -> Vec3 {
    let t2 = spec_ray_to_ray(ray.origin, ray.direction, cfg.translation,
        spec_normal(cfg, direction)).1;
    v3(spec_scale3(spec_normal(cfg, direction), t2, FX_ONE as int)).spec_addv(cfg.translation)
}

/// Finds the point on the handle's constraint line nearest the pointer ray.
pub fn point_on_axis(subgizmo: &SubGizmo, ray: &Ray) -> (r: Vec3)
    requires
        subgizmo.wf(),
        crate::config::ray_wf(*ray),
    ensures
        r == spec_point_on_axis(subgizmo.config, subgizmo.direction, *ray),
        b3(r, 41_000_000_000),
{
    let origin = subgizmo.config.translation;
    let direction = subgizmo.normal();
    let (_ray_t, subgizmo_t) = ray_to_ray(&ray.origin, &ray.direction, &origin, &direction);
    proof {
        lemma_mul_fits(direction.x as int, subgizmo_t as int, NORMAL_LIM as int,
            RAY_T_LIM as int);
        lemma_mul_fits(direction.y as int, subgizmo_t as int, NORMAL_LIM as int,
            RAY_T_LIM as int);
        lemma_mul_fits(direction.z as int, subgizmo_t as int, NORMAL_LIM as int,
            RAY_T_LIM as int);
        lemma_tdiv_fits(direction.x as int * subgizmo_t as int, FX_ONE as int,
            40_000_000_000_000_000);
        lemma_tdiv_fits(direction.y as int * subgizmo_t as int, FX_ONE as int,
            40_000_000_000_000_000);
        lemma_tdiv_fits(direction.z as int * subgizmo_t as int, FX_ONE as int,
            40_000_000_000_000_000);
    }
    add3(&origin, &scale3(&direction, subgizmo_t, FX_ONE))
}

/// The delta snapped along its own direction: the length is rounded to the
/// distance increment while the direction is kept; deltas too short to have
/// a direction pass through unchanged.
pub open spec fn spec_snap_translation_vector(cfg: GizmoConfig, d: Vec3) -> Vec3 {
    let len = sqrt_of(spec_norm2(d));
    if len > SNAP_LEN_EPS as int {
        let rounded = spec_round_to_interval(len, cfg.snap_distance as int);
        Vec3 {
            x: tdiv(d.x * rounded, len) as i64,
            y: tdiv(d.y * rounded, len) as i64,
            z: tdiv(d.z * rounded, len) as i64,
        }
    } else {
        d
    }
}

/// Rounds the delta's length to the distance increment, keeping direction.
pub fn snap_translation_vector(cfg: &GizmoConfig, d: &Vec3) -> (r: Vec3)
    requires
        cfg.wf(),
        b3(*d, 120_000_000_000),
    ensures
        r == spec_snap_translation_vector(*cfg, *d),
        b3(r, 250_000_000_000),
{
    let len = length3(d);
    proof {
        lemma_sqrt_unique(spec_norm2(*d), len as int);
        lemma_dot3_fits(*d, *d, 120_000_000_000, 120_000_000_000);
        assert(len as int <= 210_000_000_000) by (nonlinear_arith)
            requires
                (len as int) * (len as int) <= spec_norm2(*d)
                && spec_norm2(*d) <= 43_200_000_000_000_000_000_000
                && len as int >= 0;
    }
    if len > SNAP_LEN_EPS {
        let rounded = round_to_interval(len, cfg.snap_distance);
        proof {
            crate::fx::lemma_round_nonneg(len as int, cfg.snap_distance as int);
            lemma_mul_fits(d.x as int, rounded as int, len as int, len as int + 1_000_000_000);
            lemma_mul_fits(d.y as int, rounded as int, len as int, len as int + 1_000_000_000);
            lemma_mul_fits(d.z as int, rounded as int, len as int, len as int + 1_000_000_000);
            lemma_tdiv_fits(d.x as int * rounded as int, len as int,
                len as int * (len as int + 1_000_000_000));
            lemma_tdiv_fits(d.y as int * rounded as int, len as int,
                len as int * (len as int + 1_000_000_000));
            lemma_tdiv_fits(d.z as int * rounded as int, len as int,
                len as int * (len as int + 1_000_000_000));
            lemma_mul_div_self(len as int, len as int + 1_000_000_000);
        }
        Vec3 {
            x: mul_div(d.x, rounded, len),
            y: mul_div(d.y, rounded, len),
            z: mul_div(d.z, rounded, len),
        }
    } else {
        *d
    }
}

/// The linear drag's new offset from the start point: the nearest line point
/// minus the start, snapped when snapping is on.
pub open spec fn spec_translation_new_delta(cfg: GizmoConfig, direction: GizmoDirection,
    ray: Ray, start: Vec3) -> Vec3 {
    let p = spec_point_on_axis(cfg, direction, ray);
    let raw = Vec3 {
        x: (p.x - start.x) as i64,
        y: (p.y - start.y) as i64,
        z: (p.z - start.z) as i64,
    };
    if cfg.snapping {
        spec_snap_translation_vector(cfg, raw)
    } else {
        raw
    }
}

/// Updates the linear handle during a drag: the ray is projected onto the
/// constraint line, the offset since the start point is snapped when
/// snapping is on, and the state advances to the resolved point. The result
/// proposes the translation moved by this frame's motion and reports the
/// accumulated offset.
pub fn update_translation(subgizmo: &SubGizmo, ray: &Ray, state: &mut TranslationState) -> (r:
    Option<GizmoResult>)
    requires
        subgizmo.wf(),
        crate::config::ray_wf(*ray),
        old(state).wf(),
    ensures
        r is Some,
        final(state).start_point == old(state).start_point,
        final(state).current_delta == spec_translation_new_delta(subgizmo.config,
            subgizmo.direction, *ray, old(state).start_point),
        final(state).last_point == old(state).start_point.spec_addv(final(state).current_delta),
        final(state).wf(),
        r matches Some(g) ==> {
            &&& g.scale == subgizmo.config.scale
            &&& g.rotation == subgizmo.config.rotation
            &&& g.rotation_delta == 0
            &&& g.translation == (Vec3 {
                x: (subgizmo.config.translation.x + final(state).last_point.x
                    - old(state).last_point.x) as i64,
                y: (subgizmo.config.translation.y + final(state).last_point.y
                    - old(state).last_point.y) as i64,
                z: (subgizmo.config.translation.z + final(state).last_point.z
                    - old(state).last_point.z) as i64,
            })
            &&& g.mode == GizmoMode::Translate
            &&& g.value == final(state).current_delta
        },
{
    let cfg = &subgizmo.config;
    let start = state.start_point;
    let old_last = state.last_point;
    let point = point_on_axis(subgizmo, ray);
    let raw = sub3(&point, &start);
    let new_delta = if cfg.snapping {
        snap_translation_vector(cfg, &raw)
    } else {
        raw
    };
    let new_point = add3(&start, &new_delta);
    state.last_point = new_point;
    state.current_delta = new_delta;
    let moved = sub3(&add3(&cfg.translation, &new_point), &old_last);
    Some(GizmoResult {
        scale: cfg.scale,
        rotation: cfg.rotation,
        rotation_axis: Vec3 { x: 0, y: 0, z: 0 },
        rotation_delta: 0,
        translation: moved,
        mode: GizmoMode::Translate,
        value: new_delta,
    })
}

/// First spanning axis of a planar handle (cyclic permutation of the axes).
pub open spec fn spec_plane_binormal(direction: GizmoDirection) -> Vec3 {
    match direction {
        GizmoDirection::X => Vec3 { x: 0, y: FX_ONE, z: 0 },
        GizmoDirection::Y => Vec3 { x: 0, y: 0, z: FX_ONE },
        GizmoDirection::Z => Vec3 { x: FX_ONE, y: 0, z: 0 },
        GizmoDirection::Screen => Vec3 { x: FX_ONE, y: 0, z: 0 },
    }
}

/// Second spanning axis of a planar handle (cyclic permutation of the axes).
pub open spec fn spec_plane_tangent(direction: GizmoDirection) -> Vec3 {
    match direction {
        GizmoDirection::X => Vec3 { x: 0, y: 0, z: FX_ONE },
        GizmoDirection::Y => Vec3 { x: FX_ONE, y: 0, z: 0 },
        GizmoDirection::Z => Vec3 { x: 0, y: FX_ONE, z: 0 },
        GizmoDirection::Screen => Vec3 { x: FX_ONE, y: 0, z: 0 },
    }
}

/// First spanning axis of the planar handle.
pub fn translation_plane_binormal(direction: GizmoDirection) -> (r: Vec3)
    ensures
        r == spec_plane_binormal(direction),
        b3(r, FX_ONE as int),
{
    match direction {
        GizmoDirection::X => Vec3 { x: 0, y: FX_ONE, z: 0 },
        GizmoDirection::Y => Vec3 { x: 0, y: 0, z: FX_ONE },
        GizmoDirection::Z => Vec3 { x: FX_ONE, y: 0, z: 0 },
        GizmoDirection::Screen => Vec3 { x: FX_ONE, y: 0, z: 0 },
    }
}

/// Second spanning axis of the planar handle.
pub fn translation_plane_tangent(direction: GizmoDirection) -> (r: Vec3)
    ensures
        r == spec_plane_tangent(direction),
        b3(r, FX_ONE as int),
{
    match direction {
        GizmoDirection::X => Vec3 { x: 0, y: 0, z: FX_ONE },
        GizmoDirection::Y => Vec3 { x: FX_ONE, y: 0, z: 0 },
        GizmoDirection::Z => Vec3 { x: 0, y: FX_ONE, z: 0 },
        GizmoDirection::Screen => Vec3 { x: FX_ONE, y: 0, z: 0 },
    }
}

/// Visual size of the plane patch.
pub open spec fn spec_plane_size(cfg: GizmoConfig) -> int {
    tdiv(cfg.scale_factor * (tdiv(cfg.gizmo_size as int, 10) + 2 * cfg.stroke_width),
        FX_ONE as int)
}

/// Visual size of the plane patch, non-negative.
pub fn translation_plane_size(subgizmo: &SubGizmo) -> (r: i64)
    requires
        subgizmo.wf(),
    ensures
        r == spec_plane_size(subgizmo.config),
        0 <= r <= 3_000_000_000,
{
    let cfg = &subgizmo.config;
    proof {
        crate::fx::lemma_tdiv_nonneg(cfg.gizmo_size as int, 10);
        lemma_tdiv_fits(cfg.gizmo_size as int, 10, 100_000_000);
        lemma_mul_fits(cfg.scale_factor as int, tdiv(cfg.gizmo_size as int, 10)
            + 2 * cfg.stroke_width as int, 10_000_000, 300_000_000);
        lemma_tdiv_fits(cfg.scale_factor as int * (tdiv(cfg.gizmo_size as int, 10)
            + 2 * cfg.stroke_width as int), FX_ONE as int, 3_000_000_000_000_000);
        crate::fx::lemma_tdiv_nonneg(cfg.scale_factor as int * (tdiv(cfg.gizmo_size as int, 10)
            + 2 * cfg.stroke_width as int), FX_ONE as int);
        crate::fx::lemma_mul_fits(cfg.scale_factor as int, tdiv(cfg.gizmo_size as int, 10)
            + 2 * cfg.stroke_width as int, 10_000_000, 300_000_000);
        vstd::arithmetic::mul::lemma_mul_nonnegative(cfg.scale_factor as int,
            tdiv(cfg.gizmo_size as int, 10) + 2 * cfg.stroke_width as int);
    }
    let g10: i128 = crate::fx::div_trunc(cfg.gizmo_size as i128, 10);
    let inner: i64 = (g10 as i64) + 2 * cfg.stroke_width;
    mul_div(cfg.scale_factor, inner, FX_ONE)
}

/// Local origin of the plane patch: offset diagonally from the object origin
/// by a fraction of the gizmo's visual size.
pub open spec fn spec_plane_local_origin(cfg: GizmoConfig, direction: GizmoDirection) -> Vec3 {
    let offset = tdiv(spec_handle_length(cfg) * 2, 5);
    let ab = spec_plane_binormal(direction).spec_addv(spec_plane_tangent(direction));
    v3(spec_scale3(ab, offset, FX_ONE as int))
}

/// Local origin of the plane patch.
pub fn translation_plane_local_origin(subgizmo: &SubGizmo) -> (r: Vec3)
    requires
        subgizmo.wf(),
    ensures
        r == spec_plane_local_origin(subgizmo.config, subgizmo.direction),
        b3(r, 1_000_000_000),
{
    let length = handle_length(&subgizmo.config);
    proof {
        lemma_mul_fits(length as int, 2, 1_000_000_000, 2);
        lemma_tdiv_fits(length as int * 2, 5, 2_000_000_000);
    }
    let offset = mul_div(length, 2, 5);
    let a = translation_plane_binormal(subgizmo.direction);
    let b = translation_plane_tangent(subgizmo.direction);
    let ab = add3(&a, &b);
    proof {
        lemma_mul_fits(ab.x as int, offset as int, 2_000_000, 400_000_000);
        lemma_mul_fits(ab.y as int, offset as int, 2_000_000, 400_000_000);
        lemma_mul_fits(ab.z as int, offset as int, 2_000_000, 400_000_000);
        lemma_tdiv_fits(ab.x as int * offset as int, FX_ONE as int, 800_000_000_000_000);
        lemma_tdiv_fits(ab.y as int * offset as int, FX_ONE as int, 800_000_000_000_000);
        lemma_tdiv_fits(ab.z as int * offset as int, FX_ONE as int, 800_000_000_000_000);
    }
    scale3(&ab, offset, FX_ONE)
}

/// World origin of the plane patch.
pub open spec fn spec_plane_global_origin(cfg: GizmoConfig, direction: GizmoDirection) -> Vec3 {
    spec_transform_local(cfg, spec_plane_local_origin(cfg, direction))
}

/// World origin of the plane patch.
pub fn translation_plane_global_origin(subgizmo: &SubGizmo) -> (r: Vec3)
    requires
        subgizmo.wf(),
    ensures
        r == spec_plane_global_origin(subgizmo.config, subgizmo.direction),
        b3(r, 56_000_000_000),
{
    let local = translation_plane_local_origin(subgizmo);
    transform_local_point(&subgizmo.config, &local)
}

/// A local axis taken to world space (rotated in local space, untranslated).
pub open spec fn spec_axis_world(cfg: GizmoConfig, v: Vec3) -> Vec3 {
    if cfg.local_space {
        spec_rotate(cfg.rotation, v)
    } else {
        v
    }
}

/// Whether two world points project to screen positions closer than the
/// visibility threshold (both must project for the test to bind).
pub open spec fn spec_pair_edge_on(cfg: GizmoConfig, p: Vec3, q: Vec3) -> bool {
    let ws = spec_world_to_screen(cfg.viewport, cfg.view_projection, p);
    let we = spec_world_to_screen(cfg.viewport, cfg.view_projection, q);
    if (ws is Some) && (we is Some) {
        let s = ws.unwrap();
        let e = we.unwrap();
        sqrt_of((s.0 - e.0) * (s.0 - e.0) + (s.1 - e.1) * (s.1 - e.1)) < VISIBILITY_EPS as int
    } else {
        false
    }
}

/// Whether the planar handle is interactable: neither of its two spans may
/// project edge-on (endpoints within `VISIBILITY_EPS` on screen).
pub open spec fn spec_translation_plane_visible(cfg: GizmoConfig, direction: GizmoDirection)
    -> bool {
    let origin = spec_plane_global_origin(cfg, direction);
    let size2 = tdiv(spec_plane_size(cfg), 2);
    let a = spec_axis_world(cfg, v3(spec_scale3(spec_plane_binormal(direction), size2,
        FX_ONE as int)));
    let b = spec_axis_world(cfg, v3(spec_scale3(spec_plane_tangent(direction), size2,
        FX_ONE as int)));
    let pa0 = Vec3 {
        x: (origin.x - a.x) as i64,
        y: (origin.y - a.y) as i64,
        z: (origin.z - a.z) as i64,
    };
    let pa1 = Vec3 {
        x: (origin.x + a.x) as i64,
        y: (origin.y + a.y) as i64,
        z: (origin.z + a.z) as i64,
    };
    let pb0 = Vec3 {
        x: (origin.x - b.x) as i64,
        y: (origin.y - b.y) as i64,
        z: (origin.z - b.z) as i64,
    };
    let pb1 = Vec3 {
        x: (origin.x + b.x) as i64,
        y: (origin.y + b.y) as i64,
        z: (origin.z + b.z) as i64,
    };
    !spec_pair_edge_on(cfg, pa0, pa1) && !spec_pair_edge_on(cfg, pb0, pb1)
}

/// Tests one span of the plane patch for the edge-on condition.
fn pair_edge_on(cfg: &GizmoConfig, p: &Vec3, q: &Vec3) -> (r: bool)
    requires
        cfg.wf(),
        b3(*p, 80_000_000_000),
        b3(*q, 80_000_000_000),
    ensures
        r == spec_pair_edge_on(*cfg, *p, *q),
{
    let ws = world_to_screen(&cfg.viewport, &cfg.view_projection, p);
    let we = world_to_screen(&cfg.viewport, &cfg.view_projection, q);
    match (ws, we) {
        (Some(s), Some(e)) => {
            let d = dist2(&s, &e);
            proof {
                lemma_sqrt_unique(
                    (s.x - e.x) * (s.x - e.x) + (s.y - e.y) * (s.y - e.y),
                    d as int,
                );
            }
            d < VISIBILITY_EPS
        },
        _ => false,
    }
}

/// Whether the planar handle is interactable this frame.
pub fn translation_plane_is_visible(subgizmo: &SubGizmo) -> (r: bool)
    requires
        subgizmo.wf(),
    ensures
        r == spec_translation_plane_visible(subgizmo.config, subgizmo.direction),
{
    let cfg = &subgizmo.config;
    let origin = translation_plane_global_origin(subgizmo);
    let size = translation_plane_size(subgizmo);
    let size2: i64 = (crate::fx::div_trunc(size as i128, 2)) as i64;
    proof {
        crate::fx::lemma_tdiv_nonneg(size as int, 2);
        crate::fx::lemma_tdiv_fits(size as int, 2, 3_000_000_000);
    }
    let bi = translation_plane_binormal(subgizmo.direction);
    let ta = translation_plane_tangent(subgizmo.direction);
    proof {
        lemma_mul_fits(bi.x as int, size2 as int, FX_ONE as int, 1_500_000_000);
        lemma_mul_fits(bi.y as int, size2 as int, FX_ONE as int, 1_500_000_000);
        lemma_mul_fits(bi.z as int, size2 as int, FX_ONE as int, 1_500_000_000);
        lemma_mul_fits(ta.x as int, size2 as int, FX_ONE as int, 1_500_000_000);
        lemma_mul_fits(ta.y as int, size2 as int, FX_ONE as int, 1_500_000_000);
        lemma_mul_fits(ta.z as int, size2 as int, FX_ONE as int, 1_500_000_000);
        lemma_tdiv_fits(bi.x as int * size2 as int, FX_ONE as int, 1_500_000_000_000_000);
        lemma_tdiv_fits(bi.y as int * size2 as int, FX_ONE as int, 1_500_000_000_000_000);
        lemma_tdiv_fits(bi.z as int * size2 as int, FX_ONE as int, 1_500_000_000_000_000);
        lemma_tdiv_fits(ta.x as int * size2 as int, FX_ONE as int, 1_500_000_000_000_000);
        lemma_tdiv_fits(ta.y as int * size2 as int, FX_ONE as int, 1_500_000_000_000_000);
        lemma_tdiv_fits(ta.z as int * size2 as int, FX_ONE as int, 1_500_000_000_000_000);
    }
    let av = scale3(&bi, size2, FX_ONE);
    let bv = scale3(&ta, size2, FX_ONE);
    let a = if cfg.local_space() {
        proof {
            lemma_rotate_fits(cfg.rotation, av, 1_500_000_000);
        }
        rotate3(&cfg.rotation, &av)
    } else {
        av
    };
    let b = if cfg.local_space() {
        proof {
            lemma_rotate_fits(cfg.rotation, bv, 1_500_000_000);
        }
        rotate3(&cfg.rotation, &bv)
    } else {
        bv
    };
    let pa0 = sub3(&origin, &a);
    let pa1 = add3(&origin, &a);
    let pb0 = sub3(&origin, &b);
    let pb1 = add3(&origin, &b);
    if pair_edge_on(cfg, &pa0, &pa1) {
        return false;
    }
    if pair_edge_on(cfg, &pb0, &pb1) {
        return false;
    }
    true
}

/// Ray parameter of the intersection with the planar handle's plane.
pub open spec fn spec_plane_pick_t(cfg: GizmoConfig, direction: GizmoDirection, ray: Ray)
    -> Option<int> {
    spec_plane_t(spec_normal(cfg, direction), spec_plane_global_origin(cfg, direction), ray)
}

/// Whether a planar pick hits: the handle is interactable, the ray meets the
/// plane, and the intersection lies within the patch size of its origin.
pub open spec fn spec_plane_pick_hit(cfg: GizmoConfig, direction: GizmoDirection, ray: Ray)
    -> bool {
    &&& spec_translation_plane_visible(cfg, direction)
    &&& spec_plane_pick_t(cfg, direction, ray) matches Some(t) && spec_dist3(
        spec_ray_point(ray.origin, ray.direction, t),
        spec_plane_global_origin(cfg, direction),
    ) <= spec_plane_size(cfg)
}

/// Picks the planar handle. Seeds the drag state with the plane intersection
/// and returns the ray parameter when the handle is interactable and the
/// intersection lies within the patch; an edge-on handle or a parallel ray
/// leaves the state untouched.
pub fn pick_translation_plane(subgizmo: &SubGizmo, ray: &Ray, state: &mut TranslationState)
    -> (r: Option<i64>)
    requires
        subgizmo.wf(),
        crate::config::ray_wf(*ray),
    ensures
        (r is Some) <==> spec_plane_pick_hit(subgizmo.config, subgizmo.direction, *ray),
        !spec_translation_plane_visible(subgizmo.config, subgizmo.direction) ==> *final(state)
            == *old(state),
        spec_translation_plane_visible(subgizmo.config, subgizmo.direction) ==> match
            spec_plane_pick_t(subgizmo.config, subgizmo.direction, *ray) {
            Some(t) => {
                &&& final(state).start_point == spec_ray_point(ray.origin, ray.direction, t)
                &&& final(state).last_point == final(state).start_point
                &&& final(state).current_delta == (Vec3 { x: 0, y: 0, z: 0 })
                &&& final(state).wf()
                &&& r matches Some(rt) ==> rt as int == t
            },
            None => *final(state) == *old(state),
        },
{
    if !translation_plane_is_visible(subgizmo) {
        return None;
    }
    let cfg = &subgizmo.config;
    let origin = translation_plane_global_origin(subgizmo);
    let normal = subgizmo.normal();
    let td = match crate::geom::ray_to_plane_origin(&normal, &origin, ray) {
        Some(td) => td,
        None => {
            return None;
        },
    };
    let (t, dist_from_origin) = td;
    let rp = ray_point(ray, t);
    state.start_point = rp;
    state.last_point = rp;
    state.current_delta = Vec3 { x: 0, y: 0, z: 0 };
    if dist_from_origin <= translation_plane_size(subgizmo) {
        Some(t)
    } else {
        None
    }
}

/// The point where the pointer ray meets the given plane; `None` when the
/// ray is parallel to it.
pub fn point_on_plane(plane_normal: &Vec3, plane_origin: &Vec3, ray: &Ray) -> (r: Option<Vec3>)
    requires
        b3(*plane_normal, NORMAL_LIM as int),
        b3(*plane_origin, crate::geom::ORIGIN_LIM as int),
        crate::config::ray_wf(*ray),
    ensures
        (r is Some) <==> (spec_plane_t(*plane_normal, *plane_origin, *ray) is Some),
        r matches Some(p) ==> {
            &&& spec_plane_t(*plane_normal, *plane_origin, *ray) matches Some(t) && p
                == spec_ray_point(ray.origin, ray.direction, t)
            &&& b3(p, 6_000_000_000)
        },
{
    let t = match intersect_plane(plane_normal, plane_origin, ray) {
        Some(t) => t,
        None => {
            return None;
        },
    };
    Some(ray_point(ray, t))
}

/// The planar delta snapped per in-plane axis: the delta is decomposed into
/// its spans via cross products against the plane normal, each component's
/// magnitude is rounded to the distance increment, and the result is
/// recomposed (and kept within the supported drag volume); a delta too short
/// on either span passes through unchanged.
pub open spec fn spec_snap_translation_plane(cfg: GizmoConfig, direction: GizmoDirection,
    d: Vec3) -> Vec3 {
    let bi = spec_axis_world(cfg, spec_plane_binormal(direction));
    let ta = spec_axis_world(cfg, spec_plane_tangent(direction));
    let n = spec_normal(cfg, direction);
    let nb = Vec3 { x: (-bi.x) as i64, y: (-bi.y) as i64, z: (-bi.z) as i64 };
    let cb = v3(spec_cross3(d, nb));
    let ct = v3(spec_cross3(d, ta));
    let lb = sqrt_of(spec_norm2(cb));
    let lt = sqrt_of(spec_norm2(ct));
    if lb > SNAP_LEN_EPS as int && lt > SNAP_LEN_EPS as int {
        let q1 = tdiv(spec_dot3(ct, n), lt);
        let q2 = tdiv(spec_dot3(cb, n), lb);
        let m1 = tdiv(spec_round_to_interval(lt, cfg.snap_distance as int) * q1, FX_ONE as int);
        let m2 = tdiv(spec_round_to_interval(lb, cfg.snap_distance as int) * q2, FX_ONE as int);
        let t1 = v3(spec_scale3(bi, m1, FX_ONE as int));
        let t2 = v3(spec_scale3(ta, m2, FX_ONE as int));
        spec_clamp3(t1.spec_addv(t2), SNAP_CLAMP as int)
    } else {
        d
    }
}

/// Snaps a planar delta per in-plane axis.
pub fn snap_translation_plane(subgizmo: &SubGizmo, d: &Vec3) -> (r: Vec3)
    requires
        subgizmo.wf(),
        b3(*d, 120_000_000_000),
    ensures
        r == spec_snap_translation_plane(subgizmo.config, subgizmo.direction, *d),
        b3(r, 200_000_000_000),
{
    let cfg = &subgizmo.config;
    let bi_local = translation_plane_binormal(subgizmo.direction);
    let ta_local = translation_plane_tangent(subgizmo.direction);
    let bi = if cfg.local_space() {
        proof {
            lemma_rotate_fits(cfg.rotation, bi_local, FX_ONE as int);
        }
        rotate3(&cfg.rotation, &bi_local)
    } else {
        bi_local
    };
    let ta = if cfg.local_space() {
        proof {
            lemma_rotate_fits(cfg.rotation, ta_local, FX_ONE as int);
        }
        rotate3(&cfg.rotation, &ta_local)
    } else {
        ta_local
    };
    let n = subgizmo.normal();
    let nb = neg3(&bi);
    proof {
        lemma_mul_fits(d.x as int, nb.y as int, 120_000_000_000, 13_000_000);
        lemma_mul_fits(d.x as int, nb.z as int, 120_000_000_000, 13_000_000);
        lemma_mul_fits(d.y as int, nb.x as int, 120_000_000_000, 13_000_000);
        lemma_mul_fits(d.y as int, nb.z as int, 120_000_000_000, 13_000_000);
        lemma_mul_fits(d.z as int, nb.x as int, 120_000_000_000, 13_000_000);
        lemma_mul_fits(d.z as int, nb.y as int, 120_000_000_000, 13_000_000);
        lemma_mul_fits(d.x as int, ta.y as int, 120_000_000_000, 13_000_000);
        lemma_mul_fits(d.x as int, ta.z as int, 120_000_000_000, 13_000_000);
        lemma_mul_fits(d.y as int, ta.x as int, 120_000_000_000, 13_000_000);
        lemma_mul_fits(d.y as int, ta.z as int, 120_000_000_000, 13_000_000);
        lemma_mul_fits(d.z as int, ta.x as int, 120_000_000_000, 13_000_000);
        lemma_mul_fits(d.z as int, ta.y as int, 120_000_000_000, 13_000_000);
        lemma_tdiv_fits(d.y as int * nb.z as int - d.z as int * nb.y as int, FX_ONE as int,
            3_120_000_000_000_000_000);
        lemma_tdiv_fits(d.z as int * nb.x as int - d.x as int * nb.z as int, FX_ONE as int,
            3_120_000_000_000_000_000);
        lemma_tdiv_fits(d.x as int * nb.y as int - d.y as int * nb.x as int, FX_ONE as int,
            3_120_000_000_000_000_000);
        lemma_tdiv_fits(d.y as int * ta.z as int - d.z as int * ta.y as int, FX_ONE as int,
            3_120_000_000_000_000_000);
        lemma_tdiv_fits(d.z as int * ta.x as int - d.x as int * ta.z as int, FX_ONE as int,
            3_120_000_000_000_000_000);
        lemma_tdiv_fits(d.x as int * ta.y as int - d.y as int * ta.x as int, FX_ONE as int,
            3_120_000_000_000_000_000);
    }
    let cb = crate::vec3::cross3(d, &nb);
    let ct = crate::vec3::cross3(d, &ta);
    let lb = length3(&cb);
    let lt = length3(&ct);
    proof {
        lemma_sqrt_unique(spec_norm2(cb), lb as int);
        lemma_sqrt_unique(spec_norm2(ct), lt as int);
        crate::vec3::lemma_dot3_fits(cb, cb, 3_120_000_000_000, 3_120_000_000_000);
        crate::vec3::lemma_dot3_fits(ct, ct, 3_120_000_000_000, 3_120_000_000_000);
        assert(spec_norm2(cb) >= 0) by (nonlinear_arith);
        assert(spec_norm2(ct) >= 0) by (nonlinear_arith);
        assert(lb as int <= 5_500_000_000_000) by (nonlinear_arith)
            requires
                (lb as int) * (lb as int) <= spec_norm2(cb)
                && spec_norm2(cb) <= 3 * (3_120_000_000_000 * 3_120_000_000_000)
                && lb as int >= 0;
        assert(lt as int <= 5_500_000_000_000) by (nonlinear_arith)
            requires
                (lt as int) * (lt as int) <= spec_norm2(ct)
                && spec_norm2(ct) <= 3 * (3_120_000_000_000 * 3_120_000_000_000)
                && lt as int >= 0;
    }
    if lb > SNAP_LEN_EPS && lt > SNAP_LEN_EPS {
        proof {
            lemma_mul_fits(ct.x as int, n.x as int, lt as int, NORMAL_LIM as int);
            lemma_mul_fits(ct.y as int, n.y as int, lt as int, NORMAL_LIM as int);
            lemma_mul_fits(ct.z as int, n.z as int, lt as int, NORMAL_LIM as int);
            lemma_mul_fits(cb.x as int, n.x as int, lb as int, NORMAL_LIM as int);
            lemma_mul_fits(cb.y as int, n.y as int, lb as int, NORMAL_LIM as int);
            lemma_mul_fits(cb.z as int, n.z as int, lb as int, NORMAL_LIM as int);
            assert(3 * (lt as int * NORMAL_LIM as int) == lt as int * (3 * NORMAL_LIM as int))
                by (nonlinear_arith);
            assert(3 * (lb as int * NORMAL_LIM as int) == lb as int * (3 * NORMAL_LIM as int))
                by (nonlinear_arith);
            lemma_tdiv_fits(spec_dot3(ct, n), lt as int, lt as int * (3 * NORMAL_LIM as int));
            lemma_tdiv_fits(spec_dot3(cb, n), lb as int, lb as int * (3 * NORMAL_LIM as int));
            lemma_mul_div_self(lt as int, 3 * NORMAL_LIM as int);
            lemma_mul_div_self(lb as int, 3 * NORMAL_LIM as int);
        }
        let q1: i64 = crate::fx::div_trunc(crate::vec3::dot3(&ct, &n), lt as i128) as i64;
        let q2: i64 = crate::fx::div_trunc(crate::vec3::dot3(&cb, &n), lb as i128) as i64;
        let r1 = round_to_interval(lt, cfg.snap_distance);
        let r2 = round_to_interval(lb, cfg.snap_distance);
        proof {
            lemma_mul_fits(r1 as int, q1 as int, 5_501_000_000_000, 60_000_000);
            lemma_mul_fits(r2 as int, q2 as int, 5_501_000_000_000, 60_000_000);
            lemma_tdiv_fits(r1 as int * q1 as int, FX_ONE as int,
                330_060_000_000_000_000_000);
            lemma_tdiv_fits(r2 as int * q2 as int, FX_ONE as int,
                330_060_000_000_000_000_000);
        }
        let m1 = mul_div(r1, q1, FX_ONE);
        let m2 = mul_div(r2, q2, FX_ONE);
        proof {
            lemma_mul_fits(bi.x as int, m1 as int, 13_000_000, 330_060_000_000_000);
            lemma_mul_fits(bi.y as int, m1 as int, 13_000_000, 330_060_000_000_000);
            lemma_mul_fits(bi.z as int, m1 as int, 13_000_000, 330_060_000_000_000);
            lemma_mul_fits(ta.x as int, m2 as int, 13_000_000, 330_060_000_000_000);
            lemma_mul_fits(ta.y as int, m2 as int, 13_000_000, 330_060_000_000_000);
            lemma_mul_fits(ta.z as int, m2 as int, 13_000_000, 330_060_000_000_000);
            lemma_tdiv_fits(bi.x as int * m1 as int, FX_ONE as int,
                4_290_780_000_000_000_000_000);
            lemma_tdiv_fits(bi.y as int * m1 as int, FX_ONE as int,
                4_290_780_000_000_000_000_000);
            lemma_tdiv_fits(bi.z as int * m1 as int, FX_ONE as int,
                4_290_780_000_000_000_000_000);
            lemma_tdiv_fits(ta.x as int * m2 as int, FX_ONE as int,
                4_290_780_000_000_000_000_000);
            lemma_tdiv_fits(ta.y as int * m2 as int, FX_ONE as int,
                4_290_780_000_000_000_000_000);
            lemma_tdiv_fits(ta.z as int * m2 as int, FX_ONE as int,
                4_290_780_000_000_000_000_000);
        }
        let t1 = Vec3 {
            x: mul_div(bi.x, m1, FX_ONE),
            y: mul_div(bi.y, m1, FX_ONE),
            z: mul_div(bi.z, m1, FX_ONE),
        };
        let t2 = Vec3 {
            x: mul_div(ta.x, m2, FX_ONE),
            y: mul_div(ta.y, m2, FX_ONE),
            z: mul_div(ta.z, m2, FX_ONE),
        };
        let sum = add3(&t1, &t2);
        clamp3(&sum, SNAP_CLAMP)
    } else {
        *d
    }
}

/// The planar drag's new offset from the start point: the plane intersection
/// minus the start, snapped when snapping is on.
pub open spec fn spec_plane_new_delta(cfg: GizmoConfig, direction: GizmoDirection, ray: Ray,
    start: Vec3, t: int) -> Vec3 {
    let p = spec_ray_point(ray.origin, ray.direction, t);
    let raw = Vec3 {
        x: (p.x - start.x) as i64,
        y: (p.y - start.y) as i64,
        z: (p.z - start.z) as i64,
    };
    if cfg.snapping {
        spec_snap_translation_plane(cfg, direction, raw)
    } else {
        raw
    }
}

/// Updates the planar handle during a drag: the ray is intersected with the
/// handle's plane, the offset since the start point is snapped per in-plane
/// axis when snapping is on, and the state advances to the resolved point;
/// a ray parallel to the plane changes nothing this frame.
pub fn update_translation_plane(subgizmo: &SubGizmo, ray: &Ray, state: &mut TranslationState)
    -> (r: Option<GizmoResult>)
    requires
        subgizmo.wf(),
        crate::config::ray_wf(*ray),
        old(state).wf(),
    ensures
        (r is Some) <==> (spec_plane_pick_t(subgizmo.config, subgizmo.direction, *ray)
            is Some),
        r is None ==> *final(state) == *old(state),
        spec_plane_pick_t(subgizmo.config, subgizmo.direction, *ray) matches Some(t) ==> {
            &&& final(state).start_point == old(state).start_point
            &&& final(state).current_delta == spec_plane_new_delta(subgizmo.config,
                subgizmo.direction, *ray, old(state).start_point, t)
            &&& final(state).last_point == old(state).start_point.spec_addv(
                final(state).current_delta)
            &&& final(state).wf()
            &&& r matches Some(g) ==> {
                &&& g.scale == subgizmo.config.scale
                &&& g.rotation == subgizmo.config.rotation
                &&& g.rotation_delta == 0
                &&& g.translation == (Vec3 {
                    x: (subgizmo.config.translation.x + final(state).last_point.x
                        - old(state).last_point.x) as i64,
                    y: (subgizmo.config.translation.y + final(state).last_point.y
                        - old(state).last_point.y) as i64,
                    z: (subgizmo.config.translation.z + final(state).last_point.z
                        - old(state).last_point.z) as i64,
                })
                &&& g.mode == GizmoMode::Translate
                &&& g.value == final(state).current_delta
            }
        },
{
    let cfg = &subgizmo.config;
    let start = state.start_point;
    let old_last = state.last_point;
    let normal = subgizmo.normal();
    let origin = translation_plane_global_origin(subgizmo);
    let point = match point_on_plane(&normal, &origin, ray) {
        Some(p) => p,
        None => {
            return None;
        },
    };
    let raw = sub3(&point, &start);
    let new_delta = if cfg.snapping {
        snap_translation_plane(subgizmo, &raw)
    } else {
        raw
    };
    let new_point = add3(&start, &new_delta);
    state.last_point = new_point;
    state.current_delta = new_delta;
    let moved = sub3(&add3(&cfg.translation, &new_point), &old_last);
    Some(GizmoResult {
        scale: cfg.scale,
        rotation: cfg.rotation,
        rotation_axis: Vec3 { x: 0, y: 0, z: 0 },
        rotation_delta: 0,
        translation: moved,
        mode: GizmoMode::Translate,
        value: new_delta,
    })
}

} // verus!
