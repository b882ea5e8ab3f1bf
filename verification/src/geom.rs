//! Ray queries: ray against plane, ray against ray, and segment against
//! segment, each the exact fixed-point form of the standard closed-form
//! solution.
//!
//! Degenerate configurations (a ray parallel to a plane or to another line,
//! a segment of zero length) never divide: a plane query has no result, and
//! the line and segment queries fall back to a zero parameter. Parameters of
//! near-degenerate queries are clamped to the supported world volume.

use vstd::prelude::*;

verus! {

use crate::fx::{fits, tdiv, FX_ONE, div_trunc, lemma_mul_fits, lemma_tdiv_fits};
use crate::vec3::{Vec3, b3, spec_dot3, spec_scale3, spec_dist3, v3, dot3, sub3, add3, scale3,
    dist3};
use crate::mat4::spec_clamp;
use crate::config::{Ray, RAY_T_LIM};

/// Magnitude bound for plane and rotation-circle normals (a rotated unit
/// vector, with fixed-point slack).
pub const NORMAL_LIM: i64 = 20_000_000;

/// Magnitude bound for plane origins and other derived world points.
pub const ORIGIN_LIM: i64 = 60_000_000_000;

/// Magnitude bound for segment endpoints.
pub const SEG_LIM: i64 = 22_000_000_000;

/// Truncated quotient for a divisor of either sign (meaningful for `b != 0`).
pub open spec fn tdiv_signed(a: int, b: int) -> int {
    if b >= 0 {
        tdiv(a, b)
    } else {
        tdiv(-a, -b)
    }
}

/// Dot product of `n` with the difference `a - b`, exact.
pub open spec fn spec_dot_diff(n: Vec3, a: Vec3, b: Vec3) -> int {
    n.x * (a.x - b.x) + n.y * (a.y - b.y) + n.z * (a.z - b.z)
}

/// The point `t` units along the ray.
pub open spec fn spec_ray_point(o: Vec3, d: Vec3, t: int) -> Vec3 {
    v3(
        (
            o.x + tdiv(d.x * t, FX_ONE as int),
            o.y + tdiv(d.y * t, FX_ONE as int),
            o.z + tdiv(d.z * t, FX_ONE as int),
        ),
    )
}

/// Ray parameter of the intersection with the plane through `plane_origin`
/// with normal `normal`; none when the ray is parallel to the plane.
pub open spec fn spec_plane_t(normal: Vec3, plane_origin: Vec3, ray: Ray) -> Option<int> {
    let den = spec_dot3(normal, ray.direction);
    if den == 0 {
        None
    } else {
        Some(
            spec_clamp(
                tdiv_signed(spec_dot_diff(normal, plane_origin, ray.origin) * FX_ONE as int, den),
                RAY_T_LIM as int,
            ),
        )
    }
}

/// Divides with truncation, accepting a divisor of either sign.
fn div_signed(a: i128, b: i128) -> (r: i128)
    requires
        b != 0,
        b > i128::MIN,
        a > i128::MIN,
        a < i128::MAX,
    ensures
        r == tdiv_signed(a as int, b as int),
        fits(r as int, if a >= 0 { a as int } else { -(a as int) }),
{
    if b > 0 {
        div_trunc(a, b)
    } else {
        div_trunc(-a, -b)
    }
}

/// Clamps a parameter into the supported world volume.
fn clamp_t(v: i128) -> (r: i64)
    ensures
        r == spec_clamp(v as int, RAY_T_LIM as int),
        fits(r as int, RAY_T_LIM as int),
{
    if v > RAY_T_LIM as i128 {
        RAY_T_LIM
    } else if v < -(RAY_T_LIM as i128) {
        -RAY_T_LIM
    } else {
        v as i64
    }
}

/// Intersects a ray with a plane; `None` when the ray is parallel to it.
pub fn intersect_plane(normal: &Vec3, plane_origin: &Vec3, ray: &Ray) -> (r: Option<i64>)
    requires
        b3(*normal, NORMAL_LIM as int),
        b3(*plane_origin, ORIGIN_LIM as int),
        b3(ray.origin, 2_000_000_000),
        b3(ray.direction, 2_000_000),
    ensures
        (r is Some) <==> (spec_plane_t(*normal, *plane_origin, *ray) is Some),
        r matches Some(t) ==> {
            &&& spec_plane_t(*normal, *plane_origin, *ray) == Some(t as int)
            &&& fits(t as int, RAY_T_LIM as int)
        },
{
    let den: i128 = dot3(normal, &ray.direction);
    if den == 0 {
        return None;
    }
    let diff = sub3(plane_origin, &ray.origin);
    let num: i128 = dot3(normal, &diff);
    proof {
        crate::vec3::lemma_dot3_fits(*normal, ray.direction, NORMAL_LIM as int, 2_000_000);
        crate::vec3::lemma_dot3_fits(*normal, diff, NORMAL_LIM as int, 62_000_000_000);
        lemma_mul_fits(num as int, FX_ONE as int, 3_720_000_000_000_000_000, FX_ONE as int);
    }
    let t: i64 = clamp_t(div_signed(num * (FX_ONE as i128), den));
    Some(t)
}

/// The point where the ray meets the plane.
pub fn ray_point(ray: &Ray, t: i64) -> (r: Vec3)
    requires
        b3(ray.origin, 2_000_000_000),
        b3(ray.direction, 2_000_000),
        fits(t as int, RAY_T_LIM as int),
    ensures
        r == spec_ray_point(ray.origin, ray.direction, t as int),
        b3(r, 6_000_000_000),
{
    proof {
        lemma_mul_fits(ray.direction.x as int, t as int, 2_000_000, RAY_T_LIM as int);
        lemma_mul_fits(ray.direction.y as int, t as int, 2_000_000, RAY_T_LIM as int);
        lemma_mul_fits(ray.direction.z as int, t as int, 2_000_000, RAY_T_LIM as int);
        lemma_tdiv_fits(ray.direction.x as int * t as int, FX_ONE as int,
            4_000_000_000_000_000);
        lemma_tdiv_fits(ray.direction.y as int * t as int, FX_ONE as int,
            4_000_000_000_000_000);
        lemma_tdiv_fits(ray.direction.z as int * t as int, FX_ONE as int,
            4_000_000_000_000_000);
    }
    let s = scale3(&ray.direction, t, FX_ONE);
    add3(&ray.origin, &s)
}

/// Intersects a ray with the plane through `plane_origin`, returning the ray
/// parameter together with the distance from `plane_origin` to the
/// intersection; `None` when the ray is parallel to the plane.
pub fn ray_to_plane_origin(normal: &Vec3, plane_origin: &Vec3, ray: &Ray) -> (r: Option<
    (i64, i64),
>)
    requires
        b3(*normal, NORMAL_LIM as int),
        b3(*plane_origin, ORIGIN_LIM as int),
        b3(ray.origin, 2_000_000_000),
        b3(ray.direction, 2_000_000),
    ensures
        (r is Some) <==> (spec_plane_t(*normal, *plane_origin, *ray) is Some),
        r matches Some(td) ==> {
            &&& spec_plane_t(*normal, *plane_origin, *ray) == Some(td.0 as int)
            &&& td.1 as int == spec_dist3(
                spec_ray_point(ray.origin, ray.direction, td.0 as int),
                *plane_origin,
            )
            &&& fits(td.0 as int, RAY_T_LIM as int)
            &&& 0 <= td.1
        },
{
    let t = match intersect_plane(normal, plane_origin, ray) {
        Some(t) => t,
        None => {
            return None;
        },
    };
    let hit = ray_point(ray, t);
    let dist = dist3(&hit, plane_origin);
    Some((t, dist))
}

/// Closest-approach parameters of two lines `o1 + d1 s` and `o2 + d2 t`, by
/// the skew-line closed form; both parameters fall back to zero when the
/// lines are parallel.
pub open spec fn spec_ray_to_ray(o1: Vec3, d1: Vec3, o2: Vec3, d2: Vec3) -> (int, int) {
    let a = spec_dot3(d1, d1);
    let b = spec_dot3(d1, d2);
    let e = spec_dot3(d2, d2);
    let c = spec_dot_diff(d1, o1, o2);
    let f = spec_dot_diff(d2, o1, o2);
    let denom = a * e - b * b;
    if denom == 0 {
        (0, 0)
    } else {
        (
            spec_clamp(tdiv_signed((b * f - c * e) * FX_ONE as int, denom), RAY_T_LIM as int),
            spec_clamp(tdiv_signed((a * f - b * c) * FX_ONE as int, denom), RAY_T_LIM as int),
        )
    }
}

/// Closest-approach parameters of two lines; zero for parallel lines.
pub fn ray_to_ray(o1: &Vec3, d1: &Vec3, o2: &Vec3, d2: &Vec3) -> (r: (i64, i64))
    requires
        b3(*o1, 2_000_000_000),
        b3(*d1, 2_000_000),
        b3(*o2, 2_000_000_000),
        b3(*d2, 20_000_000),
    ensures
        (r.0 as int, r.1 as int) == spec_ray_to_ray(*o1, *d1, *o2, *d2),
        fits(r.0 as int, RAY_T_LIM as int),
        fits(r.1 as int, RAY_T_LIM as int),
{
    let a: i128 = dot3(d1, d1);
    let b: i128 = dot3(d1, d2);
    let e: i128 = dot3(d2, d2);
    let p = sub3(o1, o2);
    let c: i128 = dot3(d1, &p);
    let f: i128 = dot3(d2, &p);
    proof {
        crate::vec3::lemma_dot3_fits(*d1, *d1, 2_000_000, 2_000_000);
        crate::vec3::lemma_dot3_fits(*d1, *d2, 2_000_000, 20_000_000);
        crate::vec3::lemma_dot3_fits(*d2, *d2, 20_000_000, 20_000_000);
        crate::vec3::lemma_dot3_fits(*d1, p, 2_000_000, 4_000_000_000);
        crate::vec3::lemma_dot3_fits(*d2, p, 20_000_000, 4_000_000_000);
        lemma_mul_fits(a as int, e as int, 12_000_000_000_000, 1_200_000_000_000_000);
        lemma_mul_fits(b as int, b as int, 120_000_000_000_000, 120_000_000_000_000);
        lemma_mul_fits(b as int, f as int, 120_000_000_000_000, 240_000_000_000_000_000);
        lemma_mul_fits(c as int, e as int, 24_000_000_000_000_000, 1_200_000_000_000_000);
        lemma_mul_fits(a as int, f as int, 12_000_000_000_000, 240_000_000_000_000_000);
        lemma_mul_fits(b as int, c as int, 120_000_000_000_000, 24_000_000_000_000_000);
        lemma_mul_fits(b as int * f as int - c as int * e as int, FX_ONE as int,
            57_600_000_000_000_000_000_000_000_000_000, FX_ONE as int);
        lemma_mul_fits(a as int * f as int - b as int * c as int, FX_ONE as int,
            57_600_000_000_000_000_000_000_000_000_000, FX_ONE as int);
    }
    let denom: i128 = a * e - b * b;
    if denom == 0 {
        return (0, 0);
    }
    let t1: i64 = clamp_t(div_signed((b * f - c * e) * (FX_ONE as i128), denom));
    let t2: i64 = clamp_t(div_signed((a * f - b * c) * (FX_ONE as i128), denom));
    (t1, t2)
}

/// A fraction clamped into `[0, FX_ONE]`.
pub open spec fn spec_clamp01(v: int) -> int {
    if v < 0 {
        0
    } else if v > FX_ONE as int {
        FX_ONE as int
    } else {
        v
    }
}

/// Clamps a fraction into `[0, FX_ONE]`.
fn clamp01(v: i128) -> (r: i64)
    ensures
        r == spec_clamp01(v as int),
        0 <= r <= FX_ONE,
{
    if v < 0 {
        0
    } else if v > FX_ONE as i128 {
        FX_ONE
    } else {
        v as i64
    }
}

/// Fractions along two segments (each in `[0, FX_ONE]`) of the mutually
/// closest points, by the standard clamped closed form over dot products
/// scaled back to fixed point; a degenerate segment contributes a zero
/// fraction.
pub open spec fn spec_segment_to_segment(a0: Vec3, a1: Vec3, b0: Vec3, b1: Vec3) -> (int, int) {
    let da = v3(((a1.x - a0.x), (a1.y - a0.y), (a1.z - a0.z)));
    let db = v3(((b1.x - b0.x), (b1.y - b0.y), (b1.z - b0.z)));
    let rv = v3(((a0.x - b0.x), (a0.y - b0.y), (a0.z - b0.z)));
    let aa = tdiv(spec_dot3(da, da), FX_ONE as int);
    let bb = tdiv(spec_dot3(da, db), FX_ONE as int);
    let ee = tdiv(spec_dot3(db, db), FX_ONE as int);
    let cc = tdiv(spec_dot3(da, rv), FX_ONE as int);
    let ff = tdiv(spec_dot3(db, rv), FX_ONE as int);
    if aa == 0 && ee == 0 {
        (0, 0)
    } else if aa == 0 {
        (0, spec_clamp01(tdiv_signed(ff * FX_ONE as int, ee)))
    } else if ee == 0 {
        (spec_clamp01(tdiv_signed(-cc * FX_ONE as int, aa)), 0)
    } else {
        let denom = aa * ee - bb * bb;
        let s0 = if denom != 0 {
            spec_clamp01(tdiv_signed((bb * ff - cc * ee) * FX_ONE as int, denom))
        } else {
            0
        };
        let t0 = tdiv_signed(bb * s0 + ff * FX_ONE as int, ee);
        if t0 < 0 {
            (spec_clamp01(tdiv_signed(-cc * FX_ONE as int, aa)), 0)
        } else if t0 > FX_ONE as int {
            (spec_clamp01(tdiv_signed((bb - cc) * FX_ONE as int, aa)), FX_ONE as int)
        } else {
            (s0, t0)
        }
    }
}

/// Closest points between two finite segments, as fractions of each segment
/// in `[0, FX_ONE]`.
pub fn segment_to_segment(a0: &Vec3, a1: &Vec3, b0: &Vec3, b1: &Vec3) -> (r: (i64, i64))
    requires
        b3(*a0, SEG_LIM as int),
        b3(*a1, SEG_LIM as int),
        b3(*b0, SEG_LIM as int),
        b3(*b1, SEG_LIM as int),
    ensures
        (r.0 as int, r.1 as int) == spec_segment_to_segment(*a0, *a1, *b0, *b1),
        0 <= r.0 <= FX_ONE,
        0 <= r.1 <= FX_ONE,
{
    let da = sub3(a1, a0);
    let db = sub3(b1, b0);
    let rv = sub3(a0, b0);
    proof {
        crate::vec3::lemma_dot3_fits(da, da, 44_000_000_000, 44_000_000_000);
        crate::vec3::lemma_dot3_fits(da, db, 44_000_000_000, 44_000_000_000);
        crate::vec3::lemma_dot3_fits(db, db, 44_000_000_000, 44_000_000_000);
        crate::vec3::lemma_dot3_fits(da, rv, 44_000_000_000, 44_000_000_000);
        crate::vec3::lemma_dot3_fits(db, rv, 44_000_000_000, 44_000_000_000);
        lemma_tdiv_fits(spec_dot3(da, da), FX_ONE as int, 5_808_000_000_000_000_000_000);
        lemma_tdiv_fits(spec_dot3(da, db), FX_ONE as int, 5_808_000_000_000_000_000_000);
        lemma_tdiv_fits(spec_dot3(db, db), FX_ONE as int, 5_808_000_000_000_000_000_000);
        lemma_tdiv_fits(spec_dot3(da, rv), FX_ONE as int, 5_808_000_000_000_000_000_000);
        lemma_tdiv_fits(spec_dot3(db, rv), FX_ONE as int, 5_808_000_000_000_000_000_000);
        assert(spec_dot3(da, da) >= 0) by (nonlinear_arith);
        assert(spec_dot3(db, db) >= 0) by (nonlinear_arith);
        vstd::arithmetic::div_mod::lemma_div_pos_is_pos(spec_dot3(da, da), FX_ONE as int);
        vstd::arithmetic::div_mod::lemma_div_pos_is_pos(spec_dot3(db, db), FX_ONE as int);
    }
    let aa: i128 = div_trunc(dot3(&da, &da), FX_ONE as i128);
    let bb: i128 = div_trunc(dot3(&da, &db), FX_ONE as i128);
    let ee: i128 = div_trunc(dot3(&db, &db), FX_ONE as i128);
    let cc: i128 = div_trunc(dot3(&da, &rv), FX_ONE as i128);
    let ff: i128 = div_trunc(dot3(&db, &rv), FX_ONE as i128);
    proof {
        lemma_mul_fits(aa as int, ee as int, 5_808_000_000_000_000, 5_808_000_000_000_000);
        lemma_mul_fits(bb as int, bb as int, 5_808_000_000_000_000, 5_808_000_000_000_000);
        lemma_mul_fits(bb as int, ff as int, 5_808_000_000_000_000, 5_808_000_000_000_000);
        lemma_mul_fits(cc as int, ee as int, 5_808_000_000_000_000, 5_808_000_000_000_000);
        lemma_mul_fits(ff as int, FX_ONE as int, 5_808_000_000_000_000, FX_ONE as int);
        lemma_mul_fits(cc as int, FX_ONE as int, 5_808_000_000_000_000, FX_ONE as int);
    }
    if aa == 0 && ee == 0 {
        return (0, 0);
    }
    if aa == 0 {
        let t = clamp01(div_signed(ff * (FX_ONE as i128), ee));
        return (0, t);
    }
    if ee == 0 {
        let s = clamp01(div_signed(-cc * (FX_ONE as i128), aa));
        return (s, 0);
    }
    let denom: i128 = aa * ee - bb * bb;
    let s0: i64 = if denom != 0 {
        proof {
            lemma_mul_fits(bb as int * ff as int - cc as int * ee as int, FX_ONE as int,
                67_465_728_000_000_000_000_000_000_000_000, FX_ONE as int);
        }
        clamp01(div_signed((bb * ff - cc * ee) * (FX_ONE as i128), denom))
    } else {
        0
    };
    proof {
        lemma_mul_fits(bb as int, s0 as int, 5_808_000_000_000_000, FX_ONE as int);
    }
    let t0: i128 = div_signed(bb * (s0 as i128) + ff * (FX_ONE as i128), ee);
    if t0 < 0 {
        let s = clamp01(div_signed(-cc * (FX_ONE as i128), aa));
        (s, 0)
    } else if t0 > FX_ONE as i128 {
        proof {
            lemma_mul_fits(bb as int - cc as int, FX_ONE as int, 11_616_000_000_000_000,
                FX_ONE as int);
        }
        let s = clamp01(div_signed((bb - cc) * (FX_ONE as i128), aa));
        (s, FX_ONE)
    } else {
        (s0, t0 as i64)
    }
}

} // verus!
