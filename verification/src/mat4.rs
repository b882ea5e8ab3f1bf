//! Perspective projection to the screen.
//!
//! A projection matrix is four rows of four fixed-point scalars; a world
//! point is extended with 1.0, taken through the rows, and divided by the
//! resulting clip-space `w`. A point behind the camera (or one whose
//! homogeneous divide degenerates) has no screen position. Normalized device
//! coordinates are clamped to a generous band so that far-off-screen points
//! still map to finite screen values.

use vstd::prelude::*;

verus! {

use crate::fx::{fits, tdiv, is_sqrt, FX_ONE, div_trunc, isqrt_u128, lemma_mul_fits,
    lemma_tdiv_fits};
use crate::vec3::{Vec3, Vec2, b3};

/// Magnitude bound for projection-matrix entries.
pub const MAT_LIM: i64 = 10_000_000_000;

/// Magnitude bound for the world points that are projected.
pub const POINT_LIM: i64 = 90_000_000_000;

/// Clamp band for normalized device coordinates.
pub const NDC_LIM: i64 = 1_000_000_000;

/// One row of a projection matrix.
#[derive(Clone, Copy, Debug, PartialEq, Eq, Structural)]
pub struct Vec4 {
    pub x: i64,
    pub y: i64,
    pub z: i64,
    pub w: i64,
}

/// A row-major 4x4 projection matrix over fixed-point scalars.
#[derive(Clone, Copy, Debug, PartialEq, Eq, Structural)]
pub struct Mat4 {
    pub row_x: Vec4,
    pub row_y: Vec4,
    pub row_z: Vec4,
    pub row_w: Vec4,
}

/// The screen rectangle that the normalized device coordinates map onto.
#[derive(Clone, Copy, Debug, PartialEq, Eq, Structural)]
pub struct Viewport {
    pub left: i64,
    pub top: i64,
    pub width: i64,
    pub height: i64,
}

/// Every entry of a row within `m` in magnitude.
pub open spec fn b4(r: Vec4, m: int) -> bool {
    fits(r.x as int, m) && fits(r.y as int, m) && fits(r.z as int, m) && fits(r.w as int, m)
}

/// Every entry of the matrix within `MAT_LIM`.
pub open spec fn mat_wf(m: Mat4) -> bool {
    b4(m.row_x, MAT_LIM as int) && b4(m.row_y, MAT_LIM as int) && b4(m.row_z, MAT_LIM as int)
        && b4(m.row_w, MAT_LIM as int)
}

/// A viewport with non-negative extent and bounded placement.
pub open spec fn viewport_wf(v: Viewport) -> bool {
    fits(v.left as int, MAT_LIM as int) && fits(v.top as int, MAT_LIM as int)
        && 0 <= v.width <= MAT_LIM && 0 <= v.height <= MAT_LIM
}

/// One clip coordinate: the row applied to `(p, 1)`, divided back to fixed
/// point.
pub open spec fn spec_row_apply(r: Vec4, p: Vec3) -> int {
    tdiv(r.x * p.x + r.y * p.y + r.z * p.z + r.w * FX_ONE, FX_ONE as int)
}

/// `v` clamped to `[-lim, lim]`.
pub open spec fn spec_clamp(v: int, lim: int) -> int {
    if v > lim {
        lim
    } else if v < -lim {
        -lim
    } else {
        v
    }
}

/// The screen position of a world point: none when the clip `w` is not
/// positive, otherwise the viewport mapping of the clamped normalized device
/// coordinates (y grows downward on the screen).
pub open spec fn spec_world_to_screen(vp: Viewport, m: Mat4, p: Vec3) -> Option<(int, int)> {
    let cx = spec_row_apply(m.row_x, p);
    let cy = spec_row_apply(m.row_y, p);
    let cw = spec_row_apply(m.row_w, p);
    if cw < 1 {
        None
    } else {
        let nx = spec_clamp(tdiv(cx * FX_ONE as int, cw), NDC_LIM as int);
        let ny = spec_clamp(tdiv(cy * FX_ONE as int, cw), NDC_LIM as int);
        Some((
            vp.left + tdiv(vp.width * (nx + FX_ONE as int), 2 * FX_ONE as int),
            vp.top + tdiv(vp.height * (FX_ONE as int - ny), 2 * FX_ONE as int),
        ))
    }
}

/// Applies one matrix row to `(p, 1)`.
fn row_apply(r: &Vec4, p: &Vec3) -> (c: i64)
    requires
        b4(*r, MAT_LIM as int),
        b3(*p, POINT_LIM as int),
    ensures
        c == spec_row_apply(*r, *p),
        fits(c as int, 4_000_000_000_000_000),
{
    proof {
        lemma_mul_fits(r.x as int, p.x as int, MAT_LIM as int, POINT_LIM as int);
        lemma_mul_fits(r.y as int, p.y as int, MAT_LIM as int, POINT_LIM as int);
        lemma_mul_fits(r.z as int, p.z as int, MAT_LIM as int, POINT_LIM as int);
        lemma_mul_fits(r.w as int, FX_ONE as int, MAT_LIM as int, FX_ONE as int);
        lemma_tdiv_fits(
            r.x as int * p.x as int + r.y as int * p.y as int + r.z as int * p.z as int
                + r.w as int * FX_ONE as int,
            FX_ONE as int,
            4_000_000_000_000_000_000_000,
        );
    }
    let s: i128 = (r.x as i128) * (p.x as i128) + (r.y as i128) * (p.y as i128)
        + (r.z as i128) * (p.z as i128) + (r.w as i128) * (FX_ONE as i128);
    let c: i128 = div_trunc(s, FX_ONE as i128);
    c as i64
}

/// Projects a world point to the screen; `None` when the point lies behind
/// the camera or the homogeneous divide degenerates.
pub fn world_to_screen(vp: &Viewport, m: &Mat4, p: &Vec3) -> (r: Option<Vec2>)
    requires
        viewport_wf(*vp),
        mat_wf(*m),
        b3(*p, POINT_LIM as int),
    ensures
        (r is Some) <==> (spec_world_to_screen(*vp, *m, *p) is Some),
        r matches Some(s) ==> {
            &&& spec_world_to_screen(*vp, *m, *p) == Some((s.x as int, s.y as int))
            &&& fits(s.x as int, 6_000_000_000_000)
            &&& fits(s.y as int, 6_000_000_000_000)
        },
{
    let cx = row_apply(&m.row_x, p);
    let cy = row_apply(&m.row_y, p);
    let cw = row_apply(&m.row_w, p);
    if cw < 1 {
        return None;
    }
    proof {
        lemma_mul_fits(cx as int, FX_ONE as int, 4_000_000_000_000_000, FX_ONE as int);
        lemma_mul_fits(cy as int, FX_ONE as int, 4_000_000_000_000_000, FX_ONE as int);
    }
    let nx128: i128 = div_trunc((cx as i128) * (FX_ONE as i128), cw as i128);
    let ny128: i128 = div_trunc((cy as i128) * (FX_ONE as i128), cw as i128);
    let nx: i64 = clamp128(nx128, NDC_LIM as i128) as i64;
    let ny: i64 = clamp128(ny128, NDC_LIM as i128) as i64;
    proof {
        lemma_mul_fits(vp.width as int, nx as int + FX_ONE as int, MAT_LIM as int,
            NDC_LIM as int + FX_ONE as int);
        lemma_mul_fits(vp.height as int, FX_ONE as int - ny as int, MAT_LIM as int,
            NDC_LIM as int + FX_ONE as int);
        lemma_tdiv_fits(vp.width as int * (nx as int + FX_ONE as int), 2 * FX_ONE as int,
            10_010_000_000_000_000_000_000_000_000);
        lemma_tdiv_fits(vp.height as int * (FX_ONE as int - ny as int), 2 * FX_ONE as int,
            10_010_000_000_000_000_000_000_000_000);
    }
    let sx128: i128 = div_trunc((vp.width as i128) * ((nx as i128) + (FX_ONE as i128)),
        2 * (FX_ONE as i128));
    let sy128: i128 = div_trunc((vp.height as i128) * ((FX_ONE as i128) - (ny as i128)),
        2 * (FX_ONE as i128));
    let sx: i64 = vp.left + (sx128 as i64);
    let sy: i64 = vp.top + (sy128 as i64);
    Some(Vec2 { x: sx, y: sy })
}

/// Clamps an `i128` into `[-lim, lim]`.
fn clamp128(v: i128, lim: i128) -> (r: i128)
    requires
        lim >= 0,
    ensures
        r == spec_clamp(v as int, lim as int),
        fits(r as int, lim as int),
{
    if v > lim {
        lim
    } else if v < -lim {
        -lim
    } else {
        v
    }
}

/// Euclidean distance of two screen points, in fixed-point screen units.
pub fn dist2(a: &Vec2, b: &Vec2) -> (r: i64)
    requires
        fits(a.x as int, 0x2000_0000_0000_0000),
        fits(a.y as int, 0x2000_0000_0000_0000),
        fits(b.x as int, 0x2000_0000_0000_0000),
        fits(b.y as int, 0x2000_0000_0000_0000),
    ensures
        is_sqrt((a.x - b.x) * (a.x - b.x) + (a.y - b.y) * (a.y - b.y), r as int),
        r >= 0,
{
    let dx: i64 = a.x - b.x;
    let dy: i64 = a.y - b.y;
    proof {
        lemma_mul_fits(dx as int, dx as int, 0x4000_0000_0000_0000, 0x4000_0000_0000_0000);
        lemma_mul_fits(dy as int, dy as int, 0x4000_0000_0000_0000, 0x4000_0000_0000_0000);
        assert(dx as int * dx as int >= 0) by (nonlinear_arith);
        assert(dy as int * dy as int >= 0) by (nonlinear_arith);
    }
    let n2: u128 = (((dx as i128) * (dx as i128)) as u128) + (((dy as i128) * (dy as i128)) as u128);
    let r: u64 = isqrt_u128(n2);
    proof {
        assert(r as int <= i64::MAX as int) by (nonlinear_arith)
            requires
                (r as int) * (r as int) <= n2 as int
                && (n2 as int) < 0x4000_0000_0000_0000_0000_0000_0000_0000
                && r as int >= 0;
    }
    r as i64
}

} // verus!
