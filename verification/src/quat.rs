//! Unit quaternions over fixed-point scalars, used to carry the object's
//! orientation and to rotate handle axes into local space.
//!
//! Only rotation of a vector is needed here; composing rotations and building
//! a quaternion from an axis and an angle involve trigonometry and stay with
//! the host, which hands the result back as plain components.

use vstd::prelude::*;

verus! {

use crate::fx::{fits, FX_ONE};
use crate::vec3::{Vec3, b3, spec_cross3, spec_scale3, v3, cross3, scale3, add3};

/// A rotation, stored as quaternion components scaled by `FX_ONE`; a
/// well-formed value has unit length, so no component exceeds `FX_ONE`.
#[derive(Clone, Copy, Debug, PartialEq, Eq, Structural)]
pub struct Quat {
    pub x: i64,
    pub y: i64,
    pub z: i64,
    pub w: i64,
}

impl Quat {
    /// The identity rotation.
    pub fn identity() -> (r: Quat)
        ensures
            r.x == 0 && r.y == 0 && r.z == 0 && r.w == FX_ONE,
            r.wf(),
    {
        Quat { x: 0, y: 0, z: 0, w: FX_ONE }
    }

    /// Components of a unit quaternion are unit-sized.
    pub open spec fn wf(self) -> bool {
        fits(self.x as int, FX_ONE as int) && fits(self.y as int, FX_ONE as int)
            && fits(self.z as int, FX_ONE as int) && fits(self.w as int, FX_ONE as int)
    }

    /// The vector part.
    pub open spec fn spec_xyz(self) -> Vec3 {
        Vec3 { x: self.x, y: self.y, z: self.z }
    }
}

/// The rotated vector: `v + w * (2 q x v) + q x (2 q x v)`, each product
/// divided back to fixed point.
pub open spec fn spec_rotate(q: Quat, v: Vec3) -> Vec3 {
    let c1 = v3(spec_cross3(q.spec_xyz(), v));
    let t = Vec3 { x: (2 * c1.x) as i64, y: (2 * c1.y) as i64, z: (2 * c1.z) as i64 };
    let tw = v3(spec_scale3(t, q.w as int, FX_ONE as int));
    let tc = v3(spec_cross3(q.spec_xyz(), t));
    Vec3 {
        x: (v.x + tw.x + tc.x) as i64,
        y: (v.y + tw.y + tc.y) as i64,
        z: (v.z + tw.z + tc.z) as i64,
    }
}

/// Rotates `v` by the unit quaternion `q`.
pub fn rotate3(q: &Quat, v: &Vec3) -> (r: Vec3)
    requires
        q.wf(),
        b3(*v, 4_200_000_000),
    ensures
        r == spec_rotate(*q, *v),
        b3(r, 55_000_000_000),
{
    let qv = Vec3 { x: q.x, y: q.y, z: q.z };
    let c1 = cross3(&qv, v);
    proof {
        crate::fx::lemma_mul_fits(q.x as int, v.y as int, FX_ONE as int, 4_200_000_000);
        crate::fx::lemma_mul_fits(q.x as int, v.z as int, FX_ONE as int, 4_200_000_000);
        crate::fx::lemma_mul_fits(q.y as int, v.x as int, FX_ONE as int, 4_200_000_000);
        crate::fx::lemma_mul_fits(q.y as int, v.z as int, FX_ONE as int, 4_200_000_000);
        crate::fx::lemma_mul_fits(q.z as int, v.x as int, FX_ONE as int, 4_200_000_000);
        crate::fx::lemma_mul_fits(q.z as int, v.y as int, FX_ONE as int, 4_200_000_000);
        crate::fx::lemma_tdiv_fits(qv.y as int * v.z as int - qv.z as int * v.y as int,
            FX_ONE as int, 8_400_000_000_000_000);
        crate::fx::lemma_tdiv_fits(qv.z as int * v.x as int - qv.x as int * v.z as int,
            FX_ONE as int, 8_400_000_000_000_000);
        crate::fx::lemma_tdiv_fits(qv.x as int * v.y as int - qv.y as int * v.x as int,
            FX_ONE as int, 8_400_000_000_000_000);
    }
    let t = Vec3 { x: 2 * c1.x, y: 2 * c1.y, z: 2 * c1.z };
    let tw = scale3(&t, q.w, FX_ONE);
    proof {
        crate::fx::lemma_mul_fits(t.x as int, q.w as int, 16_800_000_000, FX_ONE as int);
        crate::fx::lemma_mul_fits(t.y as int, q.w as int, 16_800_000_000, FX_ONE as int);
        crate::fx::lemma_mul_fits(t.z as int, q.w as int, 16_800_000_000, FX_ONE as int);
        crate::fx::lemma_tdiv_fits(t.x as int * q.w as int, FX_ONE as int,
            16_800_000_000_000_000);
        crate::fx::lemma_tdiv_fits(t.y as int * q.w as int, FX_ONE as int,
            16_800_000_000_000_000);
        crate::fx::lemma_tdiv_fits(t.z as int * q.w as int, FX_ONE as int,
            16_800_000_000_000_000);
        crate::fx::lemma_mul_fits(qv.y as int, t.z as int, FX_ONE as int, 16_800_000_000);
        crate::fx::lemma_mul_fits(qv.z as int, t.y as int, FX_ONE as int, 16_800_000_000);
        crate::fx::lemma_mul_fits(qv.z as int, t.x as int, FX_ONE as int, 16_800_000_000);
        crate::fx::lemma_mul_fits(qv.x as int, t.z as int, FX_ONE as int, 16_800_000_000);
        crate::fx::lemma_mul_fits(qv.x as int, t.y as int, FX_ONE as int, 16_800_000_000);
        crate::fx::lemma_mul_fits(qv.y as int, t.x as int, FX_ONE as int, 16_800_000_000);
        crate::fx::lemma_tdiv_fits(qv.y as int * t.z as int - qv.z as int * t.y as int,
            FX_ONE as int, 33_600_000_000_000_000);
        crate::fx::lemma_tdiv_fits(qv.z as int * t.x as int - qv.x as int * t.z as int,
            FX_ONE as int, 33_600_000_000_000_000);
        crate::fx::lemma_tdiv_fits(qv.x as int * t.y as int - qv.y as int * t.x as int,
            FX_ONE as int, 33_600_000_000_000_000);
    }
    let tc = cross3(&qv, &t);
    Vec3 { x: v.x + tw.x + tc.x, y: v.y + tw.y + tc.y, z: v.z + tw.z + tc.z }
}

/// A rotation by a unit quaternion grows a fixed-point magnitude bound by at
/// most the factor the truncated products allow.
pub proof fn lemma_rotate_fits(q: Quat, v: Vec3, m: int)
    requires
        q.wf(),
        b3(v, m),
        0 <= m <= 4_200_000_000,
    ensures
        b3(spec_rotate(q, v), 13 * m),
{
    let qv = q.spec_xyz();
    crate::fx::lemma_mul_fits(qv.x as int, v.y as int, FX_ONE as int, m);
    crate::fx::lemma_mul_fits(qv.x as int, v.z as int, FX_ONE as int, m);
    crate::fx::lemma_mul_fits(qv.y as int, v.x as int, FX_ONE as int, m);
    crate::fx::lemma_mul_fits(qv.y as int, v.z as int, FX_ONE as int, m);
    crate::fx::lemma_mul_fits(qv.z as int, v.x as int, FX_ONE as int, m);
    crate::fx::lemma_mul_fits(qv.z as int, v.y as int, FX_ONE as int, m);
    assert(2 * (FX_ONE as int * m) == FX_ONE as int * (2 * m)) by (nonlinear_arith);
    crate::vec3::lemma_mul_div_self(FX_ONE as int, 2 * m);
    crate::fx::lemma_tdiv_fits(qv.y as int * v.z as int - qv.z as int * v.y as int,
        FX_ONE as int, 2 * (FX_ONE as int * m));
    crate::fx::lemma_tdiv_fits(qv.z as int * v.x as int - qv.x as int * v.z as int,
        FX_ONE as int, 2 * (FX_ONE as int * m));
    crate::fx::lemma_tdiv_fits(qv.x as int * v.y as int - qv.y as int * v.x as int,
        FX_ONE as int, 2 * (FX_ONE as int * m));
    let c1 = v3(spec_cross3(qv, v));
    assert(b3(c1, 2 * m));
    let t = Vec3 { x: (2 * c1.x) as i64, y: (2 * c1.y) as i64, z: (2 * c1.z) as i64 };
    assert(b3(t, 4 * m));
    crate::fx::lemma_mul_fits(t.x as int, q.w as int, 4 * m, FX_ONE as int);
    crate::fx::lemma_mul_fits(t.y as int, q.w as int, 4 * m, FX_ONE as int);
    crate::fx::lemma_mul_fits(t.z as int, q.w as int, 4 * m, FX_ONE as int);
    assert(4 * m * FX_ONE as int == FX_ONE as int * (4 * m)) by (nonlinear_arith);
    crate::vec3::lemma_mul_div_self(FX_ONE as int, 4 * m);
    crate::fx::lemma_tdiv_fits(t.x as int * q.w as int, FX_ONE as int,
        4 * m * FX_ONE as int);
    crate::fx::lemma_tdiv_fits(t.y as int * q.w as int, FX_ONE as int,
        4 * m * FX_ONE as int);
    crate::fx::lemma_tdiv_fits(t.z as int * q.w as int, FX_ONE as int,
        4 * m * FX_ONE as int);
    crate::fx::lemma_mul_fits(qv.x as int, t.y as int, FX_ONE as int, 4 * m);
    crate::fx::lemma_mul_fits(qv.x as int, t.z as int, FX_ONE as int, 4 * m);
    crate::fx::lemma_mul_fits(qv.y as int, t.x as int, FX_ONE as int, 4 * m);
    crate::fx::lemma_mul_fits(qv.y as int, t.z as int, FX_ONE as int, 4 * m);
    crate::fx::lemma_mul_fits(qv.z as int, t.x as int, FX_ONE as int, 4 * m);
    crate::fx::lemma_mul_fits(qv.z as int, t.y as int, FX_ONE as int, 4 * m);
    assert(2 * (FX_ONE as int * (4 * m)) == FX_ONE as int * (8 * m)) by (nonlinear_arith);
    crate::vec3::lemma_mul_div_self(FX_ONE as int, 8 * m);
    crate::fx::lemma_tdiv_fits(qv.y as int * t.z as int - qv.z as int * t.y as int,
        FX_ONE as int, 2 * (FX_ONE as int * (4 * m)));
    crate::fx::lemma_tdiv_fits(qv.z as int * t.x as int - qv.x as int * t.z as int,
        FX_ONE as int, 2 * (FX_ONE as int * (4 * m)));
    crate::fx::lemma_tdiv_fits(qv.x as int * t.y as int - qv.y as int * t.x as int,
        FX_ONE as int, 2 * (FX_ONE as int * (4 * m)));
}

} // verus!
