//! Fixed-point vectors.
//!
//! Components are fixed-point scalars ([`crate::fx::FX_ONE`] units to 1.0).
//! Dot products are exact `i128` values of the raw component products; cross
//! products and scalings divide back down by [`crate::fx::FX_ONE`] with
//! truncation, so a unit-length vector keeps unit-sized components.

use vstd::prelude::*;

verus! {

use crate::fx::{fits, tdiv, is_sqrt, FX_ONE, mul_div, isqrt_u128, lemma_mul_fits,
    lemma_tdiv_fits};

/// A world-space or screen-space vector of three fixed-point scalars.
#[derive(Clone, Copy, Debug, PartialEq, Eq, Structural, Default)]
pub struct Vec3 {
    pub x: i64,
    pub y: i64,
    pub z: i64,
}

/// A screen-space point of two fixed-point scalars.
#[derive(Clone, Copy, Debug, PartialEq, Eq, Structural)]
pub struct Vec2 {
    pub x: i64,
    pub y: i64,
}

/// Every component within `m` in magnitude.
pub open spec fn b3(v: Vec3, m: int) -> bool {
    fits(v.x as int, m) && fits(v.y as int, m) && fits(v.z as int, m)
}

/// Raw dot product: exact sum of the component products, in squared units.
pub open spec fn spec_dot3(a: Vec3, b: Vec3) -> int {
    a.x * b.x + a.y * b.y + a.z * b.z
}

/// Cross product, divided back to fixed point.
pub open spec fn spec_cross3(a: Vec3, b: Vec3) -> (int, int, int) {
    (
        tdiv(a.y * b.z - a.z * b.y, FX_ONE as int),
        tdiv(a.z * b.x - a.x * b.z, FX_ONE as int),
        tdiv(a.x * b.y - a.y * b.x, FX_ONE as int),
    )
}

/// `v` scaled by the ratio `num / den`, truncated per component.
pub open spec fn spec_scale3(v: Vec3, num: int, den: int) -> (int, int, int) {
    (tdiv(v.x * num, den), tdiv(v.y * num, den), tdiv(v.z * num, den))
}

/// Squared Euclidean length, exact, in squared units.
pub open spec fn spec_norm2(v: Vec3) -> int {
    v.x * v.x + v.y * v.y + v.z * v.z
}

/// The triple as a vector value.
pub open spec fn v3(t: (int, int, int)) -> Vec3 {
    Vec3 { x: t.0 as i64, y: t.1 as i64, z: t.2 as i64 }
}

impl Vec3 {
    /// Component-wise sum, as a value.
    pub open spec fn spec_addv(self, o: Vec3) -> Vec3 {
        Vec3 { x: (self.x + o.x) as i64, y: (self.y + o.y) as i64, z: (self.z + o.z) as i64 }
    }

}

/// Bound on a dot product from bounds on its vectors.
pub proof fn lemma_dot3_fits(a: Vec3, b: Vec3, ma: int, mb: int)
    requires
        b3(a, ma),
        b3(b, mb),
        0 <= ma,
        0 <= mb,
    ensures
        fits(spec_dot3(a, b), 3 * (ma * mb)),
{
    lemma_mul_fits(a.x as int, b.x as int, ma, mb);
    lemma_mul_fits(a.y as int, b.y as int, ma, mb);
    lemma_mul_fits(a.z as int, b.z as int, ma, mb);
}

/// Component-wise sum.
pub fn add3(a: &Vec3, b: &Vec3) -> (r: Vec3)
    requires
        b3(*a, 0x2000_0000_0000_0000),
        b3(*b, 0x2000_0000_0000_0000),
    ensures
        r.x == a.x + b.x && r.y == a.y + b.y && r.z == a.z + b.z,
{
    Vec3 { x: a.x + b.x, y: a.y + b.y, z: a.z + b.z }
}

/// Component-wise difference.
pub fn sub3(a: &Vec3, b: &Vec3) -> (r: Vec3)
    requires
        b3(*a, 0x2000_0000_0000_0000),
        b3(*b, 0x2000_0000_0000_0000),
    ensures
        r.x == a.x - b.x && r.y == a.y - b.y && r.z == a.z - b.z,
{
    Vec3 { x: a.x - b.x, y: a.y - b.y, z: a.z - b.z }
}

/// Component-wise negation.
pub fn neg3(a: &Vec3) -> (r: Vec3)
    requires
        b3(*a, i64::MAX as int),
    ensures
        r.x == -a.x && r.y == -a.y && r.z == -a.z,
{
    Vec3 { x: -a.x, y: -a.y, z: -a.z }
}

/// Raw dot product, exact in `i128` (squared units).
pub fn dot3(a: &Vec3, b: &Vec3) -> (r: i128)
    requires
        b3(*a, 0x2000_0000_0000_0000),
        b3(*b, 0x2000_0000_0000_0000),
    ensures
        r == spec_dot3(*a, *b),
{
    proof {
        lemma_mul_fits(a.x as int, b.x as int, 0x2000_0000_0000_0000, 0x2000_0000_0000_0000);
        lemma_mul_fits(a.y as int, b.y as int, 0x2000_0000_0000_0000, 0x2000_0000_0000_0000);
        lemma_mul_fits(a.z as int, b.z as int, 0x2000_0000_0000_0000, 0x2000_0000_0000_0000);
    }
    (a.x as i128) * (b.x as i128) + (a.y as i128) * (b.y as i128) + (a.z as i128) * (b.z as i128)
}

/// Cross product, divided back to fixed point.
pub fn cross3(a: &Vec3, b: &Vec3) -> (r: Vec3)
    requires
        b3(*a, 2_000_000_000_000),
        b3(*b, 2_000_000_000_000),
    ensures
        (r.x as int, r.y as int, r.z as int) == spec_cross3(*a, *b),
        b3(r, 8_000_000_000_000_000_000),
{
    proof {
        lemma_mul_fits(a.y as int, b.z as int, 2_000_000_000_000, 2_000_000_000_000);
        lemma_mul_fits(a.z as int, b.y as int, 2_000_000_000_000, 2_000_000_000_000);
        lemma_mul_fits(a.z as int, b.x as int, 2_000_000_000_000, 2_000_000_000_000);
        lemma_mul_fits(a.x as int, b.z as int, 2_000_000_000_000, 2_000_000_000_000);
        lemma_mul_fits(a.x as int, b.y as int, 2_000_000_000_000, 2_000_000_000_000);
        lemma_mul_fits(a.y as int, b.x as int, 2_000_000_000_000, 2_000_000_000_000);
        lemma_tdiv_fits(a.y as int * b.z as int - a.z as int * b.y as int, FX_ONE as int,
            8_000_000_000_000_000_000_000_000);
        lemma_tdiv_fits(a.z as int * b.x as int - a.x as int * b.z as int, FX_ONE as int,
            8_000_000_000_000_000_000_000_000);
        lemma_tdiv_fits(a.x as int * b.y as int - a.y as int * b.x as int, FX_ONE as int,
            8_000_000_000_000_000_000_000_000);
    }
    let cx: i128 = (a.y as i128) * (b.z as i128) - (a.z as i128) * (b.y as i128);
    let cy: i128 = (a.z as i128) * (b.x as i128) - (a.x as i128) * (b.z as i128);
    let cz: i128 = (a.x as i128) * (b.y as i128) - (a.y as i128) * (b.x as i128);
    let rx: i128 = crate::fx::div_trunc(cx, FX_ONE as i128);
    let ry: i128 = crate::fx::div_trunc(cy, FX_ONE as i128);
    let rz: i128 = crate::fx::div_trunc(cz, FX_ONE as i128);
    Vec3 { x: rx as i64, y: ry as i64, z: rz as i64 }
}

/// `v` scaled by the ratio `num / den`, truncated per component.
pub fn scale3(v: &Vec3, num: i64, den: i64) -> (r: Vec3)
    requires
        den >= 1,
        b3(*v, 2_000_000_000_000),
        fits(num as int, 2_000_000_000_000),
        den >= FX_ONE,
    ensures
        (r.x as int, r.y as int, r.z as int) == spec_scale3(*v, num as int, den as int),
        b3(r, 4_000_000_000_000_000_000),
{
    proof {
        lemma_mul_fits(v.x as int, num as int, 2_000_000_000_000, 2_000_000_000_000);
        lemma_mul_fits(v.y as int, num as int, 2_000_000_000_000, 2_000_000_000_000);
        lemma_mul_fits(v.z as int, num as int, 2_000_000_000_000, 2_000_000_000_000);
        lemma_tdiv_fits(v.x as int * num as int, den as int, 4_000_000_000_000_000_000_000_000);
        lemma_tdiv_fits(v.y as int * num as int, den as int, 4_000_000_000_000_000_000_000_000);
        lemma_tdiv_fits(v.z as int * num as int, den as int, 4_000_000_000_000_000_000_000_000);
        vstd::arithmetic::div_mod::lemma_div_is_ordered_by_denominator(
            4_000_000_000_000_000_000_000_000, FX_ONE as int, den as int);
    }
    let rx: i128 = crate::fx::div_trunc((v.x as i128) * (num as i128), den as i128);
    let ry: i128 = crate::fx::div_trunc((v.y as i128) * (num as i128), den as i128);
    let rz: i128 = crate::fx::div_trunc((v.z as i128) * (num as i128), den as i128);
    Vec3 { x: rx as i64, y: ry as i64, z: rz as i64 }
}

/// Euclidean length in units: the integer square root of the exact squared
/// length. Each component's magnitude never exceeds the length.
pub fn length3(v: &Vec3) -> (r: i64)
    requires
        b3(*v, 0x2000_0000_0000_0000),
    ensures
        is_sqrt(spec_norm2(*v), r as int),
        r >= 0,
        fits(v.x as int, r as int) && fits(v.y as int, r as int) && fits(v.z as int, r as int),
{
    proof {
        lemma_mul_fits(v.x as int, v.x as int, 0x2000_0000_0000_0000, 0x2000_0000_0000_0000);
        lemma_mul_fits(v.y as int, v.y as int, 0x2000_0000_0000_0000, 0x2000_0000_0000_0000);
        lemma_mul_fits(v.z as int, v.z as int, 0x2000_0000_0000_0000, 0x2000_0000_0000_0000);
        assert(v.x as int * v.x as int >= 0) by (nonlinear_arith);
        assert(v.y as int * v.y as int >= 0) by (nonlinear_arith);
        assert(v.z as int * v.z as int >= 0) by (nonlinear_arith);
    }
    let sx: u128 = ((v.x as i128) * (v.x as i128)) as u128;
    let sy: u128 = ((v.y as i128) * (v.y as i128)) as u128;
    let sz: u128 = ((v.z as i128) * (v.z as i128)) as u128;
    let n2: u128 = sx + sy + sz;
    let r: u64 = isqrt_u128(n2);
    proof {
        lemma_sqrt_dominates_component(v.x as int, spec_norm2(*v), r as int);
        lemma_sqrt_dominates_component(v.y as int, spec_norm2(*v), r as int);
        lemma_sqrt_dominates_component(v.z as int, spec_norm2(*v), r as int);
        assert(r as int <= i64::MAX as int) by (nonlinear_arith)
            requires
                (r as int) * (r as int) <= n2 as int
                && (n2 as int) < 0x4000_0000_0000_0000_0000_0000_0000_0000
                && r as int >= 0;
    }
    r as i64
}

/// A component of a vector is no longer than the vector's integer length.
proof fn lemma_sqrt_dominates_component(c: int, n2: int, r: int)
    by (nonlinear_arith)
    requires
        is_sqrt(n2, r),
        c * c <= n2,
    ensures
        fits(c, r),
{
}

/// Scales `v` to unit length (components in `FX_ONE` units); `None` for the
/// zero vector, whose direction is undefined.
pub fn normalize3(v: &Vec3) -> (r: Option<Vec3>)
    requires
        b3(*v, 0x2000_0000_0000_0000),
    ensures
        (r is Some) <==> spec_norm2(*v) > 0,
        r matches Some(u) ==> {
            &&& (u.x as int, u.y as int, u.z as int)
                == spec_scale3(*v, FX_ONE as int, sqrt_of(spec_norm2(*v)))
            &&& b3(u, FX_ONE as int)
        },
{
    let len: i64 = length3(v);
    proof {
        lemma_sqrt_unique(spec_norm2(*v), len as int);
        if spec_norm2(*v) > 0 && len as int >= 1 {
            lemma_mul_fits(v.x as int, FX_ONE as int, len as int, FX_ONE as int);
            lemma_mul_fits(v.y as int, FX_ONE as int, len as int, FX_ONE as int);
            lemma_mul_fits(v.z as int, FX_ONE as int, len as int, FX_ONE as int);
            lemma_tdiv_fits(v.x as int * FX_ONE as int, len as int, len as int * FX_ONE as int);
            lemma_tdiv_fits(v.y as int * FX_ONE as int, len as int, len as int * FX_ONE as int);
            lemma_tdiv_fits(v.z as int * FX_ONE as int, len as int, len as int * FX_ONE as int);
            lemma_mul_div_self(len as int, FX_ONE as int);
        }
    }
    if len == 0 {
        assert(spec_norm2(*v) == 0) by (nonlinear_arith)
            requires is_sqrt(spec_norm2(*v), 0);
        None
    } else {
        assert(spec_norm2(*v) > 0) by (nonlinear_arith)
            requires is_sqrt(spec_norm2(*v), len as int) && len >= 1;
        let rx: i64 = mul_div(v.x, FX_ONE, len);
        let ry: i64 = mul_div(v.y, FX_ONE, len);
        let rz: i64 = mul_div(v.z, FX_ONE, len);
        Some(Vec3 { x: rx, y: ry, z: rz })
    }
}

/// Euclidean distance of two points, as a value.
pub open spec fn spec_dist3(a: Vec3, b: Vec3) -> int {
    sqrt_of(
        (a.x - b.x) * (a.x - b.x) + (a.y - b.y) * (a.y - b.y) + (a.z - b.z) * (a.z - b.z),
    )
}

/// Euclidean distance of two points, in units.
pub fn dist3(a: &Vec3, b: &Vec3) -> (r: i64)
    requires
        b3(*a, 0x1000_0000_0000_0000),
        b3(*b, 0x1000_0000_0000_0000),
    ensures
        r == spec_dist3(*a, *b),
        r >= 0,
{
    let d = sub3(a, b);
    let r = length3(&d);
    proof {
        lemma_sqrt_unique(spec_norm2(d), r as int);
    }
    r
}

/// The integer square root as a value (meaningful for `x >= 0`).
pub open spec fn sqrt_of(x: int) -> int {
    choose|r: int| is_sqrt(x, r)
}

/// Integer square roots are unique, so `sqrt_of` names the one the code found.
pub proof fn lemma_sqrt_unique(x: int, r: int)
    requires
        is_sqrt(x, r),
    ensures
        sqrt_of(x) == r,
{
    assert(is_sqrt(x, r));
    let w = choose|w: int| is_sqrt(x, w);
    assert(is_sqrt(x, w));
    if w < r {
        assert(false) by (nonlinear_arith)
            requires is_sqrt(x, r) && is_sqrt(x, w) && w < r;
    }
    if w > r {
        assert(false) by (nonlinear_arith)
            requires is_sqrt(x, r) && is_sqrt(x, w) && w > r;
    }
}

/// `(m * k) / m == k` for positive `m`, used to bound normalized components.
pub proof fn lemma_mul_div_self(m: int, k: int)
    requires
        m >= 1,
        k >= 0,
    ensures
        (m * k) / m == k,
{
    assert(m * k == k * m + 0) by (nonlinear_arith);
    vstd::arithmetic::div_mod::lemma_fundamental_div_mod_converse(m * k, m, k, 0);
}

} // verus!
