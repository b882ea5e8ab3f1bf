//! Angles in microdegrees.
//!
//! A full turn is [`ANGLE_FULL`] units, a straight angle [`ANGLE_HALF`].
//! Pointer angles live in the half-open range `(-ANGLE_HALF, ANGLE_HALF]`;
//! the frame-to-frame rotation increment is always reduced to the minimal
//! signed representative of its congruence class, so a drag that crosses the
//! straight angle never jumps by a full turn.

use vstd::prelude::*;

verus! {

use crate::fx::fits;

/// One degree, in angle units.
pub const ANGLE_DEG: i64 = 1_000_000;

/// A straight angle (half a turn), in angle units.
pub const ANGLE_HALF: i64 = 180_000_000;

/// A quarter turn, in angle units.
pub const ANGLE_QUARTER: i64 = 90_000_000;

/// A full turn, in angle units.
pub const ANGLE_FULL: i64 = 360_000_000;

/// The angle reduced by at most one full turn toward the minimal signed
/// representation.
pub open spec fn spec_min_angle(d: int) -> int {
    if d > ANGLE_HALF as int {
        d - ANGLE_FULL as int
    } else if d <= -(ANGLE_HALF as int) {
        d + ANGLE_FULL as int
    } else {
        d
    }
}

/// Reduces an angle difference by at most one full turn, toward the minimal
/// signed representation.
pub fn min_angle_delta(d: i64) -> (r: i64)
    requires
        fits(d as int, 4 * ANGLE_FULL as int),
    ensures
        r == spec_min_angle(d as int),
{
    if d > ANGLE_HALF {
        d - ANGLE_FULL
    } else if d <= -ANGLE_HALF {
        d + ANGLE_FULL
    } else {
        d
    }
}

/// Minimal-angle law: for two resolved angles in `(-ANGLE_HALF, ANGLE_HALF]`,
/// the reduced difference lies in `(-ANGLE_HALF, ANGLE_HALF]` again and is
/// congruent to the plain difference modulo a full turn.
pub proof fn lemma_minimal_angle(theta1: int, theta2: int)
    requires
        -(ANGLE_HALF as int) < theta1 <= ANGLE_HALF as int,
        -(ANGLE_HALF as int) < theta2 <= ANGLE_HALF as int,
    ensures
        -(ANGLE_HALF as int) < spec_min_angle(theta2 - theta1) <= ANGLE_HALF as int,
        (spec_min_angle(theta2 - theta1) - (theta2 - theta1)) % (ANGLE_FULL as int) == 0,
{
    let d = theta2 - theta1;
    let r = spec_min_angle(d);
    assert(r - d == 0 || r - d == ANGLE_FULL as int || r - d == -(ANGLE_FULL as int));
    if r - d == ANGLE_FULL as int {
        vstd::arithmetic::div_mod::lemma_mod_self_0(ANGLE_FULL as int);
    }
    if r - d == -(ANGLE_FULL as int) {
        assert((-(ANGLE_FULL as int)) % (ANGLE_FULL as int) == 0) by {
            vstd::arithmetic::div_mod::lemma_fundamental_div_mod_converse(
                -(ANGLE_FULL as int), ANGLE_FULL as int, -1, 0);
        }
    }
    if r - d == 0 {
        vstd::arithmetic::div_mod::lemma_small_mod(0, ANGLE_FULL as nat);
    }
}

} // verus!
