//! Rotation angles.
//!
//! Trigonometry is not computed here: an `Angle` carries its fixed-point
//! radian measure together with its cosine and sine, supplied by the caller
//! (exactly for the quarter-turn constructors, or converted from floating
//! point outside the library).

use crate::fixed::{add_sat, fx_add, fx_neg, neg_sat, SCALE};
use vstd::prelude::*;

verus! {

/// Fixed-point radians in a quarter turn (`π/2`, rounded to the grid).
pub const QUARTER_TURN_RAD: i64 = 102944;

/// An angle with its precomputed cosine and sine.
#[derive(Clone, Copy, Debug, PartialEq, Eq, Structural)]
pub struct Angle {
    /// Radian measure on the fixed-point grid.
    pub rad: i64,
    /// Cosine, in `[-SCALE, SCALE]`.
    pub cos: i64,
    /// Sine, in `[-SCALE, SCALE]`.
    pub sin: i64,
}

/// Cosine and sine lie within the unit interval.
pub open spec fn angle_wf(a: Angle) -> bool {
    &&& -SCALE <= a.cos <= SCALE
    &&& -SCALE <= a.sin <= SCALE
}

impl Angle {
    /// The zero angle.
    pub fn zero() -> (r: Angle)
        ensures
            r == (Angle { rad: 0, cos: SCALE, sin: 0 }),
            angle_wf(r),
    {
        Angle { rad: 0, cos: SCALE, sin: 0 }
    }

    /// A quarter turn: cosine zero, sine one.
    pub fn quarter_turn() -> (r: Angle)
        ensures
            r == (Angle { rad: QUARTER_TURN_RAD, cos: 0, sin: SCALE }),
            angle_wf(r),
    {
        Angle { rad: QUARTER_TURN_RAD, cos: 0, sin: SCALE }
    }

    /// A half turn: cosine minus one, sine zero.
    pub fn half_turn() -> (r: Angle)
        ensures
            r.rad == 2 * QUARTER_TURN_RAD,
            r.cos == -SCALE,
            r.sin == 0,
            angle_wf(r),
    {
        Angle { rad: 2 * QUARTER_TURN_RAD, cos: -SCALE, sin: 0 }
    }

    /// An angle from its radian measure and precomputed cosine and sine.
    pub fn from_parts(rad: i64, cos: i64, sin: i64) -> (r: Angle)
        requires
            -SCALE <= cos <= SCALE,
            -SCALE <= sin <= SCALE,
        ensures
            r == (Angle { rad, cos, sin }),
            angle_wf(r),
    {
        Angle { rad, cos, sin }
    }

    /// The opposite angle: negated measure and sine, same cosine.
    pub fn neg(&self) -> (r: Angle)
        ensures
            r.rad == neg_sat(self.rad as int),
            r.cos == self.cos,
            r.sin == neg_sat(self.sin as int),
            angle_wf(*self) ==> angle_wf(r),
    {
        Angle { rad: fx_neg(self.rad), cos: self.cos, sin: fx_neg(self.sin) }
    }
}

} // verus!
