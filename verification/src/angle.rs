//! Angles, kept normalized to one turn.
//!
//! An [`Angle`] stores a radian value in fixed-point ticks and is
//! renormalized on every mutation into `[0, TAU_FX)` by repeated
//! correction with a full turn, so the stored value always equals the
//! input reduced modulo `TAU_FX` (with a non-negative remainder).

use vstd::arithmetic::div_mod::{
    lemma_mod_add_multiples_vanish, lemma_mod_sub_multiples_vanish, lemma_small_mod,
};
use vstd::prelude::*;

verus! {

/// One full turn: `2 * pi` at `FX_ONE` ticks per unit, rounded to the
/// nearest tick.
pub const TAU_FX: i64 = 6588397;

/// The radian value reduced into `[0, TAU_FX)`: the Euclidean remainder
/// modulo one turn.
pub open spec fn normalize_radian(radian: i64) -> int {
    (radian as int) % (TAU_FX as int)
}

/// A radian value normalized to the half-open range `[0, TAU_FX)`.
#[derive(Clone, Copy, PartialEq, Eq, Structural, Debug)]
pub struct Angle {
    radian: i64,
}

impl Angle {
    /// The stored radian value, in ticks.
    pub closed spec fn spec_radian(self) -> i64 {
        self.radian
    }

    /// The stored value sits inside one non-negative turn.
    pub open spec fn wf(self) -> bool {
        0 <= self.spec_radian() < TAU_FX
    }

    /// An angle of `radian` ticks, normalized into `[0, TAU_FX)`.
    pub fn new(radian: i64) -> (r: Angle)
        ensures
            r.spec_radian() == normalize_radian(radian),
            r.wf(),
    {
        let mut filtered_angle = radian;
        while filtered_angle < 0
            invariant
                (filtered_angle as int) % (TAU_FX as int) == normalize_radian(radian),
            decreases TAU_FX - filtered_angle,
        {
            proof {
                lemma_mod_add_multiples_vanish(filtered_angle as int, TAU_FX as int);
            }
            filtered_angle = filtered_angle + TAU_FX;
        }
        while filtered_angle >= TAU_FX
            invariant
                (filtered_angle as int) % (TAU_FX as int) == normalize_radian(radian),
                filtered_angle >= 0,
            decreases filtered_angle,
        {
            proof {
                lemma_mod_sub_multiples_vanish(filtered_angle - TAU_FX, TAU_FX as int);
            }
            filtered_angle = filtered_angle - TAU_FX;
        }
        proof {
            lemma_small_mod(filtered_angle as nat, TAU_FX as nat);
        }
        Angle { radian: filtered_angle }
    }

    /// The normalized radian value.
    pub fn get_radian(&self) -> (r: i64)
        ensures
            r == self.spec_radian(),
    {
        self.radian
    }

    /// Replace the angle by `angle` ticks, normalized into `[0, TAU_FX)`.
    pub fn set_radian(&mut self, angle: i64)
        ensures
            final(self).spec_radian() == normalize_radian(angle),
            final(self).wf(),
    {
        *self = Angle::new(angle);
    }
}

impl Default for Angle {
    /// The zero angle.
    fn default() -> (r: Self)
        ensures
            r.spec_radian() == 0,
            r.wf(),
    {
        Angle::new(0)
    }
}

/// Normalization always lands in `[0, TAU_FX)`, whatever finite radian
/// value it starts from — negative and multi-turn inputs included.
pub proof fn lemma_normalize_radian_in_range(radian: i64)
    ensures
        0 <= normalize_radian(radian) < TAU_FX,
{
}

} // verus!
