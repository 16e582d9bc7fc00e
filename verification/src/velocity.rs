//! The ball's velocity vector: the collision response inverts its horizontal
//! component, the acceleration scheduler grows both components.

use vstd::prelude::*;
use vstd::arithmetic::div_mod::{
    lemma_div_is_ordered, lemma_div_multiples_vanish, lemma_fundamental_div_mod,
    lemma_hoist_over_denominator, lemma_mod_bound,
};
use vstd::arithmetic::mul::lemma_mul_inequality;
use vstd::arithmetic::power::{lemma_pow_positive, pow};

verus! {

/// Numerator and denominator of the per-firing growth factor: each firing of
/// the acceleration scheduler multiplies the speed by 1001/1000 (+0.1%).
pub const GROWTH_NUM: u64 = 1001;
pub const GROWTH_DEN: u64 = 1000;

/// Largest speed component magnitude the simulation tracks, in milli-units
/// per second. One growth step from anything at or under this limit still
/// fits in the machine arithmetic.
pub const SPEED_LIMIT: u64 = 9_000_000_000_000_000;

/// A velocity vector in milli-units per second.
#[derive(Clone, Copy, Debug, PartialEq, Eq, Structural)]
pub struct Velocity {
    pub vx: i64,
    pub vy: i64,
}

/// Magnitude of one velocity component.
pub open spec fn mag(v: int) -> int {
    if v < 0 {
        -v
    } else {
        v
    }
}

/// One growth step on a nonnegative magnitude: multiply by 1001/1000,
/// rounding down.
pub open spec fn grow_mag(m: int) -> int {
    m * GROWTH_NUM / (GROWTH_DEN as int)
}

/// One growth step on a signed component: the magnitude grows, the sign stays.
pub open spec fn grow_component(v: int) -> int {
    if v < 0 {
        -grow_mag(-v)
    } else {
        grow_mag(v)
    }
}

/// The velocity with its horizontal component inverted: what one collision
/// response does to it.
pub open spec fn flipped(v: Velocity) -> Velocity {
    Velocity { vx: (-v.vx) as i64, vy: v.vy }
}

impl Velocity {
    /// Game logic never zeroes a component (collisions only invert, growth
    /// only enlarges), and both components stay within the tracked range.
    pub open spec fn wf(self) -> bool {
        &&& self.vx != 0
        &&& self.vy != 0
        &&& mag(self.vx as int) <= SPEED_LIMIT
        &&& mag(self.vy as int) <= SPEED_LIMIT
    }

    /// The velocity after one firing of the acceleration scheduler: both
    /// components grow by the factor, unless either grown magnitude would
    /// leave the tracked range, in which case the velocity is kept as it is.
    pub open spec fn grown(self) -> Velocity {
        if grow_mag(mag(self.vx as int)) <= SPEED_LIMIT && grow_mag(mag(self.vy as int))
            <= SPEED_LIMIT {
            Velocity {
                vx: grow_component(self.vx as int) as i64,
                vy: grow_component(self.vy as int) as i64,
            }
        } else {
            self
        }
    }

    /// Inverts the horizontal component and leaves the vertical one alone:
    /// a collision changes the ball's direction, never its speed.
    pub fn flip_x(&mut self)
        requires
            old(self).wf(),
        ensures
            final(self).vx == -old(self).vx,
            final(self).vy == old(self).vy,
            final(self).wf(),
    {
        self.vx = -self.vx;
    }

    /// Applies one firing of the acceleration scheduler to the velocity.
    pub fn accelerate(&mut self)
        requires
            old(self).wf(),
        ensures
            *final(self) == old(self).grown(),
            final(self).wf(),
    {
        let mx: u64 = if self.vx < 0 {
            (-self.vx) as u64
        } else {
            self.vx as u64
        };
        let my: u64 = if self.vy < 0 {
            (-self.vy) as u64
        } else {
            self.vy as u64
        };
        proof {
            lemma_grow_mag_bounds(mx as int);
            lemma_grow_mag_bounds(my as int);
        }
        let gx: u64 = mx * GROWTH_NUM / GROWTH_DEN;
        let gy: u64 = my * GROWTH_NUM / GROWTH_DEN;
        if gx <= SPEED_LIMIT && gy <= SPEED_LIMIT {
            self.vx = if self.vx < 0 {
                -(gx as i64)
            } else {
                gx as i64
            };
            self.vy = if self.vy < 0 {
                -(gy as i64)
            } else {
                gy as i64
            };
        }
    }
}

/// One growth step never shrinks a nonnegative magnitude: it grows it by
/// exactly its (rounded-down) thousandth part, so strictly once the magnitude
/// reaches a full unit per second.
pub proof fn lemma_grow_mag_bounds(m: int)
    requires
        0 <= m,
    ensures
        grow_mag(m) == m + m / (GROWTH_DEN as int),
        m <= grow_mag(m),
        1000 <= m ==> m < grow_mag(m),
{
    lemma_hoist_over_denominator(m, m, 1000nat);
    assert(m * (GROWTH_NUM as int) == m + m * 1000) by (nonlinear_arith);
    assert(m / 1000 >= 0) by {
        lemma_div_is_ordered(0, m, 1000);
        lemma_div_multiples_vanish(0, 1000);
    }
    if m >= 1000 {
        assert(m / 1000 >= 1) by {
            lemma_div_is_ordered(1000, m, 1000);
            lemma_div_multiples_vanish(1, 1000);
        }
    }
}

/// Law: the collision response and the acceleration step may run in either
/// order within a tick: inverting the horizontal component commutes with
/// growing the speed, because growth works on magnitudes and keeps signs.
pub proof fn lemma_flip_and_growth_commute(v: Velocity)
    requires
        v.wf(),
    ensures
        flipped(v).wf(),
        flipped(v.grown()) == flipped(v).grown(),
{
    let mx = mag(v.vx as int);
    let my = mag(v.vy as int);
    lemma_grow_mag_bounds(mx);
    lemma_grow_mag_bounds(my);
    assert(mag(flipped(v).vx as int) == mx);
}

/// Speed magnitude after `k` firings of the acceleration scheduler starting
/// from `m0`, each firing applying one growth step.
pub open spec fn mag_after_firings(m0: int, k: nat) -> int
    decreases k,
{
    if k == 0 {
        m0
    } else {
        grow_mag(mag_after_firings(m0, (k - 1) as nat))
    }
}

/// Law: with no direction flips, repeated firings of the scheduler only ever
/// grow the speed magnitude, and grow it strictly once it measures at least
/// one unit per second.
pub proof fn lemma_growth_monotonic(m0: int, k: nat)
    requires
        0 <= m0,
    ensures
        m0 <= mag_after_firings(m0, k),
        mag_after_firings(m0, k) <= mag_after_firings(m0, k + 1),
        1000 <= m0 ==> mag_after_firings(m0, k) < mag_after_firings(m0, k + 1),
    decreases k,
{
    if k == 0 {
        lemma_grow_mag_bounds(m0);
    } else {
        lemma_growth_monotonic(m0, (k - 1) as nat);
        lemma_grow_mag_bounds(mag_after_firings(m0, (k - 1) as nat));
        lemma_grow_mag_bounds(mag_after_firings(m0, k));
    }
}

/// Law: the magnitude after `k` firings never exceeds the exact compound
/// growth `m0 * (1001/1000)^k`; each step only rounds down.
pub proof fn lemma_growth_bounded(m0: int, k: nat)
    requires
        0 <= m0,
    ensures
        mag_after_firings(m0, k) * pow(GROWTH_DEN as int, k) <= m0 * pow(GROWTH_NUM as int, k),
    decreases k,
{
    reveal(pow);
    if k != 0 {
        let j = (k - 1) as nat;
        let a = mag_after_firings(m0, j);
        let g = mag_after_firings(m0, k);
        let pd = pow(GROWTH_DEN as int, j);
        let pn = pow(GROWTH_NUM as int, j);
        lemma_growth_monotonic(m0, j);
        lemma_growth_bounded(m0, j);
        lemma_pow_positive(GROWTH_DEN as int, j);
        lemma_pow_positive(GROWTH_NUM as int, j);
        assert(g * 1000 <= a * 1001) by {
            lemma_fundamental_div_mod(a * 1001, 1000);
            lemma_mod_bound(a * 1001, 1000);
        }
        assert(g * pow(GROWTH_DEN as int, k) == (g * 1000) * pd) by (nonlinear_arith)
            requires
                pow(GROWTH_DEN as int, k) == 1000 * pd,
        ;
        assert((g * 1000) * pd <= (a * 1001) * pd) by {
            lemma_mul_inequality(g * 1000, a * 1001, pd);
        }
        assert((a * 1001) * pd == (a * pd) * 1001) by (nonlinear_arith);
        assert((a * pd) * 1001 <= (m0 * pn) * 1001) by {
            lemma_mul_inequality(a * pd, m0 * pn, 1001);
        }
        assert((m0 * pn) * 1001 == m0 * pow(GROWTH_NUM as int, k)) by (nonlinear_arith)
            requires
                pow(GROWTH_NUM as int, k) == 1001 * pn,
        ;
    }
}

} // verus!
