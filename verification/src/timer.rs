//! The repeating acceleration timer: fires once per elapsed period, keeping
//! the remainder, so the long-run firing rate tracks real elapsed time.

use vstd::arithmetic::div_mod::{
    lemma_div_is_ordered, lemma_div_multiples_vanish, lemma_fundamental_div_mod,
    lemma_fundamental_div_mod_converse_div, lemma_fundamental_div_mod_converse_mod,
    lemma_mod_bound,
};
use vstd::prelude::*;

verus! {

/// The scheduler's period, in milliseconds: a tenth of a simulated second.
pub const FIRE_PERIOD_MS: u64 = 100;

/// Repeating-timer state: the time accumulated towards the next firing.
#[derive(Clone, Copy, Debug, PartialEq, Eq, Structural)]
pub struct AccelTimer {
    pub elapsed_ms: u64,
}

impl AccelTimer {
    /// The accumulator always holds strictly less than one period.
    pub open spec fn wf(self) -> bool {
        self.elapsed_ms < FIRE_PERIOD_MS
    }

    /// A fresh timer with nothing accumulated.
    pub fn new() -> (t: AccelTimer)
        ensures
            t.elapsed_ms == 0,
            t.wf(),
    {
        AccelTimer { elapsed_ms: 0 }
    }

    /// Advances the timer by one tick's elapsed time and reports whether it
    /// fired. It fires when at least one period has elapsed, but at most once
    /// per tick however long the tick was; time beyond the period is kept,
    /// modulo the period, rather than dropped.
    pub fn tick(&mut self, dt_ms: u64) -> (fired: bool)
        requires
            old(self).wf(),
        ensures
            fired == (old(self).elapsed_ms + dt_ms >= FIRE_PERIOD_MS),
            final(self).elapsed_ms == (old(self).elapsed_ms + dt_ms) % (FIRE_PERIOD_MS as int),
            final(self).wf(),
    {
        let total: u128 = (self.elapsed_ms as u128) + (dt_ms as u128);
        let fired = total >= FIRE_PERIOD_MS as u128;
        self.elapsed_ms = (total % (FIRE_PERIOD_MS as u128)) as u64;
        fired
    }
}

/// Sum of a run of tick durations.
pub open spec fn total_elapsed(deltas: Seq<int>) -> int
    decreases deltas.len(),
{
    if deltas.len() == 0 {
        0
    } else {
        total_elapsed(deltas.drop_last()) + deltas.last()
    }
}

/// The timer accumulator after a run of ticks starting from a fresh timer.
pub open spec fn remainder_after(deltas: Seq<int>) -> int
    decreases deltas.len(),
{
    if deltas.len() == 0 {
        0
    } else {
        (remainder_after(deltas.drop_last()) + deltas.last()) % (FIRE_PERIOD_MS as int)
    }
}

/// How many ticks of the run fired, starting from a fresh timer.
pub open spec fn firings_after(deltas: Seq<int>) -> int
    decreases deltas.len(),
{
    if deltas.len() == 0 {
        0
    } else {
        firings_after(deltas.drop_last()) + if remainder_after(deltas.drop_last())
            + deltas.last() >= FIRE_PERIOD_MS {
            1int
        } else {
            0int
        }
    }
}

/// Law: over any run of ticks none of which is longer than the period, the
/// timer fires exactly once per full period of total elapsed time — the
/// firing rate is locked to elapsed time, independent of the tick rate.
pub proof fn lemma_firing_rate(deltas: Seq<int>)
    requires
        forall|i: int| 0 <= i < deltas.len() ==> 0 <= #[trigger] deltas[i] <= FIRE_PERIOD_MS,
    ensures
        0 <= remainder_after(deltas) < FIRE_PERIOD_MS,
        firings_after(deltas) == total_elapsed(deltas) / (FIRE_PERIOD_MS as int),
        remainder_after(deltas) == total_elapsed(deltas) % (FIRE_PERIOD_MS as int),
    decreases deltas.len(),
{
    let p = FIRE_PERIOD_MS as int;
    if deltas.len() == 0 {
        lemma_fundamental_div_mod_converse_div(0, p, 0, 0);
        lemma_fundamental_div_mod_converse_mod(0, p, 0, 0);
    } else {
        let rest = deltas.drop_last();
        let d = deltas.last();
        assert(forall|i: int| 0 <= i < rest.len() ==> 0 <= #[trigger] rest[i] <= FIRE_PERIOD_MS);
        assert(0 <= d <= FIRE_PERIOD_MS);
        lemma_firing_rate(rest);
        let t = total_elapsed(rest);
        let r = remainder_after(rest);
        let f = firings_after(rest);
        lemma_fundamental_div_mod(t, p);
        assert(t == f * p + r);
        lemma_mod_bound(r + d, p);
        if r + d >= p {
            // One period boundary was crossed this tick.
            assert((r + d) % p == r + d - p) by {
                lemma_fundamental_div_mod_converse_mod(r + d, p, 1, r + d - p);
            }
            assert(t + d == (f + 1) * p + (r + d - p)) by (nonlinear_arith)
                requires
                    t == f * p + r,
            ;
            lemma_fundamental_div_mod_converse_div(t + d, p, f + 1, r + d - p);
            lemma_fundamental_div_mod_converse_mod(t + d, p, f + 1, r + d - p);
        } else {
            // The accumulator only grew.
            assert((r + d) % p == r + d) by {
                lemma_fundamental_div_mod_converse_mod(r + d, p, 0, r + d);
            }
            lemma_fundamental_div_mod_converse_div(t + d, p, f, r + d);
            lemma_fundamental_div_mod_converse_mod(t + d, p, f, r + d);
        }
    }
}

/// Law: whatever the tick durations — even ones spanning several periods —
/// the timer never fires more than once per full period of elapsed time,
/// since at most one firing is surfaced per tick. (Ticks longer than one
/// period lose the extra periods; the exact rate above holds only below it.)
pub proof fn lemma_firings_never_overcount(deltas: Seq<int>)
    requires
        forall|i: int| 0 <= i < deltas.len() ==> #[trigger] deltas[i] >= 0,
    ensures
        0 <= remainder_after(deltas) < FIRE_PERIOD_MS,
        firings_after(deltas) * (FIRE_PERIOD_MS as int) + remainder_after(deltas)
            <= total_elapsed(deltas),
        firings_after(deltas) <= total_elapsed(deltas) / (FIRE_PERIOD_MS as int),
    decreases deltas.len(),
{
    let p = FIRE_PERIOD_MS as int;
    if deltas.len() == 0 {
        lemma_fundamental_div_mod_converse_div(0, p, 0, 0);
    } else {
        let rest = deltas.drop_last();
        let d = deltas.last();
        assert(forall|i: int| 0 <= i < rest.len() ==> #[trigger] rest[i] >= 0);
        assert(d >= 0);
        lemma_firings_never_overcount(rest);
        let t = total_elapsed(rest);
        let r = remainder_after(rest);
        let f = firings_after(rest);
        lemma_mod_bound(r + d, p);
        lemma_fundamental_div_mod(r + d, p);
        if r + d >= p {
            // At least one period passed, but only one firing is surfaced;
            // the wrapped remainder can only have dropped time.
            assert((r + d) / p >= 1) by {
                lemma_div_is_ordered(p, r + d, p);
                lemma_div_multiples_vanish(1, p);
            }
            assert((r + d) % p <= r + d - p) by (nonlinear_arith)
                requires
                    p >= 1,
                    r + d == p * ((r + d) / p) + (r + d) % p,
                    (r + d) / p >= 1,
            ;
            assert((f + 1) * p == f * p + p) by (nonlinear_arith);
        } else {
            lemma_fundamental_div_mod_converse_mod(r + d, p, 0, r + d);
        }
        // The firing count never exceeds elapsed time over the period.
        let tf = total_elapsed(deltas);
        let ff = firings_after(deltas);
        assert(ff * p <= tf);
        assert(ff <= tf / p) by {
            lemma_div_is_ordered(ff * p, tf, p);
            lemma_div_multiples_vanish(ff, p);
        }
    }
}

} // verus!
