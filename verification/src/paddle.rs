//! Per-tick paddle motion: input-driven vertical movement, clamped to the
//! playfield.

use crate::geometry::Playfield;
use vstd::prelude::*;

verus! {

/// Constant paddle speed, in world units per second. A world unit per second
/// is exactly a milli-unit per millisecond, so a tick moves the paddle by
/// `PADDLE_SPEED * dt_ms` milli-units.
pub const PADDLE_SPEED: u64 = 300;

/// Vertical clearance kept between the paddle's centre and the horizontal
/// borders, in milli-units.
pub const PADDLE_CLEARANCE: u64 = 30_000;

/// Highest vertical centre position the paddle may take on this playfield,
/// in milli-units; the lowest is its negation.
pub open spec fn max_paddle_y(area: Playfield) -> int {
    area.height as int / 2 - PADDLE_CLEARANCE
}

/// Where the paddle centre moves before clamping: up and down cancel, and a
/// single held direction moves it at constant speed for the whole tick.
pub open spec fn moved_y(y: int, up: bool, down: bool, dt_ms: int) -> int {
    if up && !down {
        y + PADDLE_SPEED * dt_ms
    } else if down && !up {
        y - PADDLE_SPEED * dt_ms
    } else {
        y
    }
}

/// `raw` pushed back into `[-limit, limit]`.
pub open spec fn clamped(raw: int, limit: int) -> int {
    if raw > limit {
        limit
    } else if raw < -limit {
        -limit
    } else {
        raw
    }
}

/// One tick of the paddle controller: move the paddle centre by the input
/// direction at constant speed for the tick's duration, then clamp it to the
/// playfield. Movement scales with elapsed time, not with tick count, so the
/// result is frame-rate independent.
///
/// A playfield shorter than twice the clearance leaves the paddle no valid
/// position at all, so such playfields are excluded.
pub fn move_paddle(y: i64, up: bool, down: bool, dt_ms: u64, area: &Playfield) -> (new_y: i64)
    requires
        area.height as int / 2 >= PADDLE_CLEARANCE,
    ensures
        new_y == clamped(moved_y(y as int, up, down, dt_ms as int), max_paddle_y(*area)),
        -max_paddle_y(*area) <= new_y <= max_paddle_y(*area),
{
    let limit: i64 = ((area.height / 2) as i64) - (PADDLE_CLEARANCE as i64);
    let mut direction: i64 = 0;
    if up {
        direction += 1;
    }
    if down {
        direction -= 1;
    }
    // The speed is written as a literal so the product's bound stays linear
    // for the verifier; the assertion ties it back to the named constant.
    let step: i128 = 300 * (dt_ms as i128);
    proof {
        assert(step == PADDLE_SPEED * dt_ms);
    }
    let raw: i128 = if direction == 1 {
        (y as i128) + step
    } else if direction == -1 {
        (y as i128) - step
    } else {
        y as i128
    };
    if raw > limit as i128 {
        limit
    } else if raw < -(limit as i128) {
        -limit
    } else {
        raw as i64
    }
}

} // verus!
