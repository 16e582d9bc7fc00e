//! The per-tick simulation: one state record and one tick function that runs
//! the paddle controller, the collision response and the acceleration
//! scheduler over it.

use crate::collision::{hits_on, resolve_collisions, CollisionEvent};
use crate::entities::BALL_START_SPEED;
use crate::geometry::{derive_playfield, Playfield, EDGE_PADDING};
use crate::paddle::{clamped, max_paddle_y, move_paddle, moved_y, PADDLE_CLEARANCE};
use crate::timer::{AccelTimer, FIRE_PERIOD_MS};
use crate::velocity::{flipped, Velocity};
use vstd::prelude::*;

verus! {

/// Everything the core mutates over a session: the immutable playfield, the
/// paddle's vertical centre, the ball's velocity, the scheduler's timer, and
/// the identity under which the physics collaborator reports the ball.
#[derive(Clone, Copy, Debug, PartialEq, Eq, Structural)]
pub struct SimState {
    pub area: Playfield,
    pub paddle_y: i64,
    pub ball_velocity: Velocity,
    pub timer: AccelTimer,
    pub ball_id: u64,
}

impl SimState {
    /// The session invariant: a playfield tall enough to hold the paddle's
    /// range, the paddle inside that range, a well-formed ball velocity and
    /// timer.
    pub open spec fn wf(self) -> bool {
        &&& self.area.wf()
        &&& self.area.height as int / 2 >= PADDLE_CLEARANCE
        &&& -max_paddle_y(self.area) <= self.paddle_y <= max_paddle_y(self.area)
        &&& self.ball_velocity.wf()
        &&& self.timer.wf()
    }

    /// Startup: derive the playfield from the surface, centre the paddle,
    /// give the ball its fixed diagonal start velocity, and start the timer
    /// fresh. A surface too small to leave the paddle any valid position is
    /// excluded, as is one too narrow for the playfield.
    pub fn new(surface_width: u64, surface_height: u64, ball_id: u64) -> (s: SimState)
        requires
            surface_width > 2 * EDGE_PADDING,
            surface_height >= 2 * EDGE_PADDING + 2 * PADDLE_CLEARANCE,
        ensures
            s.area.width == surface_width - 2 * EDGE_PADDING,
            s.area.height == surface_height - 2 * EDGE_PADDING,
            s.paddle_y == 0,
            s.ball_velocity.vx == BALL_START_SPEED && s.ball_velocity.vy == BALL_START_SPEED,
            s.timer.elapsed_ms == 0,
            s.ball_id == ball_id,
            s.wf(),
    {
        let area = derive_playfield(surface_width, surface_height);
        SimState {
            area,
            paddle_y: 0,
            ball_velocity: Velocity {
                vx: BALL_START_SPEED as i64,
                vy: BALL_START_SPEED as i64,
            },
            timer: AccelTimer::new(),
            ball_id,
        }
    }

    /// One simulation tick: move the paddle by the held input for the tick's
    /// duration and clamp it; invert the ball's horizontal velocity once per
    /// collision-start event that names the ball; advance the timer and, if a
    /// period elapsed, grow the ball's velocity by one step.
    pub fn tick(&mut self, up: bool, down: bool, dt_ms: u64, events: &Vec<CollisionEvent>)
        requires
            old(self).wf(),
        ensures
            final(self).area == old(self).area,
            final(self).ball_id == old(self).ball_id,
            final(self).paddle_y == clamped(
                moved_y(old(self).paddle_y as int, up, down, dt_ms as int),
                max_paddle_y(old(self).area),
            ),
            final(self).timer.elapsed_ms == (old(self).timer.elapsed_ms + dt_ms) % (
            FIRE_PERIOD_MS as int),
            final(self).ball_velocity == {
                let bounced = if hits_on(events@, old(self).ball_id) % 2 == 1 {
                    flipped(old(self).ball_velocity)
                } else {
                    old(self).ball_velocity
                };
                if old(self).timer.elapsed_ms + dt_ms >= FIRE_PERIOD_MS {
                    bounced.grown()
                } else {
                    bounced
                }
            },
            final(self).wf(),
    {
        self.paddle_y = move_paddle(self.paddle_y, up, down, dt_ms, &self.area);
        resolve_collisions(events, self.ball_id, &mut self.ball_velocity);
        let fired = self.timer.tick(dt_ms);
        if fired {
            self.ball_velocity.accelerate();
        }
    }
}

} // verus!
