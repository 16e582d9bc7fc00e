//! Collision response: every collision-start event naming the ball inverts
//! the ball's horizontal velocity once.

use crate::velocity::Velocity;
use vstd::prelude::*;

verus! {

/// A collision-start event from the physics collaborator: the identities of
/// the two entities whose shapes began touching this tick.
#[derive(Clone, Copy, Debug, PartialEq, Eq, Structural)]
pub struct CollisionEvent {
    pub first: u64,
    pub second: u64,
}

/// Whether the event names the given entity on either side.
pub open spec fn names_entity(e: CollisionEvent, id: u64) -> bool {
    e.first == id || e.second == id
}

/// How many of the events name the given entity.
pub open spec fn hits_on(events: Seq<CollisionEvent>, id: u64) -> nat
    decreases events.len(),
{
    if events.len() == 0 {
        0
    } else {
        hits_on(events.drop_last(), id) + if names_entity(events.last(), id) {
            1nat
        } else {
            0nat
        }
    }
}

/// Drains one tick's collision-start events: each event naming the ball
/// inverts the ball's horizontal velocity once, so over the tick the sign
/// flips exactly when the ball is named an odd number of times. The vertical
/// component is never touched; bounces off the horizontal borders are the
/// physics collaborator's own elastic response.
pub fn resolve_collisions(events: &Vec<CollisionEvent>, ball_id: u64, vel: &mut Velocity)
    requires
        old(vel).wf(),
    ensures
        final(vel).vy == old(vel).vy,
        final(vel).vx == if hits_on(events@, ball_id) % 2 == 1 {
            -old(vel).vx as int
        } else {
            old(vel).vx as int
        },
        final(vel).wf(),
{
    let ghost v0 = *vel;
    let mut i: usize = 0;
    while i < events.len()
        invariant
            0 <= i <= events@.len(),
            v0.wf(),
            vel.wf(),
            vel.vy == v0.vy,
            vel.vx == if hits_on(events@.take(i as int), ball_id) % 2 == 1 {
                -v0.vx as int
            } else {
                v0.vx as int
            },
        decreases events@.len() - i,
    {
        let e = events[i];
        proof {
            assert(events@.take(i + 1).drop_last() =~= events@.take(i as int));
            assert(events@.take(i + 1).last() == events@[i as int]);
        }
        if e.first == ball_id || e.second == ball_id {
            vel.flip_x();
        }
        i += 1;
    }
    proof {
        assert(events@.take(events@.len() as int) =~= events@);
    }
}

} // verus!
