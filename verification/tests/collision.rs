use pong_core::collision::{resolve_collisions, CollisionEvent};
use pong_core::velocity::Velocity;

const BALL: u64 = 7;

fn start_velocity() -> Velocity {
    Velocity { vx: 200_000, vy: 200_000 }
}

#[test]
fn one_event_flips_horizontal() {
    let mut v = start_velocity();
    let events = vec![CollisionEvent { first: BALL, second: 3 }];
    resolve_collisions(&events, BALL, &mut v);
    assert_eq!(v.vx, -200_000);
    assert_eq!(v.vy, 200_000);
}

#[test]
fn ball_named_second_also_flips() {
    let mut v = start_velocity();
    let events = vec![CollisionEvent { first: 3, second: BALL }];
    resolve_collisions(&events, BALL, &mut v);
    assert_eq!(v.vx, -200_000);
    assert_eq!(v.vy, 200_000);
}

#[test]
fn two_events_cancel() {
    // An even number of qualifying events leaves the sign unchanged.
    let mut v = start_velocity();
    let events = vec![
        CollisionEvent { first: BALL, second: 3 },
        CollisionEvent { first: 4, second: BALL },
    ];
    resolve_collisions(&events, BALL, &mut v);
    assert_eq!(v.vx, 200_000);
    assert_eq!(v.vy, 200_000);
}

#[test]
fn three_events_flip() {
    let mut v = start_velocity();
    let events = vec![
        CollisionEvent { first: BALL, second: 3 },
        CollisionEvent { first: 4, second: BALL },
        CollisionEvent { first: BALL, second: 5 },
    ];
    resolve_collisions(&events, BALL, &mut v);
    assert_eq!(v.vx, -200_000);
    assert_eq!(v.vy, 200_000);
}

#[test]
fn events_not_naming_the_ball_are_ignored() {
    let mut v = start_velocity();
    let events = vec![
        CollisionEvent { first: 3, second: 4 },
        CollisionEvent { first: 5, second: 6 },
    ];
    resolve_collisions(&events, BALL, &mut v);
    assert_eq!(v.vx, 200_000);
    assert_eq!(v.vy, 200_000);
}

#[test]
fn no_events_no_change() {
    let mut v = start_velocity();
    let events: Vec<CollisionEvent> = Vec::new();
    resolve_collisions(&events, BALL, &mut v);
    assert_eq!(v, start_velocity());
}

#[test]
fn vertical_component_never_touched() {
    let mut v = Velocity { vx: 150_000, vy: -90_000 };
    let events = vec![
        CollisionEvent { first: BALL, second: 3 },
        CollisionEvent { first: 3, second: 4 },
        CollisionEvent { first: BALL, second: 4 },
        CollisionEvent { first: 2, second: BALL },
    ];
    resolve_collisions(&events, BALL, &mut v);
    assert_eq!(v.vx, -150_000);
    assert_eq!(v.vy, -90_000);
}
