use pong_core::collision::CollisionEvent;
use pong_core::sim::SimState;

const BALL: u64 = 1;
const BORDER: u64 = 2;

#[test]
fn bounce_then_one_second_of_speed_up() {
    // From an 800 x 600 surface: playfield 760 x 560, ball velocity
    // (200, 200). One collision-start event naming the ball flips it to
    // (-200, 200). One simulated second later (ten timer periods, no further
    // collisions) the magnitude has compounded ten growth steps and the
    // direction is unchanged.
    let mut sim = SimState::new(800_000, 600_000, BALL);
    assert_eq!(sim.area.width, 760_000);
    assert_eq!(sim.area.height, 560_000);
    assert_eq!(sim.ball_velocity.vx, 200_000);
    assert_eq!(sim.ball_velocity.vy, 200_000);

    let bounce = vec![CollisionEvent { first: BALL, second: BORDER }];
    sim.tick(false, false, 0, &bounce);
    assert_eq!(sim.ball_velocity.vx, -200_000);
    assert_eq!(sim.ball_velocity.vy, 200_000);

    let quiet: Vec<CollisionEvent> = Vec::new();
    for _ in 0..10 {
        sim.tick(false, false, 100, &quiet);
    }
    assert_eq!(sim.ball_velocity.vx, -202_005);
    assert_eq!(sim.ball_velocity.vy, 202_005);
    assert_eq!(sim.paddle_y, 0);
}

#[test]
fn paddle_moves_within_the_tick_loop() {
    let mut sim = SimState::new(800_000, 600_000, BALL);
    let quiet: Vec<CollisionEvent> = Vec::new();
    sim.tick(true, false, 16, &quiet);
    assert_eq!(sim.paddle_y, 4_800);
    // Input and ball state stay independent.
    assert_eq!(sim.ball_velocity.vx, 200_000);
    assert_eq!(sim.timer.elapsed_ms, 16);
}

#[test]
fn flip_and_growth_in_the_same_tick() {
    // A tick that both crosses a timer period and sees a bounce: the flip
    // and the growth step compose.
    let mut sim = SimState::new(800_000, 600_000, BALL);
    let bounce = vec![CollisionEvent { first: BORDER, second: BALL }];
    sim.tick(false, false, 100, &bounce);
    assert_eq!(sim.ball_velocity.vx, -200_200);
    assert_eq!(sim.ball_velocity.vy, 200_200);
    assert_eq!(sim.timer.elapsed_ms, 0);
}

#[test]
fn a_session_of_mixed_ticks() {
    // Uneven frame times, a bounce, and held input all interleave; the
    // firing count still tracks total elapsed time (here: 200 ms, 2 firings)
    // and the paddle stays inside its range.
    let mut sim = SimState::new(800_000, 600_000, BALL);
    let quiet: Vec<CollisionEvent> = Vec::new();
    let bounce = vec![CollisionEvent { first: BALL, second: BORDER }];
    sim.tick(true, false, 30, &quiet);
    sim.tick(true, false, 70, &bounce);
    sim.tick(false, true, 40, &quiet);
    sim.tick(false, true, 60, &quiet);
    // Two firings of 0.1% each on a flipped 200_000: 200_000 -> 200_200 -> 200_400.
    assert_eq!(sim.ball_velocity.vx, -200_400);
    assert_eq!(sim.ball_velocity.vy, 200_400);
    assert_eq!(sim.timer.elapsed_ms, 0);
    // 30+70 ms up then 40+60 ms down returns the paddle to centre.
    assert_eq!(sim.paddle_y, 0);
}
