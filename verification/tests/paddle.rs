use pong_core::geometry::derive_playfield;
use pong_core::paddle::move_paddle;

// All cases run on the playfield from an 800 x 600 unit surface, whose
// paddle range is [-250, 250] units (clearance 30 off a 560-unit height).

#[test]
fn up_held_for_one_frame() {
    // 300 units/s for 16 ms moves the paddle up by 4.8 units, unclamped.
    let area = derive_playfield(800_000, 600_000);
    assert_eq!(move_paddle(0, true, false, 16, &area), 4_800);
}

#[test]
fn down_held_for_one_frame() {
    let area = derive_playfield(800_000, 600_000);
    assert_eq!(move_paddle(0, false, true, 16, &area), -4_800);
}

#[test]
fn clamped_at_the_top() {
    // From 249 units, 100 ms of upward motion targets 279 but stops at 250.
    let area = derive_playfield(800_000, 600_000);
    assert_eq!(move_paddle(249_000, true, false, 100, &area), 250_000);
}

#[test]
fn clamped_at_the_bottom() {
    let area = derive_playfield(800_000, 600_000);
    assert_eq!(move_paddle(-249_000, false, true, 100, &area), -250_000);
}

#[test]
fn both_directions_cancel() {
    let area = derive_playfield(800_000, 600_000);
    assert_eq!(move_paddle(123_000, true, true, 100, &area), 123_000);
}

#[test]
fn no_input_no_motion() {
    let area = derive_playfield(800_000, 600_000);
    assert_eq!(move_paddle(-42_000, false, false, 100, &area), -42_000);
}

#[test]
fn zero_tick_no_motion() {
    let area = derive_playfield(800_000, 600_000);
    assert_eq!(move_paddle(42_000, true, false, 0, &area), 42_000);
}

#[test]
fn long_tick_still_clamped() {
    // A very long tick cannot push the paddle past the border clearance.
    let area = derive_playfield(800_000, 600_000);
    assert_eq!(move_paddle(0, true, false, 60_000, &area), 250_000);
}
