use pong_core::geometry::derive_playfield;

#[test]
fn playfield_from_800_by_600_surface() {
    // An 800 x 600 unit surface (in milli-units) loses 20 units of padding
    // on every side.
    let area = derive_playfield(800_000, 600_000);
    assert_eq!(area.width, 760_000);
    assert_eq!(area.height, 560_000);
}

#[test]
fn playfield_from_wide_surface() {
    let area = derive_playfield(1_024_000, 768_000);
    assert_eq!(area.width, 984_000);
    assert_eq!(area.height, 728_000);
}

#[test]
fn playfield_from_smallest_accepted_surface() {
    // Just over twice the padding on each axis leaves a sliver of playfield.
    let area = derive_playfield(40_001, 40_001);
    assert_eq!(area.width, 1);
    assert_eq!(area.height, 1);
}
