//! Playfield geometry, derived once at startup from the display surface.

use vstd::prelude::*;

verus! {

/// Space kept between each display surface edge and the playfield,
/// in milli-units (thousandths of a world unit).
pub const EDGE_PADDING: u64 = 20_000;

/// The bordered rectangular region the ball moves in.
///
/// Lengths are in milli-units. The record is created once at startup and
/// never changes afterwards: the playfield does not follow window resizes.
#[derive(Clone, Copy, Debug, PartialEq, Eq, Structural)]
pub struct Playfield {
    pub width: u64,
    pub height: u64,
}

impl Playfield {
    /// The playfield is a proper rectangle.
    pub open spec fn wf(self) -> bool {
        0 < self.width && 0 < self.height
    }
}

/// Derives the playfield from the display surface size: the fixed padding is
/// cut off on every side, so each dimension shrinks by twice the padding.
///
/// A surface that cannot hold the padding on both sides yields no playfield
/// at all, so such sizes are excluded.
pub fn derive_playfield(surface_width: u64, surface_height: u64) -> (area: Playfield)
    requires
        surface_width > 2 * EDGE_PADDING,
        surface_height > 2 * EDGE_PADDING,
    ensures
        area.width == surface_width - 2 * EDGE_PADDING,
        area.height == surface_height - 2 * EDGE_PADDING,
        area.wf(),
{
    Playfield {
        width: surface_width - 2 * EDGE_PADDING,
        height: surface_height - 2 * EDGE_PADDING,
    }
}

} // verus!
