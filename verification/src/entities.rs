//! Initial physical properties of the entities spawned at startup: the ball,
//! the paddle and the four borders. Each spawner returns a record that the
//! host hands to its physics and rendering collaborators.

use crate::geometry::Playfield;
use crate::velocity::Velocity;
use vstd::prelude::*;

verus! {

/// How the physics collaborator drives a body.
#[derive(Clone, Copy, Debug, PartialEq, Eq, Structural)]
pub enum BodyKind {
    /// Immovable: the borders.
    Static,
    /// Driven by direct position writes, immune to incoming forces: the paddle.
    Kinematic,
    /// Fully governed by physics integration and collision response: the ball.
    Dynamic,
}

/// How the physics collaborator combines the two touching bodies'
/// restitution coefficients.
#[derive(Clone, Copy, Debug, PartialEq, Eq, Structural)]
pub enum CombineRule {
    Average,
    Min,
    Multiply,
    Max,
}

/// A body's surface response, with coefficients in thousandths.
#[derive(Clone, Copy, Debug, PartialEq, Eq, Structural)]
pub struct SurfaceMaterial {
    pub friction_milli: u64,
    pub restitution_milli: u64,
    pub combine: CombineRule,
}

/// The material shared by every bouncing body: frictionless and perfectly
/// elastic, with the larger of the two touching coefficients taken, so speed
/// is conserved on every non-accelerated bounce.
pub open spec fn perfectly_elastic(m: SurfaceMaterial) -> bool {
    m.friction_milli == 0 && m.restitution_milli == 1000 && m.combine == CombineRule::Max
}

/// Builds the shared frictionless, perfectly elastic material.
pub fn elastic_material() -> (m: SurfaceMaterial)
    ensures
        perfectly_elastic(m),
{
    SurfaceMaterial { friction_milli: 0, restitution_milli: 1000, combine: CombineRule::Max }
}

/// Which playfield edge a border closes.
#[derive(Clone, Copy, Debug, PartialEq, Eq, Structural)]
pub enum BorderSide {
    Left,
    Right,
    Top,
    Bottom,
}

/// Thickness of each border body, in milli-units.
pub const BORDER_THICKNESS: u64 = 20_000;

/// Paddle extent, in milli-units.
pub const PADDLE_WIDTH: u64 = 10_000;

pub const PADDLE_HEIGHT: u64 = 50_000;

/// Ball radius, in milli-units.
pub const BALL_RADIUS: u64 = 10_000;

/// Initial ball velocity along each axis, in milli-units per second.
pub const BALL_START_SPEED: u64 = 200_000;

/// A border entity: a static rectangle at one playfield edge.
#[derive(Clone, Copy, Debug, PartialEq, Eq, Structural)]
pub struct BorderSpec {
    pub side: BorderSide,
    pub x: i64,
    pub y: i64,
    pub width: u64,
    pub height: u64,
    pub body: BodyKind,
    pub material: SurfaceMaterial,
}

/// The four borders, one per playfield edge.
#[derive(Clone, Copy, Debug, PartialEq, Eq, Structural)]
pub struct BorderSet {
    pub left: BorderSpec,
    pub right: BorderSpec,
    pub top: BorderSpec,
    pub bottom: BorderSpec,
}

/// The paddle entity: a kinematic rectangle near the left border.
#[derive(Clone, Copy, Debug, PartialEq, Eq, Structural)]
pub struct PaddleSpec {
    pub x: i64,
    pub y: i64,
    pub width: u64,
    pub height: u64,
    pub body: BodyKind,
    pub material: SurfaceMaterial,
}

/// The ball entity: a dynamic circle at the playfield centre, free of
/// gravity, with rotation locked.
#[derive(Clone, Copy, Debug, PartialEq, Eq, Structural)]
pub struct BallSpec {
    pub x: i64,
    pub y: i64,
    pub radius: u64,
    pub velocity: Velocity,
    pub gravity_scale_milli: u64,
    pub rotation_locked: bool,
    pub body: BodyKind,
    pub material: SurfaceMaterial,
}

/// Builds the ball's spawn record: at the origin, with the fixed diagonal
/// start velocity, zero gravity, locked rotation, and the elastic material.
pub fn spawn_ball() -> (b: BallSpec)
    ensures
        b.x == 0 && b.y == 0,
        b.radius == BALL_RADIUS,
        b.velocity.vx == BALL_START_SPEED && b.velocity.vy == BALL_START_SPEED,
        b.velocity.wf(),
        b.gravity_scale_milli == 0,
        b.rotation_locked,
        b.body == BodyKind::Dynamic,
        perfectly_elastic(b.material),
{
    BallSpec {
        x: 0,
        y: 0,
        radius: BALL_RADIUS,
        velocity: Velocity { vx: BALL_START_SPEED as i64, vy: BALL_START_SPEED as i64 },
        gravity_scale_milli: 0,
        rotation_locked: true,
        body: BodyKind::Dynamic,
        material: elastic_material(),
    }
}

/// Builds the paddle's spawn record: centred vertically, two paddle widths in
/// from the left border so it never starts on it.
pub fn spawn_paddle(area: &Playfield) -> (p: PaddleSpec)
    ensures
        p.x == 2 * PADDLE_WIDTH - area.width as int / 2,
        p.y == 0,
        p.width == PADDLE_WIDTH && p.height == PADDLE_HEIGHT,
        p.body == BodyKind::Kinematic,
        perfectly_elastic(p.material),
{
    let half_width: u64 = area.width / 2;
    PaddleSpec {
        x: (2 * PADDLE_WIDTH as i64) - (half_width as i64),
        y: 0,
        width: PADDLE_WIDTH,
        height: PADDLE_HEIGHT,
        body: BodyKind::Kinematic,
        material: elastic_material(),
    }
}

/// Builds the four borders' spawn records: static rectangles centred on the
/// playfield edges. The vertical borders run one thickness past the nominal
/// height so the corners close; the horizontal ones are shortened by one
/// thickness so they do not overlap the vertical ones.
pub fn spawn_borders(area: &Playfield) -> (set: BorderSet)
    requires
        area.width >= BORDER_THICKNESS,
        area.height <= u64::MAX - BORDER_THICKNESS,
    ensures
        set.left.side == BorderSide::Left && set.right.side == BorderSide::Right
            && set.top.side == BorderSide::Top && set.bottom.side == BorderSide::Bottom,
        set.left.x == -(area.width as int / 2) && set.left.y == 0,
        set.right.x == area.width as int / 2 && set.right.y == 0,
        set.top.x == 0 && set.top.y == area.height as int / 2,
        set.bottom.x == 0 && set.bottom.y == -(area.height as int / 2),
        set.left.width == BORDER_THICKNESS && set.right.width == BORDER_THICKNESS,
        set.left.height == area.height + BORDER_THICKNESS && set.right.height == area.height
            + BORDER_THICKNESS,
        set.top.width == area.width - BORDER_THICKNESS && set.bottom.width == area.width
            - BORDER_THICKNESS,
        set.top.height == BORDER_THICKNESS && set.bottom.height == BORDER_THICKNESS,
        set.left.body == BodyKind::Static && set.right.body == BodyKind::Static && set.top.body
            == BodyKind::Static && set.bottom.body == BodyKind::Static,
        perfectly_elastic(set.left.material) && perfectly_elastic(set.right.material)
            && perfectly_elastic(set.top.material) && perfectly_elastic(set.bottom.material),
{
    let half_width: u64 = area.width / 2;
    let half_height: u64 = area.height / 2;
    let vertical_height: u64 = area.height + BORDER_THICKNESS;
    let horizontal_width: u64 = area.width - BORDER_THICKNESS;
    let material = elastic_material();
    BorderSet {
        left: BorderSpec {
            side: BorderSide::Left,
            x: -(half_width as i64),
            y: 0,
            width: BORDER_THICKNESS,
            height: vertical_height,
            body: BodyKind::Static,
            material,
        },
        right: BorderSpec {
            side: BorderSide::Right,
            x: half_width as i64,
            y: 0,
            width: BORDER_THICKNESS,
            height: vertical_height,
            body: BodyKind::Static,
            material,
        },
        top: BorderSpec {
            side: BorderSide::Top,
            x: 0,
            y: half_height as i64,
            width: horizontal_width,
            height: BORDER_THICKNESS,
            body: BodyKind::Static,
            material,
        },
        bottom: BorderSpec {
            side: BorderSide::Bottom,
            x: 0,
            y: -(half_height as i64),
            width: horizontal_width,
            height: BORDER_THICKNESS,
            body: BodyKind::Static,
            material,
        },
    }
}

} // verus!
