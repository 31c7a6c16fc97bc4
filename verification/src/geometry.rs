//! Arena constants and axis-aligned boxes.
//!
//! All coordinates are integers in sixtieths of a world unit; the arena is
//! the rectangle between the four wall centre lines. Every extent stored in a
//! box is a half extent, so a box never needs a division to find its edges.

use vstd::prelude::*;

verus! {

/// x coordinate of the left wall's centre line.
pub const LEFT_WALL: i64 = -30000;

/// x coordinate of the right wall's centre line.
pub const RIGHT_WALL: i64 = 30000;

/// y coordinate of the bottom wall's centre line.
pub const BOTTOM_WALL: i64 = -18000;

/// y coordinate of the top wall's centre line.
pub const TOP_WALL: i64 = 18000;

/// Half of a wall's thickness.
pub const WALL_HALF: i64 = 300;

/// Full thickness of every wall.
pub const WALL_THICKNESS: i64 = 2 * WALL_HALF;

/// Distance between the top and bottom wall centre lines.
pub const ARENA_HEIGHT: i64 = TOP_WALL - BOTTOM_WALL;

/// Distance between the left and right wall centre lines.
pub const ARENA_WIDTH: i64 = RIGHT_WALL - LEFT_WALL;

/// Half the width (and height) of the square ball.
pub const BALL_HALF: i64 = 900;

/// Full width and height of the ball.
pub const BALL_SIZE: i64 = 2 * BALL_HALF;

/// The ball respawns at this x coordinate.
pub const BALL_START_X: i64 = 0;

/// The ball respawns at this y coordinate.
pub const BALL_START_Y: i64 = 0;

/// Displacement of the ball per tick when moving straight.
pub const BALL_SPEED: i64 = 600;

/// Half the width of a paddle.
pub const PADDLE_HALF_WIDTH: i64 = 3840;

/// Half the height of a paddle.
pub const PADDLE_HALF_HEIGHT: i64 = 960;

/// Gap kept between a paddle and the inner face of a side wall.
pub const PADDLE_PADDING: i64 = 600;

/// Displacement of a paddle per tick while a key is held.
pub const PADDLE_SPEED: i64 = 800;

/// y coordinate of player one's paddle centre, fixed for the whole game.
pub const PADDLE1_Y: i64 = 15000;

/// y coordinate of player two's paddle centre, fixed for the whole game.
pub const PADDLE2_Y: i64 = -15000;

/// Half the height of a side wall: half the arena height plus half a
/// thickness, so the side walls reach past the corners.
pub const SIDE_WALL_HALF_HEIGHT: i64 = TOP_WALL + WALL_HALF;

/// Half the width of the top and bottom walls, reaching past the corners.
pub const FLAT_WALL_HALF_WIDTH: i64 = RIGHT_WALL + WALL_HALF;

/// Smallest legal x coordinate of a paddle centre.
pub const LEFT_BOUND: i64 = LEFT_WALL + WALL_HALF + PADDLE_HALF_WIDTH + PADDLE_PADDING;

/// Largest legal x coordinate of a paddle centre.
pub const RIGHT_BOUND: i64 = RIGHT_WALL - WALL_HALF - PADDLE_HALF_WIDTH - PADDLE_PADDING;

/// An axis-aligned box, stored as a centre and two half extents.
#[derive(Clone, Copy, PartialEq, Eq, Structural, Debug)]
pub struct Aabb {
    pub cx: i64,
    pub cy: i64,
    pub hx: i64,
    pub hy: i64,
}

/// Mathematical model of an [`Aabb`].
pub struct AabbView {
    pub cx: int,
    pub cy: int,
    pub hx: int,
    pub hy: int,
}

impl View for Aabb {
    type V = AabbView;

    open spec fn view(&self) -> AabbView {
        AabbView { cx: self.cx as int, cy: self.cy as int, hx: self.hx as int, hy: self.hy as int }
    }
}

impl AabbView {
    /// Lowest x coordinate covered by the box.
    pub open spec fn min_x(self) -> int {
        self.cx - self.hx
    }

    /// Highest x coordinate covered by the box.
    pub open spec fn max_x(self) -> int {
        self.cx + self.hx
    }

    /// Lowest y coordinate covered by the box.
    pub open spec fn min_y(self) -> int {
        self.cy - self.hy
    }

    /// Highest y coordinate covered by the box.
    pub open spec fn max_y(self) -> int {
        self.cy + self.hy
    }
}

/// One of the four static walls that enclose the arena.
#[derive(Clone, Copy, PartialEq, Eq, Structural, Debug)]
pub enum WallLocation {
    Left,
    Right,
    Bottom,
    Top,
}

impl WallLocation {
    /// Centre of this wall: side walls sit on the vertical centre lines,
    /// top and bottom walls on the horizontal ones.
    pub open spec fn position_spec(self) -> (int, int) {
        match self {
            WallLocation::Left => (LEFT_WALL as int, 0),
            WallLocation::Right => (RIGHT_WALL as int, 0),
            WallLocation::Bottom => (0, BOTTOM_WALL as int),
            WallLocation::Top => (0, TOP_WALL as int),
        }
    }

    /// Full size of this wall. Side walls span the arena height plus one
    /// thickness and top and bottom walls the arena width plus one
    /// thickness, so the four walls seal the corners by overlapping there.
    pub open spec fn size_spec(self) -> (int, int) {
        match self {
            WallLocation::Left | WallLocation::Right => (
                WALL_THICKNESS as int,
                ARENA_HEIGHT + WALL_THICKNESS,
            ),
            WallLocation::Bottom | WallLocation::Top => (
                ARENA_WIDTH + WALL_THICKNESS,
                WALL_THICKNESS as int,
            ),
        }
    }

    /// Centre of this wall.
    pub fn position(&self) -> (p: (i64, i64))
        ensures
            (p.0 as int, p.1 as int) == self.position_spec(),
    {
        match self {
            WallLocation::Left => (LEFT_WALL, 0),
            WallLocation::Right => (RIGHT_WALL, 0),
            WallLocation::Bottom => (0, BOTTOM_WALL),
            WallLocation::Top => (0, TOP_WALL),
        }
    }

    /// Full size of this wall. The arena dimensions are configuration
    /// constants; the leading assertions are the startup check that both
    /// are positive, discharged here once and for all.
    pub fn size(&self) -> (s: (i64, i64))
        ensures
            (s.0 as int, s.1 as int) == self.size_spec(),
    {
        assert(ARENA_HEIGHT > 0);
        assert(ARENA_WIDTH > 0);
        match self {
            WallLocation::Left | WallLocation::Right => (
                WALL_THICKNESS,
                ARENA_HEIGHT + WALL_THICKNESS,
            ),
            WallLocation::Bottom | WallLocation::Top => (
                ARENA_WIDTH + WALL_THICKNESS,
                WALL_THICKNESS,
            ),
        }
    }
}

/// The box occupied by the wall at `loc`: centred at its position, with
/// half of its size on either side.
pub open spec fn wall_box(loc: WallLocation) -> AabbView {
    match loc {
        WallLocation::Left | WallLocation::Right => AabbView {
            cx: loc.position_spec().0,
            cy: loc.position_spec().1,
            hx: WALL_HALF as int,
            hy: SIDE_WALL_HALF_HEIGHT as int,
        },
        WallLocation::Bottom | WallLocation::Top => AabbView {
            cx: loc.position_spec().0,
            cy: loc.position_spec().1,
            hx: FLAT_WALL_HALF_WIDTH as int,
            hy: WALL_HALF as int,
        },
    }
}

/// A static collider entity: a wall with its box.
#[derive(Clone, Copy, PartialEq, Eq, Structural, Debug)]
pub struct Wall {
    pub body: Aabb,
}

impl Wall {
    /// Builds the collider for the wall at `loc`: a box at the wall's
    /// position covering exactly the wall's size.
    pub fn new(loc: WallLocation) -> (w: Wall)
        ensures
            w.body@ == wall_box(loc),
            (w.body@.cx, w.body@.cy) == loc.position_spec(),
            2 * w.body@.hx == loc.size_spec().0,
            2 * w.body@.hy == loc.size_spec().1,
    {
        let (cx, cy) = loc.position();
        let (hx, hy) = match loc {
            WallLocation::Left | WallLocation::Right => (WALL_HALF, SIDE_WALL_HALF_HEIGHT),
            WallLocation::Bottom | WallLocation::Top => (FLAT_WALL_HALF_WIDTH, WALL_HALF),
        };
        Wall { body: Aabb { cx, cy, hx, hy } }
    }
}

/// The box occupied by the ball when its centre is at `(x, y)`.
pub open spec fn ball_box(x: int, y: int) -> AabbView {
    AabbView { cx: x, cy: y, hx: BALL_HALF as int, hy: BALL_HALF as int }
}

/// The box occupied by a paddle whose centre is at `(x, y)`.
pub open spec fn paddle_box(x: int, y: int) -> AabbView {
    AabbView { cx: x, cy: y, hx: PADDLE_HALF_WIDTH as int, hy: PADDLE_HALF_HEIGHT as int }
}

} // verus!
