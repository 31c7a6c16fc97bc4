//! The simulation state and the per-tick systems.
//!
//! A [`Game`] holds the one ball, the two paddles' x coordinates, the score
//! counters and a count of collision events. Each tick runs the collision
//! resolver, the input-to-motion mapper for both players, the velocity
//! integrator and the reset controller, in that order. Every system has a
//! functional contract over the integer model [`GameView`], and the random
//! draws the resolver and the reset controller consume enter the verified
//! systems as plain arguments.

use vstd::prelude::*;
use crate::geometry::Aabb;
use crate::geometry::AabbView;
use crate::geometry::Wall;
use crate::geometry::WallLocation;
use crate::geometry::ball_box;
use crate::geometry::paddle_box;
use crate::geometry::wall_box;
use crate::geometry::BALL_HALF;
use crate::geometry::BALL_START_X;
use crate::geometry::BALL_START_Y;
use crate::geometry::LEFT_BOUND;
use crate::geometry::RIGHT_BOUND;
use crate::geometry::PADDLE1_Y;
use crate::geometry::PADDLE2_Y;
use crate::geometry::PADDLE_HALF_WIDTH;
use crate::geometry::PADDLE_HALF_HEIGHT;
use crate::geometry::PADDLE_SPEED;
use crate::collide::collide;
use crate::collide::collide_spec;
use crate::collide::bounded_box;
use crate::collide::Hit;
use crate::score::Scoreboard;
use crate::score::ScoreboardView;
use crate::speed::scale_to_speed;
use crate::speed::scaled_speed;
use crate::speed::scaled_norm_sq;
use crate::speed::spec_isqrt;
use crate::speed::DIR_RANGE;
use crate::rng::draw_range;

verus! {

/// A paddle reflection perturbs the x velocity by a draw from
/// `[-JITTER_RANGE, JITTER_RANGE)`.
pub const JITTER_RANGE: i64 = 10;

/// The ball's position components stay within this bound while the
/// simulation is driven through [`Game::tick`].
pub const POS_LIMIT: i64 = 1_000_000_000_000;

/// The ball's velocity components stay within this bound.
pub const VEL_LIMIT: i64 = 1_000_000_000;

/// The one moving entity: a position and a velocity, both per tick.
#[derive(Clone, Copy, PartialEq, Eq, Structural, Debug)]
pub struct Ball {
    pub x: i64,
    pub y: i64,
    pub vx: i64,
    pub vy: i64,
}

/// Mathematical model of a [`Ball`].
pub struct BallView {
    pub x: int,
    pub y: int,
    pub vx: int,
    pub vy: int,
}

impl View for Ball {
    type V = BallView;

    open spec fn view(&self) -> BallView {
        BallView { x: self.x as int, y: self.y as int, vx: self.vx as int, vy: self.vy as int }
    }
}

/// The whole simulation state.
#[derive(Clone, Copy, PartialEq, Eq, Structural, Debug)]
pub struct Game {
    pub ball: Ball,
    pub paddle1_x: i64,
    pub paddle2_x: i64,
    pub board: Scoreboard,
    pub events: u64,
}

/// Mathematical model of a [`Game`].
pub struct GameView {
    pub ball: BallView,
    pub paddle1_x: int,
    pub paddle2_x: int,
    pub board: ScoreboardView,
    pub events: int,
}

impl View for Game {
    type V = GameView;

    open spec fn view(&self) -> GameView {
        GameView {
            ball: self.ball@,
            paddle1_x: self.paddle1_x as int,
            paddle2_x: self.paddle2_x as int,
            board: self.board@,
            events: self.events as int,
        }
    }
}

/// Both paddles stand inside their legal range. Established at startup and
/// preserved by every system.
pub open spec fn wf(g: GameView) -> bool {
    &&& LEFT_BOUND <= g.paddle1_x <= RIGHT_BOUND
    &&& LEFT_BOUND <= g.paddle2_x <= RIGHT_BOUND
}

/// The ball's components are far from the machine limits. One tick moves
/// each component by at most a velocity plus the paddle jitters, so a
/// caller that re-checks this bound each tick never overflows.
pub open spec fn ball_within_limits(b: BallView) -> bool {
    &&& -POS_LIMIT <= b.x <= POS_LIMIT
    &&& -POS_LIMIT <= b.y <= POS_LIMIT
    &&& -VEL_LIMIT <= b.vx <= VEL_LIMIT
    &&& -VEL_LIMIT <= b.vy <= VEL_LIMIT
}

/// The counters have headroom for one tick's increments.
pub open spec fn counters_within_limits(g: GameView) -> bool {
    &&& g.events <= u64::MAX - 8
    &&& g.board.player_1_score <= u64::MAX - 8
    &&& g.board.player_2_score <= u64::MAX - 8
}

/// Everything a tick needs to run without reaching a machine limit.
pub open spec fn within_limits(g: GameView) -> bool {
    ball_within_limits(g.ball) && counters_within_limits(g)
}

/// The wall pass's reaction to a classified overlap: a side wall reflects
/// the x velocity only when the ball moves toward it; the top and bottom
/// walls stop the ball dead and score for the player whose wall was hit;
/// full containment does nothing.
pub open spec fn wall_hit_applied(g: GameView, hit: Hit) -> GameView {
    match hit {
        Hit::Right => if g.ball.vx > 0 {
            GameView { ball: BallView { vx: -g.ball.vx, ..g.ball }, ..g }
        } else {
            g
        },
        Hit::Left => if g.ball.vx < 0 {
            GameView { ball: BallView { vx: -g.ball.vx, ..g.ball }, ..g }
        } else {
            g
        },
        Hit::Top => GameView {
            ball: BallView { vx: 0, vy: 0, ..g.ball },
            board: ScoreboardView {
                player_1_score: g.board.player_1_score + 1,
                ..g.board
            },
            ..g
        },
        Hit::Bottom => GameView {
            ball: BallView { vx: 0, vy: 0, ..g.ball },
            board: ScoreboardView {
                player_2_score: g.board.player_2_score + 1,
                ..g.board
            },
            ..g
        },
        Hit::Inside => g,
    }
}

/// One collider checked against the ball: on overlap, one collision event
/// and the wall reaction.
pub open spec fn wall_pass_one(g: GameView, w: AabbView) -> GameView {
    match collide_spec(ball_box(g.ball.x, g.ball.y), w) {
        Some(hit) => wall_hit_applied(GameView { events: g.events + 1, ..g }, hit),
        None => g,
    }
}

/// All four walls checked in their spawn order.
pub open spec fn walls_passed(g: GameView) -> GameView {
    wall_pass_one(
        wall_pass_one(
            wall_pass_one(
                wall_pass_one(g, wall_box(WallLocation::Left)),
                wall_box(WallLocation::Right),
            ),
            wall_box(WallLocation::Bottom),
        ),
        wall_box(WallLocation::Top),
    )
}

/// The paddle pass's reaction to a classified overlap: the velocity
/// component pointing at the paddle is reflected, and every reflection
/// additionally perturbs the x velocity by the jitter draw, so that no
/// rally can settle into an endless deterministic loop.
pub open spec fn paddle_hit_applied(g: GameView, hit: Hit, jitter: int) -> GameView {
    match hit {
        Hit::Right => if g.ball.vx > 0 {
            GameView { ball: BallView { vx: -g.ball.vx + jitter, ..g.ball }, ..g }
        } else {
            g
        },
        Hit::Left => if g.ball.vx < 0 {
            GameView { ball: BallView { vx: -g.ball.vx + jitter, ..g.ball }, ..g }
        } else {
            g
        },
        Hit::Top => if g.ball.vy > 0 {
            GameView { ball: BallView { vx: g.ball.vx + jitter, vy: -g.ball.vy, ..g.ball }, ..g }
        } else {
            g
        },
        Hit::Bottom => if g.ball.vy < 0 {
            GameView { ball: BallView { vx: g.ball.vx + jitter, vy: -g.ball.vy, ..g.ball }, ..g }
        } else {
            g
        },
        Hit::Inside => g,
    }
}

/// One paddle checked against the ball.
pub open spec fn paddle_pass_one(g: GameView, p: AabbView, jitter: int) -> GameView {
    match collide_spec(ball_box(g.ball.x, g.ball.y), p) {
        Some(hit) => paddle_hit_applied(GameView { events: g.events + 1, ..g }, hit, jitter),
        None => g,
    }
}

/// The whole collision resolver: four walls, then player one's paddle with
/// the first jitter draw, then player two's with the second.
pub open spec fn collision_resolved(g: GameView, j1: int, j2: int) -> GameView {
    let gw = walls_passed(g);
    let g1 = paddle_pass_one(gw, paddle_box(gw.paddle1_x, PADDLE1_Y as int), j1);
    paddle_pass_one(g1, paddle_box(g1.paddle2_x, PADDLE2_Y as int), j2)
}

/// `x` clamped into `[lo, hi]`.
pub open spec fn clamped(x: int, lo: int, hi: int) -> int {
    if x < lo {
        lo
    } else if x > hi {
        hi
    } else {
        x
    }
}

/// The direction a player's two keys ask for. On a conflicting
/// simultaneous press the later-checked key wins: right over left.
pub open spec fn paddle_dir(left: bool, right: bool) -> int {
    if right {
        1
    } else if left {
        -1
    } else {
        0
    }
}

/// A paddle's x coordinate after one tick of input, clamped to its range.
pub open spec fn paddle_moved(x: int, left: bool, right: bool) -> int {
    clamped(x + paddle_dir(left, right) * (PADDLE_SPEED as int), LEFT_BOUND as int, RIGHT_BOUND as int)
}

/// Player one's paddle moved by its keys.
pub open spec fn player1_moved(g: GameView, left: bool, right: bool) -> GameView {
    GameView { paddle1_x: paddle_moved(g.paddle1_x, left, right), ..g }
}

/// Player two's paddle moved by its keys.
pub open spec fn player2_moved(g: GameView, left: bool, right: bool) -> GameView {
    GameView { paddle2_x: paddle_moved(g.paddle2_x, left, right), ..g }
}

/// The velocity integrator: the ball advances by its velocity; one tick of
/// time passes.
pub open spec fn integrated(g: GameView) -> GameView {
    GameView { ball: BallView { x: g.ball.x + g.ball.vx, y: g.ball.y + g.ball.vy, ..g.ball }, ..g }
}

/// The reset controller: a dead ball (both velocity components exactly
/// zero) is replaced by a fresh one at the starting position, moving at
/// ball speed in the drawn direction.
pub open spec fn reset_applied(g: GameView, dx: int, dy: int) -> GameView {
    if g.ball.vx == 0 && g.ball.vy == 0 {
        GameView {
            ball: BallView {
                x: BALL_START_X as int,
                y: BALL_START_Y as int,
                vx: scaled_speed(dx, spec_isqrt(scaled_norm_sq(dx, dy))),
                vy: scaled_speed(dy, spec_isqrt(scaled_norm_sq(dx, dy))),
            },
            ..g
        }
    } else {
        g
    }
}

/// One whole tick, given every random draw: collision resolution, both
/// players' input, integration, reset.
pub open spec fn tick_spec(
    g: GameView,
    p1_left: bool,
    p1_right: bool,
    p2_left: bool,
    p2_right: bool,
    j1: int,
    j2: int,
    dx: int,
    dy: int,
) -> GameView {
    reset_applied(
        integrated(
            player2_moved(
                player1_moved(collision_resolved(g, j1, j2), p1_left, p1_right),
                p2_left,
                p2_right,
            ),
        ),
        dx,
        dy,
    )
}

/// The random draws of one tick, each in its range and the direction not
/// degenerate.
pub open spec fn draws_ok(j1: int, j2: int, dx: int, dy: int) -> bool {
    &&& -JITTER_RANGE <= j1 < JITTER_RANGE
    &&& -JITTER_RANGE <= j2 < JITTER_RANGE
    &&& -DIR_RANGE <= dx < DIR_RANGE
    &&& -DIR_RANGE <= dy < DIR_RANGE
    &&& !(dx == 0 && dy == 0)
}

/// The state a fresh game starts in: ball at the starting position moving
/// diagonally at ball speed, paddles centred, counters at zero.
pub open spec fn initial_game() -> GameView {
    GameView {
        ball: BallView {
            x: BALL_START_X as int,
            y: BALL_START_Y as int,
            vx: scaled_speed(DIR_RANGE as int, spec_isqrt(scaled_norm_sq(DIR_RANGE as int, DIR_RANGE as int))),
            vy: scaled_speed(DIR_RANGE as int, spec_isqrt(scaled_norm_sq(DIR_RANGE as int, DIR_RANGE as int))),
        },
        paddle1_x: 0,
        paddle2_x: 0,
        board: ScoreboardView { player_1_score: 0, player_2_score: 0 },
        events: 0,
    }
}

impl Game {
    /// Sets up a fresh game.
    pub fn new() -> (g: Game)
        ensures
            g@ == initial_game(),
            wf(g@),
            within_limits(g@),
    {
        let (vx, vy) = scale_to_speed(DIR_RANGE, DIR_RANGE);
        Game {
            ball: Ball { x: BALL_START_X, y: BALL_START_Y, vx, vy },
            paddle1_x: 0,
            paddle2_x: 0,
            board: Scoreboard::new(),
            events: 0,
        }
    }

    /// One collider of the wall pass.
    fn bounce_collider(&mut self, body: &Aabb)
        requires
            bounded_box(body@),
            -POS_LIMIT <= old(self).ball.x <= POS_LIMIT,
            -POS_LIMIT <= old(self).ball.y <= POS_LIMIT,
            -VEL_LIMIT - 64 <= old(self).ball.vx <= VEL_LIMIT + 64,
            -VEL_LIMIT - 64 <= old(self).ball.vy <= VEL_LIMIT + 64,
            old(self).events < u64::MAX,
            old(self).board.player_1_score < u64::MAX,
            old(self).board.player_2_score < u64::MAX,
        ensures
            final(self)@ == wall_pass_one(old(self)@, body@),
            final(self).ball.x == old(self).ball.x,
            final(self).ball.y == old(self).ball.y,
            final(self).paddle1_x == old(self).paddle1_x,
            final(self).paddle2_x == old(self).paddle2_x,
            final(self).events <= old(self).events + 1,
            final(self).board.player_1_score <= old(self).board.player_1_score + 1,
            final(self).board.player_2_score <= old(self).board.player_2_score + 1,
            final(self).ball.vx == old(self).ball.vx || final(self).ball.vx as int == -(old(self).ball.vx as int) || final(self).ball.vx == 0,
            final(self).ball.vy == old(self).ball.vy || final(self).ball.vy == 0,
    {
        let ball_body = Aabb {
            cx: self.ball.x,
            cy: self.ball.y,
            hx: BALL_HALF,
            hy: BALL_HALF,
        };
        match collide(&ball_body, body) {
            None => {},
            Some(hit) => {
                self.events = self.events + 1;
                match hit {
                    Hit::Right => {
                        if self.ball.vx > 0 {
                            self.ball.vx = -self.ball.vx;
                        }
                    },
                    Hit::Left => {
                        if self.ball.vx < 0 {
                            self.ball.vx = -self.ball.vx;
                        }
                    },
                    Hit::Top => {
                        self.board.player_1_score = self.board.player_1_score + 1;
                        self.ball.vx = 0;
                        self.ball.vy = 0;
                    },
                    Hit::Bottom => {
                        self.board.player_2_score = self.board.player_2_score + 1;
                        self.ball.vx = 0;
                        self.ball.vy = 0;
                    },
                    Hit::Inside => {},
                }
            },
        }
    }

    /// One paddle of the paddle pass.
    fn bounce_paddle(&mut self, body: &Aabb, jitter: i64)
        requires
            bounded_box(body@),
            -JITTER_RANGE <= jitter <= JITTER_RANGE,
            -POS_LIMIT <= old(self).ball.x <= POS_LIMIT,
            -POS_LIMIT <= old(self).ball.y <= POS_LIMIT,
            -VEL_LIMIT - 64 <= old(self).ball.vx <= VEL_LIMIT + 64,
            -VEL_LIMIT - 64 <= old(self).ball.vy <= VEL_LIMIT + 64,
            old(self).events < u64::MAX,
        ensures
            final(self)@ == paddle_pass_one(old(self)@, body@, jitter as int),
            final(self).ball.x == old(self).ball.x,
            final(self).ball.y == old(self).ball.y,
            final(self).paddle1_x == old(self).paddle1_x,
            final(self).paddle2_x == old(self).paddle2_x,
            final(self).board == old(self).board,
            final(self).events <= old(self).events + 1,
            final(self).ball.vx == old(self).ball.vx || final(self).ball.vx as int == -(old(self).ball.vx as int) + jitter || final(self).ball.vx as int == old(self).ball.vx as int + jitter,
            final(self).ball.vy == old(self).ball.vy || final(self).ball.vy as int == -(old(self).ball.vy as int),
    {
        let ball_body = Aabb {
            cx: self.ball.x,
            cy: self.ball.y,
            hx: BALL_HALF,
            hy: BALL_HALF,
        };
        match collide(&ball_body, body) {
            None => {},
            Some(hit) => {
                self.events = self.events + 1;
                match hit {
                    Hit::Right => {
                        if self.ball.vx > 0 {
                            self.ball.vx = -self.ball.vx + jitter;
                        }
                    },
                    Hit::Left => {
                        if self.ball.vx < 0 {
                            self.ball.vx = -self.ball.vx + jitter;
                        }
                    },
                    Hit::Top => {
                        if self.ball.vy > 0 {
                            self.ball.vx = self.ball.vx + jitter;
                            self.ball.vy = -self.ball.vy;
                        }
                    },
                    Hit::Bottom => {
                        if self.ball.vy < 0 {
                            self.ball.vx = self.ball.vx + jitter;
                            self.ball.vy = -self.ball.vy;
                        }
                    },
                    Hit::Inside => {},
                }
            },
        }
    }

    /// The collision resolver, with the two paddle jitter draws as
    /// arguments.
    pub fn collision(&mut self, j1: i64, j2: i64)
        requires
            wf(old(self)@),
            within_limits(old(self)@),
            -JITTER_RANGE <= j1 <= JITTER_RANGE,
            -JITTER_RANGE <= j2 <= JITTER_RANGE,
        ensures
            final(self)@ == collision_resolved(old(self)@, j1 as int, j2 as int),
            final(self).ball.x == old(self).ball.x,
            final(self).ball.y == old(self).ball.y,
            final(self).paddle1_x == old(self).paddle1_x,
            final(self).paddle2_x == old(self).paddle2_x,
            -VEL_LIMIT - 20 <= final(self).ball.vx <= VEL_LIMIT + 20,
            -VEL_LIMIT - 20 <= final(self).ball.vy <= VEL_LIMIT + 20,
            final(self).events <= old(self).events + 6,
            final(self).board.player_1_score <= old(self).board.player_1_score + 4,
            final(self).board.player_2_score <= old(self).board.player_2_score + 4,
    {
        let left = Wall::new(WallLocation::Left);
        self.bounce_collider(&left.body);
        let right = Wall::new(WallLocation::Right);
        self.bounce_collider(&right.body);
        let bottom = Wall::new(WallLocation::Bottom);
        self.bounce_collider(&bottom.body);
        let top = Wall::new(WallLocation::Top);
        self.bounce_collider(&top.body);
        let p1 = Aabb {
            cx: self.paddle1_x,
            cy: PADDLE1_Y,
            hx: PADDLE_HALF_WIDTH,
            hy: PADDLE_HALF_HEIGHT,
        };
        self.bounce_paddle(&p1, j1);
        let p2 = Aabb {
            cx: self.paddle2_x,
            cy: PADDLE2_Y,
            hx: PADDLE_HALF_WIDTH,
            hy: PADDLE_HALF_HEIGHT,
        };
        self.bounce_paddle(&p2, j2);
    }

    /// The input-to-motion mapper for player one.
    pub fn move_player1(&mut self, left: bool, right: bool)
        requires
            i64::MIN + PADDLE_SPEED <= old(self).paddle1_x <= i64::MAX - PADDLE_SPEED,
        ensures
            final(self)@ == player1_moved(old(self)@, left, right),
            LEFT_BOUND <= final(self).paddle1_x <= RIGHT_BOUND,
    {
        self.paddle1_x = paddle_step(self.paddle1_x, left, right);
    }

    /// The input-to-motion mapper for player two.
    pub fn move_player2(&mut self, left: bool, right: bool)
        requires
            i64::MIN + PADDLE_SPEED <= old(self).paddle2_x <= i64::MAX - PADDLE_SPEED,
        ensures
            final(self)@ == player2_moved(old(self)@, left, right),
            LEFT_BOUND <= final(self).paddle2_x <= RIGHT_BOUND,
    {
        self.paddle2_x = paddle_step(self.paddle2_x, left, right);
    }

    /// The velocity integrator.
    pub fn velocity(&mut self)
        requires
            -POS_LIMIT <= old(self).ball.x <= POS_LIMIT,
            -POS_LIMIT <= old(self).ball.y <= POS_LIMIT,
            -VEL_LIMIT - 64 <= old(self).ball.vx <= VEL_LIMIT + 64,
            -VEL_LIMIT - 64 <= old(self).ball.vy <= VEL_LIMIT + 64,
        ensures
            final(self)@ == integrated(old(self)@),
    {
        self.ball.x = self.ball.x + self.ball.vx;
        self.ball.y = self.ball.y + self.ball.vy;
    }

    /// The reset controller, with the direction draw as arguments. The one
    /// ball lives in a single field, so destroying a dead ball and creating
    /// its replacement is one assignment: exactly one ball exists before
    /// and after, and no other system changes which ball that is.
    pub fn reset(&mut self, dx: i64, dy: i64)
        requires
            -DIR_RANGE <= dx <= DIR_RANGE,
            -DIR_RANGE <= dy <= DIR_RANGE,
            !(dx == 0 && dy == 0),
        ensures
            final(self)@ == reset_applied(old(self)@, dx as int, dy as int),
    {
        if self.ball.vx == 0 && self.ball.vy == 0 {
            let (vx, vy) = scale_to_speed(dx, dy);
            self.ball = Ball { x: BALL_START_X, y: BALL_START_Y, vx, vy };
        }
    }

    /// One whole tick with every random draw given: the deterministic core
    /// of the simulation.
    pub fn tick_with(
        &mut self,
        p1_left: bool,
        p1_right: bool,
        p2_left: bool,
        p2_right: bool,
        j1: i64,
        j2: i64,
        dx: i64,
        dy: i64,
    )
        requires
            wf(old(self)@),
            within_limits(old(self)@),
            draws_ok(j1 as int, j2 as int, dx as int, dy as int),
        ensures
            final(self)@ == tick_spec(
                old(self)@,
                p1_left,
                p1_right,
                p2_left,
                p2_right,
                j1 as int,
                j2 as int,
                dx as int,
                dy as int,
            ),
            wf(final(self)@),
    {
        self.collision(j1, j2);
        self.move_player1(p1_left, p1_right);
        self.move_player2(p2_left, p2_right);
        self.velocity();
        self.reset(dx, dy);
    }

    /// One whole tick, drawing the jitters and the respawn direction from
    /// the process random source. A degenerate direction draw is nudged
    /// straight up, so the respawn direction is never without direction.
    pub fn tick(
        &mut self,
        p1_left: bool,
        p1_right: bool,
        p2_left: bool,
        p2_right: bool,
    )
        requires
            wf(old(self)@),
            within_limits(old(self)@),
        ensures
            exists|j1: int, j2: int, dx: int, dy: int|
                draws_ok(j1, j2, dx, dy) && final(self)@ == #[trigger] tick_spec(
                    old(self)@,
                    p1_left,
                    p1_right,
                    p2_left,
                    p2_right,
                    j1,
                    j2,
                    dx,
                    dy,
                ),
            wf(final(self)@),
    {
        let j1 = draw_range(-JITTER_RANGE, JITTER_RANGE);
        let j2 = draw_range(-JITTER_RANGE, JITTER_RANGE);
        let dx = draw_range(-DIR_RANGE, DIR_RANGE);
        let dy_drawn = draw_range(-DIR_RANGE, DIR_RANGE);
        let dy = if dx == 0 && dy_drawn == 0 { 1 } else { dy_drawn };
        self.tick_with(p1_left, p1_right, p2_left, p2_right, j1, j2, dx, dy);
    }

    /// Whether the state is within the machine-limit bounds that one more
    /// tick needs.
    pub fn within_limits(&self) -> (r: bool)
        ensures
            r == within_limits(self@),
    {
        -POS_LIMIT <= self.ball.x && self.ball.x <= POS_LIMIT
            && -POS_LIMIT <= self.ball.y && self.ball.y <= POS_LIMIT
            && -VEL_LIMIT <= self.ball.vx && self.ball.vx <= VEL_LIMIT
            && -VEL_LIMIT <= self.ball.vy && self.ball.vy <= VEL_LIMIT
            && self.events <= u64::MAX - 8
            && self.board.player_1_score <= u64::MAX - 8
            && self.board.player_2_score <= u64::MAX - 8
    }
}

/// A paddle's x coordinate stepped by one tick of input and clamped into
/// its range, whatever coordinate it starts from.
pub fn paddle_step(x: i64, left: bool, right: bool) -> (nx: i64)
    requires
        i64::MIN + PADDLE_SPEED <= x <= i64::MAX - PADDLE_SPEED,
    ensures
        nx as int == paddle_moved(x as int, left, right),
        LEFT_BOUND <= nx <= RIGHT_BOUND,
{
    let dir: i64 = if right {
        1
    } else if left {
        -1
    } else {
        0
    };
    let moved = x + dir * PADDLE_SPEED;
    if moved < LEFT_BOUND {
        LEFT_BOUND
    } else if moved > RIGHT_BOUND {
        RIGHT_BOUND
    } else {
        moved
    }
}

} // verus!
