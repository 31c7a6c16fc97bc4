//! The simulation's guarantees, stated and proved over the model.

use vstd::prelude::*;
use crate::collide::collide_spec;
use crate::collide::Hit;
use crate::game::GameView;
use crate::game::collision_resolved;
use crate::game::integrated;
use crate::game::paddle_pass_one;
use crate::game::player1_moved;
use crate::game::player2_moved;
use crate::game::paddle_moved;
use crate::game::reset_applied;
use crate::game::tick_spec;
use crate::game::wall_hit_applied;
use crate::game::wall_pass_one;
use crate::game::walls_passed;
use crate::game::draws_ok;
use crate::geometry::ball_box;
use crate::geometry::paddle_box;
use crate::geometry::wall_box;
use crate::geometry::BALL_START_X;
use crate::geometry::BALL_START_Y;
use crate::geometry::LEFT_BOUND;
use crate::geometry::RIGHT_BOUND;
use crate::geometry::PADDLE1_Y;
use crate::geometry::PADDLE2_Y;
use crate::geometry::WallLocation;
use crate::speed::lemma_isqrt_exists;
use crate::speed::lemma_scaled_speed_magnitude;
use crate::speed::scaled_norm_sq;
use crate::speed::scaled_speed;
use crate::speed::spec_isqrt;
use crate::speed::DIR_RANGE;

verus! {

/// A paddle never leaves its legal range: wherever it stands and whatever
/// the keys say, one tick of input lands it inside `[LEFT_BOUND,
/// RIGHT_BOUND]`.
pub proof fn lemma_paddle_stays_in_bounds(x: int, left: bool, right: bool)
    ensures
        LEFT_BOUND <= paddle_moved(x, left, right) <= RIGHT_BOUND,
{
}

/// A whole tick lands both paddles inside their legal range, from any
/// starting position and whatever the keys and draws say: the other
/// systems leave the paddles alone and the input mapper clamps them.
pub proof fn lemma_tick_keeps_paddles_in_bounds(
    g: GameView,
    p1_left: bool,
    p1_right: bool,
    p2_left: bool,
    p2_right: bool,
    j1: int,
    j2: int,
    dx: int,
    dy: int,
)
    ensures
        ({
            let g2 = tick_spec(g, p1_left, p1_right, p2_left, p2_right, j1, j2, dx, dy);
            &&& LEFT_BOUND <= g2.paddle1_x <= RIGHT_BOUND
            &&& LEFT_BOUND <= g2.paddle2_x <= RIGHT_BOUND
        }),
{
}

/// A side hit in the wall pass flips the sign of the x velocity exactly
/// when the ball moves toward that wall, and touches nothing else: the y
/// velocity, the position, the paddles and the scores stay as they were.
pub proof fn lemma_side_wall_reflection(g: GameView, hit: Hit)
    requires
        hit == Hit::Left || hit == Hit::Right,
    ensures
        ({
            let g2 = wall_hit_applied(g, hit);
            &&& hit == Hit::Right ==> g2.ball.vx == if g.ball.vx > 0 { -g.ball.vx } else { g.ball.vx }
            &&& hit == Hit::Left ==> g2.ball.vx == if g.ball.vx < 0 { -g.ball.vx } else { g.ball.vx }
            &&& g2.ball.vy == g.ball.vy
            &&& g2.ball.x == g.ball.x
            &&& g2.ball.y == g.ball.y
            &&& g2.paddle1_x == g.paddle1_x
            &&& g2.paddle2_x == g.paddle2_x
            &&& g2.board == g.board
        }),
{
}

/// The whole resolver on a lone side-wall overlap: when the ball overlaps
/// exactly one collider, a wall struck on its left or right edge, the
/// resolver flips the sign of the x velocity exactly when the ball moves
/// toward that wall, leaves the y velocity, the position, the paddles and
/// the scores untouched, and emits exactly one collision event. The
/// one-overlap premise matters: on a simultaneous corner overlap the
/// passes compound.
pub proof fn lemma_resolver_lone_side_wall(g: GameView, loc: WallLocation, j1: int, j2: int)
    requires
        ({
            let ball = ball_box(g.ball.x, g.ball.y);
            &&& collide_spec(ball, wall_box(loc)) == Some(Hit::Left)
                || collide_spec(ball, wall_box(loc)) == Some(Hit::Right)
            &&& loc == WallLocation::Left
                || collide_spec(ball, wall_box(WallLocation::Left)) is None
            &&& loc == WallLocation::Right
                || collide_spec(ball, wall_box(WallLocation::Right)) is None
            &&& loc == WallLocation::Bottom
                || collide_spec(ball, wall_box(WallLocation::Bottom)) is None
            &&& loc == WallLocation::Top
                || collide_spec(ball, wall_box(WallLocation::Top)) is None
            &&& collide_spec(ball, paddle_box(g.paddle1_x, PADDLE1_Y as int)) is None
            &&& collide_spec(ball, paddle_box(g.paddle2_x, PADDLE2_Y as int)) is None
        }),
    ensures
        ({
            let ball = ball_box(g.ball.x, g.ball.y);
            let g2 = collision_resolved(g, j1, j2);
            &&& g2.ball.vy == g.ball.vy
            &&& g2.ball.x == g.ball.x
            &&& g2.ball.y == g.ball.y
            &&& g2.paddle1_x == g.paddle1_x
            &&& g2.paddle2_x == g.paddle2_x
            &&& g2.board == g.board
            &&& g2.events == g.events + 1
            &&& collide_spec(ball, wall_box(loc)) == Some(Hit::Right)
                ==> g2.ball.vx == if g.ball.vx > 0 { -g.ball.vx } else { g.ball.vx }
            &&& collide_spec(ball, wall_box(loc)) == Some(Hit::Left)
                ==> g2.ball.vx == if g.ball.vx < 0 { -g.ball.vx } else { g.ball.vx }
        }),
{
    let ball = ball_box(g.ball.x, g.ball.y);
    let ga = wall_pass_one(g, wall_box(WallLocation::Left));
    assert(ball_box(ga.ball.x, ga.ball.y) == ball);
    let gb = wall_pass_one(ga, wall_box(WallLocation::Right));
    assert(ball_box(gb.ball.x, gb.ball.y) == ball);
    let gc = wall_pass_one(gb, wall_box(WallLocation::Bottom));
    assert(ball_box(gc.ball.x, gc.ball.y) == ball);
    let gd = wall_pass_one(gc, wall_box(WallLocation::Top));
    assert(ball_box(gd.ball.x, gd.ball.y) == ball);
    assert(gd == walls_passed(g));
    let ge = paddle_pass_one(gd, paddle_box(gd.paddle1_x, PADDLE1_Y as int), j1);
    assert(ge == gd);
    let gf = paddle_pass_one(ge, paddle_box(ge.paddle2_x, PADDLE2_Y as int), j2);
    assert(gf == ge);
    assert(gf == collision_resolved(g, j1, j2));
}

/// A hit on the top or bottom wall stops the ball dead and scores exactly
/// one point for the player whose wall it is; the other counter and the
/// ball's position are untouched.
pub proof fn lemma_terminal_wall_hit(g: GameView, hit: Hit)
    requires
        hit == Hit::Top || hit == Hit::Bottom,
    ensures
        ({
            let g2 = wall_hit_applied(g, hit);
            &&& g2.ball.vx == 0
            &&& g2.ball.vy == 0
            &&& g2.ball.x == g.ball.x
            &&& g2.ball.y == g.ball.y
            &&& hit == Hit::Top ==> g2.board.player_1_score == g.board.player_1_score + 1
                && g2.board.player_2_score == g.board.player_2_score
            &&& hit == Hit::Bottom ==> g2.board.player_2_score == g.board.player_2_score + 1
                && g2.board.player_1_score == g.board.player_1_score
        }),
{
}

/// The reset controller replaces a dead ball by one at the starting
/// position whose velocity keeps the drawn direction's signs and whose
/// squared length is the squared ball speed within one percent; in
/// particular the new ball is never dead.
pub proof fn lemma_reset_respawns_at_speed(g: GameView, dx: int, dy: int)
    requires
        g.ball.vx == 0,
        g.ball.vy == 0,
        -DIR_RANGE <= dx <= DIR_RANGE,
        -DIR_RANGE <= dy <= DIR_RANGE,
        !(dx == 0 && dy == 0),
    ensures
        ({
            let g2 = reset_applied(g, dx, dy);
            &&& g2.ball.x == BALL_START_X
            &&& g2.ball.y == BALL_START_Y
            &&& 357598 <= g2.ball.vx * g2.ball.vx + g2.ball.vy * g2.ball.vy <= 360720
            &&& !(g2.ball.vx == 0 && g2.ball.vy == 0)
            &&& (dx >= 0 ==> g2.ball.vx >= 0) && (dx <= 0 ==> g2.ball.vx <= 0)
            &&& (dy >= 0 ==> g2.ball.vy >= 0) && (dy <= 0 ==> g2.ball.vy <= 0)
        }),
{
    lemma_scaled_speed_magnitude(dx, dy);
    let n = scaled_norm_sq(dx, dy);
    let m = spec_isqrt(n);
    assert(n >= 1_000_000) by (nonlinear_arith)
        requires
            n == (dx * dx + dy * dy) * 1_000_000,
            !(dx == 0 && dy == 0);
    lemma_isqrt_exists(n);
    let g2 = reset_applied(g, dx, dy);
    assert(!(g2.ball.vx == 0 && g2.ball.vy == 0)) by (nonlinear_arith)
        requires
            357598 <= g2.ball.vx * g2.ball.vx + g2.ball.vy * g2.ball.vy;
    assert(m >= 1) by (nonlinear_arith)
        requires
            0 <= m,
            n < (m + 1) * (m + 1),
            n >= 1_000_000;
    assert(dx >= 0 ==> scaled_speed(dx, m) >= 0) by (nonlinear_arith)
        requires
            m >= 1;
    assert(dx <= 0 ==> scaled_speed(dx, m) <= 0) by (nonlinear_arith)
        requires
            m >= 1;
    assert(dy >= 0 ==> scaled_speed(dy, m) >= 0) by (nonlinear_arith)
        requires
            m >= 1;
    assert(dy <= 0 ==> scaled_speed(dy, m) <= 0) by (nonlinear_arith)
        requires
            m >= 1;
}

/// Running the velocity integrator on a dead ball changes nothing, and
/// running it twice still changes nothing.
pub proof fn lemma_integrator_idempotent_on_dead_ball(g: GameView)
    requires
        g.ball.vx == 0,
        g.ball.vy == 0,
    ensures
        integrated(g) == g,
        integrated(integrated(g)) == g,
{
}

/// A tick never ends with a dead ball: the reset controller runs after
/// every other system, so a ball stopped by a terminal collision is
/// replaced before the tick is over.
pub proof fn lemma_tick_leaves_live_ball(
    g: GameView,
    p1_left: bool,
    p1_right: bool,
    p2_left: bool,
    p2_right: bool,
    j1: int,
    j2: int,
    dx: int,
    dy: int,
)
    requires
        draws_ok(j1, j2, dx, dy),
    ensures
        ({
            let g2 = tick_spec(g, p1_left, p1_right, p2_left, p2_right, j1, j2, dx, dy);
            !(g2.ball.vx == 0 && g2.ball.vy == 0)
        }),
{
    let before = integrated(
        player2_moved(
            player1_moved(collision_resolved(g, j1, j2), p1_left, p1_right),
            p2_left,
            p2_right,
        ),
    );
    if before.ball.vx == 0 && before.ball.vy == 0 {
        lemma_reset_respawns_at_speed(before, dx, dy);
    }
}

} // verus!
