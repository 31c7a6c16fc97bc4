use pong_core::game::Ball;
use pong_core::game::Game;
use pong_core::game::paddle_step;
use pong_core::geometry::BALL_SPEED;
use pong_core::geometry::LEFT_BOUND;
use pong_core::geometry::RIGHT_BOUND;
use pong_core::score::Scoreboard;

fn quiet_game() -> Game {
    // Paddles parked at the far right so the ball only meets walls.
    Game {
        ball: Ball { x: 0, y: 0, vx: 0, vy: 0 },
        paddle1_x: RIGHT_BOUND,
        paddle2_x: RIGHT_BOUND,
        board: Scoreboard { player_1_score: 0, player_2_score: 0 },
        events: 0,
    }
}

#[test]
fn initial_state() {
    let g = Game::new();
    assert_eq!(g.ball.x, 0);
    assert_eq!(g.ball.y, 0);
    // The diagonal start direction scaled to ball speed: 600 / sqrt(2),
    // rounded toward zero.
    assert_eq!(g.ball.vx, 424);
    assert_eq!(g.ball.vy, 424);
    assert_eq!(g.paddle1_x, 0);
    assert_eq!(g.paddle2_x, 0);
    assert_eq!(g.board.player_1_score, 0);
    assert_eq!(g.board.player_2_score, 0);
    assert_eq!(g.events, 0);
    assert!(g.within_limits());
}

#[test]
fn paddle_clamps_at_both_ends() {
    assert_eq!(paddle_step(0, false, true), 800);
    assert_eq!(paddle_step(0, true, false), -800);
    // On a conflicting press the later-checked key, right, wins.
    assert_eq!(paddle_step(0, true, true), 800);
    assert_eq!(paddle_step(0, false, false), 0);
    assert_eq!(paddle_step(RIGHT_BOUND, false, true), RIGHT_BOUND);
    assert_eq!(paddle_step(LEFT_BOUND, true, false), LEFT_BOUND);
    assert_eq!(paddle_step(RIGHT_BOUND - 1, false, true), RIGHT_BOUND);
    assert_eq!(paddle_step(LEFT_BOUND + 1, true, false), LEFT_BOUND);
    // A paddle placed outside its range is pulled back in.
    assert_eq!(paddle_step(RIGHT_BOUND + 5000, false, false), RIGHT_BOUND);
    assert_eq!(paddle_step(LEFT_BOUND - 5000, false, false), LEFT_BOUND);
}

#[test]
fn integrator_advances_by_velocity() {
    let mut g = quiet_game();
    g.ball = Ball { x: 5, y: 7, vx: 2, vy: -3 };
    g.velocity();
    assert_eq!(g.ball.x, 7);
    assert_eq!(g.ball.y, 4);
    assert_eq!(g.ball.vx, 2);
    assert_eq!(g.ball.vy, -3);
}

#[test]
fn integrator_twice_with_zero_velocity_is_a_no_op() {
    let mut g = quiet_game();
    g.ball = Ball { x: 123, y: -456, vx: 0, vy: 0 };
    let before = g;
    g.velocity();
    g.velocity();
    assert_eq!(g, before);
}

#[test]
fn side_wall_reflects_only_toward_motion() {
    // Touching the right wall, moving toward it: the x velocity flips and
    // the y velocity is untouched.
    let mut g = quiet_game();
    g.ball = Ball { x: 28800, y: 0, vx: 600, vy: 123 };
    g.collision(0, 0);
    assert_eq!(g.ball.vx, -600);
    assert_eq!(g.ball.vy, 123);
    assert_eq!(g.events, 1);
    // Same overlap but moving away: nothing flips.
    let mut g2 = quiet_game();
    g2.ball = Ball { x: 28800, y: 0, vx: -600, vy: 123 };
    g2.collision(0, 0);
    assert_eq!(g2.ball.vx, -600);
    assert_eq!(g2.ball.vy, 123);
    assert_eq!(g2.events, 1);
}

#[test]
fn left_wall_reflects_only_toward_motion() {
    let mut g = quiet_game();
    g.ball = Ball { x: -28800, y: 0, vx: -600, vy: -7 };
    g.collision(0, 0);
    assert_eq!(g.ball.vx, 600);
    assert_eq!(g.ball.vy, -7);
}

#[test]
fn top_wall_hit_stops_ball_and_scores_player_one() {
    let mut g = quiet_game();
    g.ball = Ball { x: 0, y: 16800, vx: 0, vy: 600 };
    g.collision(0, 0);
    assert_eq!(g.ball.vx, 0);
    assert_eq!(g.ball.vy, 0);
    assert_eq!(g.board.player_1_score, 1);
    assert_eq!(g.board.player_2_score, 0);
}

#[test]
fn bottom_wall_hit_stops_ball_and_scores_player_two() {
    let mut g = quiet_game();
    g.ball = Ball { x: 0, y: -16800, vx: 0, vy: -600 };
    g.collision(0, 0);
    assert_eq!(g.ball.vx, 0);
    assert_eq!(g.ball.vy, 0);
    assert_eq!(g.board.player_1_score, 0);
    assert_eq!(g.board.player_2_score, 1);
}

#[test]
fn twenty_top_wall_hits_reach_twenty_points_and_the_win_message() {
    let mut g = quiet_game();
    for hits in 1..=20u64 {
        g.ball = Ball { x: 0, y: 16800, vx: 0, vy: 600 };
        g.collision(0, 0);
        assert_eq!(g.board.player_1_score, hits);
        let (line1, line2) = g.board.update_scoreboard();
        if hits > 9 {
            // The win message shows from the tenth hit on.
            assert_eq!(line1, "Player 1 Wins!");
            assert_eq!(line2, "Player 1 Wins!");
        } else {
            assert_eq!(line1, (hits / 2).to_string());
            assert_eq!(line2, "0");
        }
    }
    assert_eq!(g.board.player_1_score, 20);
}

#[test]
fn straight_ball_reaches_the_right_wall_in_forty_eight_ticks() {
    let mut g = quiet_game();
    // Park the paddles on the left, out of this ball's path.
    g.paddle1_x = LEFT_BOUND;
    g.paddle2_x = LEFT_BOUND;
    g.ball = Ball { x: 0, y: 0, vx: BALL_SPEED, vy: 0 };
    for _ in 0..48 {
        g.tick_with(false, false, false, false, 0, 0, 1, 1);
    }
    // Overlap begins exactly at the wall face minus the ball's half width.
    assert_eq!(g.ball.x, 28800);
    assert_eq!(g.ball.vx, BALL_SPEED);
    g.tick_with(false, false, false, false, 0, 0, 1, 1);
    assert_eq!(g.ball.vx, -BALL_SPEED);
    assert_eq!(g.ball.x, 28200);
}

#[test]
fn reset_respawns_dead_ball_in_drawn_direction() {
    let mut g = quiet_game();
    g.ball = Ball { x: 999, y: -999, vx: 0, vy: 0 };
    g.reset(3, -4);
    assert_eq!(g.ball.x, 0);
    assert_eq!(g.ball.y, 0);
    // A 3-4-5 direction scales exactly: magnitude is the ball speed.
    assert_eq!(g.ball.vx, 360);
    assert_eq!(g.ball.vy, -480);
    assert_eq!(g.ball.vx * g.ball.vx + g.ball.vy * g.ball.vy, BALL_SPEED * BALL_SPEED);
}

#[test]
fn reset_leaves_live_ball_alone() {
    let mut g = quiet_game();
    g.ball = Ball { x: 999, y: -999, vx: 1, vy: 0 };
    g.reset(1000, 1000);
    assert_eq!(g.ball.x, 999);
    assert_eq!(g.ball.vx, 1);
    // One zero component alone is not a dead ball.
    let mut g2 = quiet_game();
    g2.ball = Ball { x: 999, y: -999, vx: 0, vy: 5 };
    g2.reset(1000, 1000);
    assert_eq!(g2.ball.y, -999);
    assert_eq!(g2.ball.vy, 5);
}

#[test]
fn paddle_bounce_reflects_vertically_and_perturbs_horizontally() {
    let mut g = quiet_game();
    g.paddle1_x = 0;
    // Ball just under player one's paddle, moving up: the y velocity
    // reflects and, as on every paddle reflection, the jitter lands on the
    // x velocity.
    g.ball = Ball { x: 0, y: 13140, vx: 100, vy: 600 };
    g.collision(7, 0);
    assert_eq!(g.ball.vx, 107);
    assert_eq!(g.ball.vy, -600);
    assert_eq!(g.events, 1);
}

#[test]
fn paddle_bounce_perturbs_horizontal_reflection() {
    let mut g = quiet_game();
    g.paddle1_x = 0;
    // Ball left of player one's paddle, moving right at paddle height.
    g.ball = Ball { x: -4740, y: 15000, vx: 600, vy: 0 };
    g.collision(7, 0);
    assert_eq!(g.ball.vx, -593);
    assert_eq!(g.ball.vy, 0);
    assert_eq!(g.events, 1);
}

#[test]
fn random_ticks_stay_within_limits() {
    let mut g = Game::new();
    for tick in 0..3600u64 {
        assert!(g.within_limits(), "limits left at tick {}", tick);
        let hold_right = tick % 3 == 0;
        let hold_left = tick % 5 == 0;
        g.tick(hold_left, hold_right, hold_right, hold_left);
        assert!(g.paddle1_x >= LEFT_BOUND && g.paddle1_x <= RIGHT_BOUND);
        assert!(g.paddle2_x >= LEFT_BOUND && g.paddle2_x <= RIGHT_BOUND);
        // The reset controller runs last, so a tick never ends dead.
        assert!(!(g.ball.vx == 0 && g.ball.vy == 0));
    }
}

#[test]
fn dead_ball_respawns_through_the_random_draw() {
    for _ in 0..50 {
        let mut g = quiet_game();
        g.ball = Ball { x: 4444, y: 5555, vx: 0, vy: 0 };
        g.tick(false, false, false, false);
        // Respawned at the start with close to ball speed, wherever the
        // draw pointed.
        assert_eq!(g.ball.x, 0);
        assert_eq!(g.ball.y, 0);
        let mag = g.ball.vx * g.ball.vx + g.ball.vy * g.ball.vy;
        assert!(mag >= 357598 && mag <= 360720, "magnitude {}", mag);
    }
}
