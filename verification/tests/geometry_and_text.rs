use pong_core::collide::collide;
use pong_core::collide::Hit;
use pong_core::geometry::Aabb;
use pong_core::geometry::Wall;
use pong_core::geometry::WallLocation;
use pong_core::score::u64_to_string;
use pong_core::score::Scoreboard;

#[test]
fn wall_positions_and_sizes_enclose_the_arena() {
    assert_eq!(WallLocation::Left.position(), (-30000, 0));
    assert_eq!(WallLocation::Right.position(), (30000, 0));
    assert_eq!(WallLocation::Bottom.position(), (0, -18000));
    assert_eq!(WallLocation::Top.position(), (0, 18000));
    // Side walls span the arena height plus a thickness, flat walls the
    // arena width plus a thickness.
    assert_eq!(WallLocation::Left.size(), (600, 36600));
    assert_eq!(WallLocation::Right.size(), (600, 36600));
    assert_eq!(WallLocation::Bottom.size(), (60600, 600));
    assert_eq!(WallLocation::Top.size(), (60600, 600));
}

#[test]
fn wall_factory_builds_half_extent_boxes() {
    let left = Wall::new(WallLocation::Left);
    assert_eq!(left.body, Aabb { cx: -30000, cy: 0, hx: 300, hy: 18300 });
    let top = Wall::new(WallLocation::Top);
    assert_eq!(top.body, Aabb { cx: 0, cy: 18000, hx: 30300, hy: 300 });
}

#[test]
fn separated_boxes_do_not_collide() {
    let a = Aabb { cx: 0, cy: 0, hx: 10, hy: 10 };
    let b = Aabb { cx: 100, cy: 0, hx: 10, hy: 10 };
    assert_eq!(collide(&a, &b), None);
}

#[test]
fn touching_counts_as_overlap() {
    let a = Aabb { cx: 0, cy: 0, hx: 10, hy: 10 };
    let b = Aabb { cx: 20, cy: 0, hx: 10, hy: 10 };
    assert_eq!(collide(&a, &b), Some(Hit::Right));
}

#[test]
fn each_side_is_classified() {
    let b = Aabb { cx: 0, cy: 0, hx: 100, hy: 100 };
    let from_left = Aabb { cx: -105, cy: 0, hx: 10, hy: 10 };
    assert_eq!(collide(&from_left, &b), Some(Hit::Right));
    let from_right = Aabb { cx: 105, cy: 0, hx: 10, hy: 10 };
    assert_eq!(collide(&from_right, &b), Some(Hit::Left));
    let from_below = Aabb { cx: 0, cy: -105, hx: 10, hy: 10 };
    assert_eq!(collide(&from_below, &b), Some(Hit::Top));
    let from_above = Aabb { cx: 0, cy: 105, hx: 10, hy: 10 };
    assert_eq!(collide(&from_above, &b), Some(Hit::Bottom));
}

#[test]
fn deepest_axis_loses_and_ties_go_horizontal() {
    let b = Aabb { cx: 0, cy: 0, hx: 100, hy: 100 };
    // Deep on x, shallow on y: the y edge wins.
    let corner = Aabb { cx: -60, cy: -105, hx: 50, hy: 10 };
    assert_eq!(collide(&corner, &b), Some(Hit::Top));
    // Equal depths: the horizontal edge wins.
    let even = Aabb { cx: -105, cy: -105, hx: 10, hy: 10 };
    assert_eq!(collide(&even, &b), Some(Hit::Right));
}

#[test]
fn containment_is_inside() {
    let b = Aabb { cx: 0, cy: 0, hx: 100, hy: 100 };
    let small = Aabb { cx: 5, cy: -5, hx: 10, hy: 10 };
    assert_eq!(collide(&small, &b), Some(Hit::Inside));
    // A ball wider than a thin wall on both sides is inside as well.
    let wide = Aabb { cx: 0, cy: 0, hx: 200, hy: 10 };
    assert_eq!(collide(&wide, &b), Some(Hit::Inside));
}

#[test]
fn decimal_rendering_is_exact() {
    assert_eq!(u64_to_string(0), "0");
    assert_eq!(u64_to_string(7), "7");
    assert_eq!(u64_to_string(10), "10");
    assert_eq!(u64_to_string(12345), "12345");
    assert_eq!(u64_to_string(18446744073709551615), "18446744073709551615");
}

#[test]
fn scoreboard_shows_half_of_each_counter() {
    let board = Scoreboard { player_1_score: 4, player_2_score: 7 };
    let (line1, line2) = board.update_scoreboard();
    assert_eq!(line1, "2");
    assert_eq!(line2, "3");
}

#[test]
fn scoreboard_win_messages_take_over_both_lines() {
    let board = Scoreboard { player_1_score: 10, player_2_score: 0 };
    let (line1, line2) = board.update_scoreboard();
    assert_eq!(line1, "Player 1 Wins!");
    assert_eq!(line2, "Player 1 Wins!");
    let board2 = Scoreboard { player_1_score: 9, player_2_score: 12 };
    let (line1, line2) = board2.update_scoreboard();
    assert_eq!(line1, "Player 2 Wins!");
    assert_eq!(line2, "Player 2 Wins!");
    // At exactly the threshold the scores still show.
    let board3 = Scoreboard { player_1_score: 9, player_2_score: 9 };
    let (line1, line2) = board3.update_scoreboard();
    assert_eq!(line1, "4");
    assert_eq!(line2, "4");
}
