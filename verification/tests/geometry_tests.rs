use breakout::geom::{resolve_collision, Rect, Vec2i};
use breakout::ball::{Ball, BallState};
use breakout::player::Player;
use breakout::powerup::{Powerup, PowerupType};
use breakout::block::{Block, BlockColor, BlockType};

fn rect(x: i64, y: i64, w: i64, h: i64) -> Rect {
    Rect { x, y, w, h }
}

fn v2(x: i64, y: i64) -> Vec2i {
    Vec2i { x, y }
}

#[test]
fn resolve_bounces_on_y_when_overlap_is_wider() {
    let mut a = rect(0, 0, 10, 10);
    let mut vel = v2(300, 500);
    let b = rect(0, 8, 10, 10);
    let hit = resolve_collision(&mut a, &mut vel, &b);
    assert!(hit);
    // overlap is 10 wide by 2 tall; the target's center is below, so the
    // moving rectangle is pulled up by the overlap height and its downward
    // velocity is flipped to point up; x is untouched.
    assert_eq!(a, rect(0, -2, 10, 10));
    assert_eq!(vel, v2(300, -500));
}

#[test]
fn resolve_bounces_on_x_when_overlap_is_taller() {
    let mut a = rect(8, 0, 10, 10);
    let mut vel = v2(-300, 100);
    let b = rect(0, 0, 10, 30);
    let hit = resolve_collision(&mut a, &mut vel, &b);
    assert!(hit);
    // overlap is 2 wide by 10 tall; the target's center is to the left, so
    // the moving rectangle is pushed right and its velocity points right.
    assert_eq!(a, rect(10, 0, 10, 10));
    assert_eq!(vel, v2(300, 100));
}

#[test]
fn resolve_with_coinciding_centers_zeroes_velocity_only() {
    let mut a = rect(0, 0, 10, 10);
    let mut vel = v2(123, 77);
    let b = rect(0, 0, 10, 10);
    let hit = resolve_collision(&mut a, &mut vel, &b);
    assert!(hit);
    // a tie in overlap extents resolves on x; a zero center delta applies no
    // positional correction and zeroes the x velocity component.
    assert_eq!(a, rect(0, 0, 10, 10));
    assert_eq!(vel, v2(0, 77));
}

#[test]
fn resolve_misses_disjoint_rectangles() {
    let mut a = rect(0, 0, 10, 10);
    let mut vel = v2(5, 5);
    let b = rect(20, 20, 5, 5);
    let hit = resolve_collision(&mut a, &mut vel, &b);
    assert!(!hit);
    assert_eq!(a, rect(0, 0, 10, 10));
    assert_eq!(vel, v2(5, 5));
}

#[test]
fn resolve_counts_touching_edges_as_collision() {
    let mut a = rect(0, 0, 10, 10);
    let mut vel = v2(5, 0);
    let b = rect(10, 0, 10, 10);
    let hit = resolve_collision(&mut a, &mut vel, &b);
    assert!(hit);
    // zero-width overlap: no positional correction, velocity still flipped.
    assert_eq!(a, rect(0, 0, 10, 10));
    assert_eq!(vel, v2(-5, 0));
}

#[test]
fn attached_ball_snaps_to_paddle() {
    let player = Player { rect: rect(400, 500, 150, 20) };
    let mut ball = Ball::new(v2(0, 0), v2(0, 0), BallState::AttachedToPlayer);
    ball.update(16, &player, 800);
    assert_eq!(ball.rect.x, 475);
    assert_eq!(ball.rect.y, 490);
    assert_eq!(ball.ball_state, BallState::AttachedToPlayer);
}

#[test]
fn free_ball_moves_under_velocity() {
    let player = Player { rect: rect(400, 500, 150, 20) };
    let mut ball = Ball::new(v2(100, 100), v2(707, -707), BallState::Free);
    ball.update(16, &player, 800);
    // 707 * 250 * 16 / 1_000_000 = 2 pixels per 16 ms frame.
    assert_eq!(ball.rect.x, 102);
    assert_eq!(ball.rect.y, 98);
    assert_eq!(ball.velocity, v2(707, -707));
}

#[test]
fn ball_edges_force_velocity_inward() {
    let player = Player { rect: rect(400, 500, 150, 20) };
    let mut left = Ball::new(v2(-30, 50), v2(0, 0), BallState::Free);
    left.update(0, &player, 800);
    assert_eq!(left.velocity.x, 1000);

    let mut right = Ball::new(v2(900, 50), v2(0, 0), BallState::Free);
    right.update(0, &player, 800);
    assert_eq!(right.velocity.x, -1000);

    let mut top = Ball::new(v2(100, -5), v2(0, 0), BallState::Free);
    top.update(0, &player, 800);
    assert_eq!(top.velocity.y, 1000);
}

#[test]
fn paddle_follows_pointer_clamped() {
    let mut p = Player::new(800, 600);
    assert_eq!(p.rect, rect(325, 500, 150, 20));
    p.update(-50, 800);
    assert_eq!(p.rect.x, 0);
    p.update(10_000, 800);
    assert_eq!(p.rect.x, 650);
    p.update(300, 800);
    assert_eq!(p.rect.x, 300);
    assert_eq!(p.rect.y, 500);
}

#[test]
fn powerup_falls_and_is_displaced() {
    let mut u = Powerup::new(v2(100, 100), PowerupType::NewLife, v2(0, 50));
    u.update(16);
    // 50 * 5 * 16 / 1000 = 4 pixels per 16 ms frame.
    assert_eq!(u.rect.y, 104);
    u.add_height();
    assert_eq!(u.rect.y, 1104);
    assert_eq!(u.rect.x, 100);
}

#[test]
fn block_colors_follow_life_and_type() {
    let mut b = Block::new(v2(0, 0), BlockType::Regular);
    assert_eq!(b.lives, 2);
    assert_eq!(b.color(), BlockColor::Orange);
    b.lives = 1;
    assert_eq!(b.color(), BlockColor::Red);
    b.lives = 0;
    assert_eq!(b.color(), BlockColor::DarkBlue);
    let s = Block::new(v2(0, 0), BlockType::SpawnBallOnDeath);
    assert_eq!(s.color(), BlockColor::Yellow);
    let d = Block::new(v2(0, 0), BlockType::DropLife);
    assert_eq!(d.color(), BlockColor::Black);
}
