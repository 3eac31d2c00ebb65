use breakout::ball::{Ball, BallState};
use breakout::block::{Block, BlockType};
use breakout::game::{init_blocks, level_pattern, FrameInput, Game, GameState};
use breakout::geom::Vec2i;
use breakout::powerup::{Powerup, PowerupType};

fn v2(x: i64, y: i64) -> Vec2i {
    Vec2i { x, y }
}

fn idle_input() -> FrameInput {
    FrameInput {
        dt: 16,
        mouse_x: 400,
        screen_w: 800,
        screen_h: 600,
        space_pressed: false,
        mouse_clicked: false,
    }
}

#[test]
fn level_patterns_have_expected_shapes() {
    let one = level_pattern(0);
    assert_eq!(one.len(), 44);
    assert_eq!(one[0], 2);
    assert_eq!(one[1], 0);
    assert_eq!(one[37], 2);
    assert_eq!(one[43], 2);
    let two = level_pattern(1);
    assert_eq!(two.len(), 16);
    assert_eq!(two[0], 0);
    assert_eq!(two[1], 1);
    assert_eq!(two[11], 1);
    assert_eq!(two[15], 1);
    let three = level_pattern(2);
    assert_eq!(three.len(), 29);
    assert_eq!(three[14], 0);
    assert_eq!(three[15], 1);
    assert_eq!(three[28], 1);
}

#[test]
fn init_blocks_lays_out_the_board() {
    let mut blocks: Vec<Block> = Vec::new();
    init_blocks(&mut blocks, 0, 800);
    assert_eq!(blocks.len(), 44);
    // board origin: (800 - 600) / 2 = 100; cell 0 is a life dropper.
    assert_eq!(blocks[0].rect.x, 100);
    assert_eq!(blocks[0].rect.y, 100);
    assert_eq!(blocks[0].rect.w, 75);
    assert_eq!(blocks[0].rect.h, 20);
    assert_eq!(blocks[0].lives, 2);
    assert_eq!(blocks[0].block_type, BlockType::DropLife);
    // cell 9 sits one column and one row in: 80 by 25 pitch.
    assert_eq!(blocks[9].rect.x, 180);
    assert_eq!(blocks[9].rect.y, 125);
    assert_eq!(blocks[9].block_type, BlockType::Regular);
}

#[test]
fn narrow_screen_centers_board_off_screen() {
    let mut blocks: Vec<Block> = Vec::new();
    init_blocks(&mut blocks, 0, 500);
    // the 600-pixel board centered on a 500-pixel screen starts at -50
    assert_eq!(blocks[0].rect.x, -50);
    assert_eq!(blocks[7].rect.x, -50 + 7 * 80);
}

#[test]
fn new_game_starts_in_menu() {
    let g = Game::new(800, 600);
    assert_eq!(g.state, GameState::Menu);
    assert_eq!(g.score, 0);
    assert_eq!(g.lives, 3);
    assert_eq!(g.level, 0);
    assert_eq!(g.blocks.len(), 44);
    assert_eq!(g.balls.len(), 1);
    assert_eq!(g.balls[0].rect.x, 400);
    assert_eq!(g.balls[0].rect.y, 300);
    assert_eq!(g.balls[0].ball_state, BallState::AttachedToPlayer);
    assert_eq!(g.player.rect.x, 325);
    assert_eq!(g.player.rect.y, 500);
    assert!(g.powerups.is_empty());
    assert!(g.is_well_formed());
}

#[test]
fn menu_starts_on_space() {
    let mut g = Game::new(800, 600);
    let mut input = idle_input();
    g.frame(input);
    assert_eq!(g.state, GameState::Menu);
    input.space_pressed = true;
    g.frame(input);
    assert_eq!(g.state, GameState::Game);
}

#[test]
fn click_releases_attached_ball() {
    // paddle at x=400, width 150; ball attached at rest; the player clicks.
    let mut g = Game::new(800, 600);
    g.player.rect.x = 400;
    assert_eq!(g.balls[0].velocity, v2(0, 0));
    g.launch_balls(true);
    assert_eq!(g.balls[0].ball_state, BallState::Free);
    // the launch direction is (1, -1) normalized, in thousandths.
    assert_eq!(g.balls[0].velocity, v2(707, -707));
}

#[test]
fn block_takes_two_hits_to_die() {
    let mut g = Game::new(800, 600);
    g.blocks.clear();
    g.blocks.push(Block::new(v2(100, 100), BlockType::Regular));
    g.blocks.push(Block::new(v2(5000, 5000), BlockType::Regular));
    g.balls.clear();
    g.balls.push(Ball::new(v2(95, 95), v2(0, 0), BallState::Free));

    g.collision_phase();
    assert_eq!(g.blocks[0].lives, 1);
    assert_eq!(g.score, 0);
    assert_eq!(g.blocks.len(), 2);

    // put the ball back on the block for the second hit
    g.balls[0] = Ball::new(v2(95, 95), v2(0, 0), BallState::Free);
    g.collision_phase();
    assert_eq!(g.blocks[0].lives, 0);
    assert_eq!(g.score, 10);

    // the dead block leaves the board; the other one stays
    g.advance_level(800);
    assert_eq!(g.blocks.len(), 1);
    assert_eq!(g.blocks[0].rect.x, 5000);
    assert_eq!(g.level, 0);
}

#[test]
fn losing_last_ball_with_one_life_ends_the_game() {
    // last ball below the screen with lives=1: no respawn, state Dead.
    let mut g = Game::new(800, 600);
    g.state = GameState::Game;
    g.lives = 1;
    g.balls[0].rect.y = 700;
    g.balls[0].ball_state = BallState::Free;
    g.prune_balls_and_lives(600);
    assert_eq!(g.lives, 0);
    assert_eq!(g.state, GameState::Dead);
    assert!(g.balls.is_empty());
}

#[test]
fn losing_balls_costs_lives_and_respawns_one() {
    let mut g = Game::new(800, 600);
    g.state = GameState::Game;
    g.balls[0].rect.y = 700;
    g.balls[0].ball_state = BallState::Free;
    g.balls.push(Ball::new(v2(50, 800), v2(707, 707), BallState::Free));
    g.prune_balls_and_lives(600);
    // two balls lost in one frame: lives 3 -> 1, one fresh attached ball.
    assert_eq!(g.lives, 1);
    assert_eq!(g.state, GameState::Game);
    assert_eq!(g.balls.len(), 1);
    assert_eq!(g.balls[0].ball_state, BallState::AttachedToPlayer);
    assert_eq!(g.balls[0].rect.x, 400);
    assert_eq!(g.balls[0].rect.y, 490);
}

#[test]
fn surviving_ball_keeps_lives_untouched() {
    let mut g = Game::new(800, 600);
    g.state = GameState::Game;
    g.balls.push(Ball::new(v2(50, 700), v2(707, 707), BallState::Free));
    g.prune_balls_and_lives(600);
    assert_eq!(g.lives, 3);
    assert_eq!(g.balls.len(), 1);
    assert_eq!(g.balls[0].rect.y, 300);
}

#[test]
fn clearing_the_board_advances_the_level() {
    let mut g = Game::new(800, 600);
    for b in g.blocks.iter_mut() {
        b.lives = 0;
    }
    g.advance_level(800);
    assert_eq!(g.level, 1);
    assert_eq!(g.blocks.len(), 16);
    assert_eq!(g.blocks[0].rect.x, 100);
    assert_eq!(g.blocks[1].block_type, BlockType::SpawnBallOnDeath);
    assert_eq!(g.balls.len(), 1);
    assert_eq!(g.balls[0].ball_state, BallState::AttachedToPlayer);
    assert_eq!(g.balls[0].rect.x, 325);
    assert_eq!(g.balls[0].rect.y, 480);
}

#[test]
fn clearing_the_last_level_wins() {
    let mut g = Game::new(800, 600);
    g.state = GameState::Game;
    g.level = 2;
    for b in g.blocks.iter_mut() {
        b.lives = 0;
    }
    g.advance_level(800);
    assert_eq!(g.level, 3);
    assert_eq!(g.state, GameState::GameCompleted);
    assert!(g.blocks.is_empty());
}

#[test]
fn reset_from_dead_restores_the_start() {
    let mut g = Game::new(800, 600);
    g.score = 55;
    g.lives = 0;
    g.level = 2;
    g.state = GameState::Dead;
    g.powerups.push(Powerup::new(v2(50, 50), PowerupType::NewLife, v2(0, 50)));
    let mut input = idle_input();
    input.space_pressed = true;
    g.frame(input);
    assert_eq!(g.state, GameState::Game);
    assert_eq!(g.score, 0);
    assert_eq!(g.lives, 3);
    assert_eq!(g.level, 0);
    assert_eq!(g.balls.len(), 1);
    assert_eq!(g.balls[0].ball_state, BallState::AttachedToPlayer);
    assert_eq!(g.balls[0].rect.x, 325);
    assert_eq!(g.balls[0].rect.y, 480);
    assert_eq!(g.blocks.len(), 44);
    assert_eq!(g.blocks[0].rect.x, 100);
    assert_eq!(g.blocks[0].rect.y, 100);
    // the reset leaves power-ups in flight falling
    assert_eq!(g.powerups.len(), 1);
}

#[test]
fn caught_powerup_grants_a_life() {
    let mut g = Game::new(800, 600);
    g.powerups.push(Powerup::new(v2(350, 495), PowerupType::NewLife, v2(0, 50)));
    g.powerup_phase(0);
    assert_eq!(g.lives, 4);
    // bounced off the paddle by 15 and displaced 1000 farther down
    assert_eq!(g.powerups[0].rect.y, 1480);
    g.prune_powerups(600);
    assert!(g.powerups.is_empty());
}

#[test]
fn missed_powerup_is_pruned_off_screen() {
    let mut g = Game::new(800, 600);
    g.powerups.push(Powerup::new(v2(50, 700), PowerupType::NewLife, v2(0, 50)));
    g.powerup_phase(16);
    assert_eq!(g.lives, 3);
    g.prune_powerups(600);
    assert!(g.powerups.is_empty());
}

#[test]
fn destroyed_spawner_block_releases_a_ball() {
    let mut g = Game::new(800, 600);
    g.blocks.clear();
    let mut blk = Block::new(v2(100, 100), BlockType::SpawnBallOnDeath);
    blk.lives = 1;
    g.blocks.push(blk);
    g.blocks.push(Block::new(v2(5000, 5000), BlockType::Regular));
    g.balls.clear();
    g.balls.push(Ball::new(v2(95, 95), v2(0, 0), BallState::Free));
    g.collision_phase();
    assert_eq!(g.score, 10);
    assert_eq!(g.balls.len(), 2);
    assert_eq!(g.balls[1].ball_state, BallState::Free);
    assert_eq!(g.balls[1].rect.x, 100);
    assert_eq!(g.balls[1].rect.y, 100);
    assert_eq!(g.balls[1].velocity, v2(707, -707));
}

#[test]
fn destroyed_dropper_block_releases_a_powerup() {
    let mut g = Game::new(800, 600);
    g.blocks.clear();
    let mut blk = Block::new(v2(100, 100), BlockType::DropLife);
    blk.lives = 1;
    g.blocks.push(blk);
    g.blocks.push(Block::new(v2(5000, 5000), BlockType::Regular));
    g.balls.clear();
    g.balls.push(Ball::new(v2(95, 95), v2(0, 0), BallState::Free));
    g.collision_phase();
    assert_eq!(g.score, 10);
    assert_eq!(g.powerups.len(), 1);
    // the drop starts at the middle of the block's top edge
    assert_eq!(g.powerups[0].rect.x, 137);
    assert_eq!(g.powerups[0].rect.y, 100);
    assert_eq!(g.powerups[0].velocity, v2(0, 50));
    assert_eq!(g.powerups[0].powerup_type, PowerupType::NewLife);
}

#[test]
fn click_within_a_frame_launches_after_movement() {
    let mut g = Game::new(800, 600);
    g.state = GameState::Game;
    let mut input = idle_input();
    input.mouse_clicked = true;
    g.frame(input);
    // the ball first snaps over the paddle (clamped to mouse_x=400) and is
    // pushed up by the paddle collision; the click then releases it.
    assert_eq!(g.balls.len(), 1);
    assert_eq!(g.balls[0].ball_state, BallState::Free);
    assert_eq!(g.balls[0].velocity, v2(707, -707));
    assert_eq!(g.balls[0].rect.x, 475);
    assert_eq!(g.balls[0].rect.y, 480);
}

#[test]
fn losing_the_last_life_within_a_frame_ends_the_game() {
    let mut g = Game::new(800, 600);
    g.state = GameState::Game;
    g.lives = 1;
    g.balls[0] = Ball::new(v2(50, 900), v2(0, 707), BallState::Free);
    g.frame(idle_input());
    assert_eq!(g.lives, 0);
    assert_eq!(g.state, GameState::Dead);
    assert!(g.balls.is_empty());
}

#[test]
fn free_ball_advances_by_the_exact_step_within_a_frame() {
    let mut g = Game::new(800, 600);
    g.state = GameState::Game;
    g.blocks.clear();
    g.blocks.push(Block::new(v2(5000, 5000), BlockType::Regular));
    g.balls[0] = Ball::new(v2(200, 300), v2(707, -707), BallState::Free);
    g.frame(idle_input());
    // 707 * 250 * 16 / 1_000_000 = 2 pixels for a 16 ms frame
    assert_eq!(g.balls[0].rect.x, 202);
    assert_eq!(g.balls[0].rect.y, 298);
}

#[test]
fn ill_formed_sessions_are_detected() {
    let mut g = Game::new(800, 600);
    assert!(g.is_well_formed());
    g.balls[0].velocity.x = 5000;
    assert!(!g.is_well_formed());
    g.balls[0].velocity.x = 0;
    assert!(g.is_well_formed());
    g.score = -1;
    assert!(!g.is_well_formed());
}

#[test]
fn one_quiet_frame_keeps_the_session_well_formed() {
    let mut g = Game::new(800, 600);
    g.state = GameState::Game;
    g.frame(idle_input());
    assert!(g.is_well_formed());
    assert_eq!(g.state, GameState::Game);
    assert_eq!(g.score, 0);
    assert_eq!(g.lives, 3);
    // the attached ball snapped over the paddle center and was pushed up by
    // the paddle collision
    assert_eq!(g.balls[0].rect.x, 475);
    assert_eq!(g.balls[0].rect.y, 480);
    assert_eq!(g.blocks.len(), 44);
}
