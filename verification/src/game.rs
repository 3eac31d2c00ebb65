//! The top-level game session and its per-frame state machine.

use vstd::prelude::*;
use crate::ball::{ball_pos_x, ball_pos_y, ball_vel_x, ball_vel_y, Ball, BallState};
use crate::block::{Block, BlockType};
use crate::geom::{resolved_rect, resolved_vel, Rect, Vec2i};
use crate::player::{clamped_x, Player};
use crate::powerup::{Powerup, PowerupType};
use crate::{
    BALL_SIZE, BALL_SPEED, BLOCK_H, BLOCK_W, DT_LIMIT, LAUNCH_VX, LAUNCH_VY, PLAYER_H, PLAYER_W,
    POS_LIMIT, POS_SLACK, POWERUP_FALL_VY, SCREEN_LIMIT, VEL_LIMIT,
};

verus! {

/// Bound on how many balls, blocks or power-ups a well-formed session holds.
pub const MAX_ENTITIES: usize = 10_000;

/// Bound on the score within a well-formed session.
pub const SCORE_LIMIT: i64 = 1_000_000_000_000;

/// Bound on the life counter within a well-formed session.
pub const LIVES_LIMIT: usize = 1_000_000;

/// Bound on entity coordinates right after the movement phase of a frame:
/// the well-formedness bound plus one step and the snap offset.
pub const POS_MID: i64 = 1_100_000_000_000;

/// Bound on entity coordinates anywhere within one frame: [`POS_MID`] plus
/// everything the collision shifts of one frame can add.
pub const POS_END: i64 = 1_200_000_000_000;

/// Bound on the paddle's coordinates within a well-formed session; the
/// paddle is clamped to the screen, so it stays far inside this.
pub const PLAYER_POS_LIMIT: i64 = 2_000_000;

/// Which per-frame branch runs: the menu, the active simulation, one of the
/// two win screens, or the lose screen that offers a reset.
#[derive(Clone, Copy, PartialEq, Eq, Structural, Debug)]
pub enum GameState {
    Menu,
    Game,
    LevelCompleted,
    GameCompleted,
    Dead,
}

/// Everything the simulation reads from the host in one frame: the time
/// step, the pointer position, the screen size (queried fresh every frame)
/// and the two discrete input events.
#[derive(Clone, Copy, PartialEq, Eq, Structural, Debug)]
pub struct FrameInput {
    pub dt: u64,
    pub mouse_x: i64,
    pub screen_w: u64,
    pub screen_h: u64,
    pub space_pressed: bool,
    pub mouse_clicked: bool,
}

/// Number of authored levels.
pub const LEVEL_COUNT: usize = 3;

/// Number of block columns on the board.
pub const BOARD_WIDTH: usize = 8;

/// The hand-authored block pattern of each level: per-cell type codes,
/// row-major over [`BOARD_WIDTH`] columns (0 regular, 1 spawns a ball on
/// death, 2 drops a life).
pub open spec fn pattern_seq(level: int) -> Seq<u8> {
    if level == 0 {
        seq![
            2u8, 0, 0, 0, 0, 0, 0, 0, 0, 0, 0, 0, 0, 0, 0, 0, 0, 0, 0, 0, 0, 0, 0, 0, 0, 0, 0,
            0, 0, 0, 0, 0, 0, 0, 0, 0, 0, 2, 2, 2, 2, 2, 2, 2,
        ]
    } else if level == 1 {
        seq![0u8, 1, 0, 0, 0, 0, 0, 0, 0, 0, 0, 1, 0, 0, 0, 1]
    } else {
        seq![
            0u8, 0, 0, 0, 0, 0, 0, 0, 0, 0, 0, 0, 0, 0, 0, 1, 1, 1, 1, 1, 1, 1, 1, 1, 1, 1, 1,
            1, 1,
        ]
    }
}

/// The pattern of `level` as a vector.
pub fn level_pattern(level: usize) -> (v: Vec<u8>)
    requires
        level < LEVEL_COUNT,
    ensures
        v@ == pattern_seq(level as int),
{
    let v: Vec<u8> = if level == 0 {
        vec![
            2u8, 0, 0, 0, 0, 0, 0, 0, 0, 0, 0, 0, 0, 0, 0, 0, 0, 0, 0, 0, 0, 0, 0, 0, 0, 0, 0,
            0, 0, 0, 0, 0, 0, 0, 0, 0, 0, 2, 2, 2, 2, 2, 2, 2,
        ]
    } else if level == 1 {
        vec![0u8, 1, 0, 0, 0, 0, 0, 0, 0, 0, 0, 1, 0, 0, 0, 1]
    } else {
        vec![
            0u8, 0, 0, 0, 0, 0, 0, 0, 0, 0, 0, 0, 0, 0, 0, 1, 1, 1, 1, 1, 1, 1, 1, 1, 1, 1, 1,
            1, 1,
        ]
    };
    proof {
        assert(v@ =~= pattern_seq(level as int));
    }
    v
}

/// The block type a pattern code stands for; unknown codes fall back to a
/// regular block.
pub open spec fn type_of_code(code: u8) -> BlockType {
    if code == 1 {
        BlockType::SpawnBallOnDeath
    } else if code == 2 {
        BlockType::DropLife
    } else {
        BlockType::Regular
    }
}

/// x position of the board's left edge: the board of eight block widths,
/// centered on the screen.
pub open spec fn board_origin_x(screen_w: int) -> int {
    (screen_w - 600) / 2
}

/// x position of the board cell `i`, with 5 pixels of padding per column.
pub open spec fn block_pos_x(screen_w: int, i: int) -> int {
    board_origin_x(screen_w) + (i % 8) * 80
}

/// y position of the board cell `i`, with 5 pixels of padding per row,
/// 100 pixels below the screen's top.
pub open spec fn block_pos_y(i: int) -> int {
    100 + (i / 8) * 25
}

/// Append one fresh block per pattern cell of `level` to `blocks`, at the
/// cell's board position.
pub fn init_blocks(blocks: &mut Vec<Block>, level: usize, screen_w: u64)
    requires
        level < LEVEL_COUNT,
        screen_w <= SCREEN_LIMIT,
    ensures
        final(blocks)@.len() == old(blocks)@.len() + pattern_seq(level as int).len(),
        forall|k: int| 0 <= k < old(blocks)@.len() ==> final(blocks)@[k] == old(blocks)@[k],
        forall|k: int|
            old(blocks)@.len() <= k < final(blocks)@.len() ==> {
                let j = k - old(blocks)@.len();
                let b = #[trigger] final(blocks)@[k];
                &&& b.rect.x == block_pos_x(screen_w as int, j)
                &&& b.rect.y == block_pos_y(j)
                &&& b.rect.w == BLOCK_W
                &&& b.rect.h == BLOCK_H
                &&& b.lives == 2
                &&& b.block_type == type_of_code(pattern_seq(level as int)[j])
                &&& b.wf()
            },
{
    let pattern: Vec<u8> = level_pattern(level);
    let origin_x: i64 = if screen_w >= 600 {
        ((screen_w - 600) / 2) as i64
    } else {
        -((((600 - screen_w) + 1) / 2) as i64)
    };
    proof {
        assert(origin_x == board_origin_x(screen_w as int));
    }
    let mut i: usize = 0;
    while i < pattern.len()
        invariant
            pattern@ == pattern_seq(level as int),
            pattern@.len() <= 44,
            0 <= i <= pattern@.len(),
            origin_x == board_origin_x(screen_w as int),
            -300 <= origin_x <= SCREEN_LIMIT,
            blocks@.len() == old(blocks)@.len() + i,
            forall|k: int| 0 <= k < old(blocks)@.len() ==> blocks@[k] == old(blocks)@[k],
            forall|k: int|
                old(blocks)@.len() <= k < blocks@.len() ==> {
                    let j = k - old(blocks)@.len();
                    let b = #[trigger] blocks@[k];
                    &&& b.rect.x == block_pos_x(screen_w as int, j)
                    &&& b.rect.y == block_pos_y(j)
                    &&& b.rect.w == BLOCK_W
                    &&& b.rect.h == BLOCK_H
                    &&& b.lives == 2
                    &&& b.block_type == type_of_code(pattern_seq(level as int)[j])
                    &&& b.wf()
                },
        decreases pattern@.len() - i,
    {
        let col: i64 = (i % 8) as i64;
        let row: i64 = (i / 8) as i64;
        let bx: i64 = origin_x + col * 80;
        let by: i64 = 100 + row * 25;
        let code: u8 = pattern[i];
        let block_type: BlockType = if code == 1 {
            BlockType::SpawnBallOnDeath
        } else if code == 2 {
            BlockType::DropLife
        } else {
            BlockType::Regular
        };
        blocks.push(Block::new(Vec2i { x: bx, y: by }, block_type));
        i = i + 1;
    }
}

/// Append the single starting ball: attached to the paddle, at rest, one
/// ball height above the paddle's top-left corner.
pub fn init_balls(balls: &mut Vec<Ball>, player: &Player)
    requires
        -POS_LIMIT <= player.rect.x <= POS_LIMIT,
        -POS_LIMIT + BALL_SIZE <= player.rect.y <= POS_LIMIT,
    ensures
        final(balls)@.len() == old(balls)@.len() + 1,
        forall|k: int| 0 <= k < old(balls)@.len() ==> final(balls)@[k] == old(balls)@[k],
        ({
            let b = final(balls)@[old(balls)@.len() as int];
            &&& b.rect.x == player.rect.x
            &&& b.rect.y == player.rect.y - BALL_SIZE
            &&& b.rect.w == BALL_SIZE
            &&& b.rect.h == BALL_SIZE
            &&& b.velocity == (Vec2i { x: 0, y: 0 })
            &&& b.ball_state == BallState::AttachedToPlayer
            &&& b.wf()
        }),
{
    balls.push(
        Ball::new(
            Vec2i { x: player.rect.x, y: player.rect.y - BALL_SIZE },
            Vec2i { x: 0, y: 0 },
            BallState::AttachedToPlayer,
        ),
    );
}

/// A ball after bouncing off a static target rectangle.
pub open spec fn ball_after_target(b: Ball, target: Rect) -> Ball {
    Ball {
        rect: resolved_rect(b.rect, target),
        velocity: resolved_vel(b.rect, b.velocity, target),
        ball_state: b.ball_state,
    }
}

/// A block after a possible hit: one life fewer when hit.
pub open spec fn block_after_hit(blk: Block, hit: bool) -> Block {
    if hit {
        Block { rect: blk.rect, lives: (blk.lives - 1) as i32, block_type: blk.block_type }
    } else {
        blk
    }
}

/// The extra free ball a destroyed spawner block releases: launched from the
/// block's corner in the fixed upward-right direction.
pub open spec fn spawned_ball_at(blk: Block) -> Ball {
    Ball {
        rect: Rect { x: blk.rect.x, y: blk.rect.y, w: BALL_SIZE, h: BALL_SIZE },
        velocity: Vec2i { x: LAUNCH_VX, y: LAUNCH_VY },
        ball_state: BallState::Free,
    }
}

/// The power-up a destroyed dropper block releases: falling from the middle
/// of the block's top edge.
pub open spec fn dropped_powerup_at(blk: Block) -> Powerup {
    Powerup {
        rect: Rect {
            x: (blk.rect.x + blk.rect.w / 2) as i64,
            y: blk.rect.y,
            w: crate::POWERUP_SIZE,
            h: crate::POWERUP_SIZE,
        },
        velocity: Vec2i { x: 0, y: POWERUP_FALL_VY },
        powerup_type: PowerupType::NewLife,
    }
}

/// The state threaded through one ball's sweep over the blocks.
pub ghost struct BallSweep {
    pub ball: Ball,
    pub blocks: Seq<Block>,
    pub score: int,
    pub spawned: Seq<Ball>,
    pub drops: Seq<Powerup>,
}

/// One step of a ball's sweep: resolve the ball against block `j`; on a hit
/// the block loses a life, and a block reaching exactly zero lives scores 10
/// points and releases its type's side effect.
pub open spec fn sweep_step(s: BallSweep, j: int) -> BallSweep
    recommends
        0 <= j < s.blocks.len(),
{
    let blk = s.blocks[j];
    let hit = crate::geom::rects_intersect(s.ball.rect, blk.rect);
    let blk2 = block_after_hit(blk, hit);
    let destroyed = hit && blk2.lives == 0;
    BallSweep {
        ball: ball_after_target(s.ball, blk.rect),
        blocks: if hit {
            s.blocks.update(j, blk2)
        } else {
            s.blocks
        },
        score: if destroyed {
            s.score + 10
        } else {
            s.score
        },
        spawned: if destroyed && blk.block_type == BlockType::SpawnBallOnDeath {
            s.spawned.push(spawned_ball_at(blk))
        } else {
            s.spawned
        },
        drops: if destroyed && blk.block_type == BlockType::DropLife {
            s.drops.push(dropped_powerup_at(blk))
        } else {
            s.drops
        },
    }
}

/// A ball's sweep over the blocks from index `j` on, in order.
pub open spec fn sweep_blocks(s: BallSweep, j: int) -> BallSweep
    decreases s.blocks.len() - j,
{
    if 0 <= j < s.blocks.len() {
        sweep_blocks(sweep_step(s, j), j + 1)
    } else {
        s
    }
}

/// The state threaded through the collision phase over all balls.
pub ghost struct CollisionSweep {
    pub balls: Seq<Ball>,
    pub blocks: Seq<Block>,
    pub score: int,
    pub spawned: Seq<Ball>,
    pub drops: Seq<Powerup>,
}

/// The collision work of one ball: bounce off the paddle, then sweep all
/// blocks in order.
pub open spec fn collision_step(s: CollisionSweep, paddle: Rect, i: int) -> CollisionSweep
    recommends
        0 <= i < s.balls.len(),
{
    let inner = sweep_blocks(
        BallSweep {
            ball: ball_after_target(s.balls[i], paddle),
            blocks: s.blocks,
            score: s.score,
            spawned: s.spawned,
            drops: s.drops,
        },
        0,
    );
    CollisionSweep {
        balls: s.balls.update(i, inner.ball),
        blocks: inner.blocks,
        score: inner.score,
        spawned: inner.spawned,
        drops: inner.drops,
    }
}

/// The collision phase from ball `i` on: each ball in order is resolved
/// against the paddle and then against every block.
pub open spec fn sweep_balls(s: CollisionSweep, paddle: Rect, i: int) -> CollisionSweep
    decreases s.balls.len() - i,
{
    if 0 <= i < s.balls.len() {
        sweep_balls(collision_step(s, paddle, i), paddle, i + 1)
    } else {
        s
    }
}

/// The collision phase's remaining work, mid-sweep: finish ball `i`'s sweep
/// over the blocks from block `j` on, then process the balls after `i`.
pub open spec fn resume_sweep(
    balls: Seq<Ball>,
    i: int,
    s: BallSweep,
    j: int,
    paddle: Rect,
) -> CollisionSweep {
    let done = sweep_blocks(s, j);
    sweep_balls(
        CollisionSweep {
            balls: balls.update(i, done.ball),
            blocks: done.blocks,
            score: done.score,
            spawned: done.spawned,
            drops: done.drops,
        },
        paddle,
        i + 1,
    )
}

/// A power-up after falling for one time step.
pub open spec fn powerup_fallen(u: Powerup, dt: int) -> Powerup {
    Powerup {
        rect: Rect {
            x: u.rect.x,
            y: (u.rect.y + crate::powerup::powerup_step(u.velocity.y as int, dt)) as i64,
            w: u.rect.w,
            h: u.rect.h,
        },
        velocity: u.velocity,
        powerup_type: u.powerup_type,
    }
}

/// Whether a power-up, after falling for one time step, touches the paddle.
pub open spec fn powerup_caught(u: Powerup, dt: int, paddle: Rect) -> bool {
    crate::geom::rects_intersect(powerup_fallen(u, dt).rect, paddle)
}

/// A power-up after one step of the power-up phase: it falls, and if it then
/// touches the paddle it is bounced off it (a side effect of sharing the
/// collision resolution routine) and displaced 1000 pixels downward so the
/// off-screen filter removes it.
pub open spec fn powerup_after(u: Powerup, dt: int, paddle: Rect) -> Powerup {
    let f = powerup_fallen(u, dt);
    if crate::geom::rects_intersect(f.rect, paddle) {
        let r = resolved_rect(f.rect, paddle);
        Powerup {
            rect: Rect { x: r.x, y: (r.y + 1000) as i64, w: r.w, h: r.h },
            velocity: resolved_vel(f.rect, f.velocity, paddle),
            powerup_type: u.powerup_type,
        }
    } else {
        f
    }
}

/// How many of the first `i` power-ups are caught by the paddle this frame.
pub open spec fn caught_before(s: Seq<Powerup>, dt: int, paddle: Rect, i: int) -> int
    decreases i,
{
    if i <= 0 {
        0
    } else {
        caught_before(s, dt, paddle, i - 1) + if powerup_caught(s[i - 1], dt, paddle) {
            1int
        } else {
            0int
        }
    }
}

/// The power-ups from index `i` on that are still above the bottom screen
/// edge, in order.
pub open spec fn kept_powerups(s: Seq<Powerup>, h: int, i: int) -> Seq<Powerup>
    decreases s.len() - i,
{
    if 0 <= i < s.len() {
        let rest = kept_powerups(s, h, i + 1);
        if s[i].rect.y < h {
            seq![s[i]] + rest
        } else {
            rest
        }
    } else {
        Seq::empty()
    }
}

/// The balls from index `i` on that are still above the bottom screen edge,
/// in order.
pub open spec fn kept_balls(s: Seq<Ball>, h: int, i: int) -> Seq<Ball>
    decreases s.len() - i,
{
    if 0 <= i < s.len() {
        let rest = kept_balls(s, h, i + 1);
        if s[i].rect.y < h {
            seq![s[i]] + rest
        } else {
            rest
        }
    } else {
        Seq::empty()
    }
}

/// The blocks from index `i` on that still have a life left, in order.
pub open spec fn kept_blocks(s: Seq<Block>, i: int) -> Seq<Block>
    decreases s.len() - i,
{
    if 0 <= i < s.len() {
        let rest = kept_blocks(s, i + 1);
        if s[i].lives > 0 {
            seq![s[i]] + rest
        } else {
            rest
        }
    } else {
        Seq::empty()
    }
}

/// The fresh attached ball spawned after a life is lost: at rest over the
/// paddle's center, 10 pixels above its top.
pub open spec fn respawn_ball(p: Player) -> Ball {
    Ball {
        rect: Rect {
            x: (p.rect.x + p.rect.w / 2) as i64,
            y: (p.rect.y - 10) as i64,
            w: BALL_SIZE,
            h: BALL_SIZE,
        },
        velocity: Vec2i { x: 0, y: 0 },
        ball_state: BallState::AttachedToPlayer,
    }
}

/// A ball after the launch click: an attached ball is released in the fixed
/// upward-right direction; a free ball is untouched.
pub open spec fn launched_ball(b: Ball) -> Ball {
    if b.ball_state == BallState::AttachedToPlayer {
        Ball {
            rect: b.rect,
            velocity: Vec2i { x: LAUNCH_VX, y: LAUNCH_VY },
            ball_state: BallState::Free,
        }
    } else {
        b
    }
}

/// The paddle after following the pointer, everything but x unchanged.
pub open spec fn player_updated(p: Player, mouse_x: int, screen_w: int) -> Player {
    Player {
        rect: Rect {
            x: clamped_x(mouse_x, screen_w, p.rect.w as int) as i64,
            y: p.rect.y,
            w: p.rect.w,
            h: p.rect.h,
        },
    }
}

/// A ball after its movement update against the already-updated paddle.
pub open spec fn ball_updated(b: Ball, dt: int, p: Player, screen_w: int) -> Ball {
    Ball {
        rect: Rect {
            x: ball_pos_x(b, dt, p) as i64,
            y: ball_pos_y(b, dt, p) as i64,
            w: b.rect.w,
            h: b.rect.h,
        },
        velocity: Vec2i {
            x: ball_vel_x(b, dt, p, screen_w) as i64,
            y: ball_vel_y(b, dt, p) as i64,
        },
        ball_state: b.ball_state,
    }
}

/// The whole board of a level: one block per pattern cell.
pub open spec fn board_seq(level: int, screen_w: int) -> Seq<Block> {
    Seq::new(
        pattern_seq(level).len(),
        |k: int|
            Block {
                rect: Rect {
                    x: block_pos_x(screen_w, k) as i64,
                    y: block_pos_y(k) as i64,
                    w: BLOCK_W,
                    h: BLOCK_H,
                },
                lives: 2,
                block_type: type_of_code(pattern_seq(level)[k]),
            },
    )
}

/// The single starting ball a fresh board begins with: attached, at rest,
/// one ball height above the paddle's top-left corner.
pub open spec fn start_ball(p: Player) -> Ball {
    Ball {
        rect: Rect {
            x: p.rect.x,
            y: (p.rect.y - BALL_SIZE) as i64,
            w: BALL_SIZE,
            h: BALL_SIZE,
        },
        velocity: Vec2i { x: 0, y: 0 },
        ball_state: BallState::AttachedToPlayer,
    }
}

/// What one step of the active simulation does, start state `g0` to end
/// state `g1`: the paddle follows the pointer; the balls move; collisions
/// are resolved across all ball/paddle and ball/block pairs, scoring and
/// releasing side effects; the released balls and drops are merged; the
/// power-ups fall and may be caught for a life each; off-screen power-ups
/// and balls are pruned, with the life/respawn/lose bookkeeping; dead blocks
/// are pruned, with the level/win bookkeeping; finally a click releases the
/// attached balls.
pub open spec fn game_step_post(g0: Game, g1: Game, input: FrameInput) -> bool {
    let dt = input.dt as int;
    let sw = input.screen_w as int;
    let sh = input.screen_h as int;
    let p1 = player_updated(g0.player, input.mouse_x as int, sw);
    let balls1 = Seq::new(g0.balls@.len(), |k: int| ball_updated(g0.balls@[k], dt, p1, sw));
    let r = sweep_balls(
        CollisionSweep {
            balls: balls1,
            blocks: g0.blocks@,
            score: g0.score as int,
            spawned: Seq::empty(),
            drops: Seq::empty(),
        },
        p1.rect,
        0,
    );
    let ballsm = r.balls + r.spawned;
    let pupsm = g0.powerups@ + r.drops;
    let pups1 = Seq::new(pupsm.len(), |k: int| powerup_after(pupsm[k], dt, p1.rect));
    let lives1 = g0.lives + caught_before(pupsm, dt, p1.rect, pupsm.len() as int);
    let pups2 = kept_powerups(pups1, sh, 0);
    let keptballs = kept_balls(ballsm, sh, 0);
    let lost = ballsm.len() - keptballs.len();
    let emptied = ballsm.len() > 0 && keptballs.len() == 0;
    let lives2 = if emptied {
        if lost >= lives1 {
            0
        } else {
            lives1 - lost
        }
    } else {
        lives1
    };
    let dead = emptied && lives2 == 0;
    let balls2 = if emptied && !dead {
        keptballs.push(respawn_ball(p1))
    } else {
        keptballs
    };
    let keptblocks = kept_blocks(r.blocks, 0);
    let cleared = keptblocks.len() == 0;
    let level1 = if cleared {
        g0.level + 1
    } else {
        g0.level as int
    };
    let completed = cleared && level1 >= LEVEL_COUNT;
    let reinit = cleared && !completed;
    let balls3 = if reinit {
        seq![start_ball(p1)]
    } else {
        balls2
    };
    let balls4 = if input.mouse_clicked {
        Seq::new(balls3.len(), |k: int| launched_ball(balls3[k]))
    } else {
        balls3
    };
    &&& g1.player == p1
    &&& g1.score == r.score
    &&& g1.lives == lives2
    &&& g1.level == level1
    &&& g1.state == (if completed {
        GameState::GameCompleted
    } else if dead {
        GameState::Dead
    } else {
        g0.state
    })
    &&& g1.balls@ == balls4
    &&& g1.blocks@ == (if reinit {
        board_seq(level1, sw)
    } else {
        keptblocks
    })
    &&& g1.powerups@ == pups2
}

/// What a reset does: score, lives, level, paddle, board and balls are
/// restored to their starting values; power-ups in flight keep falling.
pub open spec fn reset_post(g0: Game, g1: Game, screen_w: int, screen_h: int) -> bool {
    &&& g1.score == 0
    &&& g1.lives == 3
    &&& g1.level == 0
    &&& g1.player == (Player {
        rect: Rect {
            x: (screen_w / 2 - 75) as i64,
            y: (screen_h - 100) as i64,
            w: PLAYER_W,
            h: PLAYER_H,
        },
    })
    &&& g1.balls@ == seq![start_ball(g1.player)]
    &&& g1.blocks@ == board_seq(0, screen_w)
    &&& g1.powerups == g0.powerups
}

/// What one frame does, by state: the menu waits for the start key; the
/// active simulation steps; the win screens are terminal; the lose screen
/// waits for the start key to reset and return to the simulation.
pub open spec fn frame_post(g0: Game, g1: Game, input: FrameInput) -> bool {
    match g0.state {
        GameState::Menu => {
            &&& g1.state == (if input.space_pressed {
                GameState::Game
            } else {
                GameState::Menu
            })
            &&& g1.score == g0.score
            &&& g1.lives == g0.lives
            &&& g1.level == g0.level
            &&& g1.player == g0.player
            &&& g1.balls == g0.balls
            &&& g1.blocks == g0.blocks
            &&& g1.powerups == g0.powerups
        },
        GameState::Game => game_step_post(g0, g1, input),
        GameState::LevelCompleted => g1 == g0,
        GameState::GameCompleted => g1 == g0,
        GameState::Dead => {
            if input.space_pressed {
                &&& reset_post(g0, g1, input.screen_w as int, input.screen_h as int)
                &&& g1.state == GameState::Game
                &&& g1.wf()
            } else {
                g1 == g0
            }
        },
    }
}

/// One full game session: the state machine's current branch, the counters
/// and all entities, owned exclusively by the per-frame step.
pub struct Game {
    pub state: GameState,
    pub score: i64,
    pub lives: usize,
    pub level: usize,
    pub player: Player,
    pub balls: Vec<Ball>,
    pub blocks: Vec<Block>,
    pub powerups: Vec<Powerup>,
}

impl Game {
    /// Well-formedness at a frame boundary: every entity is well-formed and
    /// the counters and collection sizes are far from the machine limits.
    pub open spec fn wf(self) -> bool {
        &&& self.player.rect.w == PLAYER_W
        &&& self.player.rect.h == PLAYER_H
        &&& -PLAYER_POS_LIMIT <= self.player.rect.x <= PLAYER_POS_LIMIT
        &&& -PLAYER_POS_LIMIT <= self.player.rect.y <= PLAYER_POS_LIMIT
        &&& forall|i: int| 0 <= i < self.balls@.len() ==> (#[trigger] self.balls@[i]).wf()
        &&& forall|i: int| 0 <= i < self.blocks@.len() ==> (#[trigger] self.blocks@[i]).wf()
        &&& forall|i: int| 0 <= i < self.powerups@.len() ==> (#[trigger] self.powerups@[i]).wf()
        &&& 0 <= self.score <= SCORE_LIMIT
        &&& self.lives <= LIVES_LIMIT
        &&& self.level <= LEVEL_COUNT
        &&& self.balls@.len() <= MAX_ENTITIES
        &&& self.blocks@.len() <= MAX_ENTITIES
        &&& self.powerups@.len() <= MAX_ENTITIES
    }

    /// A fresh session: menu state, no score, three lives, the first level's
    /// board, and one attached ball resting at the screen's center.
    pub fn new(screen_w: u64, screen_h: u64) -> (g: Game)
        requires
            screen_w <= SCREEN_LIMIT,
            screen_h <= SCREEN_LIMIT,
        ensures
            g.state == GameState::Menu,
            g.score == 0,
            g.lives == 3,
            g.level == 0,
            g.player == (Player {
                rect: Rect {
                    x: (screen_w as int / 2 - 75) as i64,
                    y: (screen_h as int - 100) as i64,
                    w: PLAYER_W,
                    h: PLAYER_H,
                },
            }),
            g.balls@.len() == 1,
            g.balls@[0].rect.x == screen_w as int / 2,
            g.balls@[0].rect.y == screen_h as int / 2,
            g.balls@[0].rect.w == BALL_SIZE,
            g.balls@[0].rect.h == BALL_SIZE,
            g.balls@[0].velocity == (Vec2i { x: 0, y: 0 }),
            g.balls@[0].ball_state == BallState::AttachedToPlayer,
            g.blocks@.len() == pattern_seq(0).len(),
            forall|k: int|
                0 <= k < g.blocks@.len() ==> {
                    let b = #[trigger] g.blocks@[k];
                    &&& b.rect.x == block_pos_x(screen_w as int, k)
                    &&& b.rect.y == block_pos_y(k)
                    &&& b.rect.w == BLOCK_W
                    &&& b.rect.h == BLOCK_H
                    &&& b.lives == 2
                    &&& b.block_type == type_of_code(pattern_seq(0)[k])
                },
            g.powerups@.len() == 0,
            g.wf(),
    {
        let player = Player::new(screen_w, screen_h);
        let mut blocks: Vec<Block> = Vec::new();
        init_blocks(&mut blocks, 0, screen_w);
        let mut balls: Vec<Ball> = Vec::new();
        balls.push(
            Ball::new(
                Vec2i { x: (screen_w / 2) as i64, y: (screen_h / 2) as i64 },
                Vec2i { x: 0, y: 0 },
                BallState::AttachedToPlayer,
            ),
        );
        Game {
            state: GameState::Menu,
            score: 0,
            lives: 3,
            level: 0,
            player,
            balls,
            blocks,
            powerups: Vec::new(),
        }
    }

    /// Restore the session for a new run: no score, three lives, level 0's
    /// board, a fresh paddle and one attached ball; power-ups already in
    /// flight are left falling.
    pub fn reset(&mut self, screen_w: u64, screen_h: u64)
        requires
            old(self).wf(),
            screen_w <= SCREEN_LIMIT,
            screen_h <= SCREEN_LIMIT,
        ensures
            final(self).state == old(self).state,
            final(self).score == 0,
            final(self).lives == 3,
            final(self).level == 0,
            final(self).player == (Player {
                rect: Rect {
                    x: (screen_w as int / 2 - 75) as i64,
                    y: (screen_h as int - 100) as i64,
                    w: PLAYER_W,
                    h: PLAYER_H,
                },
            }),
            final(self).balls@.len() == 1,
            final(self).balls@[0].rect.x == final(self).player.rect.x,
            final(self).balls@[0].rect.y == final(self).player.rect.y - BALL_SIZE,
            final(self).balls@[0].rect.w == BALL_SIZE,
            final(self).balls@[0].rect.h == BALL_SIZE,
            final(self).balls@[0].velocity == (Vec2i { x: 0, y: 0 }),
            final(self).balls@[0].ball_state == BallState::AttachedToPlayer,
            final(self).blocks@.len() == pattern_seq(0).len(),
            forall|k: int|
                0 <= k < final(self).blocks@.len() ==> {
                    let b = #[trigger] final(self).blocks@[k];
                    &&& b.rect.x == block_pos_x(screen_w as int, k)
                    &&& b.rect.y == block_pos_y(k)
                    &&& b.rect.w == BLOCK_W
                    &&& b.rect.h == BLOCK_H
                    &&& b.lives == 2
                    &&& b.block_type == type_of_code(pattern_seq(0)[k])
                },
            final(self).powerups == old(self).powerups,
            final(self).wf(),
    {
        self.level = 0;
        self.score = 0;
        self.lives = 3;
        self.player = Player::new(screen_w, screen_h);
        self.blocks.clear();
        self.balls.clear();
        init_blocks(&mut self.blocks, 0, screen_w);
        init_balls(&mut self.balls, &self.player);
    }

    /// Movement phase: the paddle follows the pointer, then every ball
    /// advances by one time step against the updated paddle.
    pub fn update_entities(&mut self, dt: u64, mouse_x: i64, screen_w: u64)
        requires
            old(self).wf(),
            dt <= DT_LIMIT,
            screen_w <= SCREEN_LIMIT,
        ensures
            final(self).player == player_updated(
                old(self).player,
                mouse_x as int,
                screen_w as int,
            ),
            final(self).balls@.len() == old(self).balls@.len(),
            forall|k: int|
                0 <= k < old(self).balls@.len() ==> #[trigger] final(self).balls@[k]
                    == ball_updated(
                    old(self).balls@[k],
                    dt as int,
                    final(self).player,
                    screen_w as int,
                ),
            final(self).blocks == old(self).blocks,
            final(self).powerups == old(self).powerups,
            final(self).score == old(self).score,
            final(self).lives == old(self).lives,
            final(self).level == old(self).level,
            final(self).state == old(self).state,
            final(self).player.rect.w == PLAYER_W,
            final(self).player.rect.h == PLAYER_H,
            -POS_MID <= final(self).player.rect.x <= POS_MID,
            -POS_MID <= final(self).player.rect.y <= POS_MID,
            forall|k: int|
                0 <= k < final(self).balls@.len() ==> {
                    let b = #[trigger] final(self).balls@[k];
                    &&& -POS_MID <= b.rect.x <= POS_MID
                    &&& -POS_MID <= b.rect.y <= POS_MID
                    &&& b.rect.w == BALL_SIZE
                    &&& b.rect.h == BALL_SIZE
                    &&& -VEL_LIMIT <= b.velocity.x <= VEL_LIMIT
                    &&& -VEL_LIMIT <= b.velocity.y <= VEL_LIMIT
                },
    {
        let ghost g0 = *self;
        self.player.update(mouse_x, screen_w);
        let ghost p = self.player;
        let mut i: usize = 0;
        while i < self.balls.len()
            invariant
                dt <= DT_LIMIT,
                screen_w <= SCREEN_LIMIT,
                g0.wf(),
                self.player == p,
                p == player_updated(g0.player, mouse_x as int, screen_w as int),
                p.rect.w == PLAYER_W,
                p.rect.h == PLAYER_H,
                -POS_MID <= p.rect.x <= POS_MID,
                -POS_MID <= p.rect.y <= POS_MID,
                self.balls@.len() == g0.balls@.len(),
                0 <= i <= self.balls@.len(),
                self.blocks == g0.blocks,
                self.powerups == g0.powerups,
                self.score == g0.score,
                self.lives == g0.lives,
                self.level == g0.level,
                self.state == g0.state,
                forall|k: int|
                    i <= k < self.balls@.len() ==> #[trigger] self.balls@[k] == g0.balls@[k],
                forall|k: int|
                    0 <= k < i ==> #[trigger] self.balls@[k] == ball_updated(
                        g0.balls@[k],
                        dt as int,
                        p,
                        screen_w as int,
                    ),
                forall|k: int|
                    0 <= k < i ==> {
                        let b = #[trigger] self.balls@[k];
                        &&& -POS_MID <= b.rect.x <= POS_MID
                        &&& -POS_MID <= b.rect.y <= POS_MID
                        &&& b.rect.w == BALL_SIZE
                        &&& b.rect.h == BALL_SIZE
                        &&& -VEL_LIMIT <= b.velocity.x <= VEL_LIMIT
                        &&& -VEL_LIMIT <= b.velocity.y <= VEL_LIMIT
                    },
            decreases self.balls@.len() - i,
        {
            let mut b = self.balls[i];
            proof {
                assert(g0.balls@[i as int].wf());
            }
            b.update(dt, &self.player, screen_w);
            proof {
                crate::motion::lemma_step_len_bound(
                    g0.balls@[i as int].velocity.x as int,
                    BALL_SPEED as int,
                    dt as int,
                    1_000_000,
                );
                crate::motion::lemma_step_len_bound(
                    g0.balls@[i as int].velocity.y as int,
                    BALL_SPEED as int,
                    dt as int,
                    1_000_000,
                );
            }
            self.balls.set(i, b);
            i = i + 1;
        }
    }

    /// Collision phase: every ball, in order, bounces off the paddle and
    /// then off every block in order; a hit block loses a life, and a block
    /// reaching exactly zero lives scores 10 points and releases its type's
    /// side effect.  The extra balls and power-up drops released this frame
    /// are appended at the end, in release order.
    pub fn collision_phase(&mut self)
        requires
            old(self).player.rect.w == PLAYER_W,
            old(self).player.rect.h == PLAYER_H,
            -POS_MID <= old(self).player.rect.x <= POS_MID,
            -POS_MID <= old(self).player.rect.y <= POS_MID,
            0 <= old(self).score <= SCORE_LIMIT,
            old(self).balls@.len() <= MAX_ENTITIES,
            old(self).blocks@.len() <= MAX_ENTITIES,
            old(self).powerups@.len() <= MAX_ENTITIES,
            forall|k: int|
                0 <= k < old(self).balls@.len() ==> {
                    let b = #[trigger] old(self).balls@[k];
                    &&& -POS_MID <= b.rect.x <= POS_MID
                    &&& -POS_MID <= b.rect.y <= POS_MID
                    &&& b.rect.w == BALL_SIZE
                    &&& b.rect.h == BALL_SIZE
                    &&& -VEL_LIMIT <= b.velocity.x <= VEL_LIMIT
                    &&& -VEL_LIMIT <= b.velocity.y <= VEL_LIMIT
                },
            forall|k: int|
                0 <= k < old(self).blocks@.len() ==> {
                    let b = #[trigger] old(self).blocks@[k];
                    &&& b.rect.w == BLOCK_W
                    &&& b.rect.h == BLOCK_H
                    &&& -POS_LIMIT <= b.rect.x <= POS_LIMIT
                    &&& -POS_LIMIT <= b.rect.y <= POS_LIMIT
                    &&& 0 <= b.lives <= 2
                },
            forall|k: int|
                0 <= k < old(self).powerups@.len() ==> {
                    let u = #[trigger] old(self).powerups@[k];
                    &&& u.rect.w == crate::POWERUP_SIZE
                    &&& u.rect.h == crate::POWERUP_SIZE
                    &&& -POS_MID <= u.rect.x <= POS_MID
                    &&& -POS_MID <= u.rect.y <= POS_MID
                    &&& -VEL_LIMIT <= u.velocity.x <= VEL_LIMIT
                    &&& -VEL_LIMIT <= u.velocity.y <= VEL_LIMIT
                },
        ensures
            ({
                let r = sweep_balls(
                    CollisionSweep {
                        balls: old(self).balls@,
                        blocks: old(self).blocks@,
                        score: old(self).score as int,
                        spawned: Seq::empty(),
                        drops: Seq::empty(),
                    },
                    old(self).player.rect,
                    0,
                );
                &&& final(self).balls@ == r.balls + r.spawned
                &&& final(self).blocks@ == r.blocks
                &&& final(self).score == r.score
                &&& final(self).powerups@ == old(self).powerups@ + r.drops
            }),
            final(self).player == old(self).player,
            final(self).lives == old(self).lives,
            final(self).level == old(self).level,
            final(self).state == old(self).state,
            old(self).score <= final(self).score <= old(self).score + 1_000_000_000,
            final(self).blocks@.len() == old(self).blocks@.len(),
            forall|k: int|
                0 <= k < final(self).balls@.len() ==> {
                    let b = #[trigger] final(self).balls@[k];
                    &&& -POS_END <= b.rect.x <= POS_END
                    &&& -POS_END <= b.rect.y <= POS_END
                    &&& b.rect.w == BALL_SIZE
                    &&& b.rect.h == BALL_SIZE
                    &&& -VEL_LIMIT <= b.velocity.x <= VEL_LIMIT
                    &&& -VEL_LIMIT <= b.velocity.y <= VEL_LIMIT
                },
            forall|k: int|
                0 <= k < final(self).blocks@.len() ==> {
                    let b = #[trigger] final(self).blocks@[k];
                    &&& b.rect == old(self).blocks@[k].rect
                    &&& b.block_type == old(self).blocks@[k].block_type
                    &&& old(self).blocks@[k].lives - old(self).balls@.len() <= b.lives
                        <= old(self).blocks@[k].lives
                },
            forall|k: int|
                0 <= k < final(self).powerups@.len() ==> {
                    let u = #[trigger] final(self).powerups@[k];
                    &&& u.rect.w == crate::POWERUP_SIZE
                    &&& u.rect.h == crate::POWERUP_SIZE
                    &&& -POS_MID <= u.rect.x <= POS_MID
                    &&& -POS_MID <= u.rect.y <= POS_MID
                    &&& -VEL_LIMIT <= u.velocity.x <= VEL_LIMIT
                    &&& -VEL_LIMIT <= u.velocity.y <= VEL_LIMIT
                },
            final(self).balls@.len() <= old(self).balls@.len() + 100_000_000,
            final(self).powerups@.len() <= old(self).powerups@.len() + 100_000_000,
    {
        let ghost g0 = *self;
        let ghost paddle = self.player.rect;
        let ghost s0 = CollisionSweep {
            balls: g0.balls@,
            blocks: g0.blocks@,
            score: g0.score as int,
            spawned: Seq::<Ball>::empty(),
            drops: Seq::<Powerup>::empty(),
        };
        let mut spawned: Vec<Ball> = Vec::new();
        let mut drops: Vec<Powerup> = Vec::new();
        let mut i: usize = 0;
        while i < self.balls.len()
            invariant
                self.player == g0.player,
                self.lives == g0.lives,
                self.level == g0.level,
                self.state == g0.state,
                self.powerups == g0.powerups,
                paddle == g0.player.rect,
                paddle.w == PLAYER_W,
                paddle.h == PLAYER_H,
                -POS_MID <= paddle.x <= POS_MID,
                -POS_MID <= paddle.y <= POS_MID,
                0 <= i <= self.balls@.len(),
                self.balls@.len() == g0.balls@.len() <= MAX_ENTITIES,
                self.blocks@.len() == g0.blocks@.len() <= MAX_ENTITIES,
                0 <= g0.score <= SCORE_LIMIT,
                s0 == (CollisionSweep {
                    balls: g0.balls@,
                    blocks: g0.blocks@,
                    score: g0.score as int,
                    spawned: Seq::<Ball>::empty(),
                    drops: Seq::<Powerup>::empty(),
                }),
                sweep_balls(s0, paddle, 0) == sweep_balls(
                    CollisionSweep {
                        balls: self.balls@,
                        blocks: self.blocks@,
                        score: self.score as int,
                        spawned: spawned@,
                        drops: drops@,
                    },
                    paddle,
                    i as int,
                ),
                g0.score <= self.score <= g0.score + 100_000 * (i as int),
                forall|k: int|
                    i <= k < self.balls@.len() ==> #[trigger] self.balls@[k] == g0.balls@[k],
                forall|k: int|
                    0 <= k < g0.balls@.len() ==> {
                        let b = #[trigger] g0.balls@[k];
                        &&& -POS_MID <= b.rect.x <= POS_MID
                        &&& -POS_MID <= b.rect.y <= POS_MID
                        &&& b.rect.w == BALL_SIZE
                        &&& b.rect.h == BALL_SIZE
                        &&& -VEL_LIMIT <= b.velocity.x <= VEL_LIMIT
                        &&& -VEL_LIMIT <= b.velocity.y <= VEL_LIMIT
                    },
                forall|k: int|
                    0 <= k < i ==> {
                        let b = #[trigger] self.balls@[k];
                        &&& -POS_END <= b.rect.x <= POS_END
                        &&& -POS_END <= b.rect.y <= POS_END
                        &&& b.rect.w == BALL_SIZE
                        &&& b.rect.h == BALL_SIZE
                        &&& -VEL_LIMIT <= b.velocity.x <= VEL_LIMIT
                        &&& -VEL_LIMIT <= b.velocity.y <= VEL_LIMIT
                    },
                forall|k: int|
                    0 <= k < self.blocks@.len() ==> {
                        let b = #[trigger] self.blocks@[k];
                        &&& b.rect == g0.blocks@[k].rect
                        &&& b.block_type == g0.blocks@[k].block_type
                        &&& b.rect.w == BLOCK_W
                        &&& b.rect.h == BLOCK_H
                        &&& -POS_LIMIT <= b.rect.x <= POS_LIMIT
                        &&& -POS_LIMIT <= b.rect.y <= POS_LIMIT
                        &&& g0.blocks@[k].lives - (i as int) <= b.lives <= g0.blocks@[k].lives
                        &&& 0 <= g0.blocks@[k].lives <= 2
                    },
                forall|k: int|
                    0 <= k < spawned@.len() ==> {
                        let b = #[trigger] spawned@[k];
                        &&& -POS_END <= b.rect.x <= POS_END
                        &&& -POS_END <= b.rect.y <= POS_END
                        &&& b.rect.w == BALL_SIZE
                        &&& b.rect.h == BALL_SIZE
                        &&& -VEL_LIMIT <= b.velocity.x <= VEL_LIMIT
                        &&& -VEL_LIMIT <= b.velocity.y <= VEL_LIMIT
                        &&& b.ball_state == BallState::Free
                    },
                forall|k: int|
                    0 <= k < drops@.len() ==> {
                        let u = #[trigger] drops@[k];
                        &&& u.rect.w == crate::POWERUP_SIZE
                        &&& u.rect.h == crate::POWERUP_SIZE
                        &&& -POS_MID <= u.rect.x <= POS_MID
                        &&& -POS_MID <= u.rect.y <= POS_MID
                        &&& -VEL_LIMIT <= u.velocity.x <= VEL_LIMIT
                        &&& -VEL_LIMIT <= u.velocity.y <= VEL_LIMIT
                    },
                spawned@.len() <= 10_000 * (i as int),
                drops@.len() <= 10_000 * (i as int),
            decreases self.balls@.len() - i,
        {
            let mut ball = self.balls[i];
            let ghost cur = CollisionSweep {
                balls: self.balls@,
                blocks: self.blocks@,
                score: self.score as int,
                spawned: spawned@,
                drops: drops@,
            };
            crate::geom::resolve_collision(&mut ball.rect, &mut ball.velocity, &self.player.rect);
            let ghost sc_i = self.score;
            proof {
                assert(sweep_balls(cur, paddle, i as int) == sweep_balls(
                    collision_step(cur, paddle, i as int),
                    paddle,
                    i as int + 1,
                ));
                assert(ball == ball_after_target(g0.balls@[i as int], paddle));
            }
            let mut j: usize = 0;
            while j < self.blocks.len()
                invariant
                    self.player == g0.player,
                    self.lives == g0.lives,
                    self.level == g0.level,
                    self.state == g0.state,
                    self.powerups == g0.powerups,
                    paddle == g0.player.rect,
                    paddle.w == PLAYER_W,
                    paddle.h == PLAYER_H,
                    -POS_MID <= paddle.x <= POS_MID,
                    -POS_MID <= paddle.y <= POS_MID,
                    0 <= i < self.balls@.len(),
                    0 <= j <= self.blocks@.len(),
                    self.balls@.len() == g0.balls@.len() <= MAX_ENTITIES,
                    self.blocks@.len() == g0.blocks@.len() <= MAX_ENTITIES,
                    0 <= g0.score <= SCORE_LIMIT,
                    s0 == (CollisionSweep {
                        balls: g0.balls@,
                        blocks: g0.blocks@,
                        score: g0.score as int,
                        spawned: Seq::<Ball>::empty(),
                        drops: Seq::<Powerup>::empty(),
                    }),
                    sweep_balls(s0, paddle, 0) == resume_sweep(
                        self.balls@,
                        i as int,
                        BallSweep {
                            ball: ball,
                            blocks: self.blocks@,
                            score: self.score as int,
                            spawned: spawned@,
                            drops: drops@,
                        },
                        j as int,
                        paddle,
                    ),
                    g0.score <= sc_i <= g0.score + 100_000 * (i as int),
                    sc_i <= self.score <= sc_i + 10 * (j as int),
                    -POS_MID - 200 - 100 * (j as int) <= ball.rect.x <= POS_MID + 200 + 100 * (
                    j as int),
                    -POS_MID - 200 - 100 * (j as int) <= ball.rect.y <= POS_MID + 200 + 100 * (
                    j as int),
                    ball.rect.w == BALL_SIZE,
                    ball.rect.h == BALL_SIZE,
                    -VEL_LIMIT <= ball.velocity.x <= VEL_LIMIT,
                    -VEL_LIMIT <= ball.velocity.y <= VEL_LIMIT,
                    forall|k: int|
                        i <= k < self.balls@.len() ==> #[trigger] self.balls@[k] == g0.balls@[k],
                    forall|k: int|
                        0 <= k < g0.balls@.len() ==> {
                            let b = #[trigger] g0.balls@[k];
                            &&& -POS_MID <= b.rect.x <= POS_MID
                            &&& -POS_MID <= b.rect.y <= POS_MID
                            &&& b.rect.w == BALL_SIZE
                            &&& b.rect.h == BALL_SIZE
                            &&& -VEL_LIMIT <= b.velocity.x <= VEL_LIMIT
                            &&& -VEL_LIMIT <= b.velocity.y <= VEL_LIMIT
                        },
                    forall|k: int|
                        0 <= k < i ==> {
                            let b = #[trigger] self.balls@[k];
                            &&& -POS_END <= b.rect.x <= POS_END
                            &&& -POS_END <= b.rect.y <= POS_END
                            &&& b.rect.w == BALL_SIZE
                            &&& b.rect.h == BALL_SIZE
                            &&& -VEL_LIMIT <= b.velocity.x <= VEL_LIMIT
                            &&& -VEL_LIMIT <= b.velocity.y <= VEL_LIMIT
                        },
                    forall|k: int|
                        j <= k < self.blocks@.len() ==> (#[trigger] self.blocks@[k]).lives
                            >= g0.blocks@[k].lives - (i as int),
                    forall|k: int|
                        0 <= k < self.blocks@.len() ==> {
                            let b = #[trigger] self.blocks@[k];
                            &&& b.rect == g0.blocks@[k].rect
                            &&& b.block_type == g0.blocks@[k].block_type
                            &&& b.rect.w == BLOCK_W
                            &&& b.rect.h == BLOCK_H
                            &&& -POS_LIMIT <= b.rect.x <= POS_LIMIT
                            &&& -POS_LIMIT <= b.rect.y <= POS_LIMIT
                            &&& g0.blocks@[k].lives - (i as int) - 1 <= b.lives
                                <= g0.blocks@[k].lives
                            &&& 0 <= g0.blocks@[k].lives <= 2
                        },
                    forall|k: int|
                        0 <= k < spawned@.len() ==> {
                            let b = #[trigger] spawned@[k];
                            &&& -POS_END <= b.rect.x <= POS_END
                            &&& -POS_END <= b.rect.y <= POS_END
                            &&& b.rect.w == BALL_SIZE
                            &&& b.rect.h == BALL_SIZE
                            &&& -VEL_LIMIT <= b.velocity.x <= VEL_LIMIT
                            &&& -VEL_LIMIT <= b.velocity.y <= VEL_LIMIT
                            &&& b.ball_state == BallState::Free
                        },
                    forall|k: int|
                        0 <= k < drops@.len() ==> {
                            let u = #[trigger] drops@[k];
                            &&& u.rect.w == crate::POWERUP_SIZE
                            &&& u.rect.h == crate::POWERUP_SIZE
                            &&& -POS_MID <= u.rect.x <= POS_MID
                            &&& -POS_MID <= u.rect.y <= POS_MID
                            &&& -VEL_LIMIT <= u.velocity.x <= VEL_LIMIT
                            &&& -VEL_LIMIT <= u.velocity.y <= VEL_LIMIT
                        },
                    spawned@.len() <= 10_000 * (i as int) + (j as int),
                    drops@.len() <= 10_000 * (i as int) + (j as int),
                decreases self.blocks@.len() - j,
            {
                let ghost s_pre = BallSweep {
                    ball: ball,
                    blocks: self.blocks@,
                    score: self.score as int,
                    spawned: spawned@,
                    drops: drops@,
                };
                let blk_rect = self.blocks[j].rect;
                let hit = crate::geom::resolve_collision(&mut ball.rect, &mut ball.velocity, &blk_rect);
                if hit {
                    let mut blk = self.blocks[j];
                    blk.lives = blk.lives - 1;
                    if blk.lives == 0 {
                        self.score = self.score + 10;
                        if blk.block_type == BlockType::SpawnBallOnDeath {
                            spawned.push(
                                Ball::new(
                                    Vec2i { x: blk.rect.x, y: blk.rect.y },
                                    Vec2i { x: LAUNCH_VX, y: LAUNCH_VY },
                                    BallState::Free,
                                ),
                            );
                        }
                        if blk.block_type == BlockType::DropLife {
                            drops.push(
                                Powerup::new(
                                    Vec2i {
                                        x: blk.rect.x + ((blk.rect.w as u64) / 2) as i64,
                                        y: blk.rect.y,
                                    },
                                    PowerupType::NewLife,
                                    Vec2i { x: 0, y: POWERUP_FALL_VY },
                                ),
                            );
                        }
                    }
                    self.blocks.set(j, blk);
                }
                proof {
                    let s_post = BallSweep {
                        ball: ball,
                        blocks: self.blocks@,
                        score: self.score as int,
                        spawned: spawned@,
                        drops: drops@,
                    };
                    assert(s_post == sweep_step(s_pre, j as int));
                    assert(sweep_blocks(s_pre, j as int) == sweep_blocks(s_post, j as int + 1));
                }
                j = j + 1;
            }
            self.balls.set(i, ball);
            i = i + 1;
        }
        self.balls.append(&mut spawned);
        self.powerups.append(&mut drops);
    }

    /// Power-up phase: every power-up falls for one time step; one that then
    /// touches the paddle grants its effect — a new life — and is displaced
    /// far below the screen for the off-screen filter to remove.
    pub fn powerup_phase(&mut self, dt: u64)
        requires
            dt <= DT_LIMIT,
            old(self).player.rect.w == PLAYER_W,
            old(self).player.rect.h == PLAYER_H,
            -POS_MID <= old(self).player.rect.x <= POS_MID,
            -POS_MID <= old(self).player.rect.y <= POS_MID,
            old(self).lives <= LIVES_LIMIT,
            old(self).powerups@.len() <= 1_000_000_000,
            forall|k: int|
                0 <= k < old(self).powerups@.len() ==> {
                    let u = #[trigger] old(self).powerups@[k];
                    &&& -POS_MID <= u.rect.x <= POS_MID
                    &&& -POS_MID <= u.rect.y <= POS_MID
                    &&& 0 <= u.rect.w <= SCREEN_LIMIT
                    &&& 0 <= u.rect.h <= SCREEN_LIMIT
                    &&& -VEL_LIMIT <= u.velocity.x <= VEL_LIMIT
                    &&& -VEL_LIMIT <= u.velocity.y <= VEL_LIMIT
                },
        ensures
            final(self).powerups@.len() == old(self).powerups@.len(),
            forall|k: int|
                0 <= k < old(self).powerups@.len() ==> #[trigger] final(self).powerups@[k]
                    == powerup_after(old(self).powerups@[k], dt as int, old(self).player.rect),
            final(self).lives == old(self).lives + caught_before(
                old(self).powerups@,
                dt as int,
                old(self).player.rect,
                old(self).powerups@.len() as int,
            ),
            old(self).lives <= final(self).lives <= old(self).lives + old(self).powerups@.len(),
            final(self).player == old(self).player,
            final(self).balls == old(self).balls,
            final(self).blocks == old(self).blocks,
            final(self).score == old(self).score,
            final(self).level == old(self).level,
            final(self).state == old(self).state,
            forall|k: int|
                0 <= k < final(self).powerups@.len() ==> {
                    let u = #[trigger] final(self).powerups@[k];
                    &&& -POS_END <= u.rect.x <= POS_END
                    &&& -POS_END <= u.rect.y <= POS_END
                    &&& u.rect.w == old(self).powerups@[k].rect.w
                    &&& u.rect.h == old(self).powerups@[k].rect.h
                    &&& -VEL_LIMIT <= u.velocity.x <= VEL_LIMIT
                    &&& -VEL_LIMIT <= u.velocity.y <= VEL_LIMIT
                },
    {
        let ghost g0 = *self;
        let ghost paddle = self.player.rect;
        let mut i: usize = 0;
        while i < self.powerups.len()
            invariant
                dt <= DT_LIMIT,
                paddle == g0.player.rect,
                self.player == g0.player,
                self.balls == g0.balls,
                self.blocks == g0.blocks,
                self.score == g0.score,
                self.level == g0.level,
                self.state == g0.state,
                paddle.w == PLAYER_W,
                paddle.h == PLAYER_H,
                -POS_MID <= paddle.x <= POS_MID,
                -POS_MID <= paddle.y <= POS_MID,
                g0.lives <= LIVES_LIMIT,
                0 <= i <= self.powerups@.len(),
                self.powerups@.len() == g0.powerups@.len() <= 1_000_000_000,
                self.lives == g0.lives + caught_before(g0.powerups@, dt as int, paddle, i as int),
                g0.lives <= self.lives <= g0.lives + (i as int),
                forall|k: int|
                    i <= k < self.powerups@.len() ==> #[trigger] self.powerups@[k]
                        == g0.powerups@[k],
                forall|k: int|
                    0 <= k < g0.powerups@.len() ==> {
                        let u = #[trigger] g0.powerups@[k];
                        &&& -POS_MID <= u.rect.x <= POS_MID
                        &&& -POS_MID <= u.rect.y <= POS_MID
                        &&& 0 <= u.rect.w <= SCREEN_LIMIT
                        &&& 0 <= u.rect.h <= SCREEN_LIMIT
                        &&& -VEL_LIMIT <= u.velocity.x <= VEL_LIMIT
                        &&& -VEL_LIMIT <= u.velocity.y <= VEL_LIMIT
                    },
                forall|k: int|
                    0 <= k < i ==> #[trigger] self.powerups@[k] == powerup_after(
                        g0.powerups@[k],
                        dt as int,
                        paddle,
                    ),
                forall|k: int|
                    0 <= k < i ==> {
                        let u = #[trigger] self.powerups@[k];
                        &&& -POS_END <= u.rect.x <= POS_END
                        &&& -POS_END <= u.rect.y <= POS_END
                        &&& u.rect.w == g0.powerups@[k].rect.w
                        &&& u.rect.h == g0.powerups@[k].rect.h
                        &&& -VEL_LIMIT <= u.velocity.x <= VEL_LIMIT
                        &&& -VEL_LIMIT <= u.velocity.y <= VEL_LIMIT
                    },
            decreases self.powerups@.len() - i,
        {
            let mut u = self.powerups[i];
            u.update(dt);
            proof {
                crate::motion::lemma_step_len_bound(
                    g0.powerups@[i as int].velocity.y as int,
                    crate::POWER_UP_SPEED as int,
                    dt as int,
                    1_000,
                );
            }
            let hit = crate::geom::resolve_collision(
                &mut u.rect,
                &mut u.velocity,
                &self.player.rect,
            );
            if hit {
                match u.powerup_type {
                    PowerupType::NewLife => {
                        self.lives = self.lives + 1;
                    },
                }
                u.add_height();
            }
            self.powerups.set(i, u);
            i = i + 1;
        }
    }

    /// Remove the power-ups that have fallen past the bottom screen edge.
    pub fn prune_powerups(&mut self, screen_h: u64)
        requires
            screen_h <= SCREEN_LIMIT,
        ensures
            final(self).powerups@ == kept_powerups(old(self).powerups@, screen_h as int, 0),
            final(self).powerups@.len() <= old(self).powerups@.len(),
            forall|k: int|
                0 <= k < final(self).powerups@.len() ==> exists|j: int|
                    0 <= j < old(self).powerups@.len() && #[trigger] final(self).powerups@[k]
                        == old(self).powerups@[j],
            final(self).player == old(self).player,
            final(self).balls == old(self).balls,
            final(self).blocks == old(self).blocks,
            final(self).score == old(self).score,
            final(self).lives == old(self).lives,
            final(self).level == old(self).level,
            final(self).state == old(self).state,
    {
        let ghost s0 = self.powerups@;
        let mut kept: Vec<Powerup> = Vec::new();
        let mut i: usize = 0;
        while i < self.powerups.len()
            invariant
                screen_h <= SCREEN_LIMIT,
                self.powerups@ == s0,
                0 <= i <= s0.len(),
                kept@.len() <= i,
                kept_powerups(s0, screen_h as int, 0) == kept@ + kept_powerups(
                    s0,
                    screen_h as int,
                    i as int,
                ),
                forall|k: int|
                    0 <= k < kept@.len() ==> exists|j: int|
                        0 <= j < s0.len() && #[trigger] kept@[k] == s0[j],
            decreases s0.len() - i,
        {
            let u = self.powerups[i];
            if u.rect.y < screen_h as i64 {
                kept.push(u);
            }
            proof {
                assert(kept_powerups(s0, screen_h as int, 0) =~= kept@ + kept_powerups(
                    s0,
                    screen_h as int,
                    i as int + 1,
                ));
            }
            i = i + 1;
        }
        proof {
            assert(kept_powerups(s0, screen_h as int, 0) =~= kept@);
        }
        self.powerups = kept;
    }

    /// Ball bookkeeping: remove the balls that fell past the bottom screen
    /// edge; when that empties a previously non-empty set, the lives counter
    /// drops by the number of balls lost (to no less than zero) and either
    /// one fresh attached ball is spawned over the paddle, or — when no life
    /// is left — none is and the session moves to the lose screen.
    pub fn prune_balls_and_lives(&mut self, screen_h: u64)
        requires
            screen_h <= SCREEN_LIMIT,
            -POS_SLACK <= old(self).player.rect.x <= POS_SLACK,
            -POS_SLACK <= old(self).player.rect.y <= POS_SLACK,
            0 <= old(self).player.rect.w <= SCREEN_LIMIT,
        ensures
            ({
                let kept = kept_balls(old(self).balls@, screen_h as int, 0);
                let lost = old(self).balls@.len() - kept.len();
                let emptied = old(self).balls@.len() > 0 && kept.len() == 0;
                let lives2 = if emptied {
                    if lost >= old(self).lives {
                        0
                    } else {
                        old(self).lives - lost
                    }
                } else {
                    old(self).lives as int
                };
                &&& final(self).lives == lives2
                &&& if emptied && lives2 == 0 {
                    &&& final(self).state == GameState::Dead
                    &&& final(self).balls@ == kept
                } else {
                    &&& final(self).state == old(self).state
                    &&& final(self).balls@ == if emptied {
                        kept.push(respawn_ball(old(self).player))
                    } else {
                        kept
                    }
                }
            }),
            final(self).balls@.len() <= old(self).balls@.len() + 1,
            forall|k: int|
                0 <= k < final(self).balls@.len() ==> (#[trigger] final(self).balls@[k]
                    == respawn_ball(old(self).player) || exists|j: int|
                    0 <= j < old(self).balls@.len() && final(self).balls@[k] == old(
                        self,
                    ).balls@[j]),
            final(self).player == old(self).player,
            final(self).blocks == old(self).blocks,
            final(self).powerups == old(self).powerups,
            final(self).score == old(self).score,
            final(self).level == old(self).level,
    {
        let ghost s0 = self.balls@;
        let was_any = self.balls.len() > 0;
        let mut kept: Vec<Ball> = Vec::new();
        let mut i: usize = 0;
        while i < self.balls.len()
            invariant
                screen_h <= SCREEN_LIMIT,
                self.balls@ == s0,
                0 <= i <= s0.len(),
                kept@.len() <= i,
                kept_balls(s0, screen_h as int, 0) == kept@ + kept_balls(
                    s0,
                    screen_h as int,
                    i as int,
                ),
                forall|k: int|
                    0 <= k < kept@.len() ==> exists|j: int|
                        0 <= j < s0.len() && #[trigger] kept@[k] == s0[j],
            decreases s0.len() - i,
        {
            let b = self.balls[i];
            if b.rect.y < screen_h as i64 {
                kept.push(b);
            }
            proof {
                assert(kept_balls(s0, screen_h as int, 0) =~= kept@ + kept_balls(
                    s0,
                    screen_h as int,
                    i as int + 1,
                ));
            }
            i = i + 1;
        }
        proof {
            assert(kept_balls(s0, screen_h as int, 0) =~= kept@);
        }
        let lost: usize = self.balls.len() - kept.len();
        self.balls = kept;
        if was_any && self.balls.len() == 0 {
            if lost >= self.lives {
                self.lives = 0;
            } else {
                self.lives = self.lives - lost;
            }
            if self.lives == 0 {
                self.state = GameState::Dead;
            } else {
                let half_w: i64 = ((self.player.rect.w as u64) / 2) as i64;
                self.balls.push(
                    Ball::new(
                        Vec2i { x: self.player.rect.x + half_w, y: self.player.rect.y - 10 },
                        Vec2i { x: 0, y: 0 },
                        BallState::AttachedToPlayer,
                    ),
                );
            }
        }
    }

    /// Board bookkeeping: remove the blocks with no life left; when the
    /// board is thereby cleared, the level advances — past the last authored
    /// level the session moves to the win screen, otherwise the board is
    /// re-populated from the next level's pattern and the balls are reset to
    /// one attached ball.
    pub fn advance_level(&mut self, screen_w: u64)
        requires
            old(self).level <= LEVEL_COUNT,
            screen_w <= SCREEN_LIMIT,
            -POS_LIMIT <= old(self).player.rect.x <= POS_LIMIT,
            -POS_LIMIT + BALL_SIZE <= old(self).player.rect.y <= POS_LIMIT,
        ensures
            ({
                let kept = kept_blocks(old(self).blocks@, 0);
                let cleared = kept.len() == 0;
                &&& final(self).level == if cleared {
                    old(self).level + 1
                } else {
                    old(self).level as int
                }
                &&& if !cleared {
                    &&& final(self).blocks@ == kept
                    &&& final(self).balls == old(self).balls
                    &&& final(self).state == old(self).state
                } else if old(self).level + 1 >= LEVEL_COUNT {
                    &&& final(self).blocks@ == kept
                    &&& final(self).balls == old(self).balls
                    &&& final(self).state == GameState::GameCompleted
                } else {
                    &&& final(self).state == old(self).state
                    &&& final(self).blocks@.len() == pattern_seq(old(self).level + 1).len()
                    &&& (forall|k: int|
                        0 <= k < final(self).blocks@.len() ==> {
                            let b = #[trigger] final(self).blocks@[k];
                            &&& b.rect.x == block_pos_x(screen_w as int, k)
                            &&& b.rect.y == block_pos_y(k)
                            &&& b.rect.w == BLOCK_W
                            &&& b.rect.h == BLOCK_H
                            &&& b.lives == 2
                            &&& b.block_type == type_of_code(
                                pattern_seq(old(self).level + 1)[k],
                            )
                        })
                    &&& final(self).balls@.len() == 1
                    &&& final(self).balls@[0].rect.x == old(self).player.rect.x
                    &&& final(self).balls@[0].rect.y == old(self).player.rect.y - BALL_SIZE
                    &&& final(self).balls@[0].velocity == (Vec2i { x: 0, y: 0 })
                    &&& final(self).balls@[0].ball_state == BallState::AttachedToPlayer
                    &&& final(self).balls@[0].wf()
                }
            }),
            final(self).blocks@.len() <= old(self).blocks@.len() + 44,
            forall|k: int|
                0 <= k < final(self).blocks@.len() ==> ((#[trigger] final(self).blocks@[k]).wf()
                    || exists|j: int|
                    0 <= j < old(self).blocks@.len() && final(self).blocks@[k] == old(
                        self,
                    ).blocks@[j]),
            final(self).player == old(self).player,
            final(self).powerups == old(self).powerups,
            final(self).score == old(self).score,
            final(self).lives == old(self).lives,
    {
        let ghost s0 = self.blocks@;
        let mut kept: Vec<Block> = Vec::new();
        let mut i: usize = 0;
        while i < self.blocks.len()
            invariant
                self.blocks@ == s0,
                0 <= i <= s0.len(),
                kept@.len() <= i,
                kept_blocks(s0, 0) == kept@ + kept_blocks(s0, i as int),
                forall|k: int|
                    0 <= k < kept@.len() ==> exists|j: int|
                        0 <= j < s0.len() && #[trigger] kept@[k] == s0[j],
            decreases s0.len() - i,
        {
            let b = self.blocks[i];
            if b.lives > 0 {
                kept.push(b);
            }
            proof {
                assert(kept_blocks(s0, 0) =~= kept@ + kept_blocks(s0, i as int + 1));
            }
            i = i + 1;
        }
        proof {
            assert(kept_blocks(s0, 0) =~= kept@);
        }
        self.blocks = kept;
        if self.blocks.len() == 0 {
            self.level = self.level + 1;
            if self.level >= LEVEL_COUNT {
                self.state = GameState::GameCompleted;
            } else {
                init_blocks(&mut self.blocks, self.level, screen_w);
                self.balls = Vec::new();
                init_balls(&mut self.balls, &self.player);
            }
        }
    }

    /// Launch phase: on a click, every attached ball is released in the
    /// fixed upward-right direction.
    pub fn launch_balls(&mut self, clicked: bool)
        ensures
            final(self).balls@.len() == old(self).balls@.len(),
            forall|k: int|
                0 <= k < old(self).balls@.len() ==> #[trigger] final(self).balls@[k] == (
                if clicked {
                    launched_ball(old(self).balls@[k])
                } else {
                    old(self).balls@[k]
                }),
            final(self).player == old(self).player,
            final(self).blocks == old(self).blocks,
            final(self).powerups == old(self).powerups,
            final(self).score == old(self).score,
            final(self).lives == old(self).lives,
            final(self).level == old(self).level,
            final(self).state == old(self).state,
    {
        if !clicked {
            return ;
        }
        let ghost g0 = *self;
        let mut i: usize = 0;
        while i < self.balls.len()
            invariant
                self.player == g0.player,
                self.blocks == g0.blocks,
                self.powerups == g0.powerups,
                self.score == g0.score,
                self.lives == g0.lives,
                self.level == g0.level,
                self.state == g0.state,
                0 <= i <= self.balls@.len(),
                self.balls@.len() == g0.balls@.len(),
                forall|k: int|
                    i <= k < self.balls@.len() ==> #[trigger] self.balls@[k] == g0.balls@[k],
                forall|k: int|
                    0 <= k < i ==> #[trigger] self.balls@[k] == launched_ball(g0.balls@[k]),
            decreases self.balls@.len() - i,
        {
            let mut b = self.balls[i];
            if matches!(b.ball_state, BallState::AttachedToPlayer) {
                b.ball_state = BallState::Free;
                b.velocity = Vec2i { x: LAUNCH_VX, y: LAUNCH_VY };
            }
            self.balls.set(i, b);
            i = i + 1;
        }
    }

    /// Whether this session is well-formed; the host checks this before
    /// stepping a frame.
    pub fn is_well_formed(&self) -> (b: bool)
        ensures
            b == self.wf(),
    {
        if !(self.player.rect.w == PLAYER_W && self.player.rect.h == PLAYER_H
            && -PLAYER_POS_LIMIT <= self.player.rect.x && self.player.rect.x <= PLAYER_POS_LIMIT
            && -PLAYER_POS_LIMIT <= self.player.rect.y && self.player.rect.y <= PLAYER_POS_LIMIT
            && 0 <= self.score && self.score <= SCORE_LIMIT && self.lives <= LIVES_LIMIT
            && self.level <= LEVEL_COUNT && self.balls.len() <= MAX_ENTITIES
            && self.blocks.len() <= MAX_ENTITIES && self.powerups.len() <= MAX_ENTITIES) {
            return false;
        }
        let mut i: usize = 0;
        while i < self.balls.len()
            invariant
                0 <= i <= self.balls@.len(),
                forall|k: int| 0 <= k < i ==> (#[trigger] self.balls@[k]).wf(),
            decreases self.balls@.len() - i,
        {
            let b = self.balls[i];
            let ok = b.rect.w == BALL_SIZE && b.rect.h == BALL_SIZE && -POS_LIMIT <= b.rect.x
                && b.rect.x <= POS_LIMIT && -POS_LIMIT <= b.rect.y && b.rect.y <= POS_LIMIT
                && -VEL_LIMIT <= b.velocity.x && b.velocity.x <= VEL_LIMIT
                && -VEL_LIMIT <= b.velocity.y && b.velocity.y <= VEL_LIMIT && (!matches!(
                b.ball_state,
                BallState::AttachedToPlayer,
            ) || (b.velocity.x == 0 && b.velocity.y == 0));
            if !ok {
                proof {
                    assert(!self.balls@[i as int].wf());
                }
                return false;
            }
            i = i + 1;
        }
        let mut i: usize = 0;
        while i < self.blocks.len()
            invariant
                0 <= i <= self.blocks@.len(),
                forall|k: int| 0 <= k < i ==> (#[trigger] self.blocks@[k]).wf(),
            decreases self.blocks@.len() - i,
        {
            let b = self.blocks[i];
            let ok = b.rect.w == BLOCK_W && b.rect.h == BLOCK_H && -POS_LIMIT <= b.rect.x
                && b.rect.x <= POS_LIMIT && -POS_LIMIT <= b.rect.y && b.rect.y <= POS_LIMIT && 0
                <= b.lives && b.lives <= 2;
            if !ok {
                proof {
                    assert(!self.blocks@[i as int].wf());
                }
                return false;
            }
            i = i + 1;
        }
        let mut i: usize = 0;
        while i < self.powerups.len()
            invariant
                0 <= i <= self.powerups@.len(),
                forall|k: int| 0 <= k < i ==> (#[trigger] self.powerups@[k]).wf(),
            decreases self.powerups@.len() - i,
        {
            let u = self.powerups[i];
            let ok = u.rect.w == crate::POWERUP_SIZE && u.rect.h == crate::POWERUP_SIZE
                && -POS_LIMIT <= u.rect.x && u.rect.x <= POS_LIMIT && -POS_LIMIT <= u.rect.y
                && u.rect.y <= POS_LIMIT && -VEL_LIMIT <= u.velocity.x && u.velocity.x
                <= VEL_LIMIT && -VEL_LIMIT <= u.velocity.y && u.velocity.y <= VEL_LIMIT;
            if !ok {
                proof {
                    assert(!self.powerups@[i as int].wf());
                }
                return false;
            }
            i = i + 1;
        }
        true
    }

    /// One step of the active simulation, in the frame order: movement,
    /// collisions, power-ups, the two pruning/bookkeeping passes and the
    /// launch input.
    pub fn step_game(&mut self, input: FrameInput)
        requires
            old(self).wf(),
            input.dt <= DT_LIMIT,
            input.screen_w <= SCREEN_LIMIT,
            input.screen_h <= SCREEN_LIMIT,
        ensures
            game_step_post(*old(self), *final(self), input),
    {
        let ghost g0 = *self;
        let ghost dt = input.dt as int;
        let ghost sw = input.screen_w as int;
        let ghost sh = input.screen_h as int;
        self.update_entities(input.dt, input.mouse_x, input.screen_w);
        let ghost ga = *self;
        let ghost p1 = player_updated(g0.player, input.mouse_x as int, sw);
        let ghost balls1 = Seq::new(g0.balls@.len(), |k: int| ball_updated(g0.balls@[k], dt, p1, sw));
        proof {
            assert(ga.player == p1);
            assert(ga.balls@ =~= balls1);
        }
        self.collision_phase();
        let ghost gb = *self;
        let ghost r = sweep_balls(
            CollisionSweep {
                balls: balls1,
                blocks: g0.blocks@,
                score: g0.score as int,
                spawned: Seq::empty(),
                drops: Seq::empty(),
            },
            p1.rect,
            0,
        );
        proof {
            assert(gb.balls@ == r.balls + r.spawned);
            assert(gb.blocks@ == r.blocks);
            assert(gb.score == r.score);
            assert(gb.powerups@ == g0.powerups@ + r.drops);
        }
        let ghost ballsm = r.balls + r.spawned;
        let ghost pupsm = g0.powerups@ + r.drops;
        self.powerup_phase(input.dt);
        let ghost gc = *self;
        let ghost pups1 = Seq::new(pupsm.len(), |k: int| powerup_after(pupsm[k], dt, p1.rect));
        let ghost lives1 = g0.lives + caught_before(pupsm, dt, p1.rect, pupsm.len() as int);
        proof {
            assert(gc.powerups@ =~= pups1);
            assert(gc.lives == lives1);
        }
        self.prune_powerups(input.screen_h);
        let ghost gd = *self;
        proof {
            assert(gd.powerups@ == kept_powerups(pups1, sh, 0));
        }
        self.prune_balls_and_lives(input.screen_h);
        let ghost ge = *self;
        let ghost keptballs = kept_balls(ballsm, sh, 0);
        let ghost lost = ballsm.len() - keptballs.len();
        let ghost emptied = ballsm.len() > 0 && keptballs.len() == 0;
        let ghost lives2: int = if emptied {
            if lost >= lives1 {
                0
            } else {
                lives1 - lost
            }
        } else {
            lives1 as int
        };
        let ghost dead = emptied && lives2 == 0;
        proof {
            assert(ge.lives == lives2);
            assert(ge.state == if dead {
                GameState::Dead
            } else {
                g0.state
            });
            assert(ge.balls@ == if emptied && !dead {
                keptballs.push(respawn_ball(p1))
            } else {
                keptballs
            });
        }
        self.advance_level(input.screen_w);
        let ghost gf = *self;
        let ghost keptblocks = kept_blocks(r.blocks, 0);
        let ghost cleared = keptblocks.len() == 0;
        let ghost level1: int = if cleared {
            g0.level + 1
        } else {
            g0.level as int
        };
        let ghost completed = cleared && level1 >= LEVEL_COUNT;
        let ghost reinit = cleared && !completed;
        proof {
            assert(gf.level == level1);
            if reinit {
                assert(gf.blocks@ =~= board_seq(level1, sw));
                assert(gf.balls@ =~= seq![start_ball(p1)]);
            }
            assert(gf.state == if completed {
                GameState::GameCompleted
            } else if dead {
                GameState::Dead
            } else {
                g0.state
            });
        }
        let ghost balls3 = if reinit {
            seq![start_ball(p1)]
        } else {
            (if emptied && !dead {
                keptballs.push(respawn_ball(p1))
            } else {
                keptballs
            })
        };
        self.launch_balls(input.mouse_clicked);
        proof {
            let gg = *self;
            if input.mouse_clicked {
                assert(gg.balls@ =~= Seq::new(balls3.len(), |k: int| launched_ball(balls3[k])));
            } else {
                assert(gg.balls@ == balls3);
            }
            assert(game_step_post(g0, gg, input));
        }
    }

    /// One frame of the session: dispatch on the current state — the menu
    /// and lose screens watch the start key, the active simulation steps,
    /// and the win screens do nothing.
    pub fn frame(&mut self, input: FrameInput)
        requires
            old(self).wf(),
            input.dt <= DT_LIMIT,
            input.screen_w <= SCREEN_LIMIT,
            input.screen_h <= SCREEN_LIMIT,
        ensures
            frame_post(*old(self), *final(self), input),
    {
        let state = self.state;
        match state {
            GameState::Menu => {
                if input.space_pressed {
                    self.state = GameState::Game;
                }
            },
            GameState::Game => {
                self.step_game(input);
            },
            GameState::LevelCompleted => {},
            GameState::GameCompleted => {},
            GameState::Dead => {
                if input.space_pressed {
                    self.reset(input.screen_w, input.screen_h);
                    self.state = GameState::Game;
                    proof {
                        assert(self.balls@ =~= seq![start_ball(self.player)]);
                        assert(self.blocks@ =~= board_seq(0, input.screen_w as int));
                    }
                }
            },
        }
    }
}

/// Two block sequences that agree from index `i` on keep the same survivors
/// from `i` on.
proof fn lemma_kept_blocks_same_suffix(a: Seq<Block>, b: Seq<Block>, i: int)
    requires
        a.len() == b.len(),
        forall|k: int| i <= k < a.len() ==> a[k] == b[k],
    ensures
        kept_blocks(a, i) == kept_blocks(b, i),
    decreases a.len() - i,
{
    if 0 <= i < a.len() {
        lemma_kept_blocks_same_suffix(a, b, i + 1);
    }
}

/// Replacing one surviving block by a dead one shrinks the set of survivors
/// from any index at or before it by exactly one.
proof fn lemma_kept_blocks_update_dead(s: Seq<Block>, j: int, b: Block, i: int)
    requires
        0 <= i <= j < s.len(),
        s[j].lives > 0,
        b.lives <= 0,
    ensures
        kept_blocks(s.update(j, b), i).len() == kept_blocks(s, i).len() - 1,
    decreases s.len() - i,
{
    if i < j {
        lemma_kept_blocks_update_dead(s, j, b, i + 1);
    } else {
        lemma_kept_blocks_same_suffix(s.update(j, b), s, j + 1);
    }
}

/// Law: destroying a block — a hit that takes its last life — adds exactly
/// 10 to the score and removes exactly one block from the active set: the
/// board keeps its length, but one fewer block survives the end-of-frame
/// pruning.
pub proof fn lemma_block_destruction(s: BallSweep, j: int)
    requires
        0 <= j < s.blocks.len(),
        crate::geom::rects_intersect(s.ball.rect, s.blocks[j].rect),
        s.blocks[j].lives == 1,
    ensures
        sweep_step(s, j).score == s.score + 10,
        sweep_step(s, j).blocks.len() == s.blocks.len(),
        sweep_step(s, j).blocks[j].lives == 0,
        forall|k: int|
            0 <= k < s.blocks.len() && k != j ==> sweep_step(s, j).blocks[k] == s.blocks[k],
        kept_blocks(sweep_step(s, j).blocks, 0).len() == kept_blocks(s.blocks, 0).len() - 1,
{
    let b2 = block_after_hit(s.blocks[j], true);
    assert(b2.lives == 0);
    lemma_kept_blocks_update_dead(s.blocks, j, b2, 0);
}

} // verus!
