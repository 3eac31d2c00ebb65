//! The ball: a square rectangle with a velocity and an attachment state.

use vstd::prelude::*;
use crate::geom::{Rect, Vec2i};
use crate::motion::{scaled_step, step_len};
use crate::player::Player;
use crate::{BALL_SIZE, BALL_SPEED, DT_LIMIT, POS_LIMIT, POS_SLACK, SCREEN_LIMIT, VEL_LIMIT, VEL_UNIT};

verus! {

/// Whether the ball rides on the paddle or flies freely.
#[derive(Clone, Copy, PartialEq, Eq, Structural, Debug)]
pub enum BallState {
    AttachedToPlayer,
    Free,
}

/// A ball.  While attached its position is slaved to the paddle; once free
/// it moves under its stored velocity, bouncing off the screen edges.
#[derive(Clone, Copy, PartialEq, Eq, Structural, Debug)]
pub struct Ball {
    pub rect: Rect,
    pub velocity: Vec2i,
    pub ball_state: BallState,
}

/// The x position an attached ball snaps to: the paddle's horizontal center.
pub open spec fn snap_x(p: Player) -> int {
    p.rect.x + p.rect.w / 2
}

/// The y position an attached ball snaps to: half the ball's height above
/// the paddle's top edge.
pub open spec fn snap_y(p: Player, ball_h: int) -> int {
    p.rect.y - ball_h / 2
}

/// The ball's x position after one update: the snap position while attached,
/// else the current position, plus the velocity-driven step.
pub open spec fn ball_pos_x(b: Ball, dt: int, p: Player) -> int {
    let base = if b.ball_state == BallState::AttachedToPlayer {
        snap_x(p)
    } else {
        b.rect.x as int
    };
    base + step_len(b.velocity.x as int, BALL_SPEED as int, dt, 1_000_000)
}

/// The ball's y position after one update.
pub open spec fn ball_pos_y(b: Ball, dt: int, p: Player) -> int {
    let base = if b.ball_state == BallState::AttachedToPlayer {
        snap_y(p, b.rect.h as int)
    } else {
        b.rect.y as int
    };
    base + step_len(b.velocity.y as int, BALL_SPEED as int, dt, 1_000_000)
}

/// The ball's x velocity after one update: forced to a full unit rightward
/// past the left screen edge, then to a full unit leftward past the right
/// screen edge.
pub open spec fn ball_vel_x(b: Ball, dt: int, p: Player, screen_w: int) -> int {
    let x = ball_pos_x(b, dt, p);
    let v = if x < 0 {
        VEL_UNIT as int
    } else {
        b.velocity.x as int
    };
    if x > screen_w - b.rect.w {
        -VEL_UNIT as int
    } else {
        v
    }
}

/// The ball's y velocity after one update: forced to a full unit downward
/// past the top screen edge.  The bottom edge is not handled here: falling
/// past it is detected by the owning loop and the ball removed.
pub open spec fn ball_vel_y(b: Ball, dt: int, p: Player) -> int {
    let y = ball_pos_y(b, dt, p);
    if y < 0 {
        VEL_UNIT as int
    } else {
        b.velocity.y as int
    }
}

impl Ball {
    /// Entity bounds and invariants the game maintains for every ball: the
    /// fixed size, coordinate and velocity bounds, and an attached ball
    /// never stores a velocity.
    pub open spec fn wf(self) -> bool {
        &&& self.rect.w == BALL_SIZE
        &&& self.rect.h == BALL_SIZE
        &&& -POS_LIMIT <= self.rect.x <= POS_LIMIT
        &&& -POS_LIMIT <= self.rect.y <= POS_LIMIT
        &&& -VEL_LIMIT <= self.velocity.x <= VEL_LIMIT
        &&& -VEL_LIMIT <= self.velocity.y <= VEL_LIMIT
        &&& self.ball_state == BallState::AttachedToPlayer ==> self.velocity == (Vec2i {
            x: 0,
            y: 0,
        })
    }

    /// A ball of the fixed size at `pos` with the given velocity and state.
    pub fn new(pos: Vec2i, velocity: Vec2i, ball_state: BallState) -> (b: Ball)
        ensures
            b.rect.x == pos.x,
            b.rect.y == pos.y,
            b.rect.w == BALL_SIZE,
            b.rect.h == BALL_SIZE,
            b.velocity == velocity,
            b.ball_state == ball_state,
    {
        Ball {
            rect: Rect { x: pos.x, y: pos.y, w: BALL_SIZE, h: BALL_SIZE },
            velocity,
            ball_state,
        }
    }

    /// Advance the ball by one time step: snap to the paddle while attached,
    /// apply the velocity-driven motion, then force the velocity inward at
    /// the left, right and top screen edges.
    pub fn update(&mut self, dt: u64, player: &Player, screen_w: u64)
        requires
            dt <= DT_LIMIT,
            screen_w <= SCREEN_LIMIT,
            -POS_SLACK <= old(self).rect.x <= POS_SLACK,
            -POS_SLACK <= old(self).rect.y <= POS_SLACK,
            0 <= old(self).rect.w <= SCREEN_LIMIT,
            0 <= old(self).rect.h <= SCREEN_LIMIT,
            -VEL_LIMIT <= old(self).velocity.x <= VEL_LIMIT,
            -VEL_LIMIT <= old(self).velocity.y <= VEL_LIMIT,
            -POS_SLACK <= player.rect.x <= POS_SLACK,
            -POS_SLACK <= player.rect.y <= POS_SLACK,
            0 <= player.rect.w <= SCREEN_LIMIT,
        ensures
            final(self).rect.x == ball_pos_x(*old(self), dt as int, *player),
            final(self).rect.y == ball_pos_y(*old(self), dt as int, *player),
            final(self).rect.w == old(self).rect.w,
            final(self).rect.h == old(self).rect.h,
            final(self).velocity.x == ball_vel_x(*old(self), dt as int, *player, screen_w as int),
            final(self).velocity.y == ball_vel_y(*old(self), dt as int, *player),
            final(self).ball_state == old(self).ball_state,
    {
        if self.ball_state == BallState::AttachedToPlayer {
            self.rect.x = player.rect.x + ((player.rect.w as u64) / 2) as i64;
            self.rect.y = player.rect.y - ((self.rect.h as u64) / 2) as i64;
        }
        let dx: i64 = scaled_step(self.velocity.x, BALL_SPEED, dt, 1_000_000);
        let dy: i64 = scaled_step(self.velocity.y, BALL_SPEED, dt, 1_000_000);
        self.rect.x = self.rect.x + dx;
        self.rect.y = self.rect.y + dy;
        if self.rect.x < 0 {
            self.velocity.x = VEL_UNIT;
        }
        if self.rect.x > screen_w as i64 - self.rect.w {
            self.velocity.x = -VEL_UNIT;
        }
        if self.rect.y < 0 {
            self.velocity.y = VEL_UNIT;
        }
    }
}

/// Law: a ball attached to the paddle has its position after an update
/// derived purely from the paddle's current position (and the ball's own
/// fixed size) — its stored velocity, which well-formedness pins to zero
/// while attached, contributes nothing.
pub proof fn lemma_attached_ball_follows_paddle(b: Ball, dt: int, p: Player)
    requires
        b.wf(),
        b.ball_state == BallState::AttachedToPlayer,
    ensures
        ball_pos_x(b, dt, p) == snap_x(p),
        ball_pos_y(b, dt, p) == snap_y(p, BALL_SIZE as int),
{
    assert(step_len(0, BALL_SPEED as int, dt, 1_000_000) == 0) by {
        assert(0 * (BALL_SPEED as int) * dt == 0) by (nonlinear_arith);
    }
}

} // verus!
