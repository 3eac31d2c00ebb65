//! Power-ups dropped by special blocks: they fall toward the paddle and
//! grant their effect when caught.

use vstd::prelude::*;
use crate::geom::{Rect, Vec2i};
use crate::motion::{scaled_step, step_len};
use crate::{DT_LIMIT, POS_LIMIT, POS_SLACK, POWERUP_SIZE, POWER_UP_SPEED, VEL_LIMIT};

verus! {

/// The effect a power-up grants when the paddle catches it.
#[derive(Clone, Copy, PartialEq, Eq, Structural, Debug)]
pub enum PowerupType {
    NewLife,
}

/// A falling power-up drop.
#[derive(Clone, Copy, PartialEq, Eq, Structural, Debug)]
pub struct Powerup {
    pub rect: Rect,
    pub velocity: Vec2i,
    pub powerup_type: PowerupType,
}

/// The distance a power-up falls in one time step.
pub open spec fn powerup_step(vy: int, dt: int) -> int {
    step_len(vy, POWER_UP_SPEED as int, dt, 1_000)
}

impl Powerup {
    /// Entity bounds the game maintains for every power-up.
    pub open spec fn wf(self) -> bool {
        &&& self.rect.w == POWERUP_SIZE
        &&& self.rect.h == POWERUP_SIZE
        &&& -POS_LIMIT <= self.rect.x <= POS_LIMIT
        &&& -POS_LIMIT <= self.rect.y <= POS_LIMIT
        &&& -VEL_LIMIT <= self.velocity.x <= VEL_LIMIT
        &&& -VEL_LIMIT <= self.velocity.y <= VEL_LIMIT
    }

    /// A power-up of the fixed size at `pos` with the given velocity.
    pub fn new(pos: Vec2i, powerup_type: PowerupType, velocity: Vec2i) -> (u: Powerup)
        ensures
            u.rect.x == pos.x,
            u.rect.y == pos.y,
            u.rect.w == POWERUP_SIZE,
            u.rect.h == POWERUP_SIZE,
            u.velocity == velocity,
            u.powerup_type == powerup_type,
    {
        Powerup {
            rect: Rect { x: pos.x, y: pos.y, w: POWERUP_SIZE, h: POWERUP_SIZE },
            velocity,
            powerup_type,
        }
    }

    /// Displace the power-up far below the screen, marking it for removal by
    /// the standard off-screen filter.
    pub fn add_height(&mut self)
        requires
            -POS_SLACK <= old(self).rect.y <= POS_SLACK,
        ensures
            final(self).rect.y == old(self).rect.y + 1000,
            final(self).rect.x == old(self).rect.x,
            final(self).rect.w == old(self).rect.w,
            final(self).rect.h == old(self).rect.h,
            final(self).velocity == old(self).velocity,
            final(self).powerup_type == old(self).powerup_type,
    {
        self.rect.y = self.rect.y + 1000;
    }

    /// Let the power-up fall for one time step under its velocity.
    pub fn update(&mut self, dt: u64)
        requires
            dt <= DT_LIMIT,
            -POS_SLACK <= old(self).rect.y <= POS_SLACK,
            -VEL_LIMIT <= old(self).velocity.y <= VEL_LIMIT,
        ensures
            final(self).rect.y == old(self).rect.y + powerup_step(
                old(self).velocity.y as int,
                dt as int,
            ),
            final(self).rect.x == old(self).rect.x,
            final(self).rect.w == old(self).rect.w,
            final(self).rect.h == old(self).rect.h,
            final(self).velocity == old(self).velocity,
            final(self).powerup_type == old(self).powerup_type,
    {
        let dy: i64 = scaled_step(self.velocity.y, POWER_UP_SPEED, dt, 1_000);
        self.rect.y = self.rect.y + dy;
    }
}

} // verus!
