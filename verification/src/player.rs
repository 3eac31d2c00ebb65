//! The player's paddle: a rectangle whose x position follows the pointer.

use vstd::prelude::*;
use crate::geom::Rect;
use crate::{PLAYER_H, PLAYER_W, POS_SLACK, SCREEN_LIMIT};

verus! {

/// The paddle.  Its y position is fixed at construction; its x position
/// snaps to the pointer every frame, clamped to the screen.
#[derive(Clone, Copy, PartialEq, Eq, Structural, Debug)]
pub struct Player {
    pub rect: Rect,
}

/// The paddle's x position after following the pointer: the pointer
/// position, clamped first to the left screen edge and then so that the
/// paddle's right edge stays on screen.
pub open spec fn clamped_x(mouse_x: int, screen_w: int, w: int) -> int {
    let low = if mouse_x < 0 {
        0
    } else {
        mouse_x
    };
    if low > screen_w - w {
        screen_w - w
    } else {
        low
    }
}

impl Player {
    /// Entity bounds the paddle routines maintain.
    pub open spec fn wf(self) -> bool {
        &&& self.rect.w == PLAYER_W
        &&& self.rect.h == PLAYER_H
        &&& -POS_SLACK <= self.rect.x <= POS_SLACK
        &&& -POS_SLACK <= self.rect.y <= POS_SLACK
    }

    /// A paddle centered horizontally, 100 pixels above the screen's bottom.
    pub fn new(screen_w: u64, screen_h: u64) -> (p: Player)
        requires
            screen_w <= SCREEN_LIMIT,
            screen_h <= SCREEN_LIMIT,
        ensures
            p.rect.x == screen_w as int / 2 - 75,
            p.rect.y == screen_h as int - 100,
            p.rect.w == PLAYER_W,
            p.rect.h == PLAYER_H,
            p.wf(),
    {
        Player {
            rect: Rect {
                x: (screen_w / 2) as i64 - 75,
                y: screen_h as i64 - 100,
                w: PLAYER_W,
                h: PLAYER_H,
            },
        }
    }

    /// Snap the paddle's x position to the pointer, clamped to the screen;
    /// everything else is untouched.
    pub fn update(&mut self, mouse_x: i64, screen_w: u64)
        requires
            screen_w <= SCREEN_LIMIT,
            0 <= old(self).rect.w <= SCREEN_LIMIT,
        ensures
            final(self).rect.x == clamped_x(mouse_x as int, screen_w as int, old(self).rect.w as int),
            final(self).rect.y == old(self).rect.y,
            final(self).rect.w == old(self).rect.w,
            final(self).rect.h == old(self).rect.h,
    {
        let mut x: i64 = mouse_x;
        if x < 0 {
            x = 0;
        }
        let limit: i64 = screen_w as i64 - self.rect.w;
        if x > limit {
            x = limit;
        }
        self.rect.x = x;
    }
}

} // verus!
