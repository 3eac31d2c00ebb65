//! Destructible blocks: two hit points and a type tag that controls the
//! rendered color and the on-death side effect.

use vstd::prelude::*;
use crate::geom::{Rect, Vec2i};
use crate::{BLOCK_H, BLOCK_W, POS_LIMIT};

verus! {

/// What destroying the block does besides scoring: nothing, spawn an extra
/// free ball, or drop a life power-up.
#[derive(Clone, Copy, PartialEq, Eq, Structural, Debug)]
pub enum BlockType {
    Regular,
    SpawnBallOnDeath,
    DropLife,
}

/// The color a block is drawn with, by type and remaining life.
#[derive(Clone, Copy, PartialEq, Eq, Structural, Debug)]
pub enum BlockColor {
    Red,
    Orange,
    DarkBlue,
    Yellow,
    Black,
}

/// A destructible block.
#[derive(Clone, Copy, PartialEq, Eq, Structural, Debug)]
pub struct Block {
    pub rect: Rect,
    pub lives: i32,
    pub block_type: BlockType,
}

/// The color rule: a regular block shows its remaining life (1 red,
/// 2 orange, anything else dark blue); the special types have fixed colors.
pub open spec fn color_of(block_type: BlockType, lives: int) -> BlockColor {
    match block_type {
        BlockType::Regular => if lives == 1 {
            BlockColor::Red
        } else if lives == 2 {
            BlockColor::Orange
        } else {
            BlockColor::DarkBlue
        },
        BlockType::SpawnBallOnDeath => BlockColor::Yellow,
        BlockType::DropLife => BlockColor::Black,
    }
}

impl Block {
    /// Entity bounds the game maintains for every block: the fixed size,
    /// coordinate bounds and a life counter between 0 and 2.
    pub open spec fn wf(self) -> bool {
        &&& self.rect.w == BLOCK_W
        &&& self.rect.h == BLOCK_H
        &&& -POS_LIMIT <= self.rect.x <= POS_LIMIT
        &&& -POS_LIMIT <= self.rect.y <= POS_LIMIT
        &&& 0 <= self.lives <= 2
    }

    /// A fresh block of the fixed size at `pos` with two hit points.
    pub fn new(pos: Vec2i, block_type: BlockType) -> (b: Block)
        ensures
            b.rect.x == pos.x,
            b.rect.y == pos.y,
            b.rect.w == BLOCK_W,
            b.rect.h == BLOCK_H,
            b.lives == 2,
            b.block_type == block_type,
    {
        Block {
            rect: Rect { x: pos.x, y: pos.y, w: BLOCK_W, h: BLOCK_H },
            lives: 2,
            block_type,
        }
    }

    /// The color this block is drawn with.
    pub fn color(&self) -> (c: BlockColor)
        ensures
            c == color_of(self.block_type, self.lives as int),
    {
        match self.block_type {
            BlockType::Regular => {
                if self.lives == 1 {
                    BlockColor::Red
                } else if self.lives == 2 {
                    BlockColor::Orange
                } else {
                    BlockColor::DarkBlue
                }
            },
            BlockType::SpawnBallOnDeath => BlockColor::Yellow,
            BlockType::DropLife => BlockColor::Black,
        }
    }
}

} // verus!
