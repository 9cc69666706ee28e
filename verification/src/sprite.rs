//! Sprite selection: which source rectangle of the texture atlas stands for
//! each drawable thing. The renderer (outside this crate) copies these
//! rectangles to the screen; here they are plain data with exact contracts.

use vstd::prelude::*;
use crate::geometry::Rect;

verus! {

/// Width of the player's bounding box, in pixels.
pub const PLAYER_WIDTH: u32 = 40;

/// Height of the player's bounding box, in pixels.
pub const PLAYER_HEIGHT: u32 = 115;

/// Everything the renderer can draw.
#[derive(Clone, Copy, PartialEq, Eq, Structural, Debug)]
pub enum Sprite {
    BottleEmpty,
    BottleFilled,
    BushHorizontal,
    BushVertical,
    Flower,
    GlassEmpty,
    GlassFilled,
    HiddenBox,
    Lounge,
    Nothing,
    Player(PlayerDirection, PlayerFootstep),
    Stone,
}

/// Footstep animation phase: legs together, left leg or right leg forward.
#[derive(Clone, Copy, PartialEq, Eq, Structural, Debug)]
pub enum PlayerFootstep {
    Rest,
    Left,
    Right,
}

/// The four ways the player sprite can face.
#[derive(Clone, Copy, PartialEq, Eq, Structural, Debug)]
pub enum PlayerDirection {
    Down,
    Left,
    Right,
    Up,
}

impl Sprite {
    /// The atlas source rectangle of a player sprite, by facing and footstep.
    pub open spec fn spec_player_rect(
        direction: PlayerDirection,
        footstep: PlayerFootstep,
    ) -> Rect {
        let x: i32 = match footstep {
            PlayerFootstep::Left => 60,
            PlayerFootstep::Right => 115,
            PlayerFootstep::Rest => 5,
        };
        let y: i32 = match direction {
            PlayerDirection::Down => 5,
            PlayerDirection::Left => 255,
            PlayerDirection::Right => 130,
            PlayerDirection::Up => 380,
        };
        Rect { x, y, width: PLAYER_WIDTH, height: PLAYER_HEIGHT }
    }

    /// The atlas source rectangle of each sprite.
    pub open spec fn spec_rect(self) -> Rect {
        match self {
            Sprite::BottleEmpty => Rect { x: 35, y: 550, width: 20, height: 50 },
            Sprite::BottleFilled => Rect { x: 5, y: 550, width: 20, height: 50 },
            Sprite::BushHorizontal => Rect { x: 70, y: 510, width: 50, height: 25 },
            Sprite::BushVertical => Rect { x: 70, y: 550, width: 25, height: 50 },
            Sprite::Flower => Rect { x: 130, y: 550, width: 25, height: 25 },
            Sprite::GlassEmpty => Rect { x: 35, y: 510, width: 20, height: 25 },
            Sprite::GlassFilled => Rect { x: 5, y: 510, width: 20, height: 25 },
            Sprite::HiddenBox => Rect { x: 5, y: 620, width: 50, height: 50 },
            Sprite::Lounge => Rect { x: 5, y: 700, width: 150, height: 95 },
            Sprite::Nothing => Rect { x: 70, y: 620, width: 50, height: 50 },
            Sprite::Player(pd, fs) => Sprite::spec_player_rect(pd, fs),
            Sprite::Stone => Rect { x: 130, y: 510, width: 25, height: 25 },
        }
    }

    /// The source rectangle inside the texture atlas.
    pub fn rect(&self) -> (r: Rect)
        ensures
            r == self.spec_rect(),
    {
        match self {
            Sprite::BottleEmpty => Rect::new(35, 550, 20, 50),
            Sprite::BottleFilled => Rect::new(5, 550, 20, 50),
            Sprite::BushHorizontal => Rect::new(70, 510, 50, 25),
            Sprite::BushVertical => Rect::new(70, 550, 25, 50),
            Sprite::Flower => Rect::new(130, 550, 25, 25),
            Sprite::GlassEmpty => Rect::new(35, 510, 20, 25),
            Sprite::GlassFilled => Rect::new(5, 510, 20, 25),
            Sprite::HiddenBox => Rect::new(5, 620, 50, 50),
            Sprite::Lounge => Rect::new(5, 700, 150, 95),
            Sprite::Nothing => Rect::new(70, 620, 50, 50),
            Sprite::Player(pd, fs) => Sprite::player_rect(pd, fs),
            Sprite::Stone => Rect::new(130, 510, 25, 25),
        }
    }

    /// Width and height of the sprite, in pixels.
    pub fn size(&self) -> (s: (u32, u32))
        ensures
            s.0 == self.spec_rect().width,
            s.1 == self.spec_rect().height,
    {
        let r = self.rect();
        (r.width, r.height)
    }

    fn player_rect(player_direction: &PlayerDirection, footstep: &PlayerFootstep) -> (r: Rect)
        ensures
            r == Sprite::spec_player_rect(*player_direction, *footstep),
    {
        let x: i32 = match footstep {
            PlayerFootstep::Left => 60,
            PlayerFootstep::Right => 115,
            PlayerFootstep::Rest => 5,
        };

        match player_direction {
            PlayerDirection::Down => Rect::new(x, 5, PLAYER_WIDTH, PLAYER_HEIGHT),
            PlayerDirection::Left => Rect::new(x, 255, PLAYER_WIDTH, PLAYER_HEIGHT),
            PlayerDirection::Right => Rect::new(x, 130, PLAYER_WIDTH, PLAYER_HEIGHT),
            PlayerDirection::Up => Rect::new(x, 380, PLAYER_WIDTH, PLAYER_HEIGHT),
        }
    }
}

} // verus!
