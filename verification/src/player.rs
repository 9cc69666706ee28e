//! The player: position, facing, footstep animation phase, and the glass
//! inventory with its points counter.
//!
//! The inventory invariant is `empty_glasses + filled_glasses <= GLASS_SPACE`.
//! Movement methods are unconditional: the world checks legality and reverts
//! an illegal step (see `crate::world`).

use vstd::prelude::*;
use crate::geometry::{Point, Rect};
use crate::sprite::{PlayerDirection, PlayerFootstep, Sprite, PLAYER_HEIGHT, PLAYER_WIDTH};
use crate::GLASS_SPACE;

verus! {

/// How far one step moves the player, in pixels.
pub const STEP: i32 = 15;

/// The player with his position, direction, footstep phase and inventory.
#[derive(Clone, Copy, PartialEq, Eq, Structural, Debug)]
pub struct Player {
    pub position: Point,
    pub direction: PlayerDirection,
    /// 0 = standing, 1 = left leg forward, 2 = right leg forward.
    pub footstep: u8,
    pub empty_glasses: u8,
    pub filled_glasses: u8,
    pub points: u32,
}

impl Player {
    /// The inventory never holds more than `GLASS_SPACE` glasses in all.
    pub open spec fn inv(self) -> bool {
        self.empty_glasses + self.filled_glasses <= GLASS_SPACE
    }

    pub open spec fn glasses(self) -> int {
        self.empty_glasses + self.filled_glasses
    }

    pub open spec fn spec_can_pick(self) -> bool {
        self.glasses() < GLASS_SPACE
    }

    pub open spec fn spec_can_fill(self) -> bool {
        self.empty_glasses > 0
    }

    pub open spec fn spec_can_drink(self) -> bool {
        self.filled_glasses > 0
    }

    /// Picking a glass stores one more empty glass and awards 2 points.
    pub open spec fn spec_pick(self) -> Player {
        Player {
            empty_glasses: (self.empty_glasses + 1) as u8,
            points: (self.points + 2) as u32,
            ..self
        }
    }

    /// Filling turns an empty glass into a filled one and awards 3 points.
    pub open spec fn spec_fill(self) -> Player {
        Player {
            empty_glasses: (self.empty_glasses - 1) as u8,
            filled_glasses: (self.filled_glasses + 1) as u8,
            points: (self.points + 3) as u32,
            ..self
        }
    }

    /// Drinking consumes a filled glass and awards 5 points.
    pub open spec fn spec_drink(self) -> Player {
        Player {
            filled_glasses: (self.filled_glasses - 1) as u8,
            points: (self.points + 5) as u32,
            ..self
        }
    }

    /// The footstep phase alternates between 1 and 2 on each step.
    pub open spec fn spec_next_footstep(self) -> u8 {
        (self.footstep % 2 + 1) as u8
    }

    /// Where one step in the given direction puts the player.
    pub open spec fn spec_stepped(self, direction: PlayerDirection) -> Point {
        match direction {
            PlayerDirection::Up => Point { x: self.position.x, y: (self.position.y - STEP) as i32 },
            PlayerDirection::Down => Point {
                x: self.position.x,
                y: (self.position.y + STEP) as i32,
            },
            PlayerDirection::Left => Point {
                x: (self.position.x - STEP) as i32,
                y: self.position.y,
            },
            PlayerDirection::Right => Point {
                x: (self.position.x + STEP) as i32,
                y: self.position.y,
            },
        }
    }

    /// One step: face the direction, advance the footstep, shift the position.
    pub open spec fn spec_moved(self, direction: PlayerDirection) -> Player {
        Player {
            position: self.spec_stepped(direction),
            direction,
            footstep: self.spec_next_footstep(),
            ..self
        }
    }

    /// A step in the given direction stays inside the machine's coordinate range.
    pub open spec fn step_fits(self, direction: PlayerDirection) -> bool {
        match direction {
            PlayerDirection::Up => self.position.y - STEP >= i32::MIN,
            PlayerDirection::Down => self.position.y + STEP <= i32::MAX,
            PlayerDirection::Left => self.position.x - STEP >= i32::MIN,
            PlayerDirection::Right => self.position.x + STEP <= i32::MAX,
        }
    }

    /// The bounding box center, the point all collision tests use.
    pub open spec fn spec_center(self) -> Point {
        Point {
            x: (self.position.x + PLAYER_WIDTH / 2) as i32,
            y: (self.position.y + PLAYER_HEIGHT / 2) as i32,
        }
    }

    pub open spec fn center_fits(self) -> bool {
        &&& self.position.x + PLAYER_WIDTH / 2 <= i32::MAX
        &&& self.position.y + PLAYER_HEIGHT / 2 <= i32::MAX
    }

    /// The position keeps the whole bounding box strictly inside `rect`.
    pub open spec fn spec_within(self, rect: Rect) -> bool {
        &&& self.position.y > rect.y
        &&& self.position.y < rect.y + (rect.height - PLAYER_HEIGHT)
        &&& self.position.x > rect.x
        &&& self.position.x < rect.x + (rect.width - PLAYER_WIDTH)
    }

    /// The sprite that shows the player's current facing and footstep.
    pub open spec fn spec_sprite(self) -> Sprite {
        Sprite::Player(
            self.direction,
            if self.footstep == 1 {
                PlayerFootstep::Left
            } else if self.footstep == 2 {
                PlayerFootstep::Right
            } else {
                PlayerFootstep::Rest
            },
        )
    }

    /// The fixed spawn state: position (380, 250), facing down, empty-handed.
    pub open spec fn spec_spawn() -> Player {
        Player {
            position: Point { x: 380, y: 250 },
            direction: PlayerDirection::Down,
            footstep: 0,
            empty_glasses: 0,
            filled_glasses: 0,
            points: 0,
        }
    }

    /// Initializes the player at the fixed spawn, facing down, empty-handed.
    pub fn init() -> (p: Player)
        ensures
            p == Player::spec_spawn(),
    {
        Player {
            position: Point::new(380, 250),
            direction: PlayerDirection::Down,
            footstep: 0,
            empty_glasses: 0,
            filled_glasses: 0,
            points: 0,
        }
    }

    /// Checks if the player can pick a glass or if the inventory is full.
    pub fn can_pick_glass(&self) -> (r: bool)
        ensures
            r == self.spec_can_pick(),
    {
        (self.empty_glasses as u16) + (self.filled_glasses as u16) < GLASS_SPACE as u16
    }

    /// Makes the player pick an empty glass.
    pub fn pick_glass(&mut self)
        requires
            old(self).inv(),
            old(self).spec_can_pick(),
            old(self).points + 2 <= u32::MAX,
        ensures
            *final(self) == old(self).spec_pick(),
            final(self).inv(),
    {
        self.empty_glasses += 1;
        self.points += 2
    }

    /// Checks if the player has an empty glass that could be filled.
    pub fn can_fill_glass(&self) -> (r: bool)
        ensures
            r == self.spec_can_fill(),
    {
        self.empty_glasses > 0
    }

    /// Makes the player fill one glass with wine.
    pub fn fill_glass(&mut self)
        requires
            old(self).inv(),
            old(self).spec_can_fill(),
            old(self).points + 3 <= u32::MAX,
        ensures
            *final(self) == old(self).spec_fill(),
            final(self).inv(),
    {
        self.empty_glasses -= 1;
        self.filled_glasses += 1;
        self.points += 3
    }

    /// Checks if the player has at least one filled glass.
    pub fn can_drink_glass(&self) -> (r: bool)
        ensures
            r == self.spec_can_drink(),
    {
        self.filled_glasses > 0
    }

    /// Makes the player drink one glass of wine.
    pub fn drink_glass(&mut self)
        requires
            old(self).inv(),
            old(self).spec_can_drink(),
            old(self).points + 5 <= u32::MAX,
        ensures
            *final(self) == old(self).spec_drink(),
            final(self).inv(),
    {
        self.filled_glasses -= 1;
        self.points += 5
    }

    /// The center of the bounding box.
    pub fn center(&self) -> (p: Point)
        requires
            self.center_fits(),
        ensures
            p == self.spec_center(),
    {
        let r = self.bounding_rect();
        Point::new(r.x + (r.width / 2) as i32, r.y + (r.height / 2) as i32)
    }

    /// The box the player sprite covers, anchored at his position.
    pub fn bounding_rect(&self) -> (r: Rect)
        ensures
            r == (Rect {
                x: self.position.x,
                y: self.position.y,
                width: PLAYER_WIDTH,
                height: PLAYER_HEIGHT,
            }),
    {
        let sprite_rect = self.sprite().rect();
        Rect::new(self.position.x, self.position.y, sprite_rect.width, sprite_rect.height)
    }

    /// Containment in a rectangle; comparisons are widened so nothing overflows.
    pub fn within_rect(&self, rect: &Rect) -> (r: bool)
        ensures
            r == self.spec_within(*rect),
    {
        let px = self.position.x as i64;
        let py = self.position.y as i64;
        py > rect.y as i64 && py < rect.y as i64 + (rect.height as i64 - PLAYER_HEIGHT as i64)
            && px > rect.x as i64 && px < rect.x as i64 + (rect.width as i64 - PLAYER_WIDTH
            as i64)
    }

    pub fn face_up(&mut self)
        ensures
            *final(self) == (Player { direction: PlayerDirection::Up, ..*old(self) }),
    {
        self.direction = PlayerDirection::Up;
    }

    pub fn face_down(&mut self)
        ensures
            *final(self) == (Player { direction: PlayerDirection::Down, ..*old(self) }),
    {
        self.direction = PlayerDirection::Down;
    }

    pub fn face_left(&mut self)
        ensures
            *final(self) == (Player { direction: PlayerDirection::Left, ..*old(self) }),
    {
        self.direction = PlayerDirection::Left;
    }

    pub fn face_right(&mut self)
        ensures
            *final(self) == (Player { direction: PlayerDirection::Right, ..*old(self) }),
    {
        self.direction = PlayerDirection::Right;
    }

    pub fn move_up(&mut self)
        requires
            old(self).step_fits(PlayerDirection::Up),
        ensures
            *final(self) == old(self).spec_moved(PlayerDirection::Up),
    {
        self.face_up();
        self.footstep = self.footstep % 2 + 1;
        self.position.y -= STEP
    }

    pub fn move_down(&mut self)
        requires
            old(self).step_fits(PlayerDirection::Down),
        ensures
            *final(self) == old(self).spec_moved(PlayerDirection::Down),
    {
        self.face_down();
        self.footstep = self.footstep % 2 + 1;
        self.position.y += STEP
    }

    pub fn move_left(&mut self)
        requires
            old(self).step_fits(PlayerDirection::Left),
        ensures
            *final(self) == old(self).spec_moved(PlayerDirection::Left),
    {
        self.face_left();
        self.footstep = self.footstep % 2 + 1;
        self.position.x -= STEP
    }

    pub fn move_right(&mut self)
        requires
            old(self).step_fits(PlayerDirection::Right),
        ensures
            *final(self) == old(self).spec_moved(PlayerDirection::Right),
    {
        self.face_right();
        self.footstep = self.footstep % 2 + 1;
        self.position.x += STEP
    }

    /// Stopping resets the footstep phase; position and facing stay.
    pub fn stop(&mut self)
        ensures
            *final(self) == (Player { footstep: 0, ..*old(self) }),
    {
        self.footstep = 0;
    }

    /// Picking adds exactly 2 points, filling 3, drinking 5, and no
    /// transition takes any away: over any sequence of enabled inventory
    /// transitions the points counter never decreases.
    pub proof fn lemma_points_monotonic(self, ops: Seq<GlassOp>)
        requires
            self.inv(),
            ops_enabled(self, ops),
        ensures
            apply_ops(self, ops).points >= self.points,
        decreases ops.len(),
    {
        if ops.len() > 0 {
            apply_op(self, ops[0]).lemma_points_monotonic(ops.drop_first());
        }
    }

    /// For every sequence of picks, fills and drinks respecting the
    /// preconditions, the inventory bound `empty_glasses + filled_glasses <=
    /// GLASS_SPACE` holds in every state along the way.
    pub proof fn lemma_inventory_bounded(self, ops: Seq<GlassOp>)
        requires
            self.inv(),
            ops_enabled(self, ops),
        ensures
            forall|i: int|
                0 <= i <= ops.len() ==> #[trigger] apply_ops(self, ops.take(i)).inv(),
        decreases ops.len(),
    {
        assert(ops.take(0) =~= Seq::<GlassOp>::empty());
        if ops.len() > 0 {
            let next = apply_op(self, ops[0]);
            next.lemma_inventory_bounded(ops.drop_first());
            assert forall|i: int| 0 <= i <= ops.len() implies #[trigger] apply_ops(
                self,
                ops.take(i),
            ).inv() by {
                if i > 0 {
                    assert(ops.take(i).drop_first() =~= ops.drop_first().take(i - 1));
                    assert(apply_ops(self, ops.take(i)) == apply_ops(
                        next,
                        ops.drop_first().take(i - 1),
                    ));
                }
            }
        }
    }

    /// The sprite to draw for the player's current state.
    pub fn sprite(&self) -> (s: Sprite)
        ensures
            s == self.spec_sprite(),
    {
        let footstep = if self.footstep == 1 {
            PlayerFootstep::Left
        } else if self.footstep == 2 {
            PlayerFootstep::Right
        } else {
            PlayerFootstep::Rest
        };

        Sprite::Player(self.direction, footstep)
    }
}

/// One inventory transition, for stating laws over whole play sessions.
#[derive(Clone, Copy, PartialEq, Eq, Structural, Debug)]
pub enum GlassOp {
    Pick,
    Fill,
    Drink,
}

/// The transition's precondition, as the world checks it before calling.
pub open spec fn op_enabled(p: Player, op: GlassOp) -> bool {
    match op {
        GlassOp::Pick => p.spec_can_pick() && p.points + 2 <= u32::MAX,
        GlassOp::Fill => p.spec_can_fill() && p.points + 3 <= u32::MAX,
        GlassOp::Drink => p.spec_can_drink() && p.points + 5 <= u32::MAX,
    }
}

/// The state one transition leads to.
pub open spec fn apply_op(p: Player, op: GlassOp) -> Player {
    match op {
        GlassOp::Pick => p.spec_pick(),
        GlassOp::Fill => p.spec_fill(),
        GlassOp::Drink => p.spec_drink(),
    }
}

/// Every transition of the sequence is enabled in the state it runs from.
pub open spec fn ops_enabled(p: Player, ops: Seq<GlassOp>) -> bool
    decreases ops.len(),
{
    ops.len() == 0 || (op_enabled(p, ops[0]) && ops_enabled(apply_op(p, ops[0]), ops.drop_first()))
}

/// The state a sequence of transitions leads to.
pub open spec fn apply_ops(p: Player, ops: Seq<GlassOp>) -> Player
    decreases ops.len(),
{
    if ops.len() == 0 {
        p
    } else {
        apply_ops(apply_op(p, ops[0]), ops.drop_first())
    }
}

} // verus!
