//! The world: one player, four box areas, the static stops and the lounge.
//! It resolves movement commands into constrained steps (an illegal step is
//! reverted and the player only turns), classifies what the player's center
//! touches, and drives the interaction protocol between player and box-area
//! content.

use vstd::prelude::*;
use crate::clock::now_timestamp;
use crate::geometry::{Point, Rect};
use crate::player::Player;
use crate::rng::{jitter, revealed, spec_jitter, spec_revealed};
use crate::sprite::{PlayerDirection, PLAYER_HEIGHT, PLAYER_WIDTH};

verus! {

/// A discrete movement direction, the unit of the command protocol.
#[derive(Clone, Copy, PartialEq, Eq, Structural, Debug)]
pub enum Direction {
    Up,
    Down,
    Left,
    Right,
}

impl Direction {
    /// The sprite facing that belongs to this command direction.
    pub open spec fn spec_facing(self) -> PlayerDirection {
        match self {
            Direction::Up => PlayerDirection::Up,
            Direction::Down => PlayerDirection::Down,
            Direction::Left => PlayerDirection::Left,
            Direction::Right => PlayerDirection::Right,
        }
    }

    /// The direction a reverted step is taken in.
    pub open spec fn spec_opposite(self) -> Direction {
        match self {
            Direction::Up => Direction::Down,
            Direction::Down => Direction::Up,
            Direction::Left => Direction::Right,
            Direction::Right => Direction::Left,
        }
    }
}

/// A world-mutating command; `crate::net` gives it a text form.
#[derive(PartialEq, Debug)]
pub enum Command {
    SpawnPlayer(String, u32, u32),
    RemovePlayer(String),
    FacePlayer(String, Direction),
    MovePlayer(String, Direction),
    StopPlayer(String),
    UpdateBoxArea(BoxAreaPosition, BoxAreaContent),
}

/// What the player's center currently touches, in priority order.
#[derive(Clone, Copy, PartialEq, Eq, Structural, Debug)]
pub enum Collision {
    BoxArea(BoxAreaPosition),
    Lounge,
    Stopper,
    Clear,
}

/// Position of a box area: one for each corner of the world.
#[derive(Clone, Copy, PartialEq, Eq, Structural, Debug)]
pub enum BoxAreaPosition {
    RightTop,
    RightBottom,
    LeftBottom,
    LeftTop,
}

/// Content of a box area.
#[derive(Clone, Copy, PartialEq, Eq, Structural, Debug)]
pub enum BoxAreaContent {
    Nothing,
    HiddenBox,
    EmptyGlass,
    FilledBottle,
    EmptyBottle,
}

/// One of the four fixed map zones holding a collectible or refillable item.
#[derive(Clone, Copy, PartialEq, Eq, Structural, Debug)]
pub struct BoxArea {
    pub position: BoxAreaPosition,
    pub content: BoxAreaContent,
    /// Unix timestamp of the last content change.
    pub last_update: i64,
}

impl BoxArea {
    /// Creates a new box area stamped with the given creation time.
    pub fn new(position: BoxAreaPosition, content: BoxAreaContent, now: i64) -> (b: BoxArea)
        ensures
            b == (BoxArea { position, content, last_update: now }),
    {
        BoxArea { position, content, last_update: now }
    }

    /// Replaces the content and stamps the change time; the one mutation
    /// entry point of a box area outside the refresh machine.
    pub fn update_content(&mut self, content: BoxAreaContent, now: i64)
        ensures
            *final(self) == (BoxArea { content, last_update: now, ..*old(self) }),
    {
        self.content = content;
        self.last_update = now;
    }

    /// The fixed zone rectangle belonging to this area's corner.
    pub open spec fn spec_rect(self) -> Rect {
        let x: i32 = match self.position {
            BoxAreaPosition::RightTop => 685,
            BoxAreaPosition::RightBottom => 685,
            BoxAreaPosition::LeftBottom => 5,
            BoxAreaPosition::LeftTop => 5,
        };
        let y: i32 = match self.position {
            BoxAreaPosition::RightTop => 50,
            BoxAreaPosition::RightBottom => 480,
            BoxAreaPosition::LeftBottom => 480,
            BoxAreaPosition::LeftTop => 50,
        };
        Rect { x, y, width: 110, height: 110 }
    }

    pub fn bounding_rect(&self) -> (r: Rect)
        ensures
            r == self.spec_rect(),
    {
        let x: i32 = match self.position {
            BoxAreaPosition::RightTop => 685,
            BoxAreaPosition::RightBottom => 685,
            BoxAreaPosition::LeftBottom => 5,
            BoxAreaPosition::LeftTop => 5,
        };
        let y: i32 = match self.position {
            BoxAreaPosition::RightTop => 50,
            BoxAreaPosition::RightBottom => 480,
            BoxAreaPosition::LeftBottom => 480,
            BoxAreaPosition::LeftTop => 50,
        };
        Rect::new(x, y, 110, 110)
    }

    /// Checks if the player's center lies in this box area.
    pub fn collides_with(&self, player: &Player) -> (r: bool)
        requires
            player.center_fits(),
        ensures
            r == self.spec_rect().spec_contains(player.spec_center()),
    {
        self.bounding_rect().contains_point(player.center())
    }

    /// The timed refresh transition: an empty zone grows a hidden box after
    /// 10 idle seconds; a non-empty zone decays to empty once 30 seconds
    /// plus the draw's jitter have passed.
    pub open spec fn spec_refreshed(self, now: i64, seed: u64) -> BoxArea {
        if self.content == BoxAreaContent::Nothing && self.last_update + 10 < now {
            BoxArea { content: BoxAreaContent::HiddenBox, last_update: now, ..self }
        } else if self.content != BoxAreaContent::Nothing && self.last_update + 30
            + spec_jitter(seed) < now {
            BoxArea { content: BoxAreaContent::Nothing, last_update: now, ..self }
        } else {
            self
        }
    }

    /// One evaluation of the refresh state machine at time `now`, with `seed`
    /// standing for this evaluation's random draw.
    pub fn refresh(&mut self, now: i64, seed: u64)
        ensures
            *final(self) == old(self).spec_refreshed(now, seed),
    {
        let r = jitter(seed);
        if self.content == BoxAreaContent::Nothing {
            if (self.last_update as i128) + 10 < (now as i128) {
                self.content = BoxAreaContent::HiddenBox;
                self.last_update = now;
            }
        } else {
            if (self.last_update as i128) + 30 + (r as i128) < (now as i128) {
                self.content = BoxAreaContent::Nothing;
                self.last_update = now;
            }
        }
    }
}

/// The fixed obstacle points of the map.
pub open spec fn spec_stops() -> Seq<Point> {
    seq![
        Point { x: 380, y: 60 },
        Point { x: 590, y: 450 },
        Point { x: 720, y: 300 },
        Point { x: 20, y: 410 },
        Point { x: 190, y: 560 },
    ]
}

/// The rectangle the lounge covers.
pub open spec fn spec_lounge_rect() -> Rect {
    Rect { x: 325, y: 260, width: 150, height: 95 }
}

/// A stop blocks the player when its probe point (12 pixels into the stone)
/// lies inside the player's bounding box.
pub open spec fn spec_stop_blocks(player: Player, s: Point) -> bool {
    &&& player.position.x <= s.x + 12 < player.position.x + PLAYER_WIDTH
    &&& player.position.y <= s.y + 12 < player.position.y + PLAYER_HEIGHT
}

/// The world, the player and any item exists within.
#[derive(Debug)]
pub struct World {
    pub player: Player,
    pub right_top_box_area: BoxArea,
    pub right_bottom_box_area: BoxArea,
    pub left_bottom_box_area: BoxArea,
    pub left_top_box_area: BoxArea,
    pub stops: Vec<Point>,
}

impl World {
    /// Well-formedness: the inventory invariant holds, the static geometry is
    /// the fixed one, and each box area sits in its own corner.
    pub open spec fn wf(self) -> bool {
        &&& self.player.inv()
        &&& self.stops@ == spec_stops()
        &&& self.right_top_box_area.position == BoxAreaPosition::RightTop
        &&& self.right_bottom_box_area.position == BoxAreaPosition::RightBottom
        &&& self.left_bottom_box_area.position == BoxAreaPosition::LeftBottom
        &&& self.left_top_box_area.position == BoxAreaPosition::LeftTop
    }

    /// The box area sitting at the given corner.
    pub open spec fn spec_area(self, p: BoxAreaPosition) -> BoxArea {
        match p {
            BoxAreaPosition::RightTop => self.right_top_box_area,
            BoxAreaPosition::RightBottom => self.right_bottom_box_area,
            BoxAreaPosition::LeftBottom => self.left_bottom_box_area,
            BoxAreaPosition::LeftTop => self.left_top_box_area,
        }
    }

    /// The world with the area at `p` given new content, stamped at `now`.
    pub open spec fn spec_with_area_content(
        self,
        p: BoxAreaPosition,
        content: BoxAreaContent,
        now: i64,
    ) -> World {
        let a = BoxArea { content, last_update: now, ..self.spec_area(p) };
        match p {
            BoxAreaPosition::RightTop => World { right_top_box_area: a, ..self },
            BoxAreaPosition::RightBottom => World { right_bottom_box_area: a, ..self },
            BoxAreaPosition::LeftBottom => World { left_bottom_box_area: a, ..self },
            BoxAreaPosition::LeftTop => World { left_top_box_area: a, ..self },
        }
    }

    /// Creates and initializes a new playable world, stamped at time `now`.
    pub fn init_at(now: i64) -> (w: World)
        ensures
            w.player == Player::spec_spawn(),
            w.right_top_box_area == (BoxArea {
                position: BoxAreaPosition::RightTop,
                content: BoxAreaContent::EmptyGlass,
                last_update: now,
            }),
            w.right_bottom_box_area == (BoxArea {
                position: BoxAreaPosition::RightBottom,
                content: BoxAreaContent::HiddenBox,
                last_update: now,
            }),
            w.left_bottom_box_area == (BoxArea {
                position: BoxAreaPosition::LeftBottom,
                content: BoxAreaContent::Nothing,
                last_update: now,
            }),
            w.left_top_box_area == (BoxArea {
                position: BoxAreaPosition::LeftTop,
                content: BoxAreaContent::Nothing,
                last_update: now,
            }),
            w.stops@ == spec_stops(),
            w.wf(),
    {
        let mut stops: Vec<Point> = Vec::new();
        stops.push(Point::new(380, 60));
        stops.push(Point::new(590, 450));
        stops.push(Point::new(720, 300));
        stops.push(Point::new(20, 410));
        stops.push(Point::new(190, 560));
        proof {
            assert(stops@ =~= spec_stops());
        }
        World {
            player: Player::init(),
            right_top_box_area: BoxArea::new(
                BoxAreaPosition::RightTop,
                BoxAreaContent::EmptyGlass,
                now,
            ),
            right_bottom_box_area: BoxArea::new(
                BoxAreaPosition::RightBottom,
                BoxAreaContent::HiddenBox,
                now,
            ),
            left_bottom_box_area: BoxArea::new(
                BoxAreaPosition::LeftBottom,
                BoxAreaContent::Nothing,
                now,
            ),
            left_top_box_area: BoxArea::new(BoxAreaPosition::LeftTop, BoxAreaContent::Nothing, now),
            stops,
        }
    }

    /// Creates and initializes a new playable world, stamped with the
    /// current time.
    pub fn init() -> (w: World)
        ensures
            w.player == Player::spec_spawn(),
            w.right_top_box_area.content == BoxAreaContent::EmptyGlass,
            w.right_bottom_box_area.content == BoxAreaContent::HiddenBox,
            w.left_bottom_box_area.content == BoxAreaContent::Nothing,
            w.left_top_box_area.content == BoxAreaContent::Nothing,
            w.right_bottom_box_area.last_update == w.right_top_box_area.last_update,
            w.left_bottom_box_area.last_update == w.right_top_box_area.last_update,
            w.left_top_box_area.last_update == w.right_top_box_area.last_update,
            0 <= w.right_top_box_area.last_update,
            w.wf(),
    {
        let now = now_timestamp();
        World::init_at(now)
    }

    /// The player, mutably; the identifier of a remote player is ignored.
    pub fn get_player(&mut self, _player_id: String) -> (p: &mut Player)
        ensures
            *p == old(self).player,
            *final(self) == (World { player: *final(p), ..*old(self) }),
    {
        &mut self.player
    }

    /// The playable field: everything below the score bar.
    pub fn playable_rect() -> (r: Rect)
        ensures
            r == (Rect { x: 0, y: 50, width: 800, height: 550 }),
    {
        Rect::new(0, 50, 800, 550)
    }

    /// Whether any stop's probe point lies inside the player's bounding box.
    pub open spec fn spec_collides_with_stop(self) -> bool {
        exists|i: int|
            0 <= i < self.stops@.len() && spec_stop_blocks(self.player, self.stops@[i])
    }

    pub fn collides_with_stop(&self) -> (r: bool)
        ensures
            r == self.spec_collides_with_stop(),
    {
        let mut i: usize = 0;
        while i < self.stops.len()
            invariant
                0 <= i <= self.stops@.len(),
                forall|j: int| 0 <= j < i ==> !spec_stop_blocks(self.player, self.stops@[j]),
            decreases self.stops@.len() - i,
        {
            let s = self.stops[i];
            let px = (s.x as i64) + 12;
            let py = (s.y as i64) + 12;
            if (self.player.position.x as i64) <= px && px < (self.player.position.x as i64)
                + (PLAYER_WIDTH as i64) && (self.player.position.y as i64) <= py && py < (
            self.player.position.y as i64) + (PLAYER_HEIGHT as i64) {
                proof {
                    assert(spec_stop_blocks(self.player, self.stops@[i as int]));
                }
                return true;
            }
            i += 1;
        }
        false
    }

    /// Whether the player's center lies in the lounge.
    pub open spec fn spec_collides_with_lounge(self) -> bool {
        spec_lounge_rect().spec_contains(self.player.spec_center())
    }

    pub fn collides_with_lounge(&self) -> (r: bool)
        requires
            self.player.center_fits(),
        ensures
            r == self.spec_collides_with_lounge(),
    {
        let lounge_rect = Rect::new(325, 260, 150, 95);
        lounge_rect.contains_point(self.player.center())
    }

    /// The first box area (right top, right bottom, left bottom, left top)
    /// holding the player's center, if any.
    pub open spec fn spec_collides_with_box_area(self) -> Option<BoxAreaPosition> {
        let c = self.player.spec_center();
        if self.right_top_box_area.spec_rect().spec_contains(c) {
            Some(BoxAreaPosition::RightTop)
        } else if self.right_bottom_box_area.spec_rect().spec_contains(c) {
            Some(BoxAreaPosition::RightBottom)
        } else if self.left_bottom_box_area.spec_rect().spec_contains(c) {
            Some(BoxAreaPosition::LeftBottom)
        } else if self.left_top_box_area.spec_rect().spec_contains(c) {
            Some(BoxAreaPosition::LeftTop)
        } else {
            None
        }
    }

    pub fn collides_with_box_area(&self) -> (r: Option<BoxAreaPosition>)
        requires
            self.player.center_fits(),
        ensures
            r == self.spec_collides_with_box_area(),
    {
        if self.right_top_box_area.collides_with(&self.player) {
            Some(BoxAreaPosition::RightTop)
        } else if self.right_bottom_box_area.collides_with(&self.player) {
            Some(BoxAreaPosition::RightBottom)
        } else if self.left_bottom_box_area.collides_with(&self.player) {
            Some(BoxAreaPosition::LeftBottom)
        } else if self.left_top_box_area.collides_with(&self.player) {
            Some(BoxAreaPosition::LeftTop)
        } else {
            None
        }
    }

    /// Collision classification, in fixed priority order: a box area first,
    /// then the lounge, then a stop, else clear.
    pub open spec fn spec_classify(self) -> Collision {
        match self.spec_collides_with_box_area() {
            Some(ba) => Collision::BoxArea(ba),
            None => if self.spec_collides_with_lounge() {
                Collision::Lounge
            } else if self.spec_collides_with_stop() {
                Collision::Stopper
            } else {
                Collision::Clear
            },
        }
    }

    pub fn has_player_collision(&self) -> (r: Collision)
        requires
            self.player.center_fits(),
        ensures
            r == self.spec_classify(),
    {
        if let Some(ba) = self.collides_with_box_area() {
            Collision::BoxArea(ba)
        } else if self.collides_with_lounge() {
            Collision::Lounge
        } else if self.collides_with_stop() {
            Collision::Stopper
        } else {
            Collision::Clear
        }
    }

    /// The content of the box area at the given corner.
    pub fn area_content(&self, p: BoxAreaPosition) -> (c: BoxAreaContent)
        ensures
            c == self.spec_area(p).content,
    {
        match p {
            BoxAreaPosition::RightTop => self.right_top_box_area.content,
            BoxAreaPosition::RightBottom => self.right_bottom_box_area.content,
            BoxAreaPosition::LeftBottom => self.left_bottom_box_area.content,
            BoxAreaPosition::LeftTop => self.left_top_box_area.content,
        }
    }

    fn set_area_content(&mut self, p: BoxAreaPosition, content: BoxAreaContent, now: i64)
        ensures
            *final(self) == old(self).spec_with_area_content(p, content, now),
    {
        match p {
            BoxAreaPosition::RightTop => self.right_top_box_area.update_content(content, now),
            BoxAreaPosition::RightBottom => self.right_bottom_box_area.update_content(
                content,
                now,
            ),
            BoxAreaPosition::LeftBottom => self.left_bottom_box_area.update_content(content, now),
            BoxAreaPosition::LeftTop => self.left_top_box_area.update_content(content, now),
        }
    }

    /// The command's step stays inside the machine's coordinate range.
    pub open spec fn spec_command_fits(self, command: Command) -> bool {
        match command {
            Command::MovePlayer(_, d) => self.player.step_fits(d.spec_facing()),
            _ => true,
        }
    }

    /// What executing a command does: spawn and removal of remote players is
    /// not implemented; face, move and stop act on the player; a box-area
    /// update replaces that zone's content, stamped at `now`.
    pub open spec fn spec_execute(self, command: Command, now: i64) -> World {
        match command {
            Command::SpawnPlayer(_, _, _) => self,
            Command::RemovePlayer(_) => self,
            Command::FacePlayer(_, d) => World {
                player: Player { direction: d.spec_facing(), ..self.player },
                ..self
            },
            Command::MovePlayer(_, d) => World { player: self.player.spec_moved(d.spec_facing()), ..self },
            Command::StopPlayer(_) => World { player: Player { footstep: 0, ..self.player }, ..self },
            Command::UpdateBoxArea(p, c) => self.spec_with_area_content(p, c, now),
        }
    }

    /// Executes a command for a world update, stamping content changes at
    /// time `now`.
    pub fn execute_command_at(&mut self, command: &Command, now: i64)
        requires
            old(self).spec_command_fits(*command),
        ensures
            *final(self) == old(self).spec_execute(*command, now),
    {
        match command {
            Command::SpawnPlayer(_player_id, _x, _y) => {},
            Command::RemovePlayer(_player_id) => {},
            Command::FacePlayer(_player_id, Direction::Down) => self.player.face_down(),
            Command::FacePlayer(_player_id, Direction::Up) => self.player.face_up(),
            Command::FacePlayer(_player_id, Direction::Left) => self.player.face_left(),
            Command::FacePlayer(_player_id, Direction::Right) => self.player.face_right(),
            Command::MovePlayer(_player_id, Direction::Down) => self.player.move_down(),
            Command::MovePlayer(_player_id, Direction::Up) => self.player.move_up(),
            Command::MovePlayer(_player_id, Direction::Left) => self.player.move_left(),
            Command::MovePlayer(_player_id, Direction::Right) => self.player.move_right(),
            Command::StopPlayer(_player_id) => self.player.stop(),
            Command::UpdateBoxArea(position, content) => self.set_area_content(
                *position,
                *content,
                now,
            ),
        }
    }

    /// Executes a command for a world update, stamping content changes with
    /// the current time.
    pub fn execute_command(&mut self, command: Command)
        requires
            old(self).spec_command_fits(command),
        ensures
            exists|now: i64|
                #![auto]
                0 <= now && *final(self) == old(self).spec_execute(command, now),
    {
        let now = now_timestamp();
        self.execute_command_at(&command, now);
        proof {
            assert(0 <= now && *self == old(self).spec_execute(command, now));
        }
    }

    /// Where a step in the given direction would put the world.
    pub open spec fn spec_moved_world(self, direction: Direction) -> World {
        World { player: self.player.spec_moved(direction.spec_facing()), ..self }
    }

    /// The player's position neither overlaps a stop nor leaves the field.
    pub open spec fn spec_position_legal(self) -> bool {
        &&& !self.spec_collides_with_stop()
        &&& self.player.spec_within(Rect { x: 0, y: 50, width: 800, height: 550 })
    }

    /// What a movement command does: the step is applied, and reverted again
    /// when it would overlap a stop or leave the playable field — the player
    /// then only turns toward the intended direction.
    pub open spec fn spec_move_player(self, direction: Direction) -> World {
        let moved = self.spec_moved_world(direction);
        if moved.spec_position_legal() {
            moved
        } else {
            World {
                player: Player {
                    direction: direction.spec_facing(),
                    ..moved.player.spec_moved(direction.spec_opposite().spec_facing())
                },
                ..self
            }
        }
    }

    /// Applies one movement command: step, then revert the step and only turn
    /// if it hit a stop or left the field.
    pub fn move_player(&mut self, direction: Direction)
        requires
            old(self).player.step_fits(direction.spec_facing()),
        ensures
            *final(self) == old(self).spec_move_player(direction),
            final(self).player.position == old(self).player.position || final(self).player.position
                == old(self).player.spec_stepped(direction.spec_facing()),
            old(self).spec_position_legal() ==> final(self).spec_position_legal(),
            final(self).player.direction == direction.spec_facing(),
            final(self).player.empty_glasses == old(self).player.empty_glasses,
            final(self).player.filled_glasses == old(self).player.filled_glasses,
            final(self).player.points == old(self).player.points,
    {
        match direction {
            Direction::Up => self.player.move_up(),
            Direction::Down => self.player.move_down(),
            Direction::Left => self.player.move_left(),
            Direction::Right => self.player.move_right(),
        }
        let legal = !self.collides_with_stop() && self.player.within_rect(
            &World::playable_rect(),
        );
        if !legal {
            match direction {
                Direction::Up => self.player.move_down(),
                Direction::Down => self.player.move_up(),
                Direction::Left => self.player.move_right(),
                Direction::Right => self.player.move_left(),
            }
            match direction {
                Direction::Up => self.player.face_up(),
                Direction::Down => self.player.face_down(),
                Direction::Left => self.player.face_left(),
                Direction::Right => self.player.face_right(),
            }
        }
    }

    /// Stops the player's walk animation.
    pub fn stop_player(&mut self)
        ensures
            *final(self) == (World {
                player: Player { footstep: 0, ..old(self).player },
                ..*old(self)
            }),
    {
        self.player.stop();
    }

    /// Runs one refresh evaluation on every box area, each with its own
    /// random draw, all stamped with the current time.
    pub fn update_box_areas(&mut self)
        ensures
            final(self).player == old(self).player,
            final(self).stops == old(self).stops,
            exists|now: i64, s1: u64, s2: u64, s3: u64, s4: u64|
                #![auto]
                {
                    &&& 0 <= now
                    &&& final(self).right_top_box_area == old(
                        self,
                    ).right_top_box_area.spec_refreshed(now, s1)
                    &&& final(self).right_bottom_box_area == old(
                        self,
                    ).right_bottom_box_area.spec_refreshed(now, s2)
                    &&& final(self).left_bottom_box_area == old(
                        self,
                    ).left_bottom_box_area.spec_refreshed(now, s3)
                    &&& final(self).left_top_box_area == old(
                        self,
                    ).left_top_box_area.spec_refreshed(now, s4)
                },
            old(self).wf() ==> final(self).wf(),
    {
        let now = now_timestamp();
        let s1: u64 = rand::random::<u64>();
        let s2: u64 = rand::random::<u64>();
        let s3: u64 = rand::random::<u64>();
        let s4: u64 = rand::random::<u64>();
        self.right_top_box_area.refresh(now, s1);
        self.right_bottom_box_area.refresh(now, s2);
        self.left_bottom_box_area.refresh(now, s3);
        self.left_top_box_area.refresh(now, s4);
        proof {
            assert(0 <= now && self.right_top_box_area
                == old(self).right_top_box_area.spec_refreshed(now, s1)
                && self.right_bottom_box_area == old(self).right_bottom_box_area.spec_refreshed(
                now,
                s2,
            ) && self.left_bottom_box_area == old(self).left_bottom_box_area.spec_refreshed(now, s3)
                && self.left_top_box_area == old(self).left_top_box_area.spec_refreshed(now, s4));
        }
    }

    /// What touching the lounge does: with a filled glass in hand, drink it.
    pub open spec fn spec_handle_lounge(self) -> World {
        if self.spec_classify() == Collision::Lounge && self.player.spec_can_drink() {
            World { player: self.player.spec_drink(), ..self }
        } else {
            self
        }
    }

    /// Drinks one glass when the player sits in the lounge with one filled.
    pub fn handle_lounge_collisions(&mut self)
        requires
            old(self).player.inv(),
            old(self).player.center_fits(),
            old(self).player.points + 5 <= u32::MAX,
        ensures
            *final(self) == old(self).spec_handle_lounge(),
    {
        if self.has_player_collision() == Collision::Lounge && self.player.can_drink_glass() {
            self.player.drink_glass()
        }
    }

    /// The content a touch acts on: a hidden box resolves, on this very read,
    /// to the content the draw stands for; a glass or a filled bottle passes
    /// through; anything else counts as nothing.
    pub open spec fn spec_effective_content(content: BoxAreaContent, seed: u64) -> BoxAreaContent {
        match content {
            BoxAreaContent::HiddenBox => spec_revealed(seed),
            BoxAreaContent::EmptyGlass => BoxAreaContent::EmptyGlass,
            BoxAreaContent::FilledBottle => BoxAreaContent::FilledBottle,
            _ => BoxAreaContent::Nothing,
        }
    }

    /// What touching the box area at `p` does: a collectible glass is picked
    /// and the zone emptied; a blocked pick locks the zone in as a visible
    /// glass; a filled bottle fills a glass and leaves an empty bottle; a
    /// blocked fill locks the bottle in; anything else changes nothing.
    pub open spec fn spec_touch_area(self, p: BoxAreaPosition, seed: u64, now: i64) -> World {
        let eff = World::spec_effective_content(self.spec_area(p).content, seed);
        if eff == BoxAreaContent::EmptyGlass && self.player.spec_can_pick() {
            let w = self.spec_with_area_content(p, BoxAreaContent::Nothing, now);
            World { player: w.player.spec_pick(), ..w }
        } else if eff == BoxAreaContent::EmptyGlass && !self.player.spec_can_pick() {
            self.spec_with_area_content(p, BoxAreaContent::EmptyGlass, now)
        } else if eff == BoxAreaContent::FilledBottle && self.player.spec_can_fill() {
            let w = self.spec_with_area_content(p, BoxAreaContent::EmptyBottle, now);
            World { player: w.player.spec_fill(), ..w }
        } else if eff == BoxAreaContent::FilledBottle && !self.player.spec_can_fill() {
            self.spec_with_area_content(p, BoxAreaContent::FilledBottle, now)
        } else {
            self
        }
    }

    /// What one interaction tick does to box areas: nothing unless the player
    /// stands in one; else that area is touched.
    pub open spec fn spec_handle_boxarea(self, seed: u64, now: i64) -> World {
        match self.spec_classify() {
            Collision::BoxArea(p) => self.spec_touch_area(p, seed, now),
            _ => self,
        }
    }

    /// Resolves the interaction with the box area the player stands in, with
    /// `seed` standing for the reveal draw and `now` stamping zone changes.
    pub fn handle_boxarea_collisions_at(&mut self, seed: u64, now: i64)
        requires
            old(self).player.inv(),
            old(self).player.center_fits(),
            old(self).player.points + 3 <= u32::MAX,
        ensures
            *final(self) == old(self).spec_handle_boxarea(seed, now),
    {
        if let Collision::BoxArea(bap) = self.has_player_collision() {
            let content = match self.area_content(bap) {
                BoxAreaContent::HiddenBox => revealed(seed),
                BoxAreaContent::EmptyGlass => BoxAreaContent::EmptyGlass,
                BoxAreaContent::FilledBottle => BoxAreaContent::FilledBottle,
                _ => BoxAreaContent::Nothing,
            };

            if content == BoxAreaContent::EmptyGlass && self.player.can_pick_glass() {
                self.set_area_content(bap, BoxAreaContent::Nothing, now);
                self.player.pick_glass();
            } else if content == BoxAreaContent::EmptyGlass && !self.player.can_pick_glass() {
                self.set_area_content(bap, BoxAreaContent::EmptyGlass, now);
            } else if content == BoxAreaContent::FilledBottle && self.player.can_fill_glass() {
                self.set_area_content(bap, BoxAreaContent::EmptyBottle, now);
                self.player.fill_glass();
            } else if content == BoxAreaContent::FilledBottle && !self.player.can_fill_glass() {
                self.set_area_content(bap, BoxAreaContent::FilledBottle, now);
            }
        }
    }

    /// Resolves the interaction with the box area the player stands in, with
    /// a fresh draw, stamping zone changes with the current time.
    pub fn handle_boxarea_collisions(&mut self)
        requires
            old(self).player.inv(),
            old(self).player.center_fits(),
            old(self).player.points + 3 <= u32::MAX,
        ensures
            exists|seed: u64, now: i64|
                #![auto]
                0 <= now && *final(self) == old(self).spec_handle_boxarea(seed, now),
    {
        let seed: u64 = rand::random::<u64>();
        let now = now_timestamp();
        self.handle_boxarea_collisions_at(seed, now);
        proof {
            assert(0 <= now && *self == old(self).spec_handle_boxarea(seed, now));
        }
    }

    /// A touched hidden box never survives as a hidden box unless the draw
    /// revealed nothing; and once a pick is blocked by a full inventory, the
    /// reveal locks in as a visible, stable empty glass.
    pub proof fn lemma_hidden_box_resolves(self, p: BoxAreaPosition, seed: u64, now: i64)
        requires
            self.spec_classify() == Collision::BoxArea(p),
            self.spec_area(p).content == BoxAreaContent::HiddenBox,
            spec_revealed(seed) != BoxAreaContent::Nothing,
        ensures
            self.spec_handle_boxarea(seed, now).spec_area(p).content
                != BoxAreaContent::HiddenBox,
            !self.player.spec_can_pick() && spec_revealed(seed) == BoxAreaContent::EmptyGlass
                ==> self.spec_handle_boxarea(seed, now).spec_area(p).content
                == BoxAreaContent::EmptyGlass,
    {
    }

    /// A zone locked in as an empty glass is stable under a blocked pick:
    /// touching it again with a full inventory changes neither the zone's
    /// content nor the player.
    pub proof fn lemma_blocked_glass_zone_stable(self, p: BoxAreaPosition, seed: u64, now: i64)
        requires
            self.spec_classify() == Collision::BoxArea(p),
            self.spec_area(p).content == BoxAreaContent::EmptyGlass,
            !self.player.spec_can_pick(),
        ensures
            self.spec_handle_boxarea(seed, now).spec_area(p).content
                == BoxAreaContent::EmptyGlass,
            self.spec_handle_boxarea(seed, now).player == self.player,
    {
    }

    /// Handles both, a collision with the lounge and one with any box area.
    pub fn handle_collisions(&mut self)
        requires
            old(self).player.inv(),
            old(self).player.center_fits(),
            old(self).player.points + 8 <= u32::MAX,
        ensures
            exists|seed: u64, now: i64|
                #![auto]
                0 <= now && *final(self) == old(self).spec_handle_lounge().spec_handle_boxarea(
                    seed,
                    now,
                ),
            old(self).wf() ==> final(self).wf(),
    {
        self.handle_lounge_collisions();
        self.handle_boxarea_collisions();
    }
}

} // verus!
