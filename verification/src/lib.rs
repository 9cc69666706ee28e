//! Core simulation of a small 2D arcade game: a player walks a fixed map,
//! collects empty glasses from four box areas, fills them at bottle
//! dispensers and drinks them at the lounge for points.
//!
//! The world simulation (player inventory state machine, timed box-area
//! refresh, collision and interaction resolution) is verified here.
//! Rendering and raw input handling are external collaborators and live
//! outside this crate.

pub mod clock;
pub mod geometry;
pub mod net;
pub mod player;
pub mod rng;
pub mod sprite;
pub mod world;

use vstd::prelude::*;

verus! {

/// How many glasses (empty plus filled) the player can carry at once.
pub const GLASS_SPACE: u8 = 5;

} // verus!
