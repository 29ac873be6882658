//! What the things of the player are worth as targets.

use vstd::prelude::*;

verus! {

pub const KEEP: u32 = 100;

pub const BARRACKS: u32 = 40;

pub const ARMORY: u32 = 30;

pub const WALL_DEFENDER: u32 = 60;

pub const BREACH_POINT: u32 = 80;

pub const DAMAGED_WALL: u32 = 50;

pub const GATE: u32 = 45;

} // verus!
