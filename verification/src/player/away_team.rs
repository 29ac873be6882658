//! Away teams: units sent underground, at a risk.
//!
//! A team scouts, mines, seals tunnels or plants explosives, for as long as its food
//! lasts. When the food is gone the team turns back.

use crate::handle::Handle;
use crate::position::Position;
use vstd::prelude::*;

verus! {

/// What a team is out to do.
#[derive(Clone, Copy, Debug, PartialEq, Eq, Structural)]
pub enum Mission {
    Scout { target_area: Position },
    Mine { target_deposit: Position },
    SealTunnel { tunnel_pos: Position },
    /// The fuse burns for `fuse_time` milliseconds.
    PlantExplosive { target: Position, fuse_time: u32 },
    Return,
}

/// What a team carries.
#[derive(Clone, Copy, Debug, PartialEq, Eq, Structural)]
pub struct Supplies {
    pub explosives: u32,
    pub sealant: u32,
    pub ammo: u32,
    /// Milliseconds before the team has to turn back.
    pub food: u32,
}

impl Default for Supplies {
    fn default() -> (s: Supplies)
        ensures
            s == (Supplies { explosives: 0, sealant: 0, ammo: 0, food: 0 }),
    {
        Supplies { explosives: 0, sealant: 0, ammo: 0, food: 0 }
    }
}

/// A team.
pub struct AwayTeam {
    pub members: Vec<Handle>,
    pub mission: Mission,
    pub supplies: Supplies,
}

/// The food left after `dt` milliseconds.
pub open spec fn food_after(food: u32, dt: u32) -> u32 {
    if food >= dt {
        (food - dt) as u32
    } else {
        0
    }
}

impl AwayTeam {
    /// A team on `mission`, without supplies.
    pub fn new(members: Vec<Handle>, mission: Mission) -> (team: AwayTeam)
        ensures
            team.members == members,
            team.mission == mission,
            team.supplies == (Supplies { explosives: 0, sealant: 0, ammo: 0, food: 0 }),
    {
        AwayTeam { members, mission, supplies: Supplies { explosives: 0, sealant: 0, ammo: 0, food: 0 } }
    }

    /// The team with `supplies`.
    pub fn with_supplies(self, supplies: Supplies) -> (team: AwayTeam)
        ensures
            team.members == self.members,
            team.mission == self.mission,
            team.supplies == supplies,
    {
        AwayTeam { members: self.members, mission: self.mission, supplies }
    }

    /// Whether the team is out of food.
    pub fn needs_resupply(&self) -> (b: bool)
        ensures
            b == (self.supplies.food == 0),
    {
        self.supplies.food == 0
    }

    /// How many members the team has.
    pub fn size(&self) -> (n: usize)
        ensures
            n == self.members@.len(),
    {
        self.members.len()
    }

    /// Lets `dt` milliseconds pass: the team eats, and turns back when the food is gone.
    pub fn tick(&mut self, dt: u32)
        ensures
            final(self).supplies == (Supplies {
                food: food_after(old(self).supplies.food, dt),
                ..old(self).supplies
            }),
            final(self).mission == (if food_after(old(self).supplies.food, dt) == 0 {
                Mission::Return
            } else {
                old(self).mission
            }),
            final(self).members == old(self).members,
    {
        self.supplies.food = self.supplies.food.saturating_sub(dt);
        if self.needs_resupply() {
            self.mission = Mission::Return;
        }
    }
}

} // verus!
