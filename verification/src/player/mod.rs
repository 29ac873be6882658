//! The player: resources, building, digging and away teams.

pub mod away_team;
pub mod building;
pub mod digging;
pub mod input;

use vstd::prelude::*;

verus! {

/// What the player has to build with.
#[derive(Clone, Copy, Debug, PartialEq, Eq, Structural)]
pub struct PlayerResources {
    pub tungsten: u32,
    pub iron: u32,
    pub wood: u32,
}

impl PlayerResources {
    /// The stock a game starts with.
    pub fn new() -> (resources: PlayerResources)
        ensures
            resources == (PlayerResources { tungsten: 100, iron: 200, wood: 500 }),
    {
        PlayerResources { tungsten: 100, iron: 200, wood: 500 }
    }

    /// Whether the stock covers `cost`, given as tungsten, iron and wood.
    pub open spec fn covers(self, cost: (u32, u32, u32)) -> bool {
        self.tungsten >= cost.0 && self.iron >= cost.1 && self.wood >= cost.2
    }

    /// The stock less `cost`.
    pub open spec fn less(self, cost: (u32, u32, u32)) -> PlayerResources {
        PlayerResources {
            tungsten: (self.tungsten - cost.0) as u32,
            iron: (self.iron - cost.1) as u32,
            wood: (self.wood - cost.2) as u32,
        }
    }
}

impl Default for PlayerResources {
    fn default() -> (resources: PlayerResources)
        ensures
            resources == (PlayerResources { tungsten: 0, iron: 0, wood: 0 }),
    {
        PlayerResources { tungsten: 0, iron: 0, wood: 0 }
    }
}

} // verus!
