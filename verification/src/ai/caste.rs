//! Castes of the colony and what each is worth.

use crate::handle::Handle;
use vstd::prelude::*;

verus! {

/// A caste fixes an agent's size, strength and role.
#[derive(Clone, Copy, Debug, PartialEq, Eq, Structural, Hash)]
pub enum AntCaste {
    /// Small, fast, weak.
    Minor,
    /// Medium, balanced.
    Median,
    /// Large, slow, strong.
    Major,
    /// Fast and fragile; leaves scent trails.
    Scout,
    /// Massive; breaks walls.
    Siege,
}

impl Default for AntCaste {
    fn default() -> (c: AntCaste)
        ensures
            c == AntCaste::Minor,
    {
        AntCaste::Minor
    }
}

impl AntCaste {
    /// Hit points of a fresh agent.
    pub open spec fn hit_points(self) -> u16 {
        match self {
            AntCaste::Minor => 10,
            AntCaste::Median => 25,
            AntCaste::Major => 50,
            AntCaste::Scout => 5,
            AntCaste::Siege => 100,
        }
    }

    /// Damage of one attack.
    pub open spec fn attack(self) -> u16 {
        match self {
            AntCaste::Minor => 2,
            AntCaste::Median => 5,
            AntCaste::Major => 10,
            AntCaste::Scout => 1,
            AntCaste::Siege => 25,
        }
    }

    /// Speed in thousandths of the speed of a median agent.
    pub open spec fn speed(self) -> u32 {
        match self {
            AntCaste::Minor => 1200,
            AntCaste::Median => 1000,
            AntCaste::Major => 700,
            AntCaste::Scout => 1500,
            AntCaste::Siege => 400,
        }
    }

    /// Biomass that producing one agent takes.
    pub open spec fn price(self) -> u32 {
        match self {
            AntCaste::Minor => 5,
            AntCaste::Median => 15,
            AntCaste::Major => 30,
            AntCaste::Scout => 8,
            AntCaste::Siege => 60,
        }
    }

    pub fn base_hp(&self) -> (hp: u16)
        ensures
            hp == self.hit_points(),
    {
        match self {
            AntCaste::Minor => 10,
            AntCaste::Median => 25,
            AntCaste::Major => 50,
            AntCaste::Scout => 5,
            AntCaste::Siege => 100,
        }
    }

    pub fn base_damage(&self) -> (damage: u16)
        ensures
            damage == self.attack(),
    {
        match self {
            AntCaste::Minor => 2,
            AntCaste::Median => 5,
            AntCaste::Major => 10,
            AntCaste::Scout => 1,
            AntCaste::Siege => 25,
        }
    }

    /// Speed in thousandths: a median agent moves at 1000.
    pub fn move_speed(&self) -> (speed: u32)
        ensures
            speed == self.speed(),
    {
        match self {
            AntCaste::Minor => 1200,
            AntCaste::Median => 1000,
            AntCaste::Major => 700,
            AntCaste::Scout => 1500,
            AntCaste::Siege => 400,
        }
    }

    /// Biomass cost to produce.
    pub fn biomass_cost(&self) -> (cost: u32)
        ensures
            cost == self.price(),
    {
        match self {
            AntCaste::Minor => 5,
            AntCaste::Median => 15,
            AntCaste::Major => 30,
            AntCaste::Scout => 8,
            AntCaste::Siege => 60,
        }
    }
}

/// What every full agent carries.
#[derive(Clone, Copy, Debug, PartialEq, Eq, Structural)]
pub struct Ant {
    pub caste: AntCaste,
    pub hp: u16,
    pub max_hp: u16,
    pub home_nest: Handle,
}

impl Ant {
    /// A fresh agent of `caste` from `nest`, at full hit points.
    pub fn new(caste: AntCaste, nest: Handle) -> (ant: Ant)
        ensures
            ant == (Ant {
                caste,
                hp: caste.hit_points(),
                max_hp: caste.hit_points(),
                home_nest: nest,
            }),
    {
        let hp = caste.base_hp();
        Ant { caste, hp, max_hp: hp, home_nest: nest }
    }
}

} // verus!
