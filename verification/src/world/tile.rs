//! Terrain features and what they cost to cross.
//!
//! The cost of crossing a feature is its remaining durability, scaled by a factor of
//! its material. A damaged wall is therefore cheaper than a fresh one, and traffic
//! drifts toward weakened defences without any separate signal.

use vstd::prelude::*;

verus! {

/// Materials of built features.
#[derive(Clone, Copy, Debug, PartialEq, Eq, Structural, Hash)]
pub enum BuildMaterial {
    Wood,
    Stone,
    Metal,
}

impl BuildMaterial {
    /// Durability of a fresh feature of this material.
    pub open spec fn base_durability(self) -> u16 {
        match self {
            BuildMaterial::Wood => 50,
            BuildMaterial::Stone => 150,
            BuildMaterial::Metal => 300,
        }
    }

    pub fn base_hp(&self) -> (hp: u16)
        ensures
            hp == self.base_durability(),
    {
        match self {
            BuildMaterial::Wood => 50,
            BuildMaterial::Stone => 150,
            BuildMaterial::Metal => 300,
        }
    }
}

impl Default for BuildMaterial {
    fn default() -> (m: BuildMaterial)
        ensures
            m == BuildMaterial::Wood,
    {
        BuildMaterial::Wood
    }
}

/// Kinds of structure that the colony builds.
#[derive(Clone, Copy, Debug, PartialEq, Eq, Structural)]
pub enum AntStructureType {
    Tunnel,
    Nest,
    Storage,
}

impl Default for AntStructureType {
    fn default() -> (t: AntStructureType)
        ensures
            t == AntStructureType::Tunnel,
    {
        AntStructureType::Tunnel
    }
}

/// What occupies a cell.
#[derive(Clone, Copy, Debug, PartialEq, Eq, Structural)]
pub enum Tile {
    Air,
    /// Natural dirt, diggable.
    Dirt { hp: u16, max_hp: u16 },
    /// Natural stone, harder to dig.
    Stone { hp: u16, max_hp: u16 },
    /// A built wall.
    Wall { hp: u16, max_hp: u16, material: BuildMaterial },
    /// A built floor, which blocks vertical movement.
    Floor { hp: u16, max_hp: u16, material: BuildMaterial },
    /// What is left of a destroyed feature.
    Rubble,
    /// A structure of the colony.
    AntStructure { hp: u16, structure_type: AntStructureType },
}

/// Cost of crossing open air.
pub const AIR_COST: u32 = 1;

/// Cost of crossing rubble: what a destroyed feature costs from then on.
pub const RUBBLE_COST: u32 = 3;

/// Cost of crossing a structure of the colony, whatever its durability.
pub const ANT_STRUCTURE_COST: u32 = 1;

/// Factor by which the durability of stone counts.
pub const STONE_FACTOR: u32 = 2;

impl Default for Tile {
    fn default() -> (t: Tile)
        ensures
            t == Tile::Air,
    {
        Tile::Air
    }
}

impl Tile {
    /// Remaining durability of a feature that has any.
    pub open spec fn durability(self) -> Option<u16> {
        match self {
            Tile::Dirt { hp, .. } => Some(hp),
            Tile::Stone { hp, .. } => Some(hp),
            Tile::Wall { hp, .. } => Some(hp),
            Tile::Floor { hp, .. } => Some(hp),
            Tile::AntStructure { hp, .. } => Some(hp),
            _ => None,
        }
    }

    /// The factor by which durability counts toward cost, for the features whose cost
    /// follows their durability.
    pub open spec fn cost_factor(self) -> Option<int> {
        match self {
            Tile::Dirt { .. } => Some(1),
            Tile::Stone { .. } => Some(STONE_FACTOR as int),
            Tile::Wall { .. } => Some(1),
            Tile::Floor { .. } => Some(1),
            _ => None,
        }
    }

    /// Cost of crossing: durability times the factor of the material, or the fixed
    /// cost of air, rubble and colony structures.
    pub open spec fn cost(self) -> int {
        match self {
            Tile::Air => AIR_COST as int,
            Tile::Rubble => RUBBLE_COST as int,
            Tile::AntStructure { .. } => ANT_STRUCTURE_COST as int,
            _ => self.durability().unwrap() * self.cost_factor().unwrap(),
        }
    }

    /// The feature with its durability replaced; features without durability stay as
    /// they are.
    pub open spec fn with_durability(self, hp: u16) -> Tile {
        match self {
            Tile::Dirt { max_hp, .. } => Tile::Dirt { hp, max_hp },
            Tile::Stone { max_hp, .. } => Tile::Stone { hp, max_hp },
            Tile::Wall { max_hp, material, .. } => Tile::Wall { hp, max_hp, material },
            Tile::Floor { max_hp, material, .. } => Tile::Floor { hp, max_hp, material },
            Tile::AntStructure { structure_type, .. } => Tile::AntStructure { hp, structure_type },
            _ => self,
        }
    }

    /// The feature after `amount` of damage: rubble where the damage reaches its
    /// durability, the same feature with less durability otherwise.
    pub open spec fn damaged(self, amount: u16) -> Tile {
        match self.durability() {
            Some(hp) => if hp <= amount {
                Tile::Rubble
            } else {
                self.with_durability((hp - amount) as u16)
            },
            None => self,
        }
    }

    /// Cost of crossing this feature.
    pub fn traversal_cost(&self) -> (c: u32)
        ensures
            c == self.cost(),
    {
        match self {
            Tile::Air => AIR_COST,
            Tile::Dirt { hp, .. } => *hp as u32,
            Tile::Stone { hp, .. } => (*hp as u32) * STONE_FACTOR,
            Tile::Wall { hp, .. } => *hp as u32,
            Tile::Floor { hp, .. } => *hp as u32,
            Tile::Rubble => RUBBLE_COST,
            Tile::AntStructure { .. } => ANT_STRUCTURE_COST,
        }
    }

    /// Whether agents can cross without digging or destroying.
    pub fn is_passable(&self) -> (b: bool)
        ensures
            b == (*self is Air || *self is Rubble || *self is AntStructure),
    {
        match self {
            Tile::Air => true,
            Tile::Rubble => true,
            Tile::AntStructure { .. } => true,
            _ => false,
        }
    }

    /// Whether the feature can be dug through.
    pub fn is_diggable(&self) -> (b: bool)
        ensures
            b == (*self is Dirt || *self is Stone),
    {
        match self {
            Tile::Dirt { .. } => true,
            Tile::Stone { .. } => true,
            _ => false,
        }
    }

    /// Whether the feature can be attacked: exactly the features with durability.
    pub fn is_destructible(&self) -> (b: bool)
        ensures
            b == self.durability().is_some(),
    {
        match self {
            Tile::Dirt { .. } => true,
            Tile::Stone { .. } => true,
            Tile::Wall { .. } => true,
            Tile::Floor { .. } => true,
            Tile::AntStructure { .. } => true,
            _ => false,
        }
    }

    /// Remaining durability, where the feature has any.
    pub fn hp(&self) -> (r: Option<u16>)
        ensures
            r == self.durability(),
    {
        match self {
            Tile::Dirt { hp, .. } => Some(*hp),
            Tile::Stone { hp, .. } => Some(*hp),
            Tile::Wall { hp, .. } => Some(*hp),
            Tile::Floor { hp, .. } => Some(*hp),
            Tile::AntStructure { hp, .. } => Some(*hp),
            _ => None,
        }
    }

    /// Applies `amount` of damage and says whether the feature was destroyed.
    pub fn damage(&mut self, amount: u16) -> (destroyed: bool)
        ensures
            *final(self) == old(self).damaged(amount),
            destroyed == (old(self).durability().is_some() && old(self).durability().unwrap()
                <= amount),
    {
        let current = *self;
        match current.hp() {
            Some(hp) => {
                if hp <= amount {
                    *self = Tile::Rubble;
                    true
                } else {
                    *self = current.reduced_to(hp - amount);
                    false
                }
            },
            None => false,
        }
    }

    /// The same feature with durability `hp`.
    pub fn reduced_to(self, hp: u16) -> (t: Tile)
        ensures
            t == self.with_durability(hp),
    {
        match self {
            Tile::Dirt { max_hp, .. } => Tile::Dirt { hp, max_hp },
            Tile::Stone { max_hp, .. } => Tile::Stone { hp, max_hp },
            Tile::Wall { max_hp, material, .. } => Tile::Wall { hp, max_hp, material },
            Tile::Floor { max_hp, material, .. } => Tile::Floor { hp, max_hp, material },
            Tile::AntStructure { structure_type, .. } => Tile::AntStructure { hp, structure_type },
            other => other,
        }
    }

    /// One character per kind of feature, for text views of a layer.
    pub fn to_ascii(&self) -> (c: char)
        ensures
            c == self.glyph(),
    {
        match self {
            Tile::Air => '.',
            Tile::Dirt { .. } => ',',
            Tile::Stone { .. } => '#',
            Tile::Wall { material, .. } => match material {
                BuildMaterial::Wood => '=',
                BuildMaterial::Stone => 'H',
                BuildMaterial::Metal => 'M',
            },
            Tile::Floor { .. } => '_',
            Tile::Rubble => '%',
            Tile::AntStructure { structure_type, .. } => match structure_type {
                AntStructureType::Tunnel => 'o',
                AntStructureType::Nest => 'O',
                AntStructureType::Storage => 's',
            },
        }
    }

    /// The character that stands for a feature.
    pub open spec fn glyph(self) -> char {
        match self {
            Tile::Air => '.',
            Tile::Dirt { .. } => ',',
            Tile::Stone { .. } => '#',
            Tile::Wall { material, .. } => match material {
                BuildMaterial::Wood => '=',
                BuildMaterial::Stone => 'H',
                BuildMaterial::Metal => 'M',
            },
            Tile::Floor { .. } => '_',
            Tile::Rubble => '%',
            Tile::AntStructure { structure_type, .. } => match structure_type {
                AntStructureType::Tunnel => 'o',
                AntStructureType::Nest => 'O',
                AntStructureType::Storage => 's',
            },
        }
    }
}


/// Cost moves in lock-step with durability. For a feature whose cost follows its
/// durability, the cost is the durability times the factor of the material, so of two
/// durabilities the smaller costs strictly less and equal ones cost the same.
pub proof fn lemma_cost_tracks_durability(t: Tile, low: u16, high: u16)
    requires
        t.cost_factor().is_some(),
    ensures
        t.with_durability(low).cost() == low * t.cost_factor().unwrap(),
        low < high <==> t.with_durability(low).cost() < t.with_durability(high).cost(),
        low == high <==> t.with_durability(low).cost() == t.with_durability(high).cost(),
{
    let factor = t.cost_factor().unwrap();
    assert(factor == 1 || factor == 2);
}

/// Damage that does not destroy lowers the cost by the damage times the factor of the
/// material; damage that destroys leaves the cost of rubble.
pub proof fn lemma_damage_lowers_cost(t: Tile, amount: u16)
    requires
        t.cost_factor().is_some(),
    ensures
        t.durability().unwrap() > amount ==> t.damaged(amount).cost() == t.cost() - amount
            * t.cost_factor().unwrap(),
        t.durability().unwrap() <= amount ==> t.damaged(amount).cost() == RUBBLE_COST,
{
    let factor = t.cost_factor().unwrap();
    assert(factor == 1 || factor == 2);
}

} // verus!
