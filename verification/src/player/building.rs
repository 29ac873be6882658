//! Building: walls, floors and turrets.

use crate::player::PlayerResources;
use crate::position::Position;
use crate::world::tile::{BuildMaterial, Tile};
use crate::world::{GameWorld, TileChangedEvent};
use vstd::prelude::*;

verus! {

/// What can be built.
#[derive(Clone, Copy, Debug, PartialEq, Eq, Structural)]
pub enum BuildableType {
    WoodWall,
    StoneWall,
    MetalWall,
    WoodFloor,
    StoneFloor,
    Turret,
}

impl Default for BuildableType {
    fn default() -> (b: BuildableType)
        ensures
            b == BuildableType::WoodWall,
    {
        BuildableType::WoodWall
    }
}

/// A fresh wall of `material`.
pub open spec fn fresh_wall(material: BuildMaterial) -> Tile {
    Tile::Wall { hp: material.base_durability(), max_hp: material.base_durability(), material }
}

/// A fresh floor of `material`.
pub open spec fn fresh_floor(material: BuildMaterial) -> Tile {
    Tile::Floor { hp: material.base_durability(), max_hp: material.base_durability(), material }
}

impl BuildableType {
    /// What building takes, as tungsten, iron and wood.
    pub open spec fn price(self) -> (u32, u32, u32) {
        match self {
            BuildableType::WoodWall => (0, 0, 10),
            BuildableType::StoneWall => (0, 5, 0),
            BuildableType::MetalWall => (5, 10, 0),
            BuildableType::WoodFloor => (0, 0, 5),
            BuildableType::StoneFloor => (0, 3, 0),
            BuildableType::Turret => (2, 5, 5),
        }
    }

    /// The feature that is built; a turret is no feature of the terrain.
    pub open spec fn feature(self) -> Option<Tile> {
        match self {
            BuildableType::WoodWall => Some(fresh_wall(BuildMaterial::Wood)),
            BuildableType::StoneWall => Some(fresh_wall(BuildMaterial::Stone)),
            BuildableType::MetalWall => Some(fresh_wall(BuildMaterial::Metal)),
            BuildableType::WoodFloor => Some(fresh_floor(BuildMaterial::Wood)),
            BuildableType::StoneFloor => Some(fresh_floor(BuildMaterial::Stone)),
            BuildableType::Turret => None,
        }
    }

    /// What building takes, as tungsten, iron and wood.
    pub fn cost(&self) -> (c: (u32, u32, u32))
        ensures
            c == self.price(),
    {
        match self {
            BuildableType::WoodWall => (0, 0, 10),
            BuildableType::StoneWall => (0, 5, 0),
            BuildableType::MetalWall => (5, 10, 0),
            BuildableType::WoodFloor => (0, 0, 5),
            BuildableType::StoneFloor => (0, 3, 0),
            BuildableType::Turret => (2, 5, 5),
        }
    }

    /// The feature that is built, at full durability.
    pub fn to_tile(&self) -> (t: Option<Tile>)
        ensures
            t == self.feature(),
    {
        match self {
            BuildableType::WoodWall => Some(wall_of(BuildMaterial::Wood)),
            BuildableType::StoneWall => Some(wall_of(BuildMaterial::Stone)),
            BuildableType::MetalWall => Some(wall_of(BuildMaterial::Metal)),
            BuildableType::WoodFloor => Some(floor_of(BuildMaterial::Wood)),
            BuildableType::StoneFloor => Some(floor_of(BuildMaterial::Stone)),
            BuildableType::Turret => None,
        }
    }
}

/// A fresh wall of `material`.
pub fn wall_of(material: BuildMaterial) -> (t: Tile)
    ensures
        t == fresh_wall(material),
{
    Tile::Wall { hp: material.base_hp(), max_hp: material.base_hp(), material }
}

/// A fresh floor of `material`.
pub fn floor_of(material: BuildMaterial) -> (t: Tile)
    ensures
        t == fresh_floor(material),
{
    Tile::Floor { hp: material.base_hp(), max_hp: material.base_hp(), material }
}

/// Whether the player is building, and what.
#[derive(Clone, Copy, Debug, PartialEq, Eq, Structural)]
pub struct BuildMode {
    pub active: bool,
    pub selected: BuildableType,
}

impl Default for BuildMode {
    fn default() -> (mode: BuildMode)
        ensures
            mode == (BuildMode { active: false, selected: BuildableType::WoodWall }),
    {
        BuildMode { active: false, selected: BuildableType::WoodWall }
    }
}

/// An order to build.
#[derive(Clone, Copy, Debug, PartialEq, Eq, Structural)]
pub struct BuildEvent {
    pub position: Position,
    pub buildable: BuildableType,
}

/// What became of an order to build.
#[derive(Clone, Copy, Debug, PartialEq, Eq, Structural)]
pub enum BuildOutcome {
    /// The stock does not cover the cost.
    TooCostly,
    /// Something stands in the cell.
    Occupied,
    /// The feature stands; the change of terrain is to be announced.
    Built { change: TileChangedEvent },
    /// A turret was paid for; its mount is to be placed at the cell.
    Mounted,
}

/// Whether a cell is free to build in: it holds nothing, open air, or rubble.
pub open spec fn free_to_build(cells: Map<(i32, i32, i32), Tile>, pos: Position) -> bool {
    !cells.contains_key(pos.key()) || cells[pos.key()] is Air || cells[pos.key()] is Rubble
}

/// What the cell held before something was built in it: a cell that held nothing
/// counts as open air.
pub open spec fn ground(cells: Map<(i32, i32, i32), Tile>, pos: Position) -> Tile {
    if cells.contains_key(pos.key()) {
        cells[pos.key()]
    } else {
        Tile::Air
    }
}

/// What is to become of an order to build, given the stock and the terrain. The cost
/// is looked at first, the cell second.
pub open spec fn build_outcome(
    cells: Map<(i32, i32, i32), Tile>,
    resources: PlayerResources,
    event: BuildEvent,
) -> BuildOutcome {
    if !resources.covers(event.buildable.price()) {
        BuildOutcome::TooCostly
    } else if !free_to_build(cells, event.position) {
        BuildOutcome::Occupied
    } else {
        match event.buildable.feature() {
            Some(tile) => BuildOutcome::Built {
                change: TileChangedEvent {
                    position: event.position,
                    old_tile: ground(cells, event.position),
                    new_tile: tile,
                },
            },
            None => BuildOutcome::Mounted,
        }
    }
}

/// Carries out an order to build. An order that the stock does not cover, or whose
/// cell is taken, changes nothing. Otherwise the cost leaves the stock, and a feature
/// is put into the cell; for a turret the terrain stays as it is.
pub fn build(world: &mut GameWorld, resources: &mut PlayerResources, event: &BuildEvent) -> (outcome:
    BuildOutcome)
    requires
        old(world)@.contains_key(event.position.key()) || old(world).chunk_keys().len() < u32::MAX,
    ensures
        outcome == build_outcome(old(world)@, *old(resources), *event),
        outcome is TooCostly || outcome is Occupied ==> *final(resources) == *old(resources)
            && final(world)@ == old(world)@,
        outcome is Built || outcome is Mounted ==> *final(resources) == old(resources).less(
            event.buildable.price(),
        ),
        outcome is Mounted ==> final(world)@ == old(world)@,
        outcome is Built ==> final(world)@ == crate::world::opened(
            old(world)@,
            crate::world::chunk_of(event.position.key()),
        ).insert(event.position.key(), outcome->change.new_tile),
        final(world).surface() == old(world).surface(),
{
    let (tungsten, iron, wood) = event.buildable.cost();
    if resources.tungsten < tungsten || resources.iron < iron || resources.wood < wood {
        return BuildOutcome::TooCostly;
    }
    let old_tile = match world.get_tile(event.position) {
        Some(tile) => {
            match tile {
                Tile::Air => {},
                Tile::Rubble => {},
                _ => {
                    return BuildOutcome::Occupied;
                },
            }
            *tile
        },
        None => Tile::Air,
    };
    resources.tungsten = resources.tungsten - tungsten;
    resources.iron = resources.iron - iron;
    resources.wood = resources.wood - wood;
    match event.buildable.to_tile() {
        Some(new_tile) => {
            world.set_tile(event.position, new_tile);
            BuildOutcome::Built {
                change: TileChangedEvent { position: event.position, old_tile, new_tile },
            }
        },
        None => BuildOutcome::Mounted,
    }
}

} // verus!
