//! Digging: taking features away to make tunnels.

use crate::handle::Handle;
use crate::player::PlayerResources;
use crate::position::Position;
use crate::world::tile::Tile;
use crate::world::{GameWorld, TileChangedEvent};
use vstd::prelude::*;

verus! {

/// An order to dig.
#[derive(Clone, Copy, Debug, PartialEq, Eq, Structural)]
pub struct DigEvent {
    pub position: Position,
    pub digger: Handle,
}

/// What became of an order to dig.
#[derive(Clone, Copy, Debug, PartialEq, Eq, Structural)]
pub enum DigOutcome {
    /// The cell holds nothing.
    Nothing,
    /// What the cell holds cannot be dug.
    NotDiggable,
    /// The cell is open air now; the change of terrain is to be announced.
    Dug { change: TileChangedEvent },
}

/// The iron that digging through a feature yields: one from stone, none from dirt.
pub open spec fn yield_of(tile: Tile) -> u32 {
    if tile is Stone {
        1
    } else {
        0
    }
}

/// Carries out an order to dig at `pos`. Dirt and stone can be dug: the cell becomes
/// open air, and stone yields iron. Anything else stays, and nothing changes.
pub fn dig(world: &mut GameWorld, resources: &mut PlayerResources, pos: Position) -> (outcome:
    DigOutcome)
    requires
        old(world)@.contains_key(pos.key()) ==> old(resources).iron + yield_of(
            old(world)@[pos.key()],
        ) <= u32::MAX,
    ensures
        !old(world)@.contains_key(pos.key()) ==> outcome is Nothing,
        old(world)@.contains_key(pos.key()) && !(old(world)@[pos.key()] is Dirt || old(
            world,
        )@[pos.key()] is Stone) ==> outcome is NotDiggable,
        old(world)@.contains_key(pos.key()) && (old(world)@[pos.key()] is Dirt || old(
            world,
        )@[pos.key()] is Stone) ==> {
            &&& outcome == (DigOutcome::Dug {
                change: TileChangedEvent {
                    position: pos,
                    old_tile: old(world)@[pos.key()],
                    new_tile: Tile::Air,
                },
            })
            &&& final(world)@ == old(world)@.insert(pos.key(), Tile::Air)
            &&& *final(resources) == (PlayerResources {
                iron: (old(resources).iron + yield_of(old(world)@[pos.key()])) as u32,
                ..*old(resources)
            })
        },
        !(outcome is Dug) ==> final(world)@ == old(world)@ && *final(resources) == *old(resources),
        final(world).chunk_keys() == old(world).chunk_keys(),
        final(world).surface() == old(world).surface(),
{
    let old_tile: Tile = match world.get_tile(pos) {
        Some(tile) => *tile,
        None => {
            return DigOutcome::Nothing;
        },
    };
    if !old_tile.is_diggable() {
        return DigOutcome::NotDiggable;
    }
    match old_tile {
        Tile::Stone { .. } => {
            resources.iron = resources.iron + 1;
        },
        _ => {},
    }
    world.set_tile(pos, Tile::Air);
    DigOutcome::Dug { change: TileChangedEvent { position: pos, old_tile, new_tile: Tile::Air } }
}

} // verus!
