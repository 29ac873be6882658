//! Damage: what a hit does to an agent and to the terrain.
//!
//! Deaths are announced with the biomass they are worth, and every hit on the terrain
//! is announced as a change of terrain, so that the routing fields can follow.

use crate::ai::ecology::{MINOR_ANT, PLAYER_WORKER};
use crate::handle::Handle;
use crate::position::Position;
use crate::world::tile::Tile;
use crate::world::{GameWorld, TileChangedEvent};
use vstd::prelude::*;

verus! {

/// What can take damage.
#[derive(Clone, Copy, Debug, PartialEq, Eq, Structural)]
pub enum DamageTarget {
    Entity(Handle),
    Tile(Position),
}

/// A hit. The amount is in thousandths of a hit point.
#[derive(Clone, Copy, Debug, PartialEq, Eq, Structural)]
pub struct DamageEvent {
    pub target: DamageTarget,
    pub amount: u32,
    pub source: Option<Handle>,
    pub position: Position,
}

/// A death, with the biomass it is worth to whoever collects it.
#[derive(Clone, Copy, Debug, PartialEq, Eq, Structural)]
pub struct DeathEvent {
    pub entity: Handle,
    pub position: Position,
    pub killed_by: Option<Handle>,
    pub biomass_value: u32,
}

/// The health of an agent, in thousandths of a hit point. Hits can take it below
/// zero.
#[derive(Clone, Copy, Debug, PartialEq, Eq, Structural)]
pub struct Health {
    pub current: i64,
    pub max: u32,
}

impl Health {
    /// The health after a hit of `amount`. It stops at the lowest value it can hold.
    pub open spec fn hurt(self, amount: u32) -> Health {
        Health {
            current: if self.current - amount < i64::MIN {
                i64::MIN
            } else {
                (self.current - amount) as i64
            },
            ..self
        }
    }

    /// The health after `amount` is restored: no more than the maximum.
    pub open spec fn healed(self, amount: u32) -> Health {
        Health {
            current: if self.current + amount >= self.max {
                self.max as i64
            } else {
                (self.current + amount) as i64
            },
            ..self
        }
    }

    /// Whether nothing is left.
    pub open spec fn spent(self) -> bool {
        self.current <= 0
    }

    /// Full health of `max`.
    pub fn new(max: u32) -> (health: Health)
        ensures
            health == (Health { current: max as i64, max }),
    {
        Health { current: max as i64, max }
    }

    /// Takes `amount` from the health and says whether that killed.
    pub fn damage(&mut self, amount: u32) -> (dead: bool)
        ensures
            *final(self) == old(self).hurt(amount),
            dead == final(self).spent(),
    {
        if self.current < i64::MIN + amount as i64 {
            self.current = i64::MIN;
        } else {
            self.current = self.current - amount as i64;
        }
        self.current <= 0
    }

    /// Restores `amount`, up to the maximum.
    pub fn heal(&mut self, amount: u32)
        ensures
            *final(self) == old(self).healed(amount),
    {
        if self.current >= self.max as i64 - amount as i64 {
            self.current = self.max as i64;
        } else {
            self.current = self.current + amount as i64;
        }
    }

    /// The health in thousandths of the maximum, rounded toward zero, as far as the
    /// result can hold it.
    pub open spec fn share(self) -> i64 {
        let exact = crate::position::toward_zero(self.current * 1000, self.max as int);
        if exact < i64::MIN {
            i64::MIN
        } else if exact > i64::MAX {
            i64::MAX
        } else {
            exact as i64
        }
    }

    /// The health in thousandths of the maximum: a thousand at full health.
    pub fn percentage(&self) -> (share: i64)
        requires
            self.max > 0,
        ensures
            share == self.share(),
    {
        let scaled: i128 = self.current as i128 * 1000;
        let exact: i128 = if scaled >= 0 {
            scaled / (self.max as i128)
        } else {
            -((-scaled) / (self.max as i128))
        };
        if exact < i64::MIN as i128 {
            i64::MIN
        } else if exact > i64::MAX as i128 {
            i64::MAX
        } else {
            exact as i64
        }
    }
}

/// The biomass that the death of an agent is worth: that of a minor agent for one of
/// the colony, that of a worker for one of the player's.
pub open spec fn biomass_of(is_ant: bool) -> u32 {
    if is_ant {
        MINOR_ANT
    } else {
        PLAYER_WORKER
    }
}

/// The hit points that a hit of `amount` thousandths takes from a feature: the whole
/// hit points in it, as far as a feature's durability can count.
pub open spec fn whole_points(amount: u32) -> u16 {
    if amount / 1000 > u16::MAX {
        u16::MAX
    } else {
        (amount / 1000) as u16
    }
}

/// The hit points that a hit of `amount` thousandths takes from a feature.
pub fn tile_damage(amount: u32) -> (points: u16)
    ensures
        points == whole_points(amount),
{
    let whole = amount / 1000;
    if whole > u16::MAX as u32 {
        u16::MAX
    } else {
        whole as u16
    }
}

/// A hit on the agent `entity` that stands at `position`. Its health takes the hit;
/// where that kills, the death is returned to be announced, worth the biomass of its
/// kind.
pub fn hurt_entity(
    health: &mut Health,
    entity: Handle,
    position: Position,
    is_ant: bool,
    event: &DamageEvent,
) -> (death: Option<DeathEvent>)
    ensures
        *final(health) == old(health).hurt(event.amount),
        death == (if final(health).spent() {
            Some(
                DeathEvent {
                    entity,
                    position,
                    killed_by: event.source,
                    biomass_value: biomass_of(is_ant),
                },
            )
        } else {
            None
        }),
{
    if health.damage(event.amount) {
        let biomass_value = if is_ant {
            MINOR_ANT
        } else {
            PLAYER_WORKER
        };
        Some(DeathEvent { entity, position, killed_by: event.source, biomass_value })
    } else {
        None
    }
}

/// A hit of `amount` hit points on the feature at `pos`. Where the cell holds a
/// feature, it takes the damage, and the change is returned to be announced: to
/// rubble where the feature is destroyed, to the same feature with less durability
/// otherwise. A feature without durability is announced unchanged. Where the cell
/// holds nothing, nothing happens.
pub fn damage_tile(world: &mut GameWorld, pos: Position, amount: u16) -> (change: Option<
    TileChangedEvent,
>)
    ensures
        !old(world)@.contains_key(pos.key()) ==> change.is_none() && final(world)@ == old(world)@,
        old(world)@.contains_key(pos.key()) ==> {
            &&& change == Some(
                TileChangedEvent {
                    position: pos,
                    old_tile: old(world)@[pos.key()],
                    new_tile: old(world)@[pos.key()].damaged(amount),
                },
            )
            &&& final(world)@ == old(world)@.insert(
                pos.key(),
                old(world)@[pos.key()].damaged(amount),
            )
        },
        final(world).chunk_keys() == old(world).chunk_keys(),
        final(world).surface() == old(world).surface(),
{
    let old_tile: Tile = match world.get_tile(pos) {
        Some(tile) => *tile,
        None => {
            return None;
        },
    };
    let mut tile = old_tile;
    tile.damage(amount);
    world.set_tile(pos, tile);
    Some(TileChangedEvent { position: pos, old_tile, new_tile: tile })
}

} // verus!
