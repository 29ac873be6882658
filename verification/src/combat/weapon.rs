//! Weapons: what they are and when they fire.
//!
//! Weapons are data. Each category differs in damage, range, rate of fire and in the
//! layers it can reach. Amounts are in thousandths, times in milliseconds.

use crate::position::Position;
use vstd::prelude::*;

verus! {

/// Categories of weapon.
#[derive(Clone, Copy, Debug, PartialEq, Eq, Structural, Hash)]
pub enum WeaponCategory {
    /// High damage, one target, its own layer only.
    Ballista,
    /// Area damage, reaches below, slow.
    Mortar,
    /// Short range, good at breaches.
    Flamer,
    /// Drops explosives into tunnels from directly above.
    BombDrop,
    /// Medium damage, fast, its own layer only.
    Crossbow,
}

impl WeaponCategory {
    /// The number under which a category is counted.
    pub open spec fn code(self) -> u8 {
        match self {
            WeaponCategory::Ballista => 0,
            WeaponCategory::Mortar => 1,
            WeaponCategory::Flamer => 2,
            WeaponCategory::BombDrop => 3,
            WeaponCategory::Crossbow => 4,
        }
    }

    pub fn to_code(self) -> (code: u8)
        ensures
            code == self.code(),
    {
        match self {
            WeaponCategory::Ballista => 0,
            WeaponCategory::Mortar => 1,
            WeaponCategory::Flamer => 2,
            WeaponCategory::BombDrop => 3,
            WeaponCategory::Crossbow => 4,
        }
    }
}

/// Categories are counted apart: different categories have different codes, so a
/// count stored for one is the count of no other.
pub proof fn lemma_counted_apart(
    counts: Map<u8, u32>,
    a: WeaponCategory,
    b: WeaponCategory,
    count: u32,
)
    ensures
        a.code() == b.code() <==> a == b,
        a != b && counts.contains_key(b.code()) ==> counts.insert(a.code(), count)[b.code()]
            == counts[b.code()],
        a != b ==> counts.insert(a.code(), count).contains_key(b.code()) == counts.contains_key(
            b.code(),
        ),
{
}

/// The layers a weapon can reach.
#[derive(Clone, Copy, Debug, PartialEq, Eq, Structural)]
pub struct TargetingAngles {
    /// Its own layer.
    pub horizontal: bool,
    /// Layers above.
    pub above: bool,
    /// Layers below.
    pub below: bool,
}

impl TargetingAngles {
    /// Whether a target `dz` layers above the weapon (below it, where negative) can be
    /// reached.
    pub open spec fn reaches(self, dz: int) -> bool {
        (dz == 0 && self.horizontal) || (dz > 0 && self.above) || (dz < 0 && self.below)
    }

    /// Its own layer only.
    pub fn horizontal_only() -> (t: TargetingAngles)
        ensures
            t == (TargetingAngles { horizontal: true, above: false, below: false }),
    {
        TargetingAngles { horizontal: true, above: false, below: false }
    }

    /// Every layer.
    pub fn all_directions() -> (t: TargetingAngles)
        ensures
            t == (TargetingAngles { horizontal: true, above: true, below: true }),
    {
        TargetingAngles { horizontal: true, above: true, below: true }
    }

    /// Layers below only.
    pub fn below_only() -> (t: TargetingAngles)
        ensures
            t == (TargetingAngles { horizontal: false, above: false, below: true }),
    {
        TargetingAngles { horizontal: false, above: false, below: true }
    }
}

impl Default for TargetingAngles {
    fn default() -> (t: TargetingAngles)
        ensures
            t == (TargetingAngles { horizontal: false, above: false, below: false }),
    {
        TargetingAngles { horizontal: false, above: false, below: false }
    }
}

/// Kinds of ammunition.
#[derive(Clone, Copy, Debug, PartialEq, Eq, Structural, Hash)]
pub enum AmmoType {
    Bolt,
    Shell,
    Fuel,
    Bomb,
}

/// A weapon.
#[derive(Clone, Copy, Debug, PartialEq, Eq, Structural)]
pub struct Weapon {
    pub category: WeaponCategory,
    /// Thousandths of a hit point per shot.
    pub damage: u32,
    /// Thousandths of a cell.
    pub range: u32,
    /// Thousandths of a shot per second.
    pub fire_rate: u32,
    /// Thousandths of a cell; `None` for a single target.
    pub aoe_radius: Option<u32>,
    pub targeting: TargetingAngles,
    pub ammo_type: Option<AmmoType>,
    pub ammo_capacity: u32,
    pub current_ammo: u32,
    /// Milliseconds until the next shot.
    pub cooldown: u32,
}

/// The milliseconds between two shots at a rate of fire. A weapon with no rate of
/// fire takes as long as a time can be.
pub open spec fn shot_interval(fire_rate: u32) -> u32 {
    if fire_rate == 0 {
        u32::MAX
    } else {
        (1_000_000int / fire_rate as int) as u32
    }
}

impl Weapon {
    /// Whether the weapon is ready and loaded.
    pub open spec fn ready(self) -> bool {
        self.cooldown == 0 && self.current_ammo > 0
    }

    /// The weapon after a shot.
    pub open spec fn fired(self) -> Weapon {
        Weapon {
            current_ammo: (self.current_ammo - 1) as u32,
            cooldown: shot_interval(self.fire_rate),
            ..self
        }
    }

    /// The weapon `dt` milliseconds later.
    pub open spec fn cooled(self, dt: u32) -> Weapon {
        Weapon {
            cooldown: if self.cooldown >= dt {
                (self.cooldown - dt) as u32
            } else {
                0
            },
            ..self
        }
    }

    /// The weapon with `amount` more ammunition, as far as its capacity goes.
    pub open spec fn reloaded(self, amount: u32) -> Weapon {
        Weapon {
            current_ammo: if self.current_ammo + amount >= self.ammo_capacity {
                self.ammo_capacity
            } else {
                (self.current_ammo + amount) as u32
            },
            ..self
        }
    }

    pub fn ballista() -> (w: Weapon)
        ensures
            w == (Weapon {
                category: WeaponCategory::Ballista,
                damage: 50_000,
                range: 15_000,
                fire_rate: 500,
                aoe_radius: None,
                targeting: TargetingAngles { horizontal: true, above: false, below: false },
                ammo_type: Some(AmmoType::Bolt),
                ammo_capacity: 20,
                current_ammo: 20,
                cooldown: 0,
            }),
    {
        Weapon {
            category: WeaponCategory::Ballista,
            damage: 50_000,
            range: 15_000,
            fire_rate: 500,
            aoe_radius: None,
            targeting: TargetingAngles::horizontal_only(),
            ammo_type: Some(AmmoType::Bolt),
            ammo_capacity: 20,
            current_ammo: 20,
            cooldown: 0,
        }
    }

    pub fn mortar() -> (w: Weapon)
        ensures
            w == (Weapon {
                category: WeaponCategory::Mortar,
                damage: 30_000,
                range: 20_000,
                fire_rate: 250,
                aoe_radius: Some(3_000u32),
                targeting: TargetingAngles { horizontal: true, above: true, below: true },
                ammo_type: Some(AmmoType::Shell),
                ammo_capacity: 10,
                current_ammo: 10,
                cooldown: 0,
            }),
    {
        Weapon {
            category: WeaponCategory::Mortar,
            damage: 30_000,
            range: 20_000,
            fire_rate: 250,
            aoe_radius: Some(3_000),
            targeting: TargetingAngles::all_directions(),
            ammo_type: Some(AmmoType::Shell),
            ammo_capacity: 10,
            current_ammo: 10,
            cooldown: 0,
        }
    }

    /// The flamer fires continuously; its damage is per shot, its area a cone taken as
    /// a disc.
    pub fn flamer() -> (w: Weapon)
        ensures
            w == (Weapon {
                category: WeaponCategory::Flamer,
                damage: 10_000,
                range: 5_000,
                fire_rate: 10_000,
                aoe_radius: Some(2_000u32),
                targeting: TargetingAngles { horizontal: true, above: false, below: false },
                ammo_type: Some(AmmoType::Fuel),
                ammo_capacity: 100,
                current_ammo: 100,
                cooldown: 0,
            }),
    {
        Weapon {
            category: WeaponCategory::Flamer,
            damage: 10_000,
            range: 5_000,
            fire_rate: 10_000,
            aoe_radius: Some(2_000),
            targeting: TargetingAngles::horizontal_only(),
            ammo_type: Some(AmmoType::Fuel),
            ammo_capacity: 100,
            current_ammo: 100,
            cooldown: 0,
        }
    }

    /// The bomb drop must stand directly above its target.
    pub fn bomb_drop() -> (w: Weapon)
        ensures
            w == (Weapon {
                category: WeaponCategory::BombDrop,
                damage: 100_000,
                range: 1_000,
                fire_rate: 100,
                aoe_radius: Some(4_000u32),
                targeting: TargetingAngles { horizontal: false, above: false, below: true },
                ammo_type: Some(AmmoType::Bomb),
                ammo_capacity: 5,
                current_ammo: 5,
                cooldown: 0,
            }),
    {
        Weapon {
            category: WeaponCategory::BombDrop,
            damage: 100_000,
            range: 1_000,
            fire_rate: 100,
            aoe_radius: Some(4_000),
            targeting: TargetingAngles::below_only(),
            ammo_type: Some(AmmoType::Bomb),
            ammo_capacity: 5,
            current_ammo: 5,
            cooldown: 0,
        }
    }

    /// Whether the weapon can fire: it has cooled down and has ammunition.
    pub fn can_fire(&self) -> (b: bool)
        ensures
            b == self.ready(),
    {
        self.cooldown == 0 && self.current_ammo > 0
    }

    /// Fires if the weapon can, and says whether it did. A shot takes one unit of
    /// ammunition and starts the cooldown; a weapon that cannot fire is unchanged.
    pub fn fire(&mut self) -> (shot: bool)
        ensures
            shot == old(self).ready(),
            *final(self) == (if shot {
                old(self).fired()
            } else {
                *old(self)
            }),
    {
        if self.can_fire() {
            self.current_ammo = self.current_ammo - 1;
            self.cooldown = if self.fire_rate == 0 {
                u32::MAX
            } else {
                1_000_000 / self.fire_rate
            };
            true
        } else {
            false
        }
    }

    /// Lets `dt` milliseconds of cooldown pass.
    pub fn update(&mut self, dt: u32)
        ensures
            *final(self) == old(self).cooled(dt),
    {
        self.cooldown = self.cooldown.saturating_sub(dt);
    }

    /// Adds `amount` of ammunition, as far as the capacity goes.
    pub fn reload(&mut self, amount: u32)
        ensures
            *final(self) == old(self).reloaded(amount),
    {
        let sum: u64 = self.current_ammo as u64 + amount as u64;
        self.current_ammo = if sum >= self.ammo_capacity as u64 {
            self.ammo_capacity
        } else {
            sum as u32
        };
    }

    /// Whether the weapon can reach a target at `relative_pos` from itself: only the
    /// layer counts.
    pub fn can_target(&self, relative_pos: Position) -> (b: bool)
        ensures
            b == self.targeting.reaches(relative_pos.z as int),
    {
        let dz = relative_pos.z;
        if dz == 0 && self.targeting.horizontal {
            return true;
        }
        if dz > 0 && self.targeting.above {
            return true;
        }
        if dz < 0 && self.targeting.below {
            return true;
        }
        false
    }
}

/// A weapon that has fired cannot fire again before its cooldown has passed, and can
/// then, if it has ammunition left.
pub proof fn lemma_cooldown_gates_fire(w: Weapon, dt: u32)
    requires
        w.ready(),
        w.fire_rate > 0,
        w.fire_rate <= 1_000_000,
    ensures
        !w.fired().ready(),
        w.fired().cooled(dt).ready() <==> dt >= shot_interval(w.fire_rate) && w.current_ammo > 1,
{
    assert(1_000_000int / w.fire_rate as int >= 1) by (nonlinear_arith)
        requires
            0 < w.fire_rate <= 1_000_000,
    ;
}

} // verus!
