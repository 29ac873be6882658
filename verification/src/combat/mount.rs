//! Mount points: where weapons are attached to structures.

use crate::combat::weapon::WeaponCategory;
use crate::count_table::CountTable;
use crate::handle::Handle;
use vstd::prelude::*;

verus! {

/// A mount point on a structure.
pub struct MountPoint {
    /// The weapon mounted here, if any.
    pub mounted_weapon: Option<Handle>,
    /// The categories of weapon that fit here.
    pub allowed_categories: Vec<WeaponCategory>,
}

/// What mounting a weapon takes.
#[derive(Clone, Copy, Debug, PartialEq, Eq, Structural)]
pub enum MountPlan {
    /// The weapon does not fit here.
    Refused,
    /// The weapon fits; the weapon that was mounted before, if any, is to be removed.
    Mount { replaced: Option<Handle> },
}

impl MountPoint {
    /// An empty mount point for the categories `allowed`.
    pub fn new(allowed: Vec<WeaponCategory>) -> (mount: MountPoint)
        ensures
            mount.mounted_weapon.is_none(),
            mount.allowed_categories == allowed,
    {
        MountPoint { mounted_weapon: None, allowed_categories: allowed }
    }

    /// An empty mount point that takes any weapon.
    pub fn universal() -> (mount: MountPoint)
        ensures
            mount.mounted_weapon.is_none(),
            mount.allowed_categories@ == seq![
                WeaponCategory::Ballista,
                WeaponCategory::Mortar,
                WeaponCategory::Flamer,
                WeaponCategory::BombDrop,
                WeaponCategory::Crossbow,
            ],
            forall|c: WeaponCategory| mount.allowed_categories@.contains(c),
    {
        let mut allowed: Vec<WeaponCategory> = Vec::new();
        allowed.push(WeaponCategory::Ballista);
        allowed.push(WeaponCategory::Mortar);
        allowed.push(WeaponCategory::Flamer);
        allowed.push(WeaponCategory::BombDrop);
        allowed.push(WeaponCategory::Crossbow);
        assert forall|c: WeaponCategory| allowed@.contains(c) by {
            assert(allowed@[0] == WeaponCategory::Ballista);
            assert(allowed@[1] == WeaponCategory::Mortar);
            assert(allowed@[2] == WeaponCategory::Flamer);
            assert(allowed@[3] == WeaponCategory::BombDrop);
            assert(allowed@[4] == WeaponCategory::Crossbow);
        }
        MountPoint::new(allowed)
    }

    /// Whether a weapon of `category` fits here.
    pub fn can_mount(&self, category: WeaponCategory) -> (b: bool)
        ensures
            b == self.allowed_categories@.contains(category),
    {
        let mut i: usize = 0;
        while i < self.allowed_categories.len()
            invariant
                0 <= i <= self.allowed_categories@.len(),
                forall|j: int| 0 <= j < i ==> self.allowed_categories@[j] != category,
            decreases self.allowed_categories@.len() - i,
        {
            if self.allowed_categories[i] == category {
                return true;
            }
            i = i + 1;
        }
        false
    }

    /// Whether a weapon is mounted here.
    pub fn is_occupied(&self) -> (b: bool)
        ensures
            b == self.mounted_weapon.is_some(),
    {
        self.mounted_weapon.is_some()
    }

    /// What mounting a weapon of `category` takes: nothing can be done where it does
    /// not fit; where it fits, the weapon mounted so far has to go.
    pub fn plan_mount(&self, category: WeaponCategory) -> (plan: MountPlan)
        ensures
            plan == (if self.allowed_categories@.contains(category) {
                MountPlan::Mount { replaced: self.mounted_weapon }
            } else {
                MountPlan::Refused
            }),
    {
        if self.can_mount(category) {
            MountPlan::Mount { replaced: self.mounted_weapon }
        } else {
            MountPlan::Refused
        }
    }

    /// Records `weapon` as mounted here.
    pub fn attach(&mut self, weapon: Handle)
        ensures
            final(self).mounted_weapon == Some(weapon),
            final(self).allowed_categories == old(self).allowed_categories,
    {
        self.mounted_weapon = Some(weapon);
    }

    /// Takes off the weapon mounted here. Returns the weapon to remove and the category
    /// to put back into the store, or `None` where no weapon was mounted. A mount does
    /// not record the category of its weapon: what goes back into the store is a
    /// ballista.
    pub fn unmount(&mut self) -> (taken: Option<(Handle, WeaponCategory)>)
        ensures
            taken == (match old(self).mounted_weapon {
                Some(weapon) => Some((weapon, WeaponCategory::Ballista)),
                None => None,
            }),
            final(self).mounted_weapon.is_none(),
            final(self).allowed_categories == old(self).allowed_categories,
    {
        match self.detach() {
            Some(weapon) => Some((weapon, WeaponCategory::Ballista)),
            None => None,
        }
    }

    /// Takes off the weapon mounted here and returns it; `None` where there was none.
    pub fn detach(&mut self) -> (weapon: Option<Handle>)
        ensures
            weapon == old(self).mounted_weapon,
            final(self).mounted_weapon.is_none(),
            final(self).allowed_categories == old(self).allowed_categories,
    {
        let weapon = self.mounted_weapon;
        self.mounted_weapon = None;
        weapon
    }
}

/// The weapons the player has in store, counted by category.
pub struct WeaponInventory {
    available: CountTable,
}

impl WeaponInventory {
    /// The counts in store, each category under its code.
    pub closed spec fn counts(&self) -> Map<u8, u32> {
        self.available@
    }

    /// How many weapons of `category` are in store.
    pub open spec fn in_store(&self, category: WeaponCategory) -> u32 {
        if self.counts().contains_key(category.code()) {
            self.counts()[category.code()]
        } else {
            0
        }
    }

    /// An empty store.
    pub fn new() -> (inventory: WeaponInventory)
        ensures
            inventory.counts() == Map::<u8, u32>::empty(),
    {
        WeaponInventory { available: CountTable::new() }
    }

    /// Puts `count` weapons of `category` into the store. No other category changes.
    pub fn add(&mut self, category: WeaponCategory, count: u32)
        requires
            old(self).in_store(category) + count <= u32::MAX,
        ensures
            final(self).counts() == old(self).counts().insert(
                category.code(),
                (old(self).in_store(category) + count) as u32,
            ),
    {
        let held = self.count(category);
        self.available.insert(category.to_code(), held + count);
    }

    /// Takes one weapon of `category` out of the store and says whether there was one.
    /// An empty category stays as it is.
    pub fn remove(&mut self, category: WeaponCategory) -> (taken: bool)
        ensures
            taken == (old(self).in_store(category) > 0),
            taken ==> final(self).counts() == old(self).counts().insert(
                category.code(),
                (old(self).in_store(category) - 1) as u32,
            ),
            !taken ==> final(self).counts() == old(self).counts(),
    {
        let held = self.count(category);
        if held > 0 {
            self.available.insert(category.to_code(), held - 1);
            true
        } else {
            false
        }
    }

    /// How many weapons of `category` are in store.
    pub fn count(&self, category: WeaponCategory) -> (n: u32)
        ensures
            n == self.in_store(category),
    {
        match self.available.get(category.to_code()) {
            Some(n) => n,
            None => 0,
        }
    }
}

impl Default for WeaponInventory {
    fn default() -> (inventory: WeaponInventory)
        ensures
            inventory.counts() == Map::<u8, u32>::empty(),
    {
        WeaponInventory::new()
    }
}

} // verus!
