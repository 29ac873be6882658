//! Scent trails: how scouts tell the colony where they have been.
//!
//! A scout deposits scent as it explores. Agents that look for the discovery climb
//! the gradient, one neighbouring cell at a time, and need no stored path. Trails
//! fade, so stale information removes itself.

use crate::handle::Handle;
use crate::position::{neighbor_steps, unit_steps, Position};
use crate::scent_table::ScentTable;
use vstd::prelude::*;

verus! {

/// Intensities are held in millionths. This is the ceiling, ten whole units.
pub const SCENT_CAP: u32 = 10_000_000;

/// An intensity at or below this, a hundredth of a unit, is too faint to keep.
pub const SCENT_FLOOR: u32 = 10_000;

/// What is left of `intensity` after it loses `rate`; nothing where `rate` is larger.
pub open spec fn faded(intensity: u32, rate: u32) -> u32 {
    if intensity >= rate {
        (intensity - rate) as u32
    } else {
        0
    }
}

/// Whether an entry is still worth keeping after it loses `rate`.
pub open spec fn lingers(intensity: u32, rate: u32) -> bool {
    intensity - rate > SCENT_FLOOR
}

/// Takes `rate` from an intensity and says whether the entry is to be kept.
pub fn decay_step(intensity: &mut u32, rate: u32) -> (keep: bool)
    ensures
        *final(intensity) == faded(*old(intensity), rate),
        keep == lingers(*old(intensity), rate),
{
    if *intensity >= rate {
        *intensity = *intensity - rate;
    } else {
        *intensity = 0;
    }
    *intensity > SCENT_FLOOR
}

/// The entries that outlast a decay by `rate`, each with what is left of it.
pub open spec fn decayed(entries: Map<(i32, i32, i32, u64), u32>, rate: u32) -> Map<
    (i32, i32, i32, u64),
    u32,
> {
    Map::new(
        |k: (i32, i32, i32, u64)| entries.contains_key(k) && lingers(entries[k], rate),
        |k: (i32, i32, i32, u64)| faded(entries[k], rate),
    )
}

/// What every trail loses in a millisecond: a hundredth of a unit in a second.
pub const DECAY_PER_MS: u32 = 10;

/// What every trail loses in `dt` milliseconds, as far as a rate goes.
pub open spec fn decay_in(dt: u32) -> u32 {
    if DECAY_PER_MS * dt > u32::MAX {
        u32::MAX
    } else {
        (DECAY_PER_MS * dt) as u32
    }
}

/// The key under which the scent of `nest` at `pos` is stored.
pub open spec fn scent_key(pos: Position, nest: Handle) -> (i32, i32, i32, u64) {
    (pos.x, pos.y, pos.z, nest.0)
}

/// The intensity that `entries` hold for `nest` at `pos`: zero where there is no entry.
pub open spec fn intensity_at(
    entries: Map<(i32, i32, i32, u64), u32>,
    pos: Position,
    nest: Handle,
) -> u32 {
    if entries.contains_key(scent_key(pos, nest)) {
        entries[scent_key(pos, nest)]
    } else {
        0
    }
}

/// The intensity after a deposit of `amount` on `held`: the sum, but no more than the cap.
pub open spec fn deposited(held: u32, amount: u32) -> u32 {
    if held + amount >= SCENT_CAP {
        SCENT_CAP
    } else {
        (held + amount) as u32
    }
}

/// The intensity one `step` away from `pos`; zero where the step leaves the grid.
pub open spec fn neighbor_intensity(
    entries: Map<(i32, i32, i32, u64), u32>,
    pos: Position,
    nest: Handle,
    step: Position,
) -> u32 {
    if pos.can_step(step) {
        intensity_at(entries, pos.stepped(step), nest)
    } else {
        0
    }
}

/// Whether the `i`-th unit step is the one that `strongest_direction` follows: no
/// neighbour smells stronger, and the later ones smell strictly weaker.
pub open spec fn is_strongest_step(
    entries: Map<(i32, i32, i32, u64), u32>,
    pos: Position,
    nest: Handle,
    i: int,
) -> bool {
    &&& 0 <= i < 6
    &&& forall|j: int|
        0 <= j < 6 ==> {
            &&& neighbor_intensity(entries, pos, nest, #[trigger] unit_steps()[j])
                <= neighbor_intensity(entries, pos, nest, unit_steps()[i])
            &&& j > i ==> neighbor_intensity(entries, pos, nest, unit_steps()[j])
                < neighbor_intensity(entries, pos, nest, unit_steps()[i])
        }
}

/// Scent per cell and owning nest, in millionths of a unit, never above the cap.
pub struct ScentTrails {
    trails: ScentTable,
}

impl View for ScentTrails {
    type V = Map<(i32, i32, i32, u64), u32>;

    /// The stored entries, keyed by `scent_key`.
    closed spec fn view(&self) -> Map<(i32, i32, i32, u64), u32> {
        self.trails@
    }
}

impl ScentTrails {
    #[verifier::type_invariant]
    spec fn capped(&self) -> bool {
        forall|k: (i32, i32, i32, u64)| #[trigger]
            self.trails@.contains_key(k) ==> self.trails@[k] <= SCENT_CAP
    }

    /// Trails without any scent.
    pub fn new() -> (trails: ScentTrails)
        ensures
            trails@ == Map::<(i32, i32, i32, u64), u32>::empty(),
    {
        ScentTrails { trails: ScentTable::new() }
    }

    /// Deposits `amount` for `nest` at `pos`. The intensity there grows by `amount` but
    /// not beyond the cap, on a first deposit as on a later one. No other entry changes.
    pub fn add_scent(&mut self, pos: Position, nest: Handle, amount: u32)
        ensures
            final(self)@ == old(self)@.insert(
                scent_key(pos, nest),
                deposited(intensity_at(old(self)@, pos, nest), amount),
            ),
    {
        proof {
            use_type_invariant(&*self);
        }
        let held = self.scent_at(pos, nest);
        let sum: u64 = held as u64 + amount as u64;
        let intensity: u32 = if sum >= SCENT_CAP as u64 {
            SCENT_CAP
        } else {
            sum as u32
        };
        let mut trails = ScentTable::new();
        std::mem::swap(&mut self.trails, &mut trails);
        trails.insert((pos.x, pos.y, pos.z, nest.0), intensity);
        proof {
            assert forall|k: (i32, i32, i32, u64)| #[trigger] trails@.contains_key(k) implies trails@[k]
                <= SCENT_CAP by {
                if k != scent_key(pos, nest) {
                    assert(old(self).trails@.contains_key(k));
                }
            }
        }
        self.trails = trails;
    }

    /// Whether anything is stored for `nest` at `pos`.
    pub fn has_trail(&self, pos: Position, nest: Handle) -> (b: bool)
        ensures
            b == self@.contains_key(scent_key(pos, nest)),
    {
        self.trails.get((pos.x, pos.y, pos.z, nest.0)).is_some()
    }

    /// The intensity for `nest` at `pos`; zero where nothing is stored.
    pub fn scent_at(&self, pos: Position, nest: Handle) -> (v: u32)
        ensures
            v == intensity_at(self@, pos, nest),
            v <= SCENT_CAP,
    {
        proof {
            use_type_invariant(self);
            assert(self.trails@.contains_key(scent_key(pos, nest)) ==> self.trails@[scent_key(
                pos,
                nest,
            )] <= SCENT_CAP);
        }
        match self.trails.get((pos.x, pos.y, pos.z, nest.0)) {
            Some(v) => v,
            None => 0,
        }
    }

    /// The unit step from `pos` toward the neighbour that smells strongest of `nest`.
    /// Of neighbours that smell equally strong, the last in the order `+x, -x, +y, -y,
    /// +z, -z` is taken. `None` exactly where no neighbour smells at all.
    pub fn strongest_direction(&self, pos: Position, nest: Handle) -> (r: Option<Position>)
        ensures
            r.is_none() <==> (forall|j: int|
                0 <= j < 6 ==> neighbor_intensity(self@, pos, nest, #[trigger] unit_steps()[j])
                    == 0),
            r.is_some() ==> exists|i: int|
                is_strongest_step(self@, pos, nest, i) && #[trigger] unit_steps()[i] == r.unwrap(),
    {
        let steps = neighbor_steps();
        let mut best: usize = 0;
        let mut best_scent: u32 = self.scent_toward(pos, nest, steps[0]);
        let mut i: usize = 1;
        while i < 6
            invariant
                1 <= i <= 6,
                steps@ == unit_steps(),
                best < i,
                best_scent == neighbor_intensity(self@, pos, nest, unit_steps()[best as int]),
                forall|j: int|
                    0 <= j < i ==> {
                        &&& neighbor_intensity(self@, pos, nest, #[trigger] unit_steps()[j])
                            <= best_scent
                        &&& j > best ==> neighbor_intensity(self@, pos, nest, unit_steps()[j])
                            < best_scent
                    },
            decreases 6 - i,
        {
            let scent = self.scent_toward(pos, nest, steps[i]);
            if scent >= best_scent {
                best = i;
                best_scent = scent;
            }
            i = i + 1;
        }
        if best_scent > 0 {
            assert(is_strongest_step(self@, pos, nest, best as int));
            Some(steps[best])
        } else {
            None
        }
    }

    /// The intensity one `step` away from `pos`.
    fn scent_toward(&self, pos: Position, nest: Handle, step: Position) -> (v: u32)
        ensures
            v == neighbor_intensity(self@, pos, nest, step),
    {
        match pos.offset(step) {
            Some(neighbor) => self.scent_at(neighbor, nest),
            None => 0,
        }
    }

    /// Lets every trail fade by `rate`. An entry whose intensity would fall to the floor
    /// or below is removed; every other entry keeps its intensity less `rate`.
    pub fn decay(&mut self, rate: u32)
        ensures
            final(self)@ == decayed(old(self)@, rate),
    {
        proof {
            use_type_invariant(&*self);
        }
        let mut trails = ScentTable::new();
        std::mem::swap(&mut self.trails, &mut trails);
        trails.retain_decayed(rate);
        proof {
            assert forall|k: (i32, i32, i32, u64)| #[trigger] trails@.contains_key(k) implies trails@[k]
                <= SCENT_CAP by {
                assert(old(self).trails@.contains_key(k));
            }
        }
        self.trails = trails;
    }
}

impl ScentTrails {
    /// Lets `dt` milliseconds pass: every trail fades by what it loses in that time.
    pub fn tick(&mut self, dt: u32)
        ensures
            final(self)@ == decayed(old(self)@, decay_in(dt)),
    {
        assert(DECAY_PER_MS * dt <= 10 * 0xffff_ffff);
        let rate: u64 = DECAY_PER_MS as u64 * dt as u64;
        if rate > u32::MAX as u64 {
            self.decay(u32::MAX);
        } else {
            self.decay(rate as u32);
        }
    }
}

impl Default for ScentTrails {
    fn default() -> (trails: ScentTrails)
        ensures
            trails@ == Map::<(i32, i32, i32, u64), u32>::empty(),
    {
        ScentTrails::new()
    }
}

/// Without new deposits scent only fades. After a decay no intensity is higher than
/// before; what is left is above the floor or nothing at all; and a decay by nothing
/// removes exactly the entries at or below the floor.
pub proof fn lemma_decay_only_fades(
    entries: Map<(i32, i32, i32, u64), u32>,
    rate: u32,
    pos: Position,
    nest: Handle,
)
    ensures
        intensity_at(decayed(entries, rate), pos, nest) <= intensity_at(entries, pos, nest),
        intensity_at(decayed(entries, rate), pos, nest) == 0 || intensity_at(
            decayed(entries, rate),
            pos,
            nest,
        ) > SCENT_FLOOR,
        rate > 0 && intensity_at(entries, pos, nest) > 0 ==> intensity_at(
            decayed(entries, rate),
            pos,
            nest,
        ) < intensity_at(entries, pos, nest),
{
}

/// A deposit never lowers an intensity and never lifts it above the cap.
pub proof fn lemma_deposit_is_capped(held: u32, amount: u32)
    requires
        held <= SCENT_CAP,
    ensures
        held <= deposited(held, amount) <= SCENT_CAP,
        held + amount <= SCENT_CAP ==> deposited(held, amount) == held + amount,
{
}

} // verus!
