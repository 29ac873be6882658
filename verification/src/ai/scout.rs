//! Scouts: exploration and discovery.
//!
//! A scout explores and leaves scent behind. What it finds counts only once it is
//! home: a scout that has seen the player turns back, and reports on arrival.

use crate::ai::scent::{deposited, intensity_at, scent_key, ScentTrails};
use crate::handle::Handle;
use crate::position::{axis_gap, gap, Position};
use vstd::prelude::*;

verus! {

/// Scent that a scout deposits on each cell it explores: one unit, in millionths.
pub const SCOUT_SCENT: u32 = 1_000_000;

/// How near its nest a returning scout counts as home, on each horizontal axis.
pub const HOME_REACH: u64 = 1;

/// Things a scout can discover.
#[derive(Debug)]
pub enum Discovery {
    PlayerUnit { position: Position, unit_type: String },
    PlayerStructure { position: Position, structure_type: String },
    SealedTunnel { position: Position },
    Resource { position: Position, resource_type: String },
}

impl Clone for Discovery {
    /// A copy of the same kind at the same cell.
    fn clone(&self) -> (copy: Discovery)
        ensures
            copy.important() == self.important(),
            copy.cell() == self.cell(),
    {
        match self {
            Discovery::PlayerUnit { position, unit_type } => Discovery::PlayerUnit {
                position: *position,
                unit_type: unit_type.clone(),
            },
            Discovery::PlayerStructure { position, structure_type } => Discovery::PlayerStructure {
                position: *position,
                structure_type: structure_type.clone(),
            },
            Discovery::SealedTunnel { position } => Discovery::SealedTunnel { position: *position },
            Discovery::Resource { position, resource_type } => Discovery::Resource {
                position: *position,
                resource_type: resource_type.clone(),
            },
        }
    }
}

impl Discovery {
    /// Where the discovery was made.
    pub open spec fn cell(self) -> Position {
        match self {
            Discovery::PlayerUnit { position, .. } => position,
            Discovery::PlayerStructure { position, .. } => position,
            Discovery::SealedTunnel { position } => position,
            Discovery::Resource { position, .. } => position,
        }
    }

    /// Whether the discovery betrays the player: a unit or a structure.
    pub open spec fn important(self) -> bool {
        self is PlayerUnit || self is PlayerStructure
    }

    /// Whether the discovery betrays the player.
    pub fn is_important(&self) -> (b: bool)
        ensures
            b == self.important(),
    {
        match self {
            Discovery::PlayerUnit { .. } => true,
            Discovery::PlayerStructure { .. } => true,
            _ => false,
        }
    }
}

/// Whether any of `discoveries` betrays the player.
pub open spec fn any_important(discoveries: Seq<Discovery>) -> bool {
    exists|i: int| 0 <= i < discoveries.len() && (#[trigger] discoveries[i]).important()
}

/// Whether two cells are within `HOME_REACH` of each other on both horizontal axes.
pub open spec fn at_home(pos: Position, nest: Position) -> bool {
    axis_gap(pos.x as int, nest.x as int) <= HOME_REACH && axis_gap(pos.y as int, nest.y as int)
        <= HOME_REACH
}

/// What a scout brings home.
pub struct ScoutReturnedEvent {
    pub nest: Handle,
    pub discoveries: Vec<Discovery>,
}

/// What a scout did in one step.
pub enum ScoutStep {
    /// It explored its cell: scent deposited, cell added to the way home.
    Explored,
    /// It is on its way home and not there yet, or its nest is gone.
    Travelling,
    /// It reached its nest and is done. The report is there where it has seen the player.
    Home { report: Option<ScoutReturnedEvent> },
}

/// A scout.
pub struct Scout {
    /// The nest the scout belongs to.
    pub origin_nest: Handle,
    /// What it has discovered so far.
    pub discoveries: Vec<Discovery>,
    /// Whether it is on its way home.
    pub returning: bool,
    /// The cells it explored, in order: its way home.
    pub home_path: Vec<Position>,
}

impl Scout {
    /// A scout of `nest` that has seen nothing and been nowhere.
    pub fn new(nest: Handle) -> (scout: Scout)
        ensures
            scout.origin_nest == nest,
            scout.discoveries@ == Seq::<Discovery>::empty(),
            !scout.returning,
            scout.home_path@ == Seq::<Position>::empty(),
    {
        Scout { origin_nest: nest, discoveries: Vec::new(), returning: false, home_path: Vec::new() }
    }

    /// Records a discovery. One that betrays the player sends the scout home.
    pub fn discover(&mut self, discovery: Discovery)
        ensures
            final(self).discoveries@ == old(self).discoveries@.push(discovery),
            final(self).returning == (old(self).returning || discovery.important()),
            final(self).origin_nest == old(self).origin_nest,
            final(self).home_path == old(self).home_path,
    {
        if discovery.is_important() {
            self.returning = true;
        }
        self.discoveries.push(discovery);
    }

    /// Whether the scout has seen the player.
    pub fn has_important_intel(&self) -> (b: bool)
        ensures
            b == any_important(self.discoveries@),
    {
        let mut i: usize = 0;
        while i < self.discoveries.len()
            invariant
                0 <= i <= self.discoveries@.len(),
                forall|j: int| 0 <= j < i ==> !(#[trigger] self.discoveries@[j]).important(),
            decreases self.discoveries@.len() - i,
        {
            if self.discoveries[i].is_important() {
                return true;
            }
            i = i + 1;
        }
        false
    }

    /// One step of a scout that stands at `pos`; `nest_pos` is where its nest is, if
    /// the nest still exists.
    ///
    /// An exploring scout deposits `SCOUT_SCENT` for its nest at `pos` and adds the cell
    /// to its way home. A returning scout that is within `HOME_REACH` of its nest on
    /// both horizontal axes is home: it hands over what it discovered if it has seen
    /// the player, and is done. A returning scout elsewhere, or without a nest, changes
    /// nothing.
    pub fn step(&mut self, pos: Position, nest_pos: Option<Position>, trails: &mut ScentTrails) -> (done:
        ScoutStep)
        ensures
            final(self).origin_nest == old(self).origin_nest,
            final(self).returning == old(self).returning,
            !old(self).returning ==> {
                &&& done is Explored
                &&& final(self).home_path@ == old(self).home_path@.push(pos)
                &&& final(self).discoveries == old(self).discoveries
                &&& final(trails)@ == old(trails)@.insert(
                    scent_key(pos, old(self).origin_nest),
                    deposited(intensity_at(old(trails)@, pos, old(self).origin_nest), SCOUT_SCENT),
                )
            },
            old(self).returning ==> final(trails)@ == old(trails)@ && final(self).home_path == old(
                self,
            ).home_path,
            old(self).returning && !(nest_pos.is_some() && at_home(pos, nest_pos.unwrap())) ==> {
                &&& done is Travelling
                &&& final(self).discoveries == old(self).discoveries
            },
            old(self).returning && nest_pos.is_some() && at_home(pos, nest_pos.unwrap()) ==> {
                &&& done is Home
                &&& done->report.is_some() == any_important(old(self).discoveries@)
                &&& done->report.is_some() ==> {
                    &&& done->report.unwrap().nest == old(self).origin_nest
                    &&& done->report.unwrap().discoveries@ == old(self).discoveries@
                    &&& final(self).discoveries@ == Seq::<Discovery>::empty()
                }
                &&& done->report.is_none() ==> final(self).discoveries == old(self).discoveries
            },
    {
        if !self.returning {
            trails.add_scent(pos, self.origin_nest, SCOUT_SCENT);
            self.home_path.push(pos);
            return ScoutStep::Explored;
        }
        match nest_pos {
            Some(nest) => {
                if gap(pos.x, nest.x) <= HOME_REACH && gap(pos.y, nest.y) <= HOME_REACH {
                    if self.has_important_intel() {
                        let mut discoveries: Vec<Discovery> = Vec::new();
                        std::mem::swap(&mut self.discoveries, &mut discoveries);
                        ScoutStep::Home {
                            report: Some(ScoutReturnedEvent { nest: self.origin_nest, discoveries }),
                        }
                    } else {
                        ScoutStep::Home { report: None }
                    }
                } else {
                    ScoutStep::Travelling
                }
            },
            None => ScoutStep::Travelling,
        }
    }
}

} // verus!
