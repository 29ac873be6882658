//! The colony's own game: biomass, technology and awareness of the player.
//!
//! A nest gathers biomass, and biomass buys agents and unlocks castes. What scouts
//! report moves the nest along a ladder of awareness that it never climbs down.

use crate::ai::caste::AntCaste;
use crate::ai::scout::Discovery;
use crate::handle::Handle;
use crate::position::Position;
use vstd::prelude::*;

verus! {

/// Biomass that a dead minor agent yields.
pub const MINOR_ANT: u32 = 2;

/// Biomass that a dead worker of the player yields.
pub const PLAYER_WORKER: u32 = 10;

/// Biomass that a dead soldier of the player yields.
pub const PLAYER_SOLDIER: u32 = 25;

/// Biomass that a dead human yields.
pub const PLAYER_HUMAN: u32 = 500;

/// Biomass at which median agents are unlocked.
pub const LEVEL_1: u32 = 100;

/// Biomass at which major agents are unlocked.
pub const LEVEL_2: u32 = 300;

/// Biomass at which smarter tunnelling is unlocked.
pub const LEVEL_3: u32 = 600;

/// Biomass at which siege agents are unlocked.
pub const LEVEL_4: u32 = 1000;

/// Biomass at which special abilities are unlocked.
pub const LEVEL_5: u32 = 2000;

/// How much a nest knows of the player.
#[derive(Clone, Copy, Debug, PartialEq, Eq, Structural)]
pub enum AwarenessState {
    /// Expanding as usual; no threat seen.
    Unaware,
    /// A scout saw something there.
    Suspicious { last_seen: Position },
    /// The player exists; an assault is being prepared.
    Aware,
    /// Full assault.
    Aggressive,
}

impl Default for AwarenessState {
    fn default() -> (s: AwarenessState)
        ensures
            s == AwarenessState::Unaware,
    {
        AwarenessState::Unaware
    }
}

impl AwarenessState {
    /// The rung of the ladder: the higher, the more the nest knows.
    pub open spec fn rank(self) -> int {
        match self {
            AwarenessState::Unaware => 0,
            AwarenessState::Suspicious { .. } => 1,
            AwarenessState::Aware => 2,
            AwarenessState::Aggressive => 3,
        }
    }

    /// The state after one discovery is reported. A unit of the player makes an
    /// unaware nest suspicious and a suspicious nest aware; a structure makes any nest
    /// aware that is not yet aggressive; nothing else matters.
    pub open spec fn escalated(self, discovery: Discovery) -> AwarenessState {
        match discovery {
            Discovery::PlayerUnit { position, .. } => match self {
                AwarenessState::Unaware => AwarenessState::Suspicious { last_seen: position },
                AwarenessState::Suspicious { .. } => AwarenessState::Aware,
                _ => self,
            },
            Discovery::PlayerStructure { .. } => if self is Aggressive {
                self
            } else {
                AwarenessState::Aware
            },
            _ => self,
        }
    }

    /// The state after `discoveries[..n]` are reported, one after the other.
    pub open spec fn escalated_by(self, discoveries: Seq<Discovery>, n: int) -> AwarenessState
        decreases n,
    {
        if n <= 0 {
            self
        } else {
            self.escalated_by(discoveries, n - 1).escalated(discoveries[n - 1])
        }
    }

    /// The state after one discovery is reported.
    pub fn escalate(self, discovery: &Discovery) -> (next: AwarenessState)
        ensures
            next == self.escalated(*discovery),
    {
        match discovery {
            Discovery::PlayerUnit { position, .. } => match self {
                AwarenessState::Unaware => AwarenessState::Suspicious { last_seen: *position },
                AwarenessState::Suspicious { .. } => AwarenessState::Aware,
                other => other,
            },
            Discovery::PlayerStructure { .. } => match self {
                AwarenessState::Aggressive => AwarenessState::Aggressive,
                _ => AwarenessState::Aware,
            },
            _ => self,
        }
    }
}

/// A change of a nest's awareness.
#[derive(Clone, Copy, Debug, PartialEq, Eq, Structural)]
pub struct AwarenessChangedEvent {
    pub nest: Handle,
    pub old_state: AwarenessState,
    pub new_state: AwarenessState,
}

/// The technology level that `biomass` pays for.
pub open spec fn level_for(biomass: u32) -> u8 {
    if biomass >= LEVEL_5 {
        5
    } else if biomass >= LEVEL_4 {
        4
    } else if biomass >= LEVEL_3 {
        3
    } else if biomass >= LEVEL_2 {
        2
    } else if biomass >= LEVEL_1 {
        1
    } else {
        0
    }
}

/// The castes that a nest at technology level `level` can produce, in the order in
/// which they were unlocked.
pub open spec fn castes_at(level: u8) -> Seq<AntCaste> {
    let basic = seq![AntCaste::Minor, AntCaste::Scout];
    let with_median = if level >= 1 {
        basic.push(AntCaste::Median)
    } else {
        basic
    };
    let with_major = if level >= 2 {
        with_median.push(AntCaste::Major)
    } else {
        with_median
    };
    if level >= 4 {
        with_major.push(AntCaste::Siege)
    } else {
        with_major
    }
}

/// A nest.
pub struct AntNest {
    /// The main resource.
    pub biomass: u32,
    /// Unlocks castes.
    pub tech_level: u8,
    /// What the nest knows of the player.
    pub awareness: AwarenessState,
    /// Agents waiting to be produced.
    pub production_queue: Vec<AntCaste>,
    pub max_population: u32,
    pub population: u32,
}

impl AntNest {
    /// A young nest: a little biomass, no technology, no idea of the player.
    pub fn new() -> (nest: AntNest)
        ensures
            nest.biomass == 50,
            nest.tech_level == 0,
            nest.awareness == AwarenessState::Unaware,
            nest.production_queue@ == Seq::<AntCaste>::empty(),
            nest.max_population == 100,
            nest.population == 10,
    {
        AntNest {
            biomass: 50,
            tech_level: 0,
            awareness: AwarenessState::Unaware,
            production_queue: Vec::new(),
            max_population: 100,
            population: 10,
        }
    }

    /// Adds biomass. The technology level rises to what the biomass now pays for, if
    /// that is higher; it never falls.
    pub fn add_biomass(&mut self, amount: u32)
        requires
            old(self).biomass + amount <= u32::MAX,
        ensures
            final(self).biomass == old(self).biomass + amount,
            final(self).tech_level == (if level_for(final(self).biomass) > old(self).tech_level {
                level_for(final(self).biomass)
            } else {
                old(self).tech_level
            }),
            final(self).awareness == old(self).awareness,
            final(self).production_queue == old(self).production_queue,
            final(self).max_population == old(self).max_population,
            final(self).population == old(self).population,
    {
        self.biomass = self.biomass + amount;
        self.check_tech_advancement();
    }

    /// Raises the technology level to what the biomass pays for, if that is higher.
    pub fn check_tech_advancement(&mut self)
        ensures
            final(self).tech_level == (if level_for(old(self).biomass) > old(self).tech_level {
                level_for(old(self).biomass)
            } else {
                old(self).tech_level
            }),
            final(self).biomass == old(self).biomass,
            final(self).awareness == old(self).awareness,
            final(self).production_queue == old(self).production_queue,
            final(self).max_population == old(self).max_population,
            final(self).population == old(self).population,
    {
        let new_level: u8 = if self.biomass >= LEVEL_5 {
            5
        } else if self.biomass >= LEVEL_4 {
            4
        } else if self.biomass >= LEVEL_3 {
            3
        } else if self.biomass >= LEVEL_2 {
            2
        } else if self.biomass >= LEVEL_1 {
            1
        } else {
            0
        };
        if new_level > self.tech_level {
            self.tech_level = new_level;
        }
    }

    /// The castes the nest can produce at its technology level.
    pub fn available_castes(&self) -> (castes: Vec<AntCaste>)
        ensures
            castes@ == castes_at(self.tech_level),
    {
        let mut castes: Vec<AntCaste> = Vec::new();
        castes.push(AntCaste::Minor);
        castes.push(AntCaste::Scout);
        assert(castes@ =~= seq![AntCaste::Minor, AntCaste::Scout]);
        if self.tech_level >= 1 {
            castes.push(AntCaste::Median);
        }
        if self.tech_level >= 2 {
            castes.push(AntCaste::Major);
        }
        if self.tech_level >= 4 {
            castes.push(AntCaste::Siege);
        }
        castes
    }

    /// Queues an agent of `caste` if the nest can pay for it, and says whether it could.
    /// Paying takes the price from the biomass; a nest that cannot pay is unchanged.
    pub fn queue_production(&mut self, caste: AntCaste) -> (queued: bool)
        ensures
            queued == (old(self).biomass >= caste.price()),
            queued ==> final(self).biomass == old(self).biomass - caste.price()
                && final(self).production_queue@ == old(self).production_queue@.push(caste),
            !queued ==> final(self).biomass == old(self).biomass && final(self).production_queue
                == old(self).production_queue,
            final(self).tech_level == old(self).tech_level,
            final(self).awareness == old(self).awareness,
            final(self).max_population == old(self).max_population,
            final(self).population == old(self).population,
    {
        if self.biomass >= caste.biomass_cost() {
            self.biomass = self.biomass - caste.biomass_cost();
            self.production_queue.push(caste);
            true
        } else {
            false
        }
    }

    /// Takes in what scouts report, one discovery after the other.
    pub fn escalate_awareness(&mut self, discoveries: &Vec<Discovery>)
        ensures
            final(self).awareness == old(self).awareness.escalated_by(
                discoveries@,
                discoveries@.len() as int,
            ),
            final(self).biomass == old(self).biomass,
            final(self).tech_level == old(self).tech_level,
            final(self).production_queue == old(self).production_queue,
            final(self).max_population == old(self).max_population,
            final(self).population == old(self).population,
    {
        let mut i: usize = 0;
        while i < discoveries.len()
            invariant
                0 <= i <= discoveries@.len(),
                self.awareness == old(self).awareness.escalated_by(discoveries@, i as int),
                self.biomass == old(self).biomass,
                self.tech_level == old(self).tech_level,
                self.production_queue == old(self).production_queue,
                self.max_population == old(self).max_population,
                self.population == old(self).population,
            decreases discoveries@.len() - i,
        {
            self.awareness = self.awareness.escalate(&discoveries[i]);
            i = i + 1;
        }
    }

    /// Takes in the report of a scout of `nest` and returns the change of awareness to
    /// announce: `None` exactly where the report leaves the awareness as it was.
    pub fn receive_report(&mut self, nest: Handle, discoveries: &Vec<Discovery>) -> (change: Option<
        AwarenessChangedEvent,
    >)
        ensures
            final(self).awareness == old(self).awareness.escalated_by(
                discoveries@,
                discoveries@.len() as int,
            ),
            change == (if final(self).awareness == old(self).awareness {
                None
            } else {
                Some(
                    AwarenessChangedEvent {
                        nest,
                        old_state: old(self).awareness,
                        new_state: final(self).awareness,
                    },
                )
            }),
            final(self).biomass == old(self).biomass,
            final(self).tech_level == old(self).tech_level,
            final(self).production_queue == old(self).production_queue,
            final(self).max_population == old(self).max_population,
            final(self).population == old(self).population,
    {
        let old_state = self.awareness;
        self.escalate_awareness(discoveries);
        if self.awareness != old_state {
            Some(AwarenessChangedEvent { nest, old_state, new_state: self.awareness })
        } else {
            None
        }
    }
}

impl Default for AntNest {
    fn default() -> (nest: AntNest)
        ensures
            nest.biomass == 50,
            nest.tech_level == 0,
            nest.awareness == AwarenessState::Unaware,
            nest.production_queue@ == Seq::<AntCaste>::empty(),
            nest.max_population == 100,
            nest.population == 10,
    {
        AntNest::new()
    }
}

/// Awareness only rises. No report takes a nest down the ladder, and a nest in full
/// assault stays there.
pub proof fn lemma_awareness_only_rises(state: AwarenessState, discoveries: Seq<Discovery>, n: int)
    requires
        0 <= n <= discoveries.len(),
    ensures
        state.rank() <= state.escalated_by(discoveries, n).rank(),
        state is Aggressive ==> state.escalated_by(discoveries, n) is Aggressive,
    decreases n,
{
    if n > 0 {
        lemma_awareness_only_rises(state, discoveries, n - 1);
    }
}

/// More biomass never pays for less technology, and every caste that a level unlocks
/// stays unlocked at the levels above it.
pub proof fn lemma_technology_only_grows(low: u32, high: u32, level: u8, caste: AntCaste)
    requires
        low <= high,
    ensures
        level_for(low) <= level_for(high),
        level < 255 && castes_at(level).contains(caste) ==> castes_at((level + 1) as u8).contains(
            caste,
        ),
{
    if level < 255 && castes_at(level).contains(caste) {
        let i = choose|i: int| 0 <= i < castes_at(level).len() && castes_at(level)[i] == caste;
        assert(castes_at((level + 1) as u8)[i] == caste);
    }
}

} // verus!
