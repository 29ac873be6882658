//! Breach points: holes in the defences, and who has claimed which.
//!
//! The registry is the one surface on which independent leaders coordinate. It holds
//! at most one breach per cell and never forgets one. A claim overwrites whatever
//! claim was there: the last writer wins, and a leader that needs a breach for itself
//! reads the claim back after writing it.

use crate::handle::Handle;
use crate::position::Position;
use vstd::prelude::*;

verus! {

/// A breach in the defences.
#[derive(Clone, Copy, Debug, PartialEq, Eq, Structural)]
pub struct BreachPoint {
    /// Where the breach is.
    pub position: Position,
    /// The leader that claimed it, if any.
    pub claimed_by: Option<Handle>,
    /// Reinforcements asked for so far.
    pub reinforcement_requests: u32,
    /// Milliseconds since the breach was recorded.
    pub age: u64,
}

impl BreachPoint {
    /// A fresh breach: unclaimed, nothing requested, age zero.
    pub open spec fn fresh(position: Position) -> BreachPoint {
        BreachPoint { position, claimed_by: None, reinforcement_requests: 0, age: 0 }
    }

    /// The breach as claimed by `leader`.
    pub open spec fn claimed(self, leader: Handle) -> BreachPoint {
        BreachPoint { claimed_by: Some(leader), ..self }
    }

    /// The breach with `count` more reinforcements requested.
    pub open spec fn requested(self, count: u32) -> BreachPoint {
        BreachPoint {
            reinforcement_requests: (self.reinforcement_requests + count) as u32,
            ..self
        }
    }

    /// The breach `dt` milliseconds later. The age stops at the largest value it can hold.
    pub open spec fn aged(self, dt: u32) -> BreachPoint {
        BreachPoint {
            age: if self.age + dt > u64::MAX {
                u64::MAX
            } else {
                (self.age + dt) as u64
            },
            ..self
        }
    }

    pub fn new(position: Position) -> (b: BreachPoint)
        ensures
            b == BreachPoint::fresh(position),
    {
        BreachPoint { position, claimed_by: None, reinforcement_requests: 0, age: 0 }
    }

    /// Whether some leader holds the breach.
    pub fn is_claimed(&self) -> (b: bool)
        ensures
            b == self.claimed_by.is_some(),
    {
        self.claimed_by.is_some()
    }

    /// Records `leader` as the holder, whoever held the breach before.
    pub fn claim(&mut self, leader: Handle)
        ensures
            *final(self) == old(self).claimed(leader),
    {
        self.claimed_by = Some(leader);
    }

    /// Adds `count` to the reinforcements requested.
    pub fn request_reinforcements(&mut self, count: u32)
        requires
            old(self).reinforcement_requests + count <= u32::MAX,
        ensures
            *final(self) == old(self).requested(count),
    {
        self.reinforcement_requests = self.reinforcement_requests + count;
    }
}

/// Whether a breach at `pos` is among `points`.
pub open spec fn recorded(points: Seq<BreachPoint>, pos: Position) -> bool {
    exists|i: int| 0 <= i < points.len() && (#[trigger] points[i]).position == pos
}

/// The registry after `add`: unchanged where a breach at `pos` is recorded, one fresh
/// breach longer otherwise.
pub open spec fn added(points: Seq<BreachPoint>, pos: Position) -> Seq<BreachPoint> {
    if recorded(points, pos) {
        points
    } else {
        points.push(BreachPoint::fresh(pos))
    }
}

/// The registry after `leader` claims the breach at `pos`.
pub open spec fn claimed_at(points: Seq<BreachPoint>, pos: Position, leader: Handle) -> Seq<
    BreachPoint,
> {
    points.map_values(
        |b: BreachPoint|
            if b.position == pos {
                b.claimed(leader)
            } else {
                b
            },
    )
}

/// The registry after `count` reinforcements are requested at `pos`.
pub open spec fn requested_at(points: Seq<BreachPoint>, pos: Position, count: u32) -> Seq<
    BreachPoint,
> {
    points.map_values(
        |b: BreachPoint|
            if b.position == pos {
                b.requested(count)
            } else {
                b
            },
    )
}

/// The registry `dt` milliseconds later.
pub open spec fn aged_by(points: Seq<BreachPoint>, dt: u32) -> Seq<BreachPoint> {
    points.map_values(|b: BreachPoint| b.aged(dt))
}

/// No two breaches share a cell.
pub open spec fn positions_distinct(points: Seq<BreachPoint>) -> bool {
    forall|i: int, j: int|
        0 <= i < j < points.len() ==> #[trigger] points[i].position != #[trigger] points[j].position
}

/// Whether `points[i]` is the breach that `nearest_unclaimed` returns for `from`: it is
/// unclaimed, no unclaimed breach is nearer in Manhattan distance, and those before it
/// in the registry are strictly farther.
pub open spec fn is_nearest_unclaimed(points: Seq<BreachPoint>, from: Position, i: int) -> bool {
    &&& 0 <= i < points.len()
    &&& points[i].claimed_by.is_none()
    &&& forall|j: int|
        0 <= j < points.len() && (#[trigger] points[j]).claimed_by.is_none() ==> {
            &&& points[i].position.manhattan(from) <= points[j].position.manhattan(from)
            &&& j < i ==> points[i].position.manhattan(from) < points[j].position.manhattan(from)
        }
}

/// The news that a breach was made.
#[derive(Clone, Copy, Debug, PartialEq, Eq, Structural)]
pub struct BreachCreatedEvent {
    pub position: Position,
}

/// The registry after the news `events[..n]` is taken in, one after the other.
pub open spec fn added_all(points: Seq<BreachPoint>, events: Seq<BreachCreatedEvent>, n: int) -> Seq<
    BreachPoint,
>
    decreases n,
{
    if n <= 0 {
        points
    } else {
        added(added_all(points, events, n - 1), events[n - 1].position)
    }
}

/// Every breach, in the order in which they were recorded.
pub struct BreachPoints {
    points: Vec<BreachPoint>,
}

impl View for BreachPoints {
    type V = Seq<BreachPoint>;

    closed spec fn view(&self) -> Seq<BreachPoint> {
        self.points@
    }
}

impl BreachPoints {
    #[verifier::type_invariant]
    spec fn one_breach_per_cell(&self) -> bool {
        positions_distinct(self.points@)
    }

    /// An empty registry.
    pub fn new() -> (registry: BreachPoints)
        ensures
            registry@ == Seq::<BreachPoint>::empty(),
    {
        BreachPoints { points: Vec::new() }
    }

    /// How many breaches are recorded.
    pub fn len(&self) -> (n: usize)
        ensures
            n == self@.len(),
    {
        self.points.len()
    }

    /// The recorded breaches, oldest first. No two of them share a cell.
    pub fn points(&self) -> (points: &Vec<BreachPoint>)
        ensures
            points@ == self@,
            positions_distinct(points@),
    {
        proof {
            use_type_invariant(self);
        }
        &self.points
    }

    /// The index of the breach at `pos`.
    fn find(&self, pos: Position) -> (r: Option<usize>)
        ensures
            match r {
                Some(i) => i < self@.len() && self@[i as int].position == pos,
                None => forall|i: int| 0 <= i < self@.len() ==> (#[trigger] self@[i]).position != pos,
            },
    {
        let mut i: usize = 0;
        while i < self.points.len()
            invariant
                0 <= i <= self.points@.len(),
                forall|j: int| 0 <= j < i ==> (#[trigger] self.points@[j]).position != pos,
            decreases self.points@.len() - i,
        {
            if self.points[i].position == pos {
                return Some(i);
            }
            i = i + 1;
        }
        None
    }

    /// The breach at `pos`, if one is recorded.
    pub fn at_position(&self, pos: Position) -> (r: Option<&BreachPoint>)
        ensures
            r.is_some() == recorded(self@, pos),
            r.is_some() ==> r.unwrap().position == pos && self@.contains(*r.unwrap()),
    {
        match self.find(pos) {
            Some(i) => {
                assert(self@[i as int] == self.points@[i as int]);
                Some(&self.points[i])
            },
            None => None,
        }
    }

    /// The unclaimed breach nearest to `from` in Manhattan distance; among equally near
    /// ones, the one recorded first. `None` exactly where every breach is claimed.
    pub fn nearest_unclaimed(&self, from: Position) -> (r: Option<&BreachPoint>)
        ensures
            r.is_none() <==> (forall|i: int|
                0 <= i < self@.len() ==> (#[trigger] self@[i]).claimed_by.is_some()),
            r.is_some() ==> exists|i: int|
                is_nearest_unclaimed(self@, from, i) && #[trigger] self@[i] == *r.unwrap(),
    {
        let mut best: Option<usize> = None;
        let mut best_distance: u64 = 0;
        let mut i: usize = 0;
        while i < self.points.len()
            invariant
                0 <= i <= self.points@.len(),
                match best {
                    None => forall|j: int|
                        0 <= j < i ==> (#[trigger] self.points@[j]).claimed_by.is_some(),
                    Some(b) => {
                        &&& b < i
                        &&& is_nearest_unclaimed(self.points@.subrange(0, i as int), from, b as int)
                        &&& best_distance == self.points@[b as int].position.manhattan(from)
                    },
                },
            decreases self.points@.len() - i,
        {
            let candidate = &self.points[i];
            let ghost before = self.points@.subrange(0, i as int);
            let ghost after = self.points@.subrange(0, i + 1);
            assert(forall|j: int| 0 <= j < i ==> before[j] == after[j]);
            if !candidate.is_claimed() {
                let distance = candidate.position.manhattan_distance(from);
                match best {
                    None => {
                        best = Some(i);
                        best_distance = distance;
                    },
                    Some(b) => {
                        if distance < best_distance {
                            best = Some(i);
                            best_distance = distance;
                        }
                    },
                }
            }
            i = i + 1;
            proof {
                if let Some(b) = best {
                    assert forall|j: int|
                        0 <= j < after.len() && (#[trigger] after[j]).claimed_by.is_none() implies {
                        &&& after[b as int].position.manhattan(from) <= after[j].position.manhattan(
                            from,
                        )
                        &&& j < b ==> after[b as int].position.manhattan(from)
                            < after[j].position.manhattan(from)
                    } by {
                        if j < i - 1 {
                            assert(before[j].claimed_by.is_none());
                        }
                    }
                }
            }
        }
        assert(self.points@.subrange(0, i as int) == self.points@);
        match best {
            Some(b) => Some(&self.points[b]),
            None => None,
        }
    }

    /// Records an unclaimed breach at `position` unless one is recorded there already,
    /// in which case nothing changes.
    pub fn add(&mut self, position: Position)
        ensures
            final(self)@ == added(old(self)@, position),
    {
        proof {
            use_type_invariant(&*self);
        }
        if self.find(position).is_none() {
            let mut points: Vec<BreachPoint> = Vec::new();
            std::mem::swap(&mut self.points, &mut points);
            points.push(BreachPoint::new(position));
            self.points = points;
        }
    }

    /// Records `leader` as the holder of the breach at `pos`, whoever held it before,
    /// and says whether a breach is recorded there. Nothing else changes.
    pub fn claim(&mut self, pos: Position, leader: Handle) -> (found: bool)
        ensures
            found == recorded(old(self)@, pos),
            final(self)@ == claimed_at(old(self)@, pos, leader),
    {
        proof {
            use_type_invariant(&*self);
        }
        match self.find(pos) {
            Some(i) => {
                let mut points: Vec<BreachPoint> = Vec::new();
                std::mem::swap(&mut self.points, &mut points);
                let mut breach = points[i];
                breach.claim(leader);
                points.set(i, breach);
                assert(points@ =~= claimed_at(old(self)@, pos, leader));
                self.points = points;
                true
            },
            None => {
                assert(self@ =~= claimed_at(old(self)@, pos, leader));
                false
            },
        }
    }

    /// Adds `count` to the reinforcements requested at the breach at `pos`, and says
    /// whether a breach is recorded there. Nothing else changes.
    pub fn request_reinforcements(&mut self, pos: Position, count: u32) -> (found: bool)
        requires
            forall|i: int|
                0 <= i < old(self)@.len() && (#[trigger] old(self)@[i]).position == pos
                    ==> old(self)@[i].reinforcement_requests + count <= u32::MAX,
        ensures
            found == recorded(old(self)@, pos),
            final(self)@ == requested_at(old(self)@, pos, count),
    {
        proof {
            use_type_invariant(&*self);
        }
        match self.find(pos) {
            Some(i) => {
                let mut points: Vec<BreachPoint> = Vec::new();
                std::mem::swap(&mut self.points, &mut points);
                let mut breach = points[i];
                breach.request_reinforcements(count);
                points.set(i, breach);
                assert(points@ =~= requested_at(old(self)@, pos, count));
                self.points = points;
                true
            },
            None => {
                assert(self@ =~= requested_at(old(self)@, pos, count));
                false
            },
        }
    }

    /// One tick of the registry: the breaches that were made are recorded, in the order
    /// of the news, and then `dt` milliseconds pass for every breach, the new ones
    /// included.
    pub fn manage(&mut self, events: &Vec<BreachCreatedEvent>, dt: u32)
        ensures
            final(self)@ == aged_by(added_all(old(self)@, events@, events@.len() as int), dt),
    {
        let mut i: usize = 0;
        while i < events.len()
            invariant
                0 <= i <= events@.len(),
                self@ == added_all(old(self)@, events@, i as int),
            decreases events@.len() - i,
        {
            self.add(events[i].position);
            i = i + 1;
        }
        self.tick(dt);
    }

    /// Lets `dt` milliseconds pass: every breach grows older by that much.
    pub fn tick(&mut self, dt: u32)
        ensures
            final(self)@ == aged_by(old(self)@, dt),
    {
        proof {
            use_type_invariant(&*self);
        }
        let mut points: Vec<BreachPoint> = Vec::new();
        std::mem::swap(&mut self.points, &mut points);
        let mut i: usize = 0;
        while i < points.len()
            invariant
                0 <= i <= points@.len(),
                points@.len() == old(self)@.len(),
                forall|j: int| 0 <= j < i ==> #[trigger] points@[j] == old(self)@[j].aged(dt),
                forall|j: int| i <= j < points@.len() ==> #[trigger] points@[j] == old(self)@[j],
            decreases points@.len() - i,
        {
            let mut breach = points[i];
            breach.age = breach.age.saturating_add(dt as u64);
            points.set(i, breach);
            i = i + 1;
        }
        assert(points@ =~= aged_by(old(self)@, dt));
        self.points = points;
    }
}

impl Default for BreachPoints {
    fn default() -> (registry: BreachPoints)
        ensures
            registry@ == Seq::<BreachPoint>::empty(),
    {
        BreachPoints::new()
    }
}

/// Adding is idempotent. In a registry that holds one breach per cell, adding a cell
/// leaves exactly one breach there; adding it again changes nothing; and every breach
/// recorded before, the one at that cell included, keeps its state, its claim with it.
pub proof fn lemma_add_is_idempotent(points: Seq<BreachPoint>, pos: Position)
    requires
        positions_distinct(points),
    ensures
        added(added(points, pos), pos) == added(points, pos),
        positions_distinct(added(points, pos)),
        exists|i: int|
            0 <= i < added(points, pos).len() && (#[trigger] added(points, pos)[i]).position
                == pos && forall|j: int|
                0 <= j < added(points, pos).len() && (#[trigger] added(points, pos)[j]).position
                    == pos ==> j == i,
        forall|i: int| 0 <= i < points.len() ==> #[trigger] added(points, pos)[i] == points[i],
{
    let once = added(points, pos);
    if recorded(points, pos) {
        let i = choose|i: int| 0 <= i < points.len() && (#[trigger] points[i]).position == pos;
        assert(once[i].position == pos);
        assert forall|j: int| 0 <= j < once.len() && (#[trigger] once[j]).position == pos implies j
            == i by {
            if j < i {
                assert(points[j].position != points[i].position);
            } else if i < j {
                assert(points[i].position != points[j].position);
            }
        }
    } else {
        let i = points.len() as int;
        assert(once[i].position == pos);
        assert(recorded(once, pos));
        assert forall|j: int| 0 <= j < once.len() && (#[trigger] once[j]).position == pos implies j
            == i by {
            if j < i {
                assert(points[j].position == pos);
            }
        }
    }
}

/// Claiming the nearest unclaimed breach moves the answer to the next-nearest. If
/// `points[i]` is the answer for `from` and a leader claims it, then the answer
/// afterwards is never `i`; there is none exactly where no other breach was unclaimed;
/// and where there is one, it is nearest and first among the breaches other than `i`
/// that were unclaimed before.
pub proof fn lemma_claim_moves_to_next_nearest(
    points: Seq<BreachPoint>,
    from: Position,
    leader: Handle,
    i: int,
    next: int,
)
    requires
        positions_distinct(points),
        is_nearest_unclaimed(points, from, i),
    ensures
        !is_nearest_unclaimed(claimed_at(points, points[i].position, leader), from, i),
        is_nearest_unclaimed(claimed_at(points, points[i].position, leader), from, next) <==> {
            &&& 0 <= next < points.len()
            &&& next != i
            &&& points[next].claimed_by.is_none()
            &&& forall|j: int|
                0 <= j < points.len() && j != i && (#[trigger] points[j]).claimed_by.is_none() ==> {
                    &&& points[next].position.manhattan(from) <= points[j].position.manhattan(from)
                    &&& j < next ==> points[next].position.manhattan(from)
                        < points[j].position.manhattan(from)
                }
        },
{
    let after = claimed_at(points, points[i].position, leader);
    assert forall|j: int| 0 <= j < points.len() implies #[trigger] after[j] == (if j == i {
        points[j].claimed(leader)
    } else {
        points[j]
    }) by {
        if j < i {
            assert(points[j].position != points[i].position);
        } else if i < j {
            assert(points[i].position != points[j].position);
        }
    }
    if is_nearest_unclaimed(after, from, next) {
        assert(after[next].claimed_by.is_none());
        assert forall|j: int|
            0 <= j < points.len() && j != i && (#[trigger] points[j]).claimed_by.is_none() implies {
            &&& points[next].position.manhattan(from) <= points[j].position.manhattan(from)
            &&& j < next ==> points[next].position.manhattan(from) < points[j].position.manhattan(
                from,
            )
        } by {
            assert(after[j].claimed_by.is_none());
        }
    }
    if 0 <= next < points.len() && next != i && points[next].claimed_by.is_none() && (forall|j: int|
        0 <= j < points.len() && j != i && (#[trigger] points[j]).claimed_by.is_none() ==> {
            &&& points[next].position.manhattan(from) <= points[j].position.manhattan(from)
            &&& j < next ==> points[next].position.manhattan(from) < points[j].position.manhattan(
                from,
            )
        }) {
        assert forall|j: int|
            0 <= j < after.len() && (#[trigger] after[j]).claimed_by.is_none() implies {
            &&& after[next].position.manhattan(from) <= after[j].position.manhattan(from)
            &&& j < next ==> after[next].position.manhattan(from) < after[j].position.manhattan(from)
        } by {
            assert(points[j].claimed_by.is_none());
        }
    }
}

} // verus!
