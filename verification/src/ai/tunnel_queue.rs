//! Corridors and the agents queued in them.
//!
//! An agent that travels off screen is no simulated actor. It is an entry in the queue
//! of a corridor, and its whole state is how far along the corridor it is. Advancing a
//! corridor costs one addition per agent. An agent that reaches the far end emerges
//! there; when a corridor is broken, the agents that have not yet reached the break are
//! ejected at it and the rest stay where they are, cut off from the intact end.

use crate::ai::caste::AntCaste;
use crate::handle::Handle;
use crate::position::Position;
use vstd::prelude::*;

verus! {

/// Progress is held in millionths of a corridor's length. This is the far end.
pub const PROGRESS_ONE: u64 = 1_000_000;

/// An agent in a corridor. It has no place in the world, only its progress.
#[derive(Clone, Copy, Debug, PartialEq, Eq, Structural)]
pub struct QueuedAnt {
    pub caste: AntCaste,
    /// Millionths of the corridor behind the agent.
    pub progress: u64,
    /// The leader the agent follows, if any.
    pub leader: Option<Handle>,
    /// The nest the agent comes from.
    pub nest: Handle,
}

impl QueuedAnt {
    /// The agent at the entrance of a corridor.
    pub open spec fn at_start(self) -> QueuedAnt {
        QueuedAnt { progress: 0, ..self }
    }

    /// The agent `step` millionths farther on. Progress stops at the largest value it
    /// can hold, which lies far beyond any corridor's end.
    pub open spec fn moved(self, step: int) -> QueuedAnt {
        QueuedAnt {
            progress: if self.progress + step > u64::MAX {
                u64::MAX
            } else {
                (self.progress + step) as u64
            },
            ..self
        }
    }
}

/// The agents that have not come as far as `bound`.
pub open spec fn short_of(bound: u64) -> spec_fn(QueuedAnt) -> bool {
    |a: QueuedAnt| a.progress < bound
}

/// The agents that have come as far as `bound`.
pub open spec fn reached(bound: u64) -> spec_fn(QueuedAnt) -> bool {
    |a: QueuedAnt| a.progress >= bound
}

/// Every agent of `queue`, `step` millionths farther on.
pub open spec fn advanced(queue: Seq<QueuedAnt>, step: int) -> Seq<QueuedAnt> {
    queue.map_values(|a: QueuedAnt| a.moved(step))
}

/// A corridor between two cells, with the agents inside it.
pub struct TunnelSegment {
    /// Where agents enter.
    pub start: Position,
    /// Where agents emerge.
    pub end: Position,
    /// The agents inside, in the order in which they entered.
    pub queue: Vec<QueuedAnt>,
    /// Thousandths of the corridor that an agent covers in a second.
    pub move_rate: u32,
    /// Whether the corridor is unbroken.
    pub intact: bool,
}

/// Splits `queue` at `bound`, keeping the order on both sides.
pub fn split_at_progress(queue: &Vec<QueuedAnt>, bound: u64) -> (sides: (
    Vec<QueuedAnt>,
    Vec<QueuedAnt>,
))
    ensures
        sides.0@ == queue@.filter(short_of(bound)),
        sides.1@ == queue@.filter(reached(bound)),
{
    let mut below: Vec<QueuedAnt> = Vec::new();
    let mut beyond: Vec<QueuedAnt> = Vec::new();
    let mut i: usize = 0;
    proof {
        reveal(Seq::filter);
        assert(queue@.take(0).filter(short_of(bound)) == Seq::<QueuedAnt>::empty());
        assert(queue@.take(0).filter(reached(bound)) == Seq::<QueuedAnt>::empty());
    }
    while i < queue.len()
        invariant
            0 <= i <= queue@.len(),
            below@ == queue@.take(i as int).filter(short_of(bound)),
            beyond@ == queue@.take(i as int).filter(reached(bound)),
        decreases queue@.len() - i,
    {
        let ant = queue[i];
        proof {
            assert(queue@.take(i + 1) == queue@.take(i as int).push(ant));
            queue@.take(i as int).lemma_filter_push(ant, short_of(bound));
            queue@.take(i as int).lemma_filter_push(ant, reached(bound));
        }
        if ant.progress < bound {
            below.push(ant);
        } else {
            beyond.push(ant);
        }
        i = i + 1;
    }
    assert(queue@.take(i as int) == queue@);
    (below, beyond)
}

/// Moves every agent of `queue` on by `step` millionths.
pub fn advance_all(queue: &Vec<QueuedAnt>, step: u64) -> (moved: Vec<QueuedAnt>)
    ensures
        moved@ == advanced(queue@, step as int),
{
    let mut moved: Vec<QueuedAnt> = Vec::new();
    let mut i: usize = 0;
    while i < queue.len()
        invariant
            0 <= i <= queue@.len(),
            moved@.len() == i,
            forall|j: int| 0 <= j < i ==> #[trigger] moved@[j] == queue@[j].moved(step as int),
        decreases queue@.len() - i,
    {
        let ant = queue[i];
        moved.push(QueuedAnt { progress: ant.progress.saturating_add(step), ..ant });
        i = i + 1;
    }
    assert(moved@ =~= advanced(queue@, step as int));
    moved
}

/// What a corridor is, with its queue as a sequence.
pub struct SegmentView {
    pub start: Position,
    pub end: Position,
    pub queue: Seq<QueuedAnt>,
    pub move_rate: u32,
    pub intact: bool,
}

impl SegmentView {
    /// The progress that an agent makes in `dt` milliseconds, in millionths.
    pub open spec fn step(self, dt: u32) -> int {
        self.move_rate * dt
    }

    /// The corridor with `ant` at its entrance, behind those already inside.
    pub open spec fn entered(self, ant: QueuedAnt) -> SegmentView {
        SegmentView { queue: self.queue.push(ant.at_start()), ..self }
    }

    /// An intact corridor after `dt` milliseconds: every agent moved on, and those that
    /// have reached the end gone.
    pub open spec fn updated(self, dt: u32) -> SegmentView {
        SegmentView {
            queue: advanced(self.queue, self.step(dt)).filter(short_of(PROGRESS_ONE)),
            ..self
        }
    }

    /// The agents that emerge from an intact corridor within `dt` milliseconds, with
    /// the progress they arrive at, in queue order.
    pub open spec fn emerging(self, dt: u32) -> Seq<QueuedAnt> {
        advanced(self.queue, self.step(dt)).filter(reached(PROGRESS_ONE))
    }

    /// The corridor after a break at `break_progress`: no longer intact, and only the
    /// agents at or beyond the break still inside.
    pub open spec fn broken_at(self, break_progress: u64) -> SegmentView {
        SegmentView { queue: self.queue.filter(reached(break_progress)), intact: false, ..self }
    }

    /// The agents that a break at `break_progress` ejects, in queue order.
    pub open spec fn ejected_at(self, break_progress: u64) -> Seq<QueuedAnt> {
        self.queue.filter(short_of(break_progress))
    }

    /// The cell at which a break at `break_progress` lies.
    pub open spec fn break_position(self, break_progress: u64) -> Position {
        self.start.toward(self.end, break_progress, PROGRESS_ONE)
    }
}

impl View for TunnelSegment {
    type V = SegmentView;

    open spec fn view(&self) -> SegmentView {
        SegmentView {
            start: self.start,
            end: self.end,
            queue: self.queue@,
            move_rate: self.move_rate,
            intact: self.intact,
        }
    }
}

impl TunnelSegment {
    /// An intact, empty corridor.
    pub fn new(start: Position, end: Position, move_rate: u32) -> (segment: TunnelSegment)
        ensures
            segment@ == (SegmentView {
                start,
                end,
                queue: Seq::empty(),
                move_rate,
                intact: true,
            }),
    {
        TunnelSegment { start, end, queue: Vec::new(), move_rate, intact: true }
    }

    /// Puts `ant` at the entrance, behind those already inside. Whatever progress the
    /// record carried is set to zero.
    pub fn enqueue(&mut self, ant: QueuedAnt)
        ensures
            final(self)@ == old(self)@.entered(ant),
    {
        self.queue.push(QueuedAnt { progress: 0, ..ant });
    }

    /// Lets `dt` milliseconds pass. In an intact corridor every agent moves on by
    /// `move_rate * dt` millionths; those that have then reached the end leave the queue
    /// and are returned, in queue order, to emerge at `end`, and the rest stay, in
    /// order. A broken corridor does not advance: its agents keep their progress, none
    /// emerges, and nothing changes.
    pub fn update(&mut self, dt: u32) -> (emerged: Vec<QueuedAnt>)
        ensures
            old(self)@.intact ==> emerged@ == old(self)@.emerging(dt) && final(self)@ == old(
                self,
            )@.updated(dt),
            !old(self)@.intact ==> emerged@ == Seq::<QueuedAnt>::empty() && final(self)@ == old(
                self,
            )@,
    {
        if !self.intact {
            return Vec::new();
        }
        assert(self.move_rate * dt <= 0xffff_ffff * 0xffff_ffff) by (nonlinear_arith)
            requires
                0 <= self.move_rate <= 0xffff_ffff,
                0 <= dt <= 0xffff_ffff,
        ;
        let step: u64 = self.move_rate as u64 * dt as u64;
        let moved = advance_all(&self.queue, step);
        let (staying, emerged) = split_at_progress(&moved, PROGRESS_ONE);
        self.queue = staying;
        emerged
    }

    /// Breaks the corridor at `break_progress` millionths of its length. Returns the
    /// cell of the break, interpolated between `start` and `end`, and the agents that
    /// had not reached it, in queue order: they are ejected there. The agents at or
    /// beyond the break stay queued, and the corridor is no longer intact.
    pub fn break_at(&mut self, break_progress: u64) -> (r: (Position, Vec<QueuedAnt>))
        ensures
            r.0 == old(self)@.break_position(break_progress),
            r.1@ == old(self)@.ejected_at(break_progress),
            final(self)@ == old(self)@.broken_at(break_progress),
    {
        self.intact = false;
        let break_pos = self.start.interpolate(self.end, break_progress, PROGRESS_ONE);
        let (ejected, staying) = split_at_progress(&self.queue, break_progress);
        self.queue = staying;
        (break_pos, ejected)
    }
}

/// An agent that leaves a corridor, and the cell at which it enters the world.
#[derive(Clone, Copy, Debug, PartialEq, Eq, Structural)]
pub struct Emergence {
    pub position: Position,
    pub ant: QueuedAnt,
}

/// The agents of `ants`, each entering the world at `position`.
pub open spec fn emerging_at(ants: Seq<QueuedAnt>, position: Position) -> Seq<Emergence> {
    ants.map_values(|ant: QueuedAnt| Emergence { position, ant })
}

/// Whether `i` is the index of the first corridor that starts at `pos`.
pub open spec fn is_first_at(segments: Seq<SegmentView>, pos: Position, i: int) -> bool {
    &&& 0 <= i < segments.len()
    &&& segments[i].start == pos
    &&& forall|j: int| 0 <= j < i ==> (#[trigger] segments[j]).start != pos
}

/// Whether no corridor starts at `pos`.
pub open spec fn none_at(segments: Seq<SegmentView>, pos: Position) -> bool {
    forall|j: int| 0 <= j < segments.len() ==> (#[trigger] segments[j]).start != pos
}

/// The corridors `dt` milliseconds later: the intact ones updated, the broken ones as
/// they were.
pub open spec fn network_updated(segments: Seq<SegmentView>, dt: u32) -> Seq<SegmentView> {
    segments.map_values(
        |s: SegmentView|
            if s.intact {
                s.updated(dt)
            } else {
                s
            },
    )
}

/// The agents that emerge from the first `n` corridors within `dt` milliseconds:
/// corridor by corridor, in queue order within each, each at the end of its corridor.
/// A broken corridor lets nobody out.
pub open spec fn network_emerging(segments: Seq<SegmentView>, dt: u32, n: int) -> Seq<Emergence>
    decreases n,
{
    if n <= 0 {
        Seq::empty()
    } else {
        let earlier = network_emerging(segments, dt, n - 1);
        let s = segments[n - 1];
        if s.intact {
            earlier + emerging_at(s.emerging(dt), s.end)
        } else {
            earlier
        }
    }
}

/// Appends the agents of `ants` to `out`, each entering the world at `position`.
pub fn append_emerging(out: &mut Vec<Emergence>, ants: &Vec<QueuedAnt>, position: Position)
    ensures
        final(out)@ == old(out)@ + emerging_at(ants@, position),
{
    let mut i: usize = 0;
    while i < ants.len()
        invariant
            0 <= i <= ants@.len(),
            out@ == old(out)@ + emerging_at(ants@.take(i as int), position),
        decreases ants@.len() - i,
    {
        out.push(Emergence { position, ant: ants[i] });
        assert(emerging_at(ants@.take(i + 1), position) =~= emerging_at(
            ants@.take(i as int),
            position,
        ).push(Emergence { position, ant: ants@[i as int] }));
        i = i + 1;
    }
    assert(ants@.take(i as int) == ants@);
}

/// All corridors, in the order in which they were added.
pub struct TunnelNetwork {
    pub segments: Vec<TunnelSegment>,
}

impl View for TunnelNetwork {
    type V = Seq<SegmentView>;

    open spec fn view(&self) -> Seq<SegmentView> {
        self.segments@.map_values(|s: TunnelSegment| s@)
    }
}

impl TunnelNetwork {
    /// A network without corridors.
    pub fn new() -> (network: TunnelNetwork)
        ensures
            network@ == Seq::<SegmentView>::empty(),
    {
        let network = TunnelNetwork { segments: Vec::new() };
        assert(network@ =~= Seq::<SegmentView>::empty());
        network
    }

    /// Appends an intact, empty corridor.
    pub fn add_segment(&mut self, start: Position, end: Position, move_rate: u32)
        ensures
            final(self)@ == old(self)@.push(
                SegmentView { start, end, queue: Seq::empty(), move_rate, intact: true },
            ),
    {
        self.segments.push(TunnelSegment::new(start, end, move_rate));
        assert(self@ =~= old(self)@.push(
            SegmentView { start, end, queue: Seq::empty(), move_rate, intact: true },
        ));
    }

    /// The index of the first corridor that starts at `pos`.
    pub fn segment_index(&self, pos: Position) -> (r: Option<usize>)
        ensures
            match r {
                Some(i) => is_first_at(self@, pos, i as int),
                None => none_at(self@, pos),
            },
    {
        let mut i: usize = 0;
        while i < self.segments.len()
            invariant
                0 <= i <= self.segments@.len(),
                forall|j: int| 0 <= j < i ==> (#[trigger] self@[j]).start != pos,
            decreases self.segments@.len() - i,
        {
            if self.segments[i].start == pos {
                return Some(i);
            }
            i = i + 1;
        }
        None
    }

    /// The first corridor that starts at `pos`.
    pub fn segment_at(&self, pos: Position) -> (r: Option<&TunnelSegment>)
        ensures
            match r {
                Some(segment) => exists|i: int|
                    is_first_at(self@, pos, i) && self.segments@[i] == *segment,
                None => none_at(self@, pos),
            },
    {
        match self.segment_index(pos) {
            Some(i) => Some(&self.segments[i]),
            None => None,
        }
    }

    /// Lets `dt` milliseconds pass in every corridor and returns the agents that emerge,
    /// each with the cell at which it enters the world: the end of its corridor. A
    /// broken corridor does not advance: its agents neither move nor emerge.
    pub fn update(&mut self, dt: u32) -> (emerged: Vec<Emergence>)
        ensures
            final(self)@ == network_updated(old(self)@, dt),
            emerged@ == network_emerging(old(self)@, dt, old(self)@.len() as int),
    {
        let mut emerged: Vec<Emergence> = Vec::new();
        let mut i: usize = 0;
        while i < self.segments.len()
            invariant
                0 <= i <= self.segments@.len(),
                self.segments@.len() == old(self).segments@.len(),
                forall|j: int| 0 <= j < i ==> #[trigger] self@[j] == network_updated(old(self)@, dt)[j],
                forall|j: int|
                    i <= j < self.segments@.len() ==> #[trigger] self.segments@[j] == old(
                        self,
                    ).segments@[j],
                emerged@ == network_emerging(old(self)@, dt, i as int),
            decreases self.segments@.len() - i,
        {
            let ghost before = self.segments@;
            let ghost views = self@;
            assert(forall|j: int| 0 <= j < i ==> views[j] == before[j]@);
            let position = self.segments[i].end;
            let arrived = self.segments[i].update(dt);
            append_emerging(&mut emerged, &arrived, position);
            proof {
                assert(emerging_at(Seq::<QueuedAnt>::empty(), position) =~= Seq::<
                    Emergence,
                >::empty());
                assert(self.segments@.len() == before.len());
                assert forall|j: int| 0 <= j < i + 1 implies #[trigger] self@[j] == network_updated(
                    old(self)@,
                    dt,
                )[j] by {
                    if j < i {
                        assert(self.segments@[j] == before[j]);
                        assert(self@[j] == views[j]);
                    } else {
                        assert(before[j] == old(self).segments@[j]);
                        assert(old(self)@[j] == old(self).segments@[j]@);
                        assert(self@[j] == self.segments@[j]@);
                    }
                }
            }
            i = i + 1;
        }
        assert(self@ =~= network_updated(old(self)@, dt));
        emerged
    }

    /// The first corridor that starts at `pos`, to be changed in place.
    pub fn segment_at_mut(&mut self, pos: Position) -> (r: Option<&mut TunnelSegment>)
        ensures
            match r {
                Some(segment) => exists|i: int|
                    is_first_at(old(self)@, pos, i) && old(self).segments@[i] == *segment
                        && final(self).segments@ == old(self).segments@.update(i, *final(segment)),
                None => none_at(old(self)@, pos) && *final(self) == *old(self),
            },
    {
        match self.segment_index(pos) {
            Some(i) => Some(&mut self.segments[i]),
            None => None,
        }
    }
}

impl Default for TunnelNetwork {
    fn default() -> (network: TunnelNetwork)
        ensures
            network@ == Seq::<SegmentView>::empty(),
    {
        TunnelNetwork::new()
    }
}

/// A broken corridor stays broken and frozen. Nothing that can be done to a corridor
/// makes it intact again, and a tick, of the corridor itself or of the network, leaves
/// a broken corridor exactly as it was: its agents keep their progress and none of
/// them emerges.
pub proof fn lemma_broken_segment_is_frozen(
    segments: Seq<SegmentView>,
    dt: u32,
    i: int,
    ant: QueuedAnt,
    break_progress: u64,
)
    requires
        0 <= i < segments.len(),
        !segments[i].intact,
    ensures
        network_updated(segments, dt)[i] == segments[i],
        network_emerging(segments, dt, i + 1) == network_emerging(segments, dt, i),
        !segments[i].updated(dt).intact,
        !segments[i].entered(ant).intact,
        !segments[i].broken_at(break_progress).intact,
{
}

/// A tick of an intact corridor sorts the queue by the far end. Every agent that stays
/// is short of the end, every agent that emerges has reached it, and none is lost or
/// made: the two groups together are as many as the queue held.
pub proof fn lemma_update_partitions(segment: SegmentView, dt: u32)
    ensures
        forall|i: int|
            0 <= i < segment.updated(dt).queue.len() ==> (#[trigger] segment.updated(
                dt,
            ).queue[i]).progress < PROGRESS_ONE,
        forall|i: int|
            0 <= i < segment.emerging(dt).len() ==> (#[trigger] segment.emerging(dt)[i]).progress
                >= PROGRESS_ONE,
        segment.updated(dt).queue.len() + segment.emerging(dt).len() == segment.queue.len(),
{
    let moved = advanced(segment.queue, segment.step(dt));
    lemma_split_partitions(moved, PROGRESS_ONE);
}

/// A break sorts the queue by the place of the break. Every agent that is ejected was
/// short of it, every agent that stays had reached it, and none is lost or made.
pub proof fn lemma_break_partitions(segment: SegmentView, break_progress: u64)
    ensures
        forall|i: int|
            0 <= i < segment.ejected_at(break_progress).len() ==> (#[trigger] segment.ejected_at(
                break_progress,
            )[i]).progress < break_progress,
        forall|i: int|
            0 <= i < segment.broken_at(break_progress).queue.len() ==> (#[trigger] segment.broken_at(
                break_progress,
            ).queue[i]).progress >= break_progress,
        segment.ejected_at(break_progress).len() + segment.broken_at(break_progress).queue.len()
            == segment.queue.len(),
{
    lemma_split_partitions(segment.queue, break_progress);
}

/// Splitting a queue at a bound puts every agent on exactly one side.
pub proof fn lemma_split_partitions(queue: Seq<QueuedAnt>, bound: u64)
    ensures
        forall|i: int|
            0 <= i < queue.filter(short_of(bound)).len() ==> (#[trigger] queue.filter(
                short_of(bound),
            )[i]).progress < bound,
        forall|i: int|
            0 <= i < queue.filter(reached(bound)).len() ==> (#[trigger] queue.filter(
                reached(bound),
            )[i]).progress >= bound,
        queue.filter(short_of(bound)).len() + queue.filter(reached(bound)).len() == queue.len(),
    decreases queue.len(),
{
    reveal(Seq::filter);
    if queue.len() > 0 {
        lemma_split_partitions(queue.drop_last(), bound);
    }
}

} // verus!
