//! The traversal field: how hard it is to cross each cell.
//!
//! The cost of a cell is the cost of the feature that occupies it, which follows the
//! feature's durability. A cell the field knows nothing about costs the maximum, never
//! zero: zero would make the void the most attractive place there is.

use crate::cell_table::CellTable;
use crate::position::Position;
use crate::step_table::StepTable;
use crate::world::chunk::{LocalPosition, CHUNK_CELLS};
use crate::world::tile::Tile;
use crate::world::{cell_in, chunk_in_grid, chunk_of, slot_of};
use crate::world::{lemma_cell_in_chunk, lemma_chunk_of_cell};
use crate::world::{world_position, GameWorld, TileChangedEvent};
use vstd::prelude::*;

verus! {

/// The cost of a cell that the field knows nothing about.
pub const UNKNOWN_COST: u32 = u32::MAX;

/// The cost of every cell of `cells`.
pub open spec fn costs_of(cells: Map<(i32, i32, i32), Tile>) -> Map<(i32, i32, i32), u32> {
    Map::new(|c: (i32, i32, i32)| cells.contains_key(c), |c: (i32, i32, i32)| cells[c].cost() as u32)
}

/// Whether a change of terrain changes what the cell costs.
pub open spec fn changes_cost(event: TileChangedEvent) -> bool {
    event.old_tile.cost() != event.new_tile.cost()
}

/// `costs` with the changes of `events[..n]` patched in, one after the other.
pub open spec fn patched(
    costs: Map<(i32, i32, i32), u32>,
    events: Seq<TileChangedEvent>,
    n: int,
) -> Map<(i32, i32, i32), u32>
    decreases n,
{
    if n <= 0 {
        costs
    } else {
        let earlier = patched(costs, events, n - 1);
        let event = events[n - 1];
        if changes_cost(event) {
            earlier.insert(event.position.key(), event.new_tile.cost() as u32)
        } else {
            earlier
        }
    }
}

/// Whether any of `events[..n]` changes what its cell costs.
pub open spec fn any_changes_cost(events: Seq<TileChangedEvent>, n: int) -> bool {
    exists|i: int| 0 <= i < n && changes_cost(#[trigger] events[i])
}

/// Cost per cell, a step toward the goal per cell, and whether the field is stale.
pub struct TraversalField {
    costs: CellTable,
    flow_directions: StepTable,
    dirty: bool,
}

impl TraversalField {
    /// The costs the field holds, keyed by `Position::key`.
    pub closed spec fn costs(&self) -> Map<(i32, i32, i32), u32> {
        self.costs@
    }

    /// The steps the field holds, keyed by `Position::key`.
    pub closed spec fn flows(&self) -> Map<(i32, i32, i32), (i32, i32, i32)> {
        self.flow_directions@
    }

    /// Whether the field is waiting to be recomputed.
    pub closed spec fn stale(&self) -> bool {
        self.dirty
    }

    /// The cost of a cell: what the field holds for it, or the maximum.
    pub open spec fn cost_at(&self, pos: Position) -> u32 {
        if self.costs().contains_key(pos.key()) {
            self.costs()[pos.key()]
        } else {
            UNKNOWN_COST
        }
    }

    /// The step from a cell toward the goal, where the field holds one.
    pub open spec fn flow_at(&self, pos: Position) -> Option<Position> {
        if self.flows().contains_key(pos.key()) {
            Some(Position::of_key(self.flows()[pos.key()]))
        } else {
            None
        }
    }

    /// A field that knows no cell and is not stale.
    pub fn new() -> (field: TraversalField)
        ensures
            field.costs() == Map::<(i32, i32, i32), u32>::empty(),
            field.flows() == Map::<(i32, i32, i32), (i32, i32, i32)>::empty(),
            !field.stale(),
    {
        TraversalField { costs: CellTable::new(), flow_directions: StepTable::new(), dirty: false }
    }

    /// Cost of crossing `pos`; the maximum where the field holds nothing for it.
    pub fn cost(&self, pos: Position) -> (c: u32)
        ensures
            c == self.cost_at(pos),
    {
        match self.costs.get(pos.to_key()) {
            Some(c) => c,
            None => UNKNOWN_COST,
        }
    }

    /// The step to take from `pos` toward the goal; `None` where no route through the
    /// cell has been computed.
    pub fn flow_direction(&self, pos: Position) -> (r: Option<Position>)
        ensures
            r == self.flow_at(pos),
    {
        match self.flow_directions.get(pos.to_key()) {
            Some(step) => Some(Position::from_key(step)),
            None => None,
        }
    }

    /// Records the step to take from `pos`. Costs and staleness do not change.
    pub fn set_flow_direction(&mut self, pos: Position, step: Position)
        ensures
            final(self).flows() == old(self).flows().insert(pos.key(), step.key()),
            final(self).costs() == old(self).costs(),
            final(self).stale() == old(self).stale(),
    {
        self.flow_directions.insert(pos.to_key(), step.to_key());
    }

    /// Whether the field is waiting to be recomputed.
    pub fn is_dirty(&self) -> (b: bool)
        ensures
            b == self.stale(),
    {
        self.dirty
    }

    /// Marks the field as needing to be recomputed. Nothing else changes.
    pub fn mark_dirty(&mut self)
        ensures
            final(self).stale(),
            final(self).costs() == old(self).costs(),
            final(self).flows() == old(self).flows(),
    {
        self.dirty = true;
    }

    /// Takes note of one change of terrain. Where the change alters the cost of the
    /// cell, the new cost is patched in at once, so that readers see it before the
    /// field is recomputed, and the field becomes stale. Otherwise nothing changes.
    pub fn apply_tile_change(&mut self, event: &TileChangedEvent)
        ensures
            final(self).costs() == patched(old(self).costs(), seq![*event], 1),
            final(self).stale() == (old(self).stale() || changes_cost(*event)),
            final(self).flows() == old(self).flows(),
            changes_cost(*event) ==> final(self).cost_at(event.position) == event.new_tile.cost(),
    {
        let old_cost = event.old_tile.traversal_cost();
        let new_cost = event.new_tile.traversal_cost();
        if old_cost != new_cost {
            self.dirty = true;
            self.costs.insert(event.position.to_key(), new_cost);
        }
        proof {
            reveal_with_fuel(patched, 2);
        }
    }

    /// Recomputes the cost of every cell from the terrain. The costs held before are
    /// dropped: afterwards the field holds exactly the cells of `world`, each at the
    /// cost of its feature. Steps and staleness do not change.
    pub fn recalculate(&mut self, world: &GameWorld)
        ensures
            final(self).costs() == costs_of(world@),
            final(self).flows() == old(self).flows(),
            final(self).stale() == old(self).stale(),
    {
        self.costs.clear();
        let count = world.chunk_count();
        let ghost keys = world.chunk_keys();
        let mut i: usize = 0;
        while i < count
            invariant
                0 <= i <= count,
                count == keys.len(),
                keys == world.chunk_keys(),
                world.made_of_chunks(),
                self.flow_directions == old(self).flow_directions,
                self.dirty == old(self).dirty,
                forall|c: (i32, i32, i32)| #[trigger]
                    self.costs@.contains_key(c) <==> covered(keys, c, i as int, 0),
                forall|c: (i32, i32, i32)| #[trigger]
                    self.costs@.contains_key(c) ==> self.costs@[c] == world@[c].cost(),
            decreases count - i,
        {
            let key = world.chunk_key(i);
            let cells = world.chunk(i).iter_tiles();
            let mut n: usize = 0;
            while n < CHUNK_CELLS
                invariant
                    0 <= n <= CHUNK_CELLS,
                    0 <= i < count,
                    count == keys.len(),
                    keys == world.chunk_keys(),
                    world.made_of_chunks(),
                    key == keys[i as int],
                    cells@.len() == CHUNK_CELLS,
                    forall|m: int|
                        0 <= m < CHUNK_CELLS ==> (#[trigger] cells@[m]).1 == world@[cell_in(key, m)],
                    self.flow_directions == old(self).flow_directions,
                    self.dirty == old(self).dirty,
                    forall|c: (i32, i32, i32)| #[trigger]
                        self.costs@.contains_key(c) <==> covered(keys, c, i as int, n as int),
                    forall|c: (i32, i32, i32)| #[trigger]
                        self.costs@.contains_key(c) ==> self.costs@[c] == world@[c].cost(),
                decreases CHUNK_CELLS - n,
            {
                let tile = cells[n].1;
                let pos = world_position(key, LocalPosition::from_slot(n));
                let ghost before = self.costs@;
                self.costs.insert(pos.to_key(), tile.traversal_cost());
                proof {
                    assert(pos.key() == cell_in(key, n as int));
                    assert forall|c: (i32, i32, i32)| #[trigger]
                        self.costs@.contains_key(c) <==> covered(keys, c, i as int, n + 1) by {
                        lemma_covered_step(keys, c, i as int, n as int);
                        assert(before.contains_key(c) <==> covered(keys, c, i as int, n as int));
                    }
                    assert forall|c: (i32, i32, i32)| #[trigger]
                        self.costs@.contains_key(c) implies self.costs@[c] == world@[c].cost() by {
                        if c != pos.key() {
                            assert(before.contains_key(c));
                        }
                    }
                }
                n = n + 1;
            }
            proof {
                assert forall|c: (i32, i32, i32)| #[trigger]
                    self.costs@.contains_key(c) <==> covered(keys, c, i + 1, 0) by {
                    lemma_covered_next(keys, c, i as int);
                }
            }
            i = i + 1;
        }
        proof {
            assert forall|c: (i32, i32, i32)|
                self.costs@.contains_key(c) == world@.contains_key(c) by {
                if world@.contains_key(c) {
                    assert(keys.contains(chunk_of(c)));
                    let j = choose|j: int| 0 <= j < keys.len() && keys[j] == chunk_of(c);
                    assert(0 <= j < i && keys[j] == chunk_of(c));
                }
                if self.costs@.contains_key(c) {
                    assert(covered(keys, c, i as int, 0));
                    let j = choose|j: int| 0 <= j < i && #[trigger] keys[j] == chunk_of(c);
                    assert(keys.contains(chunk_of(c)));
                }
            }
            assert(self.costs@ =~= costs_of(world@));
        }
    }

    /// One tick of the field. The changes of terrain are patched in, in order; then, if
    /// the field is stale, whether from one of them or from before, every cost is
    /// recomputed from `world`. Afterwards the field is not stale. Steps do not change.
    pub fn update(&mut self, world: &GameWorld, events: &Vec<TileChangedEvent>)
        ensures
            !final(self).stale(),
            final(self).flows() == old(self).flows(),
            final(self).costs() == (if old(self).stale() || any_changes_cost(
                events@,
                events@.len() as int,
            ) {
                costs_of(world@)
            } else {
                old(self).costs()
            }),
    {
        let mut i: usize = 0;
        while i < events.len()
            invariant
                0 <= i <= events@.len(),
                self.flows() == old(self).flows(),
                self.costs() == patched(old(self).costs(), events@, i as int),
                self.stale() == (old(self).stale() || any_changes_cost(events@, i as int)),
            decreases events@.len() - i,
        {
            let ghost before = self.costs();
            self.apply_tile_change(&events[i]);
            proof {
                reveal_with_fuel(patched, 2);
                assert(patched(before, seq![events@[i as int]], 1) == patched(
                    old(self).costs(),
                    events@,
                    i + 1,
                ));
                if changes_cost(events@[i as int]) {
                    assert(any_changes_cost(events@, i + 1));
                }
            }
            i = i + 1;
        }
        proof {
            lemma_patched_without_change(old(self).costs(), events@, events@.len() as int);
        }
        if self.dirty {
            self.recalculate(world);
            self.dirty = false;
        }
    }
}

/// A cell that no terrain was ever recorded for is unknown to the field. A new field
/// holds no cost and no step; costs recomputed from a world hold nothing for the cells
/// that the world holds nothing for; and patching in changes of terrain gives a cost
/// to no cell but those of the changes.
pub proof fn lemma_unassigned_cell_is_unknown(
    cells: Map<(i32, i32, i32), Tile>,
    costs: Map<(i32, i32, i32), u32>,
    events: Seq<TileChangedEvent>,
    n: int,
    cell: (i32, i32, i32),
)
    requires
        0 <= n <= events.len(),
    ensures
        !cells.contains_key(cell) ==> !costs_of(cells).contains_key(cell),
        !costs.contains_key(cell) && (forall|i: int|
            0 <= i < n ==> (#[trigger] events[i]).position.key() != cell) ==> !patched(
            costs,
            events,
            n,
        ).contains_key(cell),
    decreases n,
{
    if n > 0 {
        lemma_unassigned_cell_is_unknown(cells, costs, events, n - 1, cell);
        if !costs.contains_key(cell) && (forall|i: int|
            0 <= i < n ==> (#[trigger] events[i]).position.key() != cell) {
            assert(events[n - 1].position.key() != cell);
            assert forall|i: int| 0 <= i < n - 1 implies (#[trigger] events[i]).position.key()
                != cell by {
                assert(0 <= i < n);
            }
        }
    }
}

/// Changes that alter no cost leave the costs as they were.
pub proof fn lemma_patched_without_change(
    costs: Map<(i32, i32, i32), u32>,
    events: Seq<TileChangedEvent>,
    n: int,
)
    requires
        0 <= n <= events.len(),
    ensures
        !any_changes_cost(events, n) ==> patched(costs, events, n) == costs,
    decreases n,
{
    if n > 0 {
        lemma_patched_without_change(costs, events, n - 1);
        if !any_changes_cost(events, n) {
            assert(!changes_cost(events[n - 1]));
            assert forall|i: int| 0 <= i < n - 1 implies !changes_cost(#[trigger] events[i]) by {
                assert(0 <= i < n);
            }
        }
    }
}

/// Whether a recomputation that has done the first `i` chunks, and the first `n` slots
/// of the next, has come to the cell `c`.
pub open spec fn covered(keys: Seq<(i32, i32, i32)>, c: (i32, i32, i32), i: int, n: int) -> bool {
    ||| exists|j: int| 0 <= j < i && #[trigger] keys[j] == chunk_of(c)
    ||| (0 <= i < keys.len() && keys[i] == chunk_of(c) && slot_of(c) < n)
}

/// Doing one more slot covers one more cell: the one at that slot.
pub proof fn lemma_covered_step(keys: Seq<(i32, i32, i32)>, c: (i32, i32, i32), i: int, n: int)
    requires
        0 <= i < keys.len(),
        0 <= n < CHUNK_CELLS,
        chunk_in_grid(keys[i]),
    ensures
        covered(keys, c, i, n + 1) <==> covered(keys, c, i, n) || c == cell_in(keys[i], n),
{
    lemma_chunk_of_cell(c);
    lemma_cell_in_chunk(keys[i], n);
}

/// A chunk whose slots are all done is done.
pub proof fn lemma_covered_next(keys: Seq<(i32, i32, i32)>, c: (i32, i32, i32), i: int)
    requires
        0 <= i < keys.len(),
    ensures
        covered(keys, c, i, CHUNK_CELLS as int) <==> covered(keys, c, i + 1, 0),
{
    lemma_chunk_of_cell(c);
    if covered(keys, c, i + 1, 0) {
        let j = choose|j: int| 0 <= j < i + 1 && #[trigger] keys[j] == chunk_of(c);
        if j < i {
            assert(0 <= j < i && keys[j] == chunk_of(c));
        }
    }
    if covered(keys, c, i, CHUNK_CELLS as int) {
        if exists|j: int| 0 <= j < i && #[trigger] keys[j] == chunk_of(c) {
            let j = choose|j: int| 0 <= j < i && #[trigger] keys[j] == chunk_of(c);
            assert(0 <= j < i + 1 && keys[j] == chunk_of(c));
        } else {
            assert(0 <= i < i + 1 && keys[i] == chunk_of(c));
        }
    }
}

impl Default for TraversalField {
    fn default() -> (field: TraversalField)
        ensures
            field.costs() == Map::<(i32, i32, i32), u32>::empty(),
            field.flows() == Map::<(i32, i32, i32), (i32, i32, i32)>::empty(),
            !field.stale(),
    {
        TraversalField::new()
    }
}

} // verus!
