//! The target field: how attractive it is to attack each cell.
//!
//! The field is sparse. A cell without an entry is worth nothing, and storing the
//! value zero removes the entry, so every stored value is positive.

use crate::cell_table::CellTable;
use crate::position::Position;
use vstd::prelude::*;

verus! {

/// Desirability per cell. Used to decide where to go, not how to get there.
pub struct TargetField {
    values: CellTable,
}

/// Whether the cell `p` is the target that `highest_value_target` picks from `values`
/// for a search of half-width `range` around `from`: it is stored, it lies in the box,
/// no stored cell in the box is worth more, and among those worth as much none comes
/// before it in dictionary order of `(x, y, z)`.
pub open spec fn is_best_target(
    values: Map<(i32, i32, i32), u32>,
    from: Position,
    range: int,
    p: Position,
) -> bool {
    &&& values.contains_key(p.key())
    &&& p.in_box(from, range)
    &&& forall|k: (i32, i32, i32)|
        #![trigger values.contains_key(k)]
        values.contains_key(k) && Position::of_key(k).in_box(from, range) ==> values[k]
            < values[p.key()] || (values[k] == values[p.key()] && !Position::of_key(k).precedes(p))
}

/// Whether `candidate`, worth `value`, is preferred to `best`, worth `best_value`.
pub open spec fn beats(candidate: Position, value: u32, best: Position, best_value: u32) -> bool {
    value > best_value || (value == best_value && candidate.precedes(best))
}

/// The preferred candidate among `entries[..n]` that lie in the box, as an index, or
/// `None` where none of them lies in it.
pub open spec fn best_index(
    entries: Seq<((i32, i32, i32), u32)>,
    from: Position,
    range: int,
    n: int,
) -> Option<int>
    decreases n,
{
    if n <= 0 {
        None
    } else {
        let earlier = best_index(entries, from, range, n - 1);
        let candidate = Position::of_key(entries[n - 1].0);
        if !candidate.in_box(from, range) {
            earlier
        } else {
            match earlier {
                None => Some(n - 1),
                Some(b) => if beats(
                    candidate,
                    entries[n - 1].1,
                    Position::of_key(entries[b].0),
                    entries[b].1,
                ) {
                    Some(n - 1)
                } else {
                    earlier
                },
            }
        }
    }
}

/// What `best_index` finds: an index into the prefix whose entry lies in the box and is
/// beaten by no other entry of the prefix in the box; nothing, where the prefix has no
/// entry in the box.
pub proof fn lemma_best_index(
    entries: Seq<((i32, i32, i32), u32)>,
    from: Position,
    range: int,
    n: int,
)
    requires
        0 <= n <= entries.len(),
    ensures
        match best_index(entries, from, range, n) {
            None => forall|i: int|
                0 <= i < n ==> !Position::of_key(#[trigger] entries[i].0).in_box(from, range),
            Some(b) => {
                &&& 0 <= b < n
                &&& Position::of_key(entries[b].0).in_box(from, range)
                &&& forall|i: int|
                    0 <= i < n && Position::of_key(#[trigger] entries[i].0).in_box(from, range)
                        ==> !beats(
                        Position::of_key(entries[i].0),
                        entries[i].1,
                        Position::of_key(entries[b].0),
                        entries[b].1,
                    )
            },
        },
    decreases n,
{
    if n > 0 {
        lemma_best_index(entries, from, range, n - 1);
    }
}

/// Scans `entries` for the preferred candidate in the box around `from`.
pub fn best_in_box(entries: &Vec<((i32, i32, i32), u32)>, from: Position, max_range: i32) -> (r:
    Option<usize>)
    ensures
        match r {
            None => best_index(entries@, from, max_range as int, entries@.len() as int).is_none(),
            Some(b) => best_index(entries@, from, max_range as int, entries@.len() as int) == Some(
                b as int,
            ),
        },
{
    let mut best: Option<usize> = None;
    let mut i: usize = 0;
    while i < entries.len()
        invariant
            0 <= i <= entries@.len(),
            match best {
                None => best_index(entries@, from, max_range as int, i as int).is_none(),
                Some(b) => best_index(entries@, from, max_range as int, i as int) == Some(b as int)
                    && b < i,
            },
        decreases entries@.len() - i,
    {
        proof {
            lemma_best_index(entries@, from, max_range as int, i as int);
        }
        let candidate = Position::from_key(entries[i].0);
        if candidate.within_range(from, max_range) {
            match best {
                None => {
                    best = Some(i);
                },
                Some(b) => {
                    let held = Position::from_key(entries[b].0);
                    if entries[i].1 > entries[b].1 || (entries[i].1 == entries[b].1
                        && candidate.is_before(held)) {
                        best = Some(i);
                    }
                },
            }
        }
        i = i + 1;
    }
    best
}

impl View for TargetField {
    type V = Map<(i32, i32, i32), u32>;

    /// The stored entries, keyed by `Position::key`.
    closed spec fn view(&self) -> Map<(i32, i32, i32), u32> {
        self.values@
    }
}

impl TargetField {
    #[verifier::type_invariant]
    spec fn stored_values_positive(&self) -> bool {
        forall|k: (i32, i32, i32)| #[trigger] self.values@.contains_key(k) ==> self.values@[k] > 0
    }

    /// The value of a cell: what is stored for it, or zero.
    pub open spec fn value_at(&self, pos: Position) -> u32 {
        if self@.contains_key(pos.key()) {
            self@[pos.key()]
        } else {
            0
        }
    }

    /// A field in which every cell is worth nothing.
    pub fn new() -> (field: TargetField)
        ensures
            field@ == Map::<(i32, i32, i32), u32>::empty(),
    {
        TargetField { values: CellTable::new() }
    }

    /// Target value of `pos`; zero where nothing is stored.
    pub fn value(&self, pos: Position) -> (v: u32)
        ensures
            v == self.value_at(pos),
            (v > 0) == self@.contains_key(pos.key()),
    {
        proof {
            use_type_invariant(self);
        }
        match self.values.get(pos.to_key()) {
            Some(v) => v,
            None => 0,
        }
    }

    /// Stores `value` for `pos`. Zero deletes the entry; any other value inserts or
    /// overwrites it. No other cell changes.
    pub fn set_value(&mut self, pos: Position, value: u32)
        ensures
            value > 0 ==> final(self)@ == old(self)@.insert(pos.key(), value),
            value == 0 ==> final(self)@ == old(self)@.remove(pos.key()),
            final(self).value_at(pos) == value,
    {
        proof {
            use_type_invariant(&*self);
        }
        let mut values = CellTable::new();
        std::mem::swap(&mut self.values, &mut values);
        if value > 0 {
            values.insert(pos.to_key(), value);
        } else {
            values.remove(pos.to_key());
        }
        proof {
            assert forall|k: (i32, i32, i32)| #[trigger] values@.contains_key(k) implies values@[k]
                > 0 by {
                if k != pos.key() {
                    assert(old(self).values@.contains_key(k));
                }
            }
        }
        self.values = values;
    }

    /// The most valuable stored cell within `max_range` of `from` on each axis
    /// separately (a box, not a ball), with its value. Among cells of equal value the
    /// first in dictionary order of `(x, y, z)` is returned, so the answer depends on the
    /// stored entries alone. `None` exactly where no stored cell lies in the box.
    pub fn highest_value_target(&self, from: Position, max_range: i32) -> (r: Option<
        (Position, u32),
    >)
        ensures
            r.is_none() <==> (forall|k: (i32, i32, i32)| #[trigger]
                self@.contains_key(k) ==> !Position::of_key(k).in_box(from, max_range as int)),
            r.is_some() ==> is_best_target(self@, from, max_range as int, r.unwrap().0)
                && r.unwrap().1 == self@[r.unwrap().0.key()] && r.unwrap().1 > 0,
    {
        proof {
            use_type_invariant(self);
        }
        let entries = self.values.entries();
        let found = best_in_box(&entries, from, max_range);
        proof {
            lemma_best_index(entries@, from, max_range as int, entries@.len() as int);
        }
        match found {
            None => {
                assert forall|k: (i32, i32, i32)| #[trigger]
                    self@.contains_key(k) implies !Position::of_key(k).in_box(
                    from,
                    max_range as int,
                ) by {
                    let i = choose|i: int| 0 <= i < entries@.len() && #[trigger] entries@[i].0 == k;
                    assert(!Position::of_key(entries@[i].0).in_box(from, max_range as int));
                }
                None
            },
            Some(b) => {
                let p = Position::from_key(entries[b].0);
                let v = entries[b].1;
                proof {
                    assert(self@.contains_key(entries@[b as int].0));
                    assert(p.key() == entries@[b as int].0);
                    assert forall|k: (i32, i32, i32)|
                        #![trigger self@.contains_key(k)]
                        self@.contains_key(k) && Position::of_key(k).in_box(
                            from,
                            max_range as int,
                        ) implies self@[k] < self@[p.key()] || (self@[k] == self@[p.key()]
                        && !Position::of_key(k).precedes(p)) by {
                        let i = choose|i: int|
                            0 <= i < entries@.len() && #[trigger] entries@[i].0 == k;
                        assert(Position::of_key(entries@[i].0).in_box(from, max_range as int));
                        assert(self@.contains_key(entries@[i].0));
                    }
                }
                Some((p, v))
            },
        }
    }
}

/// The choice of target is determined by the stored entries: two cells that both
/// qualify as the best target of one search are the same cell. Repeated searches of
/// an unchanged field therefore return the same target, ties included.
pub proof fn lemma_best_target_is_unique(
    values: Map<(i32, i32, i32), u32>,
    from: Position,
    range: int,
    p: Position,
    q: Position,
)
    requires
        is_best_target(values, from, range, p),
        is_best_target(values, from, range, q),
    ensures
        p == q,
{
    assert(values.contains_key(p.key()));
    assert(values.contains_key(q.key()));
    assert(Position::of_key(p.key()) == p);
    assert(Position::of_key(q.key()) == q);
}

/// No axis of the target found is farther from the searcher than the range, and
/// nothing is found within a negative range.
pub proof fn lemma_best_target_in_range(
    values: Map<(i32, i32, i32), u32>,
    from: Position,
    range: int,
    p: Position,
)
    requires
        is_best_target(values, from, range, p),
    ensures
        crate::position::axis_gap(p.x as int, from.x as int) <= range,
        crate::position::axis_gap(p.y as int, from.y as int) <= range,
        crate::position::axis_gap(p.z as int, from.z as int) <= range,
        range >= 0,
{
}

/// Storing a value and then zero leaves no entry: the cell is worth nothing and no
/// search finds it, whatever was stored for it before.
pub proof fn lemma_set_then_clear(
    values: Map<(i32, i32, i32), u32>,
    pos: Position,
    value: u32,
    from: Position,
    range: int,
)
    ensures
        !values.insert(pos.key(), value).remove(pos.key()).contains_key(pos.key()),
        values.insert(pos.key(), value).remove(pos.key()) == values.remove(pos.key()),
        !is_best_target(values.remove(pos.key()), from, range, pos),
{
    assert(values.insert(pos.key(), value).remove(pos.key()) =~= values.remove(pos.key()));
}

impl Default for TargetField {
    fn default() -> (field: TargetField)
        ensures
            field@ == Map::<(i32, i32, i32), u32>::empty(),
    {
        TargetField::new()
    }
}

} // verus!
