//! The terrain: features, and the chunks that store them.
//!
//! The world is a grid in three dimensions, stored chunk by chunk. A chunk comes into
//! being, full of open air, the first time a feature is put into one of its cells;
//! cells of chunks that were never touched hold nothing at all.

pub mod chunk;
pub mod generate;
pub mod tile;
pub mod z_level;

use crate::cell_table::CellTable;
use crate::position::Position;
use crate::world::chunk::{lemma_cell_at_slot, lemma_slot_of_cell};
use crate::world::chunk::{Chunk, LocalPosition, CHUNK_CELLS};
use crate::world::tile::Tile;
use vstd::prelude::*;

verus! {

/// The chunk that a cell belongs to.
pub open spec fn chunk_of(cell: (i32, i32, i32)) -> (i32, i32, i32) {
    ((cell.0 as int / 16) as i32, (cell.1 as int / 16) as i32, (cell.2 as int / 16) as i32)
}

/// Where a cell stands in its chunk.
pub open spec fn local_of(cell: (i32, i32, i32)) -> LocalPosition {
    LocalPosition {
        x: (cell.0 as int % 16) as u32,
        y: (cell.1 as int % 16) as u32,
        z: (cell.2 as int % 16) as u32,
    }
}

/// Where a cell stands among the cells of its chunk.
pub open spec fn slot_of(cell: (i32, i32, i32)) -> int {
    local_of(cell).slot()
}

/// The cell at `local` of `chunk`.
pub open spec fn cell_at(chunk: (i32, i32, i32), local: LocalPosition) -> (i32, i32, i32) {
    ((chunk.0 * 16 + local.x) as i32, (chunk.1 * 16 + local.y) as i32, (chunk.2 * 16 + local.z) as i32)
}

/// The cell that stands at `slot` of `chunk`.
pub open spec fn cell_in(chunk: (i32, i32, i32), slot: int) -> (i32, i32, i32) {
    cell_at(chunk, LocalPosition::at_slot(slot))
}

/// A coordinate made of a chunk's coordinate and an offset splits into the two.
pub proof fn lemma_axis_joined(chunk: int, offset: int)
    requires
        0 <= offset < 16,
    ensures
        (chunk * 16 + offset) / 16 == chunk,
        (chunk * 16 + offset) % 16 == offset,
{
    vstd::arithmetic::div_mod::lemma_fundamental_div_mod_converse(
        chunk * 16 + offset,
        16,
        chunk,
        offset,
    );
}

/// A coordinate is made of its chunk's coordinate and its offset.
pub proof fn lemma_axis_split(v: int)
    ensures
        v == 16 * (v / 16) + v % 16,
        0 <= v % 16 < 16,
        -0x8000_0000 <= v <= 0x7fff_ffff ==> -0x800_0000 <= v / 16 <= 0x7ff_ffff,
{
    vstd::arithmetic::div_mod::lemma_fundamental_div_mod(v, 16);
}

/// Whether a chunk lies inside the grid, so that each of its cells has coordinates.
pub open spec fn chunk_in_grid(chunk: (i32, i32, i32)) -> bool {
    &&& -0x800_0000 <= chunk.0 <= 0x7ff_ffff
    &&& -0x800_0000 <= chunk.1 <= 0x7ff_ffff
    &&& -0x800_0000 <= chunk.2 <= 0x7ff_ffff
}

/// `cells` with the chunk `chunk` opened: cells of it that held nothing hold open air.
pub open spec fn opened(cells: Map<(i32, i32, i32), Tile>, chunk: (i32, i32, i32)) -> Map<
    (i32, i32, i32),
    Tile,
> {
    Map::new(
        |c: (i32, i32, i32)| cells.contains_key(c) || chunk_of(c) == chunk,
        |c: (i32, i32, i32)|
            if cells.contains_key(c) {
                cells[c]
            } else {
                Tile::Air
            },
    )
}

/// Cells and chunks determine each other.
pub proof fn lemma_cell_in_chunk(chunk: (i32, i32, i32), slot: int)
    requires
        chunk_in_grid(chunk),
        0 <= slot < CHUNK_CELLS,
    ensures
        chunk_of(cell_in(chunk, slot)) == chunk,
        slot_of(cell_in(chunk, slot)) == slot,
{
    let local = LocalPosition::at_slot(slot);
    lemma_cell_at_slot(slot);
    lemma_axis_joined(chunk.0 as int, local.x as int);
    lemma_axis_joined(chunk.1 as int, local.y as int);
    lemma_axis_joined(chunk.2 as int, local.z as int);
}

/// Every cell stands at a slot of a chunk inside the grid.
pub proof fn lemma_chunk_of_cell(cell: (i32, i32, i32))
    ensures
        chunk_in_grid(chunk_of(cell)),
        0 <= slot_of(cell) < CHUNK_CELLS,
        cell_in(chunk_of(cell), slot_of(cell)) == cell,
{
    lemma_axis_split(cell.0 as int);
    lemma_axis_split(cell.1 as int);
    lemma_axis_split(cell.2 as int);
    lemma_slot_of_cell(local_of(cell));
}

/// Splits a cell into its chunk and its place in the chunk.
pub fn locate(pos: Position) -> (r: ((i32, i32, i32), LocalPosition))
    ensures
        r.0 == chunk_of(pos.key()),
        r.1 == local_of(pos.key()),
        r.1.in_chunk(),
        r.1.slot() == slot_of(pos.key()),
{
    let (cx, lx) = locate_axis(pos.x);
    let (cy, ly) = locate_axis(pos.y);
    let (cz, lz) = locate_axis(pos.z);
    ((cx, cy, cz), LocalPosition { x: lx, y: ly, z: lz })
}

/// One coordinate, split into the chunk's coordinate and the offset inside the chunk.
pub fn locate_axis(v: i32) -> (r: (i32, u32))
    ensures
        r.0 == v as int / 16,
        r.1 == v as int % 16,
        r.1 < 16,
{
    let shifted: u64 = (v as i64 + 0x8000_0000) as u64;
    proof {
        lemma_axis_split(v as int);
        vstd::arithmetic::div_mod::lemma_fundamental_div_mod_converse(
            shifted as int,
            16,
            v as int / 16 + 0x800_0000,
            v as int % 16,
        );
    }
    ((((shifted / 16) as i64) - 0x800_0000) as i32, (shifted % 16) as u32)
}

/// The cell at a place of a chunk.
pub fn world_position(chunk: (i32, i32, i32), local: LocalPosition) -> (pos: Position)
    requires
        chunk_in_grid(chunk),
        local.in_chunk(),
    ensures
        pos.key() == cell_at(chunk, local),
        pos.key() == cell_in(chunk, local.slot()),
{
    proof {
        lemma_slot_of_cell(local);
    }
    Position {
        x: chunk.0 * 16 + local.x as i32,
        y: chunk.1 * 16 + local.y as i32,
        z: chunk.2 * 16 + local.z as i32,
    }
}

/// A change of the feature at one cell, as the terrain reports it.
#[derive(Clone, Copy, Debug, PartialEq, Eq, Structural)]
pub struct TileChangedEvent {
    pub position: Position,
    pub old_tile: Tile,
    pub new_tile: Tile,
}

/// The terrain.
pub struct GameWorld {
    /// Chunk coordinates to the place of the chunk in `keys` and `chunks`.
    index: CellTable,
    keys: Vec<(i32, i32, i32)>,
    chunks: Vec<Chunk>,
    surface_z: i32,
}

impl View for GameWorld {
    type V = Map<(i32, i32, i32), Tile>;

    /// The feature at every cell of every chunk that exists.
    closed spec fn view(&self) -> Map<(i32, i32, i32), Tile> {
        Map::new(
            |c: (i32, i32, i32)| self.index@.contains_key(chunk_of(c)),
            |c: (i32, i32, i32)| self.chunks@[self.index@[chunk_of(c)] as int]@[slot_of(c)],
        )
    }
}

impl GameWorld {
    #[verifier::type_invariant]
    spec fn indexed(&self) -> bool {
        &&& self.keys@.len() == self.chunks@.len()
        &&& self.keys@.len() <= u32::MAX
        &&& forall|i: int|
            0 <= i < self.keys@.len() ==> {
                &&& self.index@.contains_key(#[trigger] self.keys@[i])
                &&& self.index@[self.keys@[i]] == i
                &&& chunk_in_grid(self.keys@[i])
            }
        &&& forall|k: (i32, i32, i32)| #[trigger]
            self.index@.contains_key(k) ==> self.index@[k] < self.keys@.len()
                && self.keys@[self.index@[k] as int] == k
    }

    /// The coordinates of the chunks that exist, in the order in which they came to be.
    pub closed spec fn chunk_keys(&self) -> Seq<(i32, i32, i32)> {
        self.keys@
    }

    /// The features of each chunk that exists, in the same order.
    pub closed spec fn chunk_tiles(&self) -> Seq<Seq<Tile>> {
        self.chunks@.map_values(|c: Chunk| c@)
    }

    /// For each chunk that exists, in the same order, whether it has changed since
    /// routes were last computed through it.
    pub closed spec fn chunk_flags(&self) -> Seq<bool> {
        self.chunks@.map_values(|c: Chunk| c.dirty())
    }

    /// The layer of the surface.
    pub closed spec fn surface(&self) -> i32 {
        self.surface_z
    }

    /// How the chunks make up the world: each chunk lies in the grid and occurs once,
    /// the cells that hold something are the cells of the chunks, and each holds what
    /// its chunk holds at its slot.
    pub open spec fn made_of_chunks(&self) -> bool {
        &&& self.chunk_keys().len() == self.chunk_tiles().len()
        &&& forall|i: int|
            0 <= i < self.chunk_keys().len() ==> chunk_in_grid(#[trigger] self.chunk_keys()[i])
        &&& forall|i: int, j: int|
            0 <= i < j < self.chunk_keys().len() ==> #[trigger] self.chunk_keys()[i]
                != #[trigger] self.chunk_keys()[j]
        &&& forall|c: (i32, i32, i32)| #[trigger]
            self@.contains_key(c) <==> self.chunk_keys().contains(chunk_of(c))
        &&& forall|i: int, slot: int|
            0 <= i < self.chunk_keys().len() && 0 <= slot < CHUNK_CELLS ==> self@[cell_in(
                self.chunk_keys()[i],
                slot,
            )] == #[trigger] self.chunk_tiles()[i][slot]
    }

    /// A world without chunks, with the surface at layer zero.
    pub fn new() -> (world: GameWorld)
        ensures
            world@ == Map::<(i32, i32, i32), Tile>::empty(),
            world.chunk_keys().len() == 0,
            world.surface() == 0,
    {
        let world = GameWorld {
            index: CellTable::new(),
            keys: Vec::new(),
            chunks: Vec::new(),
            surface_z: 0,
        };
        assert(world@ =~= Map::<(i32, i32, i32), Tile>::empty());
        world
    }

    /// The layer of the surface.
    pub fn surface_z(&self) -> (z: i32)
        ensures
            z == self.surface(),
    {
        self.surface_z
    }

    /// Moves the surface to layer `z`. The terrain does not change.
    pub fn set_surface_z(&mut self, z: i32)
        ensures
            final(self).surface() == z,
            final(self)@ == old(self)@,
            final(self).chunk_keys() == old(self).chunk_keys(),
            final(self).chunk_tiles() == old(self).chunk_tiles(),
            final(self).chunk_flags() == old(self).chunk_flags(),
    {
        proof {
            use_type_invariant(&*self);
        }
        self.surface_z = z;
    }

    /// How many chunks exist.
    pub fn chunk_count(&self) -> (n: usize)
        ensures
            n == self.chunk_keys().len(),
            n <= u32::MAX,
            self.made_of_chunks(),
    {
        proof {
            use_type_invariant(self);
            self.lemma_made_of_chunks();
        }
        self.keys.len()
    }

    proof fn lemma_made_of_chunks(&self)
        requires
            self.indexed(),
        ensures
            self.made_of_chunks(),
    {
        assert forall|c: (i32, i32, i32)| #[trigger]
            self@.contains_key(c) <==> self.chunk_keys().contains(chunk_of(c)) by {
            if self@.contains_key(c) {
                assert(self.index@.contains_key(chunk_of(c)));
                assert(self.keys@[self.index@[chunk_of(c)] as int] == chunk_of(c));
            }
            if self.chunk_keys().contains(chunk_of(c)) {
                let i = choose|i: int| 0 <= i < self.keys@.len() && self.keys@[i] == chunk_of(c);
                assert(self.index@.contains_key(self.keys@[i]));
            }
        }
        assert forall|i: int, slot: int|
            0 <= i < self.chunk_keys().len() && 0 <= slot < CHUNK_CELLS implies self@[cell_in(
            self.chunk_keys()[i],
            slot,
        )] == #[trigger] self.chunk_tiles()[i][slot] by {
            lemma_cell_in_chunk(self.keys@[i], slot);
            assert(self.index@.contains_key(self.keys@[i]));
        }
        assert forall|i: int, j: int| 0 <= i < j < self.chunk_keys().len() implies #[trigger]
            self.chunk_keys()[i] != #[trigger] self.chunk_keys()[j] by {
            assert(self.index@[self.keys@[i]] == i);
            assert(self.index@[self.keys@[j]] == j);
        }
    }

    /// The coordinates of the `i`-th chunk.
    pub fn chunk_key(&self, i: usize) -> (key: (i32, i32, i32))
        requires
            i < self.chunk_keys().len(),
        ensures
            key == self.chunk_keys()[i as int],
            chunk_in_grid(key),
    {
        proof {
            use_type_invariant(self);
        }
        self.keys[i]
    }

    /// The `i`-th chunk.
    pub fn chunk(&self, i: usize) -> (chunk: &Chunk)
        requires
            i < self.chunk_keys().len(),
        ensures
            chunk@ == self.chunk_tiles()[i as int],
            chunk.dirty() == self.chunk_flags()[i as int],
    {
        proof {
            use_type_invariant(self);
        }
        &self.chunks[i]
    }

    /// The feature at `pos`, or `None` where the cell lies in no chunk.
    pub fn get_tile(&self, pos: Position) -> (r: Option<&Tile>)
        ensures
            r.is_some() == self@.contains_key(pos.key()),
            r.is_some() ==> *r.unwrap() == self@[pos.key()],
    {
        proof {
            use_type_invariant(self);
        }
        let (chunk_key, local) = locate(pos);
        let found = self.index.get(chunk_key);
        assert(self.index@.contains_key(chunk_key) == found.is_some());
        match found {
            Some(i) => Some(self.chunks[i as usize].get_tile(local)),
            None => None,
        }
    }

    /// Puts `tile` at `pos`. Where the cell lies in no chunk yet, its chunk comes into
    /// being first, full of open air. No other cell changes. A world holds fewer than
    /// 2^32 chunks: a new chunk needs room.
    pub fn set_tile(&mut self, pos: Position, tile: Tile)
        requires
            old(self)@.contains_key(pos.key()) || old(self).chunk_keys().len() < u32::MAX,
        ensures
            final(self)@ == opened(old(self)@, chunk_of(pos.key())).insert(pos.key(), tile),
            old(self)@.contains_key(pos.key()) ==> final(self)@ == old(self)@.insert(
                pos.key(),
                tile,
            ) && final(self).chunk_keys() == old(self).chunk_keys(),
            !old(self)@.contains_key(pos.key()) ==> final(self).chunk_keys() == old(
                self,
            ).chunk_keys().push(chunk_of(pos.key())),
            final(self).chunk_flags().len() == final(self).chunk_keys().len(),
            forall|i: int|
                0 <= i < final(self).chunk_keys().len() ==> #[trigger] final(self).chunk_flags()[i]
                    == (final(self).chunk_keys()[i] == chunk_of(pos.key()) || old(
                    self,
                ).chunk_flags()[i]),
            final(self).surface() == old(self).surface(),
    {
        proof {
            use_type_invariant(&*self);
            lemma_chunk_of_cell(pos.key());
        }
        let (chunk_key, local) = locate(pos);
        let mut taken = GameWorld::new();
        std::mem::swap(self, &mut taken);
        let GameWorld { mut index, mut keys, mut chunks, surface_z } = taken;
        let found = index.get(chunk_key);
        assert(index@.contains_key(chunk_key) == found.is_some());
        match found {
            Some(i) => {
                chunks[i as usize].set_tile(local, tile);
            },
            None => {
                let mut chunk = Chunk::new();
                chunk.set_tile(local, tile);
                let slot = keys.len() as u32;
                index.insert(chunk_key, slot);
                keys.push(chunk_key);
                chunks.push(chunk);
            },
        }
        proof {
            assert forall|k: (i32, i32, i32)| #[trigger] index@.contains_key(k) implies index@[k]
                < keys@.len() && keys@[index@[k] as int] == k by {
                if k != chunk_key {
                    assert(old(self).index@.contains_key(k));
                }
            }
            assert forall|i: int| 0 <= i < keys@.len() implies index@.contains_key(
                #[trigger] keys@[i],
            ) && index@[keys@[i]] == i && chunk_in_grid(keys@[i]) by {
                if i < old(self).keys@.len() {
                    assert(old(self).index@.contains_key(old(self).keys@[i]));
                }
            }
        }
        *self = GameWorld { index, keys, chunks, surface_z };
        proof {
            let target = opened(old(self)@, chunk_of(pos.key())).insert(pos.key(), tile);
            assert forall|c: (i32, i32, i32)| self@.contains_key(c) == target.contains_key(
                c,
            ) by {
                if chunk_of(c) != chunk_key {
                    assert(self.index@.contains_key(chunk_of(c)) == old(self).index@.contains_key(
                        chunk_of(c),
                    ));
                }
            }
            assert forall|c: (i32, i32, i32)| self@.contains_key(c) implies self@[c] == target[c] by {
                lemma_chunk_of_cell(c);
                let k = chunk_of(c);
                if let Some(i) = found {
                    assert(old(self).index@.contains_key(chunk_key));
                    old(self).chunks@[i as int].lemma_cells();
                }
                if k != chunk_key {
                    assert(old(self).index@.contains_key(k));
                    let j = old(self).index@[k] as int;
                    assert(old(self).keys@[j] == k);
                    assert(self.index@[k] == j);
                    if let Some(i) = found {
                        assert(old(self).keys@[i as int] == chunk_key);
                        assert(i != j);
                    }
                    assert(self.chunks@[j] == old(self).chunks@[j]);
                    assert(old(self)@.contains_key(c));
                    assert(self@[c] == old(self)@[c]);
                } else if c != pos.key() {
                    assert(slot_of(c) != slot_of(pos.key()));
                    match found {
                        Some(i) => {
                            assert(self.index@[k] == i);
                            assert(old(self)@.contains_key(c));
                            assert(self.chunks@[i as int]@[slot_of(c)] == old(
                                self,
                            ).chunks@[i as int]@[slot_of(c)]);
                        },
                        None => {
                            assert(!old(self)@.contains_key(c));
                            assert(self.index@[k] == old(self).keys@.len());
                            assert(self.chunks@[old(self).keys@.len() as int]@[slot_of(c)]
                                == Tile::Air);
                        },
                    }
                } else {
                    match found {
                        Some(i) => {
                            assert(self.index@[k] == i);
                        },
                        None => {
                            assert(self.index@[k] == old(self).keys@.len());
                        },
                    }
                }
            }
            assert(self@ =~= target);
            if old(self)@.contains_key(pos.key()) {
                assert(opened(old(self)@, chunk_of(pos.key())) =~= old(self)@);
            }
            assert forall|i: int| 0 <= i < self.chunk_keys().len() implies #[trigger]
                self.chunk_flags()[i] == (self.chunk_keys()[i] == chunk_of(pos.key()) || old(
                self,
            ).chunk_flags()[i]) by {
                if let Some(j) = found {
                    assert(old(self).index@.contains_key(chunk_key));
                    if i != j {
                        assert(old(self).index@.contains_key(old(self).keys@[i]));
                    }
                } else {
                    if i < old(self).keys@.len() {
                        assert(old(self).index@.contains_key(old(self).keys@[i]));
                    }
                }
            }
        }
    }
}

impl Default for GameWorld {
    fn default() -> (world: GameWorld)
        ensures
            world@ == Map::<(i32, i32, i32), Tile>::empty(),
            world.chunk_keys().len() == 0,
            world.surface() == 0,
    {
        GameWorld::new()
    }
}

} // verus!
