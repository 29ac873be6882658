//! Terrain is stored in cubes of sixteen cells a side.

use crate::world::tile::Tile;
use vstd::prelude::*;

verus! {

/// Cells along one side of a chunk.
pub const CHUNK_SIZE: usize = 16;

/// Cells in a chunk.
pub const CHUNK_CELLS: usize = 4096;

/// A cell of a chunk, counted from the chunk's corner.
#[derive(Clone, Copy, Debug, PartialEq, Eq, Structural)]
pub struct LocalPosition {
    pub x: u32,
    pub y: u32,
    pub z: u32,
}

impl LocalPosition {
    /// Whether the cell lies inside a chunk.
    pub open spec fn in_chunk(self) -> bool {
        self.x < CHUNK_SIZE && self.y < CHUNK_SIZE && self.z < CHUNK_SIZE
    }

    /// Where the cell stands among the cells of its chunk: `x` counts most, `z` least.
    pub open spec fn slot(self) -> int {
        self.x * 256 + self.y * 16 + self.z
    }

    /// The cell that stands at `slot`.
    pub open spec fn at_slot(slot: int) -> LocalPosition {
        LocalPosition {
            x: (slot / 256) as u32,
            y: ((slot / 16) % 16) as u32,
            z: (slot % 16) as u32,
        }
    }

    pub fn new(x: u32, y: u32, z: u32) -> (p: LocalPosition)
        ensures
            p == (LocalPosition { x, y, z }),
    {
        LocalPosition { x, y, z }
    }

    /// Whether the cell lies inside a chunk.
    pub fn is_in_chunk(&self) -> (b: bool)
        ensures
            b == self.in_chunk(),
    {
        self.x < 16 && self.y < 16 && self.z < 16
    }

    /// The cell that stands at `slot`.
    pub fn from_slot(slot: usize) -> (p: LocalPosition)
        requires
            slot < CHUNK_CELLS,
        ensures
            p == LocalPosition::at_slot(slot as int),
            p.in_chunk(),
            p.slot() == slot,
    {
        proof {
            lemma_cell_at_slot(slot as int);
        }
        LocalPosition { x: (slot / 256) as u32, y: ((slot / 16) % 16) as u32, z: (slot % 16) as u32 }
    }

    /// Where the cell stands among the cells of its chunk.
    pub fn to_slot(&self) -> (slot: usize)
        requires
            self.in_chunk(),
        ensures
            slot == self.slot(),
            slot < CHUNK_CELLS,
            LocalPosition::at_slot(slot as int) == *self,
    {
        proof {
            lemma_slot_of_cell(*self);
        }
        (self.x as usize) * 256 + (self.y as usize) * 16 + (self.z as usize)
    }
}

/// Cells and slots of a chunk determine each other.
pub proof fn lemma_slot_of_cell(pos: LocalPosition)
    requires
        pos.in_chunk(),
    ensures
        0 <= pos.slot() < CHUNK_CELLS,
        LocalPosition::at_slot(pos.slot()) == pos,
{
    let slot = pos.slot();
    vstd::arithmetic::div_mod::lemma_fundamental_div_mod_converse(
        slot,
        256,
        pos.x as int,
        pos.y * 16 + pos.z,
    );
    vstd::arithmetic::div_mod::lemma_fundamental_div_mod_converse(
        slot,
        16,
        pos.x * 16 + pos.y,
        pos.z as int,
    );
    vstd::arithmetic::div_mod::lemma_fundamental_div_mod_converse(
        pos.x * 16 + pos.y,
        16,
        pos.x as int,
        pos.y as int,
    );
}

/// Every slot of a chunk is the slot of one of its cells.
pub proof fn lemma_cell_at_slot(slot: int)
    requires
        0 <= slot < CHUNK_CELLS,
    ensures
        LocalPosition::at_slot(slot).in_chunk(),
        LocalPosition::at_slot(slot).slot() == slot,
{
    let high = slot / 16;
    vstd::arithmetic::div_mod::lemma_fundamental_div_mod(slot, 16);
    vstd::arithmetic::div_mod::lemma_fundamental_div_mod(high, 16);
    assert(0 <= high < 256);
    assert(0 <= high / 16 < 16);
    vstd::arithmetic::div_mod::lemma_fundamental_div_mod_converse(
        slot,
        256,
        high / 16,
        (high % 16) * 16 + slot % 16,
    );
}

/// Sixteen by sixteen by sixteen features.
pub struct Chunk {
    tiles: Vec<Tile>,
    flow_field_dirty: bool,
}

impl View for Chunk {
    type V = Seq<Tile>;

    /// The features of the chunk, each at the slot of its cell.
    closed spec fn view(&self) -> Seq<Tile> {
        Seq::new(CHUNK_CELLS as nat, |i: int| self.tiles@[i])
    }
}

impl Chunk {
    #[verifier::type_invariant]
    spec fn full(&self) -> bool {
        self.tiles@.len() == CHUNK_CELLS
    }

    /// Whether the chunk has changed since routes were last computed through it.
    pub closed spec fn dirty(&self) -> bool {
        self.flow_field_dirty
    }

    /// A chunk has a feature for each of its cells.
    pub proof fn lemma_cells(&self)
        ensures
            self@.len() == CHUNK_CELLS,
    {
    }

    /// A chunk of open air.
    pub fn new() -> (chunk: Chunk)
        ensures
            chunk@ == Seq::new(CHUNK_CELLS as nat, |i: int| Tile::Air),
            chunk.dirty(),
    {
        Chunk::filled(Tile::Air)
    }

    /// A chunk in which every cell holds `tile`.
    pub fn filled(tile: Tile) -> (chunk: Chunk)
        ensures
            chunk@ == Seq::new(CHUNK_CELLS as nat, |i: int| tile),
            chunk.dirty(),
    {
        let mut tiles: Vec<Tile> = Vec::new();
        let mut i: usize = 0;
        while i < CHUNK_CELLS
            invariant
                0 <= i <= CHUNK_CELLS,
                tiles@.len() == i,
                forall|j: int| 0 <= j < i ==> #[trigger] tiles@[j] == tile,
            decreases CHUNK_CELLS - i,
        {
            tiles.push(tile);
            i = i + 1;
        }
        let chunk = Chunk { tiles, flow_field_dirty: true };
        assert(chunk@ =~= Seq::new(CHUNK_CELLS as nat, |i: int| tile));
        chunk
    }

    /// The feature at a cell of the chunk.
    pub fn get_tile(&self, pos: LocalPosition) -> (tile: &Tile)
        requires
            pos.in_chunk(),
        ensures
            *tile == self@[pos.slot()],
    {
        proof {
            use_type_invariant(self);
        }
        &self.tiles[pos.to_slot()]
    }

    /// Puts `tile` at a cell of the chunk and marks the chunk as changed.
    pub fn set_tile(&mut self, pos: LocalPosition, tile: Tile)
        requires
            pos.in_chunk(),
        ensures
            final(self)@ == old(self)@.update(pos.slot(), tile),
            final(self).dirty(),
    {
        proof {
            use_type_invariant(&*self);
        }
        let slot = pos.to_slot();
        self.tiles[slot] = tile;
        self.flow_field_dirty = true;
        assert(self@ =~= old(self)@.update(pos.slot(), tile));
    }

    /// Whether the chunk has changed since routes were last computed through it.
    pub fn is_dirty(&self) -> (b: bool)
        ensures
            b == self.dirty(),
    {
        self.flow_field_dirty
    }

    /// Every cell of the chunk with its feature, `x` outermost and `z` innermost.
    pub fn iter_tiles(&self) -> (cells: Vec<(LocalPosition, Tile)>)
        ensures
            cells@.len() == CHUNK_CELLS,
            forall|i: int|
                0 <= i < CHUNK_CELLS ==> #[trigger] cells@[i] == (
                    LocalPosition::at_slot(i),
                    self@[i],
                ),
    {
        proof {
            use_type_invariant(self);
        }
        let mut cells: Vec<(LocalPosition, Tile)> = Vec::new();
        let mut i: usize = 0;
        while i < CHUNK_CELLS
            invariant
                0 <= i <= CHUNK_CELLS,
                self.tiles@.len() == CHUNK_CELLS,
                cells@.len() == i,
                forall|j: int|
                    0 <= j < i ==> #[trigger] cells@[j] == (LocalPosition::at_slot(j), self@[j]),
            decreases CHUNK_CELLS - i,
        {
            cells.push((LocalPosition::from_slot(i), self.tiles[i]));
            i = i + 1;
        }
        cells
    }
}

impl Default for Chunk {
    fn default() -> (chunk: Chunk)
        ensures
            chunk@ == Seq::new(CHUNK_CELLS as nat, |i: int| Tile::Air),
            chunk.dirty(),
    {
        Chunk::new()
    }
}

} // verus!
