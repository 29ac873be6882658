//! The world a game starts in: a square of open surface over dirt over stone.

use crate::position::Position;
use crate::world::tile::Tile;
use crate::world::{chunk_of, opened, GameWorld};
use vstd::prelude::*;

verus! {

/// Durability of the dirt a game starts with.
pub const DIRT_HP: u16 = 50;

/// Durability of the stone a game starts with.
pub const STONE_HP: u16 = 100;

/// The side of the square that a game starts with.
pub const WORLD_SIZE: i32 = 32;

/// `cells` with `tile` put at `cell`, the chunk of the cell opened first.
pub open spec fn put(cells: Map<(i32, i32, i32), Tile>, cell: (i32, i32, i32), tile: Tile) -> Map<
    (i32, i32, i32),
    Tile,
> {
    opened(cells, chunk_of(cell)).insert(cell, tile)
}

/// The dirt a game starts with.
pub open spec fn fresh_dirt() -> Tile {
    Tile::Dirt { hp: DIRT_HP, max_hp: DIRT_HP }
}

/// The stone a game starts with.
pub open spec fn fresh_stone() -> Tile {
    Tile::Stone { hp: STONE_HP, max_hp: STONE_HP }
}

/// `cells` with the column at `(x, y)` laid: open air at the surface, dirt one layer
/// down, stone two layers down.
pub open spec fn column(cells: Map<(i32, i32, i32), Tile>, x: i32, y: i32) -> Map<
    (i32, i32, i32),
    Tile,
> {
    put(put(put(cells, (x, y, 0i32), Tile::Air), (x, y, -1i32), fresh_dirt()), (x, y, -2i32), fresh_stone())
}

/// `cells` with the first `n` columns of a square of side `size` laid, row by row.
pub open spec fn generated(cells: Map<(i32, i32, i32), Tile>, size: int, n: int) -> Map<
    (i32, i32, i32),
    Tile,
>
    decreases n,
{
    if n <= 0 {
        cells
    } else {
        column(generated(cells, size, n - 1), ((n - 1) / size) as i32, ((n - 1) % size) as i32)
    }
}

/// Putting a feature into a cell keeps every other cell that held something.
pub proof fn lemma_put_keeps(
    cells: Map<(i32, i32, i32), Tile>,
    cell: (i32, i32, i32),
    tile: Tile,
    other: (i32, i32, i32),
)
    ensures
        put(cells, cell, tile).contains_key(cell),
        put(cells, cell, tile)[cell] == tile,
        other != cell && cells.contains_key(other) ==> put(cells, cell, tile).contains_key(other)
            && put(cells, cell, tile)[other] == cells[other],
{
}

/// Laying a column leaves its three features in place and keeps every cell of every
/// other column.
pub proof fn lemma_column(cells: Map<(i32, i32, i32), Tile>, x: i32, y: i32, other: (i32, i32, i32))
    ensures
        column(cells, x, y).contains_key((x, y, 0i32)),
        column(cells, x, y)[(x, y, 0i32)] == Tile::Air,
        column(cells, x, y).contains_key((x, y, -1i32)),
        column(cells, x, y)[(x, y, -1i32)] == fresh_dirt(),
        column(cells, x, y).contains_key((x, y, -2i32)),
        column(cells, x, y)[(x, y, -2i32)] == fresh_stone(),
        (other.0 != x || other.1 != y) && cells.contains_key(other) ==> column(
            cells,
            x,
            y,
        ).contains_key(other) && column(cells, x, y)[other] == cells[other],
{
    let first = put(cells, (x, y, 0i32), Tile::Air);
    let second = put(first, (x, y, -1i32), fresh_dirt());
    lemma_put_keeps(cells, (x, y, 0i32), Tile::Air, other);
    lemma_put_keeps(first, (x, y, -1i32), fresh_dirt(), other);
    lemma_put_keeps(second, (x, y, -2i32), fresh_stone(), other);
    lemma_put_keeps(first, (x, y, -1i32), fresh_dirt(), (x, y, 0i32));
    lemma_put_keeps(second, (x, y, -2i32), fresh_stone(), (x, y, 0i32));
    lemma_put_keeps(second, (x, y, -2i32), fresh_stone(), (x, y, -1i32));
}

/// What a generated world holds. In a square of side `size` of which `n` columns are
/// laid, each laid column holds open air at the surface, dirt one layer down and
/// stone two layers down, whatever the world held there before.
pub proof fn lemma_generated_layers(
    cells: Map<(i32, i32, i32), Tile>,
    size: int,
    n: int,
    x: i32,
    y: i32,
)
    requires
        0 < size <= i32::MAX,
        0 <= n <= size * size,
        0 <= x < size,
        0 <= y < size,
        x * size + y < n,
    ensures
        generated(cells, size, n).contains_key((x, y, 0i32)),
        generated(cells, size, n)[(x, y, 0i32)] == Tile::Air,
        generated(cells, size, n).contains_key((x, y, -1i32)),
        generated(cells, size, n)[(x, y, -1i32)] == fresh_dirt(),
        generated(cells, size, n).contains_key((x, y, -2i32)),
        generated(cells, size, n)[(x, y, -2i32)] == fresh_stone(),
    decreases n,
{
    let earlier = generated(cells, size, n - 1);
    let last_x = ((n - 1) / size) as i32;
    let last_y = ((n - 1) % size) as i32;
    lemma_last_column(size, n);
    if x * size + y == n - 1 {
        vstd::arithmetic::div_mod::lemma_fundamental_div_mod_converse(n - 1, size, x as int, y as int);
        lemma_column(earlier, x, y, (x, y, 0i32));
    } else {
        lemma_generated_layers(cells, size, n - 1, x, y);
        if last_x == x && last_y == y {
            vstd::arithmetic::div_mod::lemma_fundamental_div_mod(n - 1, size);
            assert(size * ((n - 1) / size) == ((n - 1) / size) * size) by (nonlinear_arith);
        }
        lemma_column(earlier, last_x, last_y, (x, y, 0i32));
        lemma_column(earlier, last_x, last_y, (x, y, -1i32));
        lemma_column(earlier, last_x, last_y, (x, y, -2i32));
    }
}

/// The last of `n` columns lies inside the square.
pub proof fn lemma_last_column(size: int, n: int)
    requires
        0 < size,
        0 < n <= size * size,
    ensures
        0 <= (n - 1) / size < size,
        0 <= (n - 1) % size < size,
{
    vstd::arithmetic::div_mod::lemma_fundamental_div_mod(n - 1, size);
    let q = (n - 1) / size;
    assert(0 <= q < size) by (nonlinear_arith)
        requires
            0 < size,
            0 <= n - 1 < size * size,
            n - 1 == size * q + (n - 1) % size,
            0 <= (n - 1) % size < size,
    ;
}

/// Lays the column at `(x, y)`.
pub fn lay_column(world: &mut GameWorld, x: i32, y: i32)
    requires
        old(world).chunk_keys().len() + 3 <= u32::MAX,
    ensures
        final(world)@ == column(old(world)@, x, y),
        old(world).chunk_keys().len() <= final(world).chunk_keys().len() <= old(
            world,
        ).chunk_keys().len() + 3,
        final(world).surface() == old(world).surface(),
{
    world.set_tile(Position { x, y, z: 0 }, Tile::Air);
    world.set_tile(Position { x, y, z: -1 }, Tile::Dirt { hp: DIRT_HP, max_hp: DIRT_HP });
    world.set_tile(Position { x, y, z: -2 }, Tile::Stone { hp: STONE_HP, max_hp: STONE_HP });
}

/// Lays a square of side `size` with its corner at the origin: open air at the
/// surface, dirt one layer down, stone two layers down. A side of zero or less lays
/// nothing.
pub fn generate(world: &mut GameWorld, size: i32)
    requires
        size > 0 ==> old(world).chunk_keys().len() + 3 * size * size <= u32::MAX,
    ensures
        final(world)@ == generated(old(world)@, size as int, if size > 0 {
            size * size
        } else {
            0
        }),
        final(world).surface() == old(world).surface(),
{
    if size <= 0 {
        return ;
    }
    let ghost start = world.chunk_keys().len();
    let mut x: i32 = 0;
    while x < size
        invariant
            0 <= x <= size,
            size > 0,
            start + 3 * size * size <= u32::MAX,
            world.chunk_keys().len() <= start + 3 * (x * size),
            world@ == generated(old(world)@, size as int, x * size),
            world.surface() == old(world).surface(),
        decreases size - x,
    {
        let mut y: i32 = 0;
        while y < size
            invariant
                0 <= y <= size,
                0 <= x < size,
                start + 3 * size * size <= u32::MAX,
                world.chunk_keys().len() <= start + 3 * (x * size + y),
                world@ == generated(old(world)@, size as int, x * size + y),
                world.surface() == old(world).surface(),
            decreases size - y,
        {
            proof {
                assert(3 * (x * size + y) + 3 <= 3 * size * size) by (nonlinear_arith)
                    requires
                        0 <= x < size,
                        0 <= y < size,
                ;
                vstd::arithmetic::div_mod::lemma_fundamental_div_mod_converse(
                    x * size + y,
                    size as int,
                    x as int,
                    y as int,
                );
            }
            lay_column(world, x, y);
            y = y + 1;
        }
        proof {
            assert(x * size + size == (x + 1) * size) by (nonlinear_arith);
        }
        x = x + 1;
    }
    proof {
        assert(x * size == size * size);
    }
}

} // verus!
