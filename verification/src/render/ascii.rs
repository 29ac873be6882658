//! A layer of the world as text, one character per cell.

use crate::position::Position;
use crate::visibility::fog::{FogOfWar, TileVisibility};
use crate::world::tile::Tile;
use crate::world::GameWorld;
use vstd::prelude::*;

verus! {

/// The character for a cell whose chunk does not exist.
pub const VOID_GLYPH: char = '~';

/// The character for a cell the player has never seen.
pub const UNKNOWN_GLYPH: char = ' ';

/// The character for a sonar contact.
pub const CONTACT_GLYPH: char = '?';

/// The character that stands for a cell: what the player knows of it decides whether
/// the feature shows.
pub open spec fn glyph_of(visibility: TileVisibility, tile: Option<Tile>) -> char {
    match visibility {
        TileVisibility::Unknown => UNKNOWN_GLYPH,
        TileVisibility::SonarContact => CONTACT_GLYPH,
        _ => match tile {
            Some(t) => t.glyph(),
            None => VOID_GLYPH,
        },
    }
}

/// The feature at a cell, if the cell holds one.
pub open spec fn tile_at(cells: Map<(i32, i32, i32), Tile>, cell: (i32, i32, i32)) -> Option<Tile> {
    if cells.contains_key(cell) {
        Some(cells[cell])
    } else {
        None
    }
}

/// The character at column `i` of the row `y` of layer `z`: cells and blanks in turn.
pub open spec fn row_glyph(
    cells: Map<(i32, i32, i32), Tile>,
    fog: FogOfWar,
    y: i32,
    z: i32,
    i: int,
) -> char {
    if i % 2 == 1 {
        ' '
    } else {
        glyph_of(fog.seen(((i / 2) as i32, y, z)), tile_at(cells, ((i / 2) as i32, y, z)))
    }
}

/// The character that stands for a cell.
pub fn ascii_glyph(visibility: TileVisibility, tile: Option<&Tile>) -> (c: char)
    ensures
        c == glyph_of(
            visibility,
            match tile {
                Some(t) => Some(*t),
                None => None,
            },
        ),
{
    match visibility {
        TileVisibility::Unknown => UNKNOWN_GLYPH,
        TileVisibility::SonarContact => CONTACT_GLYPH,
        _ => match tile {
            Some(t) => t.to_ascii(),
            None => VOID_GLYPH,
        },
    }
}

/// One row of a layer: the cells from `x = 0` to `x = width - 1`, each followed by a
/// blank.
pub fn ascii_row(world: &GameWorld, fog: &FogOfWar, y: i32, z: i32, width: i32) -> (row: Vec<char>)
    ensures
        row@.len() == (if width > 0 {
            2 * width
        } else {
            0
        }),
        forall|i: int| 0 <= i < row@.len() ==> #[trigger] row@[i] == row_glyph(world@, *fog, y, z, i),
{
    let mut row: Vec<char> = Vec::new();
    let mut x: i32 = 0;
    while x < width
        invariant
            0 <= x,
            x <= width || width < 0,
            width <= 0 ==> x == 0,
            row@.len() == 2 * x,
            forall|i: int| 0 <= i < row@.len() ==> #[trigger] row@[i] == row_glyph(
                world@,
                *fog,
                y,
                z,
                i,
            ),
        decreases width - x,
    {
        let pos = Position { x, y, z };
        let c = ascii_glyph(fog.get(pos), world.get_tile(pos));
        row.push(c);
        row.push(' ');
        x = x + 1;
    }
    row
}

/// A square view of layer `z`: `view_size` rows of `view_size` cells, the row with the
/// largest `y` first.
pub fn render_layer(world: &GameWorld, fog: &FogOfWar, z: i32, view_size: i32) -> (rows: Vec<
    Vec<char>,
>)
    ensures
        rows@.len() == (if view_size > 0 {
            view_size as int
        } else {
            0
        }),
        forall|r: int|
            0 <= r < rows@.len() ==> {
                &&& (#[trigger] rows@[r])@.len() == 2 * view_size
                &&& forall|i: int|
                    0 <= i < 2 * view_size ==> #[trigger] rows@[r]@[i] == row_glyph(
                        world@,
                        *fog,
                        (view_size - 1 - r) as i32,
                        z,
                        i,
                    )
            },
{
    let mut rows: Vec<Vec<char>> = Vec::new();
    let mut y: i32 = view_size;
    while y > 0
        invariant
            0 <= y <= view_size || view_size < 0,
            y <= view_size,
            view_size > 0 ==> rows@.len() == view_size - y,
            view_size <= 0 ==> rows@.len() == 0,
            forall|r: int|
                0 <= r < rows@.len() ==> {
                    &&& (#[trigger] rows@[r])@.len() == 2 * view_size
                    &&& forall|i: int|
                        0 <= i < 2 * view_size ==> #[trigger] rows@[r]@[i] == row_glyph(
                            world@,
                            *fog,
                            (view_size - 1 - r) as i32,
                            z,
                            i,
                        )
                },
        decreases y,
    {
        y = y - 1;
        let row = ascii_row(world, fog, y, z, view_size);
        rows.push(row);
    }
    rows
}

} // verus!
