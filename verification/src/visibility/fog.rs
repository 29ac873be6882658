//! Fog of war: what the player has seen of each cell.
//!
//! Everything from the surface up is always visible. Below the surface a cell is
//! unknown until something reveals it.

use crate::cell_table::CellTable;
use crate::position::Position;
use vstd::prelude::*;

verus! {

/// What the player knows of a cell.
#[derive(Clone, Copy, Debug, PartialEq, Eq, Structural)]
pub enum TileVisibility {
    /// Never seen.
    Unknown,
    /// Seen before, not in view now.
    Revealed,
    /// In view.
    Visible,
    /// Something was detected there; what, is not known.
    SonarContact,
}

impl Default for TileVisibility {
    fn default() -> (v: TileVisibility)
        ensures
            v == TileVisibility::Unknown,
    {
        TileVisibility::Unknown
    }
}

impl TileVisibility {
    /// The number under which a state is stored.
    pub open spec fn code(self) -> u32 {
        match self {
            TileVisibility::Unknown => 0,
            TileVisibility::Revealed => 1,
            TileVisibility::Visible => 2,
            TileVisibility::SonarContact => 3,
        }
    }

    /// The state that a stored number stands for.
    pub open spec fn of_code(code: u32) -> TileVisibility {
        if code == 1 {
            TileVisibility::Revealed
        } else if code == 2 {
            TileVisibility::Visible
        } else if code == 3 {
            TileVisibility::SonarContact
        } else {
            TileVisibility::Unknown
        }
    }

    /// What a state becomes when the view is cleared: what was in view, or a contact,
    /// is merely revealed.
    pub open spec fn faded(self) -> TileVisibility {
        match self {
            TileVisibility::Visible => TileVisibility::Revealed,
            TileVisibility::SonarContact => TileVisibility::Revealed,
            other => other,
        }
    }

    pub fn to_code(self) -> (code: u32)
        ensures
            code == self.code(),
            TileVisibility::of_code(code) == self,
    {
        match self {
            TileVisibility::Unknown => 0,
            TileVisibility::Revealed => 1,
            TileVisibility::Visible => 2,
            TileVisibility::SonarContact => 3,
        }
    }

    pub fn from_code(code: u32) -> (v: TileVisibility)
        ensures
            v == TileVisibility::of_code(code),
    {
        if code == 1 {
            TileVisibility::Revealed
        } else if code == 2 {
            TileVisibility::Visible
        } else if code == 3 {
            TileVisibility::SonarContact
        } else {
            TileVisibility::Unknown
        }
    }
}

/// Whether the cell `c` lies in the box of half-widths `rx`, `ry`, `rz` around `center`
/// and comes, in the order in which the box is swept, before the cell at offset
/// `(x, y, z)` from the centre.
pub open spec fn swept(
    c: (i32, i32, i32),
    center: Position,
    rx: int,
    ry: int,
    rz: int,
    x: int,
    y: int,
    z: int,
) -> bool {
    let dx = c.0 - center.x;
    let dy = c.1 - center.y;
    let dz = c.2 - center.z;
    &&& -rx <= dx <= rx
    &&& -ry <= dy <= ry
    &&& -rz <= dz <= rz
    &&& (dx < x || (dx == x && (dy < y || (dy == y && dz < z))))
}

/// Whether the cell `c` lies in the box of half-widths `rx`, `ry`, `rz` around `center`.
pub open spec fn in_sweep(c: (i32, i32, i32), center: Position, rx: int, ry: int, rz: int) -> bool {
    &&& -rx <= c.0 - center.x <= rx
    &&& -ry <= c.1 - center.y <= ry
    &&& -rz <= c.2 - center.z <= rz
}

/// What the player has seen of the world.
pub struct FogOfWar {
    visibility: CellTable,
    surface_z: i32,
}

impl FogOfWar {
    /// What is recorded per cell, keyed by `Position::key`, each state by its code.
    pub closed spec fn recorded(&self) -> Map<(i32, i32, i32), u32> {
        self.visibility@
    }

    /// The layer of the surface. Everything at or above it is visible.
    pub closed spec fn surface(&self) -> i32 {
        self.surface_z
    }

    /// What the player knows of a cell: visible from the surface up, otherwise what is
    /// recorded for the cell, and unknown where nothing is.
    pub open spec fn seen(&self, cell: (i32, i32, i32)) -> TileVisibility {
        if cell.2 >= self.surface() {
            TileVisibility::Visible
        } else {
            self.noted(cell)
        }
    }

    /// What is recorded for a cell, whatever the surface.
    pub open spec fn noted(&self, cell: (i32, i32, i32)) -> TileVisibility {
        if self.recorded().contains_key(cell) {
            TileVisibility::of_code(self.recorded()[cell])
        } else {
            TileVisibility::Unknown
        }
    }

    /// Fog in which nothing is recorded, with the surface at layer zero.
    pub fn new() -> (fog: FogOfWar)
        ensures
            fog.recorded() == Map::<(i32, i32, i32), u32>::empty(),
            fog.surface() == 0,
    {
        FogOfWar { visibility: CellTable::new(), surface_z: 0 }
    }

    /// The layer of the surface.
    pub fn surface_z(&self) -> (z: i32)
        ensures
            z == self.surface(),
    {
        self.surface_z
    }

    /// Moves the surface to layer `z`. What is recorded does not change.
    pub fn set_surface_z(&mut self, z: i32)
        ensures
            final(self).surface() == z,
            final(self).recorded() == old(self).recorded(),
    {
        self.surface_z = z;
    }

    /// What the player knows of `pos`.
    pub fn get(&self, pos: Position) -> (v: TileVisibility)
        ensures
            v == self.seen(pos.key()),
    {
        if pos.z >= self.surface_z {
            return TileVisibility::Visible;
        }
        match self.visibility.get(pos.to_key()) {
            Some(code) => TileVisibility::from_code(code),
            None => TileVisibility::Unknown,
        }
    }

    /// Records `visibility` for `pos`. No other cell changes.
    pub fn set(&mut self, pos: Position, visibility: TileVisibility)
        ensures
            final(self).recorded() == old(self).recorded().insert(pos.key(), visibility.code()),
            final(self).noted(pos.key()) == visibility,
            final(self).surface() == old(self).surface(),
    {
        self.visibility.insert(pos.to_key(), visibility.to_code());
    }

    /// Reveals what is unknown of one cell.
    fn uncover(&mut self, pos: Position)
        ensures
            final(self).surface() == old(self).surface(),
            forall|c: (i32, i32, i32)|
                #![trigger final(self).noted(c)]
                final(self).noted(c) == (if c == pos.key() && old(self).seen(c) is Unknown {
                    TileVisibility::Revealed
                } else {
                    old(self).noted(c)
                }),
    {
        if let TileVisibility::Unknown = self.get(pos) {
            self.set(pos, TileVisibility::Revealed);
        }
    }

    /// Reveals the cells around `center`: every cell within `radius` of it on each axis
    /// that was unknown to the player is now revealed. Nothing else changes.
    pub fn reveal_around(&mut self, center: Position, radius: i32)
        ensures
            final(self).surface() == old(self).surface(),
            forall|c: (i32, i32, i32)|
                #![trigger final(self).noted(c)]
                final(self).noted(c) == (if in_sweep(
                    c,
                    center,
                    radius as int,
                    radius as int,
                    radius as int,
                ) && old(self).seen(c) is Unknown {
                    TileVisibility::Revealed
                } else {
                    old(self).noted(c)
                }),
    {
        let r: i64 = radius as i64;
        let mut x: i64 = -r;
        while x <= r
            invariant
                r == radius,
                -r <= x,
                x <= r + 1 || r < 0,
                self.surface() == old(self).surface(),
                forall|c: (i32, i32, i32)|
                    #![trigger self.noted(c)]
                    self.noted(c) == (if swept(c, center, r as int, r as int, r as int, x as int, -r
                        - 1, 0) && old(self).seen(c) is Unknown {
                        TileVisibility::Revealed
                    } else {
                        old(self).noted(c)
                    }),
            decreases r + 1 - x,
        {
            let mut y: i64 = -r;
            while y <= r
                invariant
                    r == radius,
                    r >= 0,
                    -r <= x <= r,
                    -r <= y <= r + 1,
                    self.surface() == old(self).surface(),
                    forall|c: (i32, i32, i32)|
                        #![trigger self.noted(c)]
                        self.noted(c) == (if swept(
                            c,
                            center,
                            r as int,
                            r as int,
                            r as int,
                            x as int,
                            y as int,
                            -r - 1,
                        ) && old(self).seen(c) is Unknown {
                            TileVisibility::Revealed
                        } else {
                            old(self).noted(c)
                        }),
                decreases r + 1 - y,
            {
                let mut z: i64 = -r;
                while z <= r
                    invariant
                        r == radius,
                        r >= 0,
                        -r <= x <= r,
                        -r <= y <= r,
                        -r <= z <= r + 1,
                        self.surface() == old(self).surface(),
                        forall|c: (i32, i32, i32)|
                            #![trigger self.noted(c)]
                            self.noted(c) == (if swept(
                                c,
                                center,
                                r as int,
                                r as int,
                                r as int,
                                x as int,
                                y as int,
                                z as int,
                            ) && old(self).seen(c) is Unknown {
                                TileVisibility::Revealed
                            } else {
                                old(self).noted(c)
                            }),
                    decreases r + 1 - z,
                {
                    let ghost before = *self;
                    match cell_at_offset(center, x, y, z) {
                        Some(pos) => {
                            self.uncover(pos);
                            assert forall|c: (i32, i32, i32)|
                                #![trigger self.noted(c)]
                                self.noted(c) == (if swept(
                                    c,
                                    center,
                                    r as int,
                                    r as int,
                                    r as int,
                                    x as int,
                                    y as int,
                                    z + 1,
                                ) && old(self).seen(c) is Unknown {
                                    TileVisibility::Revealed
                                } else {
                                    old(self).noted(c)
                                }) by {
                                assert(before.noted(c) == (if swept(
                                    c,
                                    center,
                                    r as int,
                                    r as int,
                                    r as int,
                                    x as int,
                                    y as int,
                                    z as int,
                                ) && old(self).seen(c) is Unknown {
                                    TileVisibility::Revealed
                                } else {
                                    old(self).noted(c)
                                }));
                            }
                        },
                        None => {},
                    }
                    z = z + 1;
                }
                y = y + 1;
            }
            x = x + 1;
        }
    }

    /// Marks as visible the cells that a unit at `center` sees: those within `radius` of
    /// it on both horizontal axes and at most one layer above or below. Nothing else
    /// changes.
    pub fn mark_visible(&mut self, center: Position, radius: i32)
        ensures
            final(self).surface() == old(self).surface(),
            forall|c: (i32, i32, i32)|
                #![trigger final(self).noted(c)]
                final(self).noted(c) == (if in_sweep(c, center, radius as int, radius as int, 1) {
                    TileVisibility::Visible
                } else {
                    old(self).noted(c)
                }),
    {
        let r: i64 = radius as i64;
        let mut x: i64 = -r;
        while x <= r
            invariant
                r == radius,
                -r <= x,
                x <= r + 1 || r < 0,
                self.surface() == old(self).surface(),
                forall|c: (i32, i32, i32)|
                    #![trigger self.noted(c)]
                    self.noted(c) == (if swept(c, center, r as int, r as int, 1, x as int, -r - 1, 0) {
                        TileVisibility::Visible
                    } else {
                        old(self).noted(c)
                    }),
            decreases r + 1 - x,
        {
            let mut y: i64 = -r;
            while y <= r
                invariant
                    r == radius,
                    r >= 0,
                    -r <= x <= r,
                    -r <= y <= r + 1,
                    self.surface() == old(self).surface(),
                    forall|c: (i32, i32, i32)|
                        #![trigger self.noted(c)]
                        self.noted(c) == (if swept(
                            c,
                            center,
                            r as int,
                            r as int,
                            1,
                            x as int,
                            y as int,
                            -2,
                        ) {
                            TileVisibility::Visible
                        } else {
                            old(self).noted(c)
                        }),
                decreases r + 1 - y,
            {
                let mut z: i64 = -1;
                while z <= 1
                    invariant
                        r == radius,
                        r >= 0,
                        -r <= x <= r,
                        -r <= y <= r,
                        -1 <= z <= 2,
                        self.surface() == old(self).surface(),
                        forall|c: (i32, i32, i32)|
                            #![trigger self.noted(c)]
                            self.noted(c) == (if swept(
                                c,
                                center,
                                r as int,
                                r as int,
                                1,
                                x as int,
                                y as int,
                                z as int,
                            ) {
                                TileVisibility::Visible
                            } else {
                                old(self).noted(c)
                            }),
                    decreases 2 - z,
                {
                    let ghost before = *self;
                    match cell_at_offset(center, x, y, z) {
                        Some(pos) => {
                            self.set(pos, TileVisibility::Visible);
                            assert forall|c: (i32, i32, i32)|
                                #![trigger self.noted(c)]
                                self.noted(c) == (if swept(
                                    c,
                                    center,
                                    r as int,
                                    r as int,
                                    1,
                                    x as int,
                                    y as int,
                                    z + 1,
                                ) {
                                    TileVisibility::Visible
                                } else {
                                    old(self).noted(c)
                                }) by {
                                assert(before.noted(c) == (if swept(
                                    c,
                                    center,
                                    r as int,
                                    r as int,
                                    1,
                                    x as int,
                                    y as int,
                                    z as int,
                                ) {
                                    TileVisibility::Visible
                                } else {
                                    old(self).noted(c)
                                }));
                            }
                        },
                        None => {},
                    }
                    z = z + 1;
                }
                y = y + 1;
            }
            x = x + 1;
        }
    }

    /// Clears the view: what was visible, or a sonar contact, is merely revealed. To be
    /// called before the view is computed anew.
    pub fn clear_visible(&mut self)
        ensures
            final(self).surface() == old(self).surface(),
            forall|c: (i32, i32, i32)|
                #![trigger final(self).noted(c)]
                final(self).noted(c) == old(self).noted(c).faded(),
    {
        let entries = self.visibility.entries();
        let mut i: usize = 0;
        while i < entries.len()
            invariant
                0 <= i <= entries@.len(),
                self.surface() == old(self).surface(),
                forall|j: int|
                    0 <= j < entries@.len() ==> old(self).recorded().contains_key(
                        #[trigger] entries@[j].0,
                    ) && old(self).recorded()[entries@[j].0] == entries@[j].1,
                forall|k: (i32, i32, i32)|
                    old(self).recorded().contains_key(k) ==> exists|j: int|
                        0 <= j < entries@.len() && #[trigger] entries@[j].0 == k,
                forall|a: int, b: int|
                    0 <= a < b < entries@.len() ==> #[trigger] entries@[a].0 != #[trigger] entries@[b].0,
                forall|c: (i32, i32, i32)|
                    #![trigger self.noted(c)]
                    self.noted(c) == (if exists|j: int| 0 <= j < i && #[trigger] entries@[j].0 == c {
                        old(self).noted(c).faded()
                    } else {
                        old(self).noted(c)
                    }),
            decreases entries@.len() - i,
        {
            let (key, code) = entries[i];
            let ghost before = *self;
            let state = TileVisibility::from_code(code);
            let faded = match state {
                TileVisibility::Visible => TileVisibility::Revealed,
                TileVisibility::SonarContact => TileVisibility::Revealed,
                other => other,
            };
            self.visibility.insert(key, faded.to_code());
            proof {
                assert(old(self).recorded().contains_key(entries@[i as int].0));
                assert forall|c: (i32, i32, i32)|
                    #![trigger self.noted(c)]
                    self.noted(c) == (if exists|j: int|
                        0 <= j < i + 1 && #[trigger] entries@[j].0 == c {
                        old(self).noted(c).faded()
                    } else {
                        old(self).noted(c)
                    }) by {
                    assert(before.noted(c) == (if exists|j: int|
                        0 <= j < i && #[trigger] entries@[j].0 == c {
                        old(self).noted(c).faded()
                    } else {
                        old(self).noted(c)
                    }));
                    if c == key {
                        assert(entries@[i as int].0 == c);
                        if exists|j: int| 0 <= j < i && #[trigger] entries@[j].0 == c {
                            let j = choose|j: int| 0 <= j < i && #[trigger] entries@[j].0 == c;
                            assert(entries@[j].0 != entries@[i as int].0);
                        }
                    } else {
                        if exists|j: int| 0 <= j < i + 1 && #[trigger] entries@[j].0 == c {
                            let j = choose|j: int| 0 <= j < i + 1 && #[trigger] entries@[j].0 == c;
                            assert(0 <= j < i && entries@[j].0 == c);
                        }
                    }
                }
            }
            i = i + 1;
        }
        proof {
            assert forall|c: (i32, i32, i32)|
                #![trigger self.noted(c)]
                self.noted(c) == old(self).noted(c).faded() by {
                if old(self).recorded().contains_key(c) {
                    let j = choose|j: int| 0 <= j < entries@.len() && #[trigger] entries@[j].0 == c;
                    assert(0 <= j < i && entries@[j].0 == c);
                } else {
                    if exists|j: int| 0 <= j < i && #[trigger] entries@[j].0 == c {
                        let j = choose|j: int| 0 <= j < i && #[trigger] entries@[j].0 == c;
                        assert(old(self).recorded().contains_key(entries@[j].0));
                    }
                }
            }
        }
    }
}

/// The cell at offset `(x, y, z)` from `center`, where that is a cell of the grid.
pub fn cell_at_offset(center: Position, x: i64, y: i64, z: i64) -> (r: Option<Position>)
    requires
        -0x8000_0000 <= x <= 0x8000_0000,
        -0x8000_0000 <= y <= 0x8000_0000,
        -0x8000_0000 <= z <= 0x8000_0000,
    ensures
        match r {
            Some(pos) => pos.x == center.x + x && pos.y == center.y + y && pos.z == center.z + z,
            None => !(i32::MIN <= center.x + x <= i32::MAX && i32::MIN <= center.y + y <= i32::MAX
                && i32::MIN <= center.z + z <= i32::MAX),
        },
{
    let px: i64 = center.x as i64 + x;
    let py: i64 = center.y as i64 + y;
    let pz: i64 = center.z as i64 + z;
    if px < i32::MIN as i64 || px > i32::MAX as i64 || py < i32::MIN as i64 || py > i32::MAX as i64
        || pz < i32::MIN as i64 || pz > i32::MAX as i64 {
        None
    } else {
        Some(Position { x: px as i32, y: py as i32, z: pz as i32 })
    }
}

impl Default for FogOfWar {
    fn default() -> (fog: FogOfWar)
        ensures
            fog.recorded() == Map::<(i32, i32, i32), u32>::empty(),
            fog.surface() == 0,
    {
        FogOfWar::new()
    }
}

} // verus!
