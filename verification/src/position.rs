//! Grid coordinates and the integer geometry the fields are built on.

use vstd::prelude::*;

verus! {

/// A cell of the three-dimensional grid: `x` and `y` are horizontal, `z` is the layer.
#[derive(Clone, Copy, Debug, PartialEq, Eq, Structural, Hash)]
pub struct Position {
    pub x: i32,
    pub y: i32,
    pub z: i32,
}

/// The distance between two coordinates on one axis.
pub open spec fn axis_gap(a: int, b: int) -> int {
    if a >= b {
        a - b
    } else {
        b - a
    }
}

/// `n / d` rounded toward zero, for a positive `d`.
pub open spec fn toward_zero(n: int, d: int) -> int {
    if n >= 0 {
        n / d
    } else {
        -((-n) / d)
    }
}

/// The coordinate nearest to `v` that a cell can have.
pub open spec fn clamped(v: int) -> i32 {
    if v < i32::MIN {
        i32::MIN
    } else if v > i32::MAX {
        i32::MAX
    } else {
        v as i32
    }
}

/// The coordinate `t / one` of the way from `a` to `b`, rounded toward zero.
pub open spec fn blend(a: i32, b: i32, t: u64, one: u64) -> i32 {
    clamped(toward_zero((one - t) * a + t * b, one as int))
}

/// The six axis-aligned unit steps, in the order in which neighbours are examined.
pub open spec fn unit_steps() -> Seq<Position> {
    seq![
        Position { x: 1, y: 0, z: 0 },
        Position { x: -1i32, y: 0, z: 0 },
        Position { x: 0, y: 1, z: 0 },
        Position { x: 0, y: -1i32, z: 0 },
        Position { x: 0, y: 0, z: 1 },
        Position { x: 0, y: 0, z: -1i32 },
    ]
}

impl Position {
    /// The coordinates as a tuple, the form in which cells key a table.
    pub open spec fn key(self) -> (i32, i32, i32) {
        (self.x, self.y, self.z)
    }

    /// The cell that a key stands for.
    pub open spec fn of_key(k: (i32, i32, i32)) -> Position {
        Position { x: k.0, y: k.1, z: k.2 }
    }

    /// Manhattan distance: the sum of the three axis gaps.
    pub open spec fn manhattan(self, other: Position) -> int {
        axis_gap(self.x as int, other.x as int) + axis_gap(self.y as int, other.y as int)
            + axis_gap(self.z as int, other.z as int)
    }

    /// Whether `self` lies in the axis-aligned box of half-width `range` around `center`:
    /// each axis is tested on its own.
    pub open spec fn in_box(self, center: Position, range: int) -> bool {
        &&& axis_gap(self.x as int, center.x as int) <= range
        &&& axis_gap(self.y as int, center.y as int) <= range
        &&& axis_gap(self.z as int, center.z as int) <= range
    }

    /// Whether `self + step` is still a cell of the grid.
    pub open spec fn can_step(self, step: Position) -> bool {
        &&& i32::MIN <= self.x + step.x <= i32::MAX
        &&& i32::MIN <= self.y + step.y <= i32::MAX
        &&& i32::MIN <= self.z + step.z <= i32::MAX
    }

    /// The cell `self + step`; meaningful where `can_step` holds.
    pub open spec fn stepped(self, step: Position) -> Position {
        Position {
            x: (self.x + step.x) as i32,
            y: (self.y + step.y) as i32,
            z: (self.z + step.z) as i32,
        }
    }

    /// Positions in dictionary order of `(x, y, z)`; used to break ties.
    pub open spec fn precedes(self, other: Position) -> bool {
        self.x < other.x || (self.x == other.x && (self.y < other.y || (self.y == other.y && self.z
            < other.z)))
    }

    /// The point `t / one` of the way from `self` to `end`, each axis on its own.
    pub open spec fn toward(self, end: Position, t: u64, one: u64) -> Position {
        Position {
            x: blend(self.x, end.x, t, one),
            y: blend(self.y, end.y, t, one),
            z: blend(self.z, end.z, t, one),
        }
    }

    pub fn new(x: i32, y: i32, z: i32) -> (p: Position)
        ensures
            p == (Position { x, y, z }),
    {
        Position { x, y, z }
    }

    pub fn to_key(self) -> (k: (i32, i32, i32))
        ensures
            k == self.key(),
    {
        (self.x, self.y, self.z)
    }

    pub fn from_key(k: (i32, i32, i32)) -> (p: Position)
        ensures
            p == Position::of_key(k),
            p.key() == k,
    {
        Position { x: k.0, y: k.1, z: k.2 }
    }

    /// Manhattan distance to `other`, exact for every pair of cells.
    pub fn manhattan_distance(self, other: Position) -> (d: u64)
        ensures
            d == self.manhattan(other),
    {
        gap(self.x, other.x) + gap(self.y, other.y) + gap(self.z, other.z)
    }

    /// Box test on each axis separately; a negative `max_range` admits nothing.
    pub fn within_range(self, center: Position, max_range: i32) -> (b: bool)
        ensures
            b == self.in_box(center, max_range as int),
    {
        if max_range < 0 {
            return false;
        }
        let r: u64 = max_range as u64;
        gap(self.x, center.x) <= r && gap(self.y, center.y) <= r && gap(self.z, center.z) <= r
    }

    /// `self + step`, or `None` where that leaves the grid.
    pub fn offset(self, step: Position) -> (r: Option<Position>)
        ensures
            r.is_some() == self.can_step(step),
            r.is_some() ==> r.unwrap() == self.stepped(step),
    {
        match (self.x.checked_add(step.x), self.y.checked_add(step.y), self.z.checked_add(step.z)) {
            (Some(x), Some(y), Some(z)) => Some(Position { x, y, z }),
            _ => None,
        }
    }

    /// Linear interpolation from `self` to `end` at `t / one`, rounded toward zero on
    /// each axis.
    pub fn interpolate(self, end: Position, t: u64, one: u64) -> (p: Position)
        requires
            one > 0,
        ensures
            p == self.toward(end, t, one),
    {
        Position {
            x: blend_axis(self.x, end.x, t, one),
            y: blend_axis(self.y, end.y, t, one),
            z: blend_axis(self.z, end.z, t, one),
        }
    }

    /// Whether `self` comes before `other` in dictionary order.
    pub fn is_before(self, other: Position) -> (b: bool)
        ensures
            b == self.precedes(other),
    {
        self.x < other.x || (self.x == other.x && (self.y < other.y || (self.y == other.y && self.z
            < other.z)))
    }
}

/// The gap between two coordinates, which always fits 33 bits.
pub fn gap(a: i32, b: i32) -> (g: u64)
    ensures
        g == axis_gap(a as int, b as int),
        g <= 0xffff_ffff,
{
    let wide_a: i64 = a as i64;
    let wide_b: i64 = b as i64;
    if wide_a >= wide_b {
        (wide_a - wide_b) as u64
    } else {
        (wide_b - wide_a) as u64
    }
}

/// One axis of a linear interpolation.
pub fn blend_axis(a: i32, b: i32, t: u64, one: u64) -> (c: i32)
    requires
        one > 0,
    ensures
        c == blend(a, b, t, one),
{
    let weight_a: i128 = one as i128 - t as i128;
    let weight_b: i128 = t as i128;
    assert(-0x1_0000_0000_0000_0000 * 0x8000_0000 <= weight_a * (a as i128)
        <= 0x1_0000_0000_0000_0000 * 0x8000_0000) by (nonlinear_arith)
        requires
            -0x1_0000_0000_0000_0000 <= weight_a <= 0x1_0000_0000_0000_0000,
            -0x8000_0000 <= a <= 0x8000_0000,
    ;
    assert(-0x1_0000_0000_0000_0000 * 0x8000_0000 <= weight_b * (b as i128)
        <= 0x1_0000_0000_0000_0000 * 0x8000_0000) by (nonlinear_arith)
        requires
            -0x1_0000_0000_0000_0000 <= weight_b <= 0x1_0000_0000_0000_0000,
            -0x8000_0000 <= b <= 0x8000_0000,
    ;
    let sum: i128 = weight_a * (a as i128) + weight_b * (b as i128);
    let quotient: i128 = if sum >= 0 {
        sum / (one as i128)
    } else {
        -((-sum) / (one as i128))
    };
    if quotient < i32::MIN as i128 {
        i32::MIN
    } else if quotient > i32::MAX as i128 {
        i32::MAX
    } else {
        quotient as i32
    }
}

/// The six unit steps as values.
pub fn neighbor_steps() -> (steps: [Position; 6])
    ensures
        steps@ == unit_steps(),
{
    [
        Position { x: 1, y: 0, z: 0 },
        Position { x: -1, y: 0, z: 0 },
        Position { x: 0, y: 1, z: 0 },
        Position { x: 0, y: -1, z: 0 },
        Position { x: 0, y: 0, z: 1 },
        Position { x: 0, y: 0, z: -1 },
    ]
}


/// A point between the ends lies between them. For `t` from zero to `one`, each
/// coordinate of the interpolated point lies between the coordinates of the two ends;
/// at zero it is the start, at `one` the end.
pub proof fn lemma_blend_between(a: i32, b: i32, t: u64, one: u64)
    requires
        one > 0,
        t <= one,
    ensures
        a <= b ==> a <= blend(a, b, t, one) <= b,
        b <= a ==> b <= blend(a, b, t, one) <= a,
        blend(a, b, 0, one) == a,
        blend(a, b, one, one) == b,
{
    let n = (one - t) * a + t * b;
    let lo: int = if a <= b { a as int } else { b as int };
    let hi: int = if a <= b { b as int } else { a as int };
    assert(lo * one <= n <= hi * one) by (nonlinear_arith)
        requires
            n == (one - t) * a + t * b,
            0 <= t <= one,
            lo <= a <= hi,
            lo <= b <= hi,
    ;
    lemma_toward_zero_bounds(n, one as int, lo, hi);
    assert((one - 0) * a + 0 * b == a * one) by (nonlinear_arith);
    assert((one - one) * a + one * b == b * one) by (nonlinear_arith);
    lemma_toward_zero_exact(a as int, one as int);
    lemma_toward_zero_exact(b as int, one as int);
}

/// Rounding toward zero keeps a quotient within integer bounds of the exact one.
pub proof fn lemma_toward_zero_bounds(n: int, d: int, lo: int, hi: int)
    requires
        d > 0,
        lo * d <= n <= hi * d,
    ensures
        lo <= toward_zero(n, d) <= hi,
{
    if n >= 0 {
        assert(n / d <= hi && (lo <= n / d)) by (nonlinear_arith)
            requires
                d > 0,
                n >= 0,
                lo * d <= n <= hi * d,
        ;
    } else {
        assert(-((-n) / d) <= hi && lo <= -((-n) / d)) by (nonlinear_arith)
            requires
                d > 0,
                n < 0,
                lo * d <= n <= hi * d,
        ;
    }
}

/// A multiple of the divisor divides exactly.
pub proof fn lemma_toward_zero_exact(q: int, d: int)
    requires
        d > 0,
    ensures
        toward_zero(q * d, d) == q,
{
    if q >= 0 {
        assert(q * d >= 0 && (q * d) / d == q) by (nonlinear_arith)
            requires
                d > 0,
                q >= 0,
        ;
    } else {
        assert(q * d < 0 && (-(q * d)) / d == -q) by (nonlinear_arith)
            requires
                d > 0,
                q < 0,
        ;
    }
}

} // verus!
