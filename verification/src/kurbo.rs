//! Plane geometry over fixed-point coordinates.
//!
//! Every coordinate is an `i64` counting units of 1/65536 (see
//! [`crate::fixed`]). A rectangle covers the half-open cell range
//! `x0 <= x < x1`, `y0 <= y < y1`.

use vstd::prelude::*;
use crate::fixed::{UNIT, clamp_i64, floor_div, ceil_div, floor_div_i128, ceil_div_i128, saturate};

verus! {

/// A position.
#[derive(Clone, Copy, Debug, PartialEq, Eq, Structural)]
pub struct Point {
    pub x: i64,
    pub y: i64,
}

/// A displacement.
#[derive(Clone, Copy, Debug, PartialEq, Eq, Structural)]
pub struct Vec2 {
    pub x: i64,
    pub y: i64,
}

/// An extent.
#[derive(Clone, Copy, Debug, PartialEq, Eq, Structural)]
pub struct Size {
    pub width: i64,
    pub height: i64,
}

/// An axis-aligned rectangle given by two corners.
#[derive(Clone, Copy, Debug, PartialEq, Eq, Structural)]
pub struct Rect {
    pub x0: i64,
    pub y0: i64,
    pub x1: i64,
    pub y1: i64,
}

/// Distances from the edges of a rectangle.
#[derive(Clone, Copy, Debug, PartialEq, Eq, Structural)]
pub struct Insets {
    pub x0: i64,
    pub y0: i64,
    pub x1: i64,
    pub y1: i64,
}

/// `a + b` limited to the range of `i64`.
pub open spec fn sat_add(a: int, b: int) -> int {
    clamp_i64(a + b)
}

/// `a - b` limited to the range of `i64`.
pub open spec fn sat_sub(a: int, b: int) -> int {
    clamp_i64(a - b)
}

/// Saturating addition.
pub fn add_saturating(a: i64, b: i64) -> (r: i64)
    ensures
        r == sat_add(a as int, b as int),
{
    saturate(a as i128 + b as i128)
}

/// Saturating subtraction.
pub fn sub_saturating(a: i64, b: i64) -> (r: i64)
    ensures
        r == sat_sub(a as int, b as int),
{
    saturate(a as i128 - b as i128)
}

/// The largest multiple of one whole unit that is not above `v`.
pub open spec fn snap_down(v: int) -> int {
    floor_div(v, UNIT as int) * UNIT
}

/// The smallest multiple of one whole unit that is not below `v`, limited to
/// the range of `i64`.
pub open spec fn snap_up(v: int) -> int {
    clamp_i64(ceil_div(v, UNIT as int) * UNIT)
}

/// `snap_down` in executable form.
pub fn snap_down_exec(v: i64) -> (r: i64)
    ensures
        r == snap_down(v as int),
        r <= v,
        v - r < UNIT,
{
    let q: i128 = floor_div_i128(v as i128, 65536);
    proof {
        vstd::arithmetic::div_mod::lemma_fundamental_div_mod(v as int, 65536);
        vstd::arithmetic::div_mod::lemma_mod_bound(v as int, 65536);
    }
    let m: i128 = q * 65536;
    m as i64
}

/// `snap_up` in executable form.
pub fn snap_up_exec(v: i64) -> (r: i64)
    ensures
        r == snap_up(v as int),
        r >= v,
        r - v < UNIT,
{
    let q: i128 = ceil_div_i128(v as i128, 65536);
    proof {
        vstd::arithmetic::div_mod::lemma_fundamental_div_mod(-(v as int), 65536);
        vstd::arithmetic::div_mod::lemma_mod_bound(-(v as int), 65536);
    }
    let m: i128 = q * 65536;
    saturate(m)
}

impl Point {
    /// The origin.
    pub fn origin() -> (p: Point)
        ensures
            p == (Point { x: 0, y: 0 }),
    {
        Point { x: 0, y: 0 }
    }

    /// The point with the given coordinates.
    pub fn new(x: i64, y: i64) -> (p: Point)
        ensures
            p == (Point { x, y }),
    {
        Point { x, y }
    }

    /// The displacement from the origin to `self`.
    pub fn to_vec2(self) -> (v: Vec2)
        ensures
            v == (Vec2 { x: self.x, y: self.y }),
    {
        Vec2 { x: self.x, y: self.y }
    }

    /// `self` moved by `v`, each coordinate saturating.
    pub open spec fn spec_translate(self, v: Vec2) -> Point {
        Point { x: sat_add(self.x as int, v.x as int) as i64, y: sat_add(self.y as int, v.y as int) as i64 }
    }

    /// `self` moved by `v`, each coordinate saturating.
    pub fn translate(self, v: Vec2) -> (p: Point)
        ensures
            p == self.spec_translate(v),
    {
        Point { x: add_saturating(self.x, v.x), y: add_saturating(self.y, v.y) }
    }

    /// `self` moved against `v`, each coordinate saturating.
    pub open spec fn spec_translate_back(self, v: Vec2) -> Point {
        Point { x: sat_sub(self.x as int, v.x as int) as i64, y: sat_sub(self.y as int, v.y as int) as i64 }
    }

    /// `self` moved against `v`, each coordinate saturating.
    pub fn translate_back(self, v: Vec2) -> (p: Point)
        ensures
            p == self.spec_translate_back(v),
    {
        Point { x: sub_saturating(self.x, v.x), y: sub_saturating(self.y, v.y) }
    }

    /// Both coordinates rounded up to whole units.
    pub open spec fn spec_expand(self) -> Point {
        Point { x: snap_up(self.x as int) as i64, y: snap_up(self.y as int) as i64 }
    }

    /// Both coordinates rounded up to whole units.
    pub fn expand(self) -> (p: Point)
        ensures
            p == self.spec_expand(),
    {
        Point { x: snap_up_exec(self.x), y: snap_up_exec(self.y) }
    }
}

impl Vec2 {
    /// The zero displacement.
    pub fn zero() -> (v: Vec2)
        ensures
            v == (Vec2 { x: 0, y: 0 }),
    {
        Vec2 { x: 0, y: 0 }
    }

    /// The displacement with the given components.
    pub fn new(x: i64, y: i64) -> (v: Vec2)
        ensures
            v == (Vec2 { x, y }),
    {
        Vec2 { x, y }
    }
}

impl Size {
    /// The empty extent.
    pub fn zero() -> (s: Size)
        ensures
            s == (Size { width: 0, height: 0 }),
    {
        Size { width: 0, height: 0 }
    }

    /// The extent with the given width and height.
    pub fn new(width: i64, height: i64) -> (s: Size)
        ensures
            s == (Size { width, height }),
    {
        Size { width, height }
    }

    /// The rectangle of this extent whose first corner is the origin.
    pub open spec fn spec_to_rect(self) -> Rect {
        Rect { x0: 0, y0: 0, x1: self.width, y1: self.height }
    }

    /// The rectangle of this extent whose first corner is the origin.
    pub fn to_rect(self) -> (r: Rect)
        ensures
            r == self.spec_to_rect(),
    {
        Rect { x0: 0, y0: 0, x1: self.width, y1: self.height }
    }

    /// Width and height rounded up to whole units.
    pub open spec fn spec_expand(self) -> Size {
        Size { width: snap_up(self.width as int) as i64, height: snap_up(self.height as int) as i64 }
    }

    /// Width and height rounded up to whole units.
    pub fn expand(self) -> (s: Size)
        ensures
            s == self.spec_expand(),
    {
        Size { width: snap_up_exec(self.width), height: snap_up_exec(self.height) }
    }
}

impl Rect {
    /// The rectangle with no cells at the origin.
    pub fn zero() -> (r: Rect)
        ensures
            r == (Rect { x0: 0, y0: 0, x1: 0, y1: 0 }),
    {
        Rect { x0: 0, y0: 0, x1: 0, y1: 0 }
    }

    /// The rectangle with corners `(x0, y0)` and `(x1, y1)`.
    pub fn new(x0: i64, y0: i64, x1: i64, y1: i64) -> (r: Rect)
        ensures
            r == (Rect { x0, y0, x1, y1 }),
    {
        Rect { x0, y0, x1, y1 }
    }

    /// The rectangle that starts at `origin` and has extent `size`; the far
    /// corner saturates.
    pub open spec fn spec_from_origin_size(origin: Point, size: Size) -> Rect {
        Rect {
            x0: origin.x,
            y0: origin.y,
            x1: sat_add(origin.x as int, size.width as int) as i64,
            y1: sat_add(origin.y as int, size.height as int) as i64,
        }
    }

    /// The rectangle that starts at `origin` and has extent `size`; the far
    /// corner saturates.
    pub fn from_origin_size(origin: Point, size: Size) -> (r: Rect)
        ensures
            r == Rect::spec_from_origin_size(origin, size),
    {
        Rect {
            x0: origin.x,
            y0: origin.y,
            x1: add_saturating(origin.x, size.width),
            y1: add_saturating(origin.y, size.height),
        }
    }

    /// Whether the cell at `(x, y)` lies in the rectangle.
    pub open spec fn contains(self, x: int, y: int) -> bool {
        self.x0 <= x < self.x1 && self.y0 <= y < self.y1
    }

    /// The cells that the rectangle covers.
    pub open spec fn cells(self) -> Set<(int, int)> {
        Set::new(|p: (int, int)| self.contains(p.0, p.1))
    }

    /// Whether the rectangle covers no cell.
    pub open spec fn spec_is_empty(self) -> bool {
        self.x0 >= self.x1 || self.y0 >= self.y1
    }

    /// Whether the rectangle covers no cell.
    pub fn is_empty(&self) -> (b: bool)
        ensures
            b == self.spec_is_empty(),
            b <==> self.cells() =~= Set::<(int, int)>::empty(),
    {
        proof {
            if !self.spec_is_empty() {
                assert(self.cells().contains((self.x0 as int, self.y0 as int)));
            }
        }
        self.x0 >= self.x1 || self.y0 >= self.y1
    }

    /// The common part of two rectangles.
    pub open spec fn spec_intersect(self, other: Rect) -> Rect {
        Rect {
            x0: if self.x0 >= other.x0 { self.x0 } else { other.x0 },
            y0: if self.y0 >= other.y0 { self.y0 } else { other.y0 },
            x1: if self.x1 <= other.x1 { self.x1 } else { other.x1 },
            y1: if self.y1 <= other.y1 { self.y1 } else { other.y1 },
        }
    }

    /// The common part of two rectangles: it covers exactly the cells that
    /// both cover.
    pub fn intersect(&self, other: &Rect) -> (r: Rect)
        ensures
            r == self.spec_intersect(*other),
            r.cells() =~= self.cells().intersect(other.cells()),
    {
        Rect {
            x0: if self.x0 >= other.x0 { self.x0 } else { other.x0 },
            y0: if self.y0 >= other.y0 { self.y0 } else { other.y0 },
            x1: if self.x1 <= other.x1 { self.x1 } else { other.x1 },
            y1: if self.y1 <= other.y1 { self.y1 } else { other.y1 },
        }
    }

    /// The rectangle with each edge moved outward to the next whole unit.
    pub open spec fn spec_expand(self) -> Rect {
        Rect {
            x0: snap_down(self.x0 as int) as i64,
            y0: snap_down(self.y0 as int) as i64,
            x1: snap_up(self.x1 as int) as i64,
            y1: snap_up(self.y1 as int) as i64,
        }
    }

    /// The rectangle with each edge moved outward to the next whole unit. The
    /// result covers every cell of `self`, and no edge moves by a whole unit
    /// or more.
    pub fn expand(&self) -> (r: Rect)
        ensures
            r == self.spec_expand(),
            self.cells().subset_of(r.cells()),
            self.x0 - r.x0 < UNIT,
            self.y0 - r.y0 < UNIT,
            r.x1 - self.x1 < UNIT,
            r.y1 - self.y1 < UNIT,
    {
        Rect {
            x0: snap_down_exec(self.x0),
            y0: snap_down_exec(self.y0),
            x1: snap_up_exec(self.x1),
            y1: snap_up_exec(self.y1),
        }
    }
}

impl Insets {
    /// No inset on any edge.
    pub fn zero() -> (i: Insets)
        ensures
            i == (Insets { x0: 0, y0: 0, x1: 0, y1: 0 }),
    {
        Insets { x0: 0, y0: 0, x1: 0, y1: 0 }
    }
}

} // verus!
