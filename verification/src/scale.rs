//! Conversion between device-independent pixels and device pixels.
//!
//! A scale factor is a positive fixed-point number per axis; one device
//! pixel is `1 / scale` device-independent pixels. Positions are rounded
//! down, extents up, and the edges of a rectangle outward, so that a
//! converted rectangle always covers the exact image of the original.

use vstd::prelude::*;
use crate::fixed::{
    UNIT, clamp_i64, floor_div, ceil_div, mul_floor, mul_ceil, div_floor, div_ceil,
    mul_floor_exec, mul_ceil_exec, div_floor_exec, div_ceil_exec,
};
use crate::kurbo::{Point, Rect, Size};

verus! {

/// The scale factors of a window, one per axis, in fixed point.
#[derive(Clone, Copy, Debug, PartialEq, Eq, Structural)]
pub struct Scale {
    pub x: u32,
    pub y: u32,
}

/// The area of a window in device pixels and in device-independent pixels.
#[derive(Clone, Copy, Debug, PartialEq, Eq, Structural)]
pub struct ScaledArea {
    pub size_dp: Size,
    pub size_px: Size,
}

impl Scale {
    /// The horizontal factor.
    pub open spec fn spec_x(self) -> u32 {
        self.x
    }

    /// The vertical factor.
    pub open spec fn spec_y(self) -> u32 {
        self.y
    }

    /// Both factors are positive.
    pub open spec fn wf(self) -> bool {
        self.spec_x() > 0 && self.spec_y() > 0
    }

    /// The scale with the given factors, or `None` where one of them is zero.
    pub fn new(x: u32, y: u32) -> (s: Option<Scale>)
        ensures
            s == if x > 0 && y > 0 {
                Some(Scale { x, y })
            } else {
                None
            },
    {
        if x > 0 && y > 0 {
            Some(Scale { x, y })
        } else {
            None
        }
    }

    /// The scale that maps each device-independent pixel to one device pixel.
    pub fn identity() -> (s: Scale)
        ensures
            s == (Scale { x: 65536, y: 65536 }),
            s.wf(),
    {
        Scale { x: 65536, y: 65536 }
    }

    /// The horizontal factor.
    pub fn x(&self) -> (v: u32)
        ensures
            v == self.spec_x(),
    {
        self.x
    }

    /// The vertical factor.
    pub fn y(&self) -> (v: u32)
        ensures
            v == self.spec_y(),
    {
        self.y
    }

    /// The scale for a display of `dpi` dots per inch, where 96 dots per inch
    /// is the identity; `dpi` is in fixed point. `None` where the factor
    /// rounds down to zero or does not fit in 32 bits.
    pub fn from_dpi(dpi: u32) -> (s: Option<Scale>)
        ensures
            s == if 0 < dpi as int / 96 {
                Some(Scale { x: (dpi as int / 96) as u32, y: (dpi as int / 96) as u32 })
            } else {
                None
            },
    {
        let f: u32 = dpi / 96;
        Scale::new(f, f)
    }

    /// The largest distance, in fixed-point units, by which converting a
    /// coordinate to device pixels and back can move it along an axis whose
    /// factor is `factor`.
    pub open spec fn tolerance(factor: int) -> int {
        UNIT as int / factor + 1
    }
}

impl Default for Scale {
    fn default() -> (s: Scale)
        ensures
            s == (Scale { x: 65536, y: 65536 }),
            s.wf(),
    {
        Scale::identity()
    }
}

impl Point {
    /// The position in device pixels of a position in device-independent pixels.
    pub open spec fn spec_to_px(self, scale: Scale) -> Point {
        Point {
            x: mul_floor(self.x as int, scale.spec_x() as int) as i64,
            y: mul_floor(self.y as int, scale.spec_y() as int) as i64,
        }
    }

    /// The position in device-independent pixels of a position in device pixels.
    pub open spec fn spec_to_dp(self, scale: Scale) -> Point {
        Point {
            x: div_floor(self.x as int, scale.spec_x() as int) as i64,
            y: div_floor(self.y as int, scale.spec_y() as int) as i64,
        }
    }

    /// The position in device pixels of a position in device-independent pixels.
    pub fn to_px(self, scale: Scale) -> (p: Point)
        ensures
            p == self.spec_to_px(scale),
    {
        Point { x: mul_floor_exec(self.x, scale.x()), y: mul_floor_exec(self.y, scale.y()) }
    }

    /// The position in device-independent pixels of a position in device pixels.
    pub fn to_dp(self, scale: Scale) -> (p: Point)
        requires
            scale.wf(),
        ensures
            p == self.spec_to_dp(scale),
    {
        Point { x: div_floor_exec(self.x, scale.x()), y: div_floor_exec(self.y, scale.y()) }
    }
}

impl Size {
    /// The extent in device pixels of an extent in device-independent pixels.
    pub open spec fn spec_to_px(self, scale: Scale) -> Size {
        Size {
            width: mul_ceil(self.width as int, scale.spec_x() as int) as i64,
            height: mul_ceil(self.height as int, scale.spec_y() as int) as i64,
        }
    }

    /// The extent in device-independent pixels of an extent in device pixels.
    pub open spec fn spec_to_dp(self, scale: Scale) -> Size {
        Size {
            width: div_ceil(self.width as int, scale.spec_x() as int) as i64,
            height: div_ceil(self.height as int, scale.spec_y() as int) as i64,
        }
    }

    /// The extent in device pixels of an extent in device-independent pixels.
    pub fn to_px(self, scale: Scale) -> (s: Size)
        ensures
            s == self.spec_to_px(scale),
    {
        Size { width: mul_ceil_exec(self.width, scale.x()), height: mul_ceil_exec(self.height, scale.y()) }
    }

    /// The extent in device-independent pixels of an extent in device pixels.
    pub fn to_dp(self, scale: Scale) -> (s: Size)
        requires
            scale.wf(),
        ensures
            s == self.spec_to_dp(scale),
    {
        Size { width: div_ceil_exec(self.width, scale.x()), height: div_ceil_exec(self.height, scale.y()) }
    }
}

impl Rect {
    /// The rectangle in device pixels that covers a rectangle in
    /// device-independent pixels.
    pub open spec fn spec_to_px(self, scale: Scale) -> Rect {
        Rect {
            x0: mul_floor(self.x0 as int, scale.spec_x() as int) as i64,
            y0: mul_floor(self.y0 as int, scale.spec_y() as int) as i64,
            x1: mul_ceil(self.x1 as int, scale.spec_x() as int) as i64,
            y1: mul_ceil(self.y1 as int, scale.spec_y() as int) as i64,
        }
    }

    /// The rectangle in device-independent pixels that covers a rectangle in
    /// device pixels.
    pub open spec fn spec_to_dp(self, scale: Scale) -> Rect {
        Rect {
            x0: div_floor(self.x0 as int, scale.spec_x() as int) as i64,
            y0: div_floor(self.y0 as int, scale.spec_y() as int) as i64,
            x1: div_ceil(self.x1 as int, scale.spec_x() as int) as i64,
            y1: div_ceil(self.y1 as int, scale.spec_y() as int) as i64,
        }
    }

    /// The rectangle in device pixels that covers a rectangle in
    /// device-independent pixels.
    pub fn to_px(&self, scale: Scale) -> (r: Rect)
        ensures
            r == self.spec_to_px(scale),
    {
        Rect {
            x0: mul_floor_exec(self.x0, scale.x()),
            y0: mul_floor_exec(self.y0, scale.y()),
            x1: mul_ceil_exec(self.x1, scale.x()),
            y1: mul_ceil_exec(self.y1, scale.y()),
        }
    }

    /// The rectangle in device-independent pixels that covers a rectangle in
    /// device pixels.
    pub fn to_dp(&self, scale: Scale) -> (r: Rect)
        requires
            scale.wf(),
        ensures
            r == self.spec_to_dp(scale),
    {
        Rect {
            x0: div_floor_exec(self.x0, scale.x()),
            y0: div_floor_exec(self.y0, scale.y()),
            x1: div_ceil_exec(self.x1, scale.x()),
            y1: div_ceil_exec(self.y1, scale.y()),
        }
    }

    /// Whether converting `self` to device pixels and back stays inside the
    /// 64-bit range at every step, so that nothing saturates.
    pub open spec fn converts_exactly(self, scale: Scale) -> bool {
        &&& fits(floor_div(self.x0 * scale.spec_x(), UNIT as int))
        &&& fits(floor_div(self.y0 * scale.spec_y(), UNIT as int))
        &&& fits(ceil_div(self.x1 * scale.spec_x(), UNIT as int))
        &&& fits(ceil_div(self.y1 * scale.spec_y(), UNIT as int))
        &&& fits(floor_div(self.spec_to_px(scale).x0 * UNIT, scale.spec_x() as int))
        &&& fits(floor_div(self.spec_to_px(scale).y0 * UNIT, scale.spec_y() as int))
        &&& fits(ceil_div(self.spec_to_px(scale).x1 * UNIT, scale.spec_x() as int))
        &&& fits(ceil_div(self.spec_to_px(scale).y1 * UNIT, scale.spec_y() as int))
    }
}

/// Whether `v` lies in the range of `i64`.
pub open spec fn fits(v: int) -> bool {
    i64::MIN <= v <= i64::MAX
}

impl ScaledArea {
    /// The extent in device-independent pixels.
    pub open spec fn spec_size_dp(self) -> Size {
        self.size_dp
    }

    /// The extent in device pixels.
    pub open spec fn spec_size_px(self) -> Size {
        self.size_px
    }

    /// The area of `size` device pixels at `scale`.
    pub open spec fn spec_from_px(size: Size, scale: Scale) -> ScaledArea {
        ScaledArea { size_dp: size.spec_to_dp(scale), size_px: size }
    }

    /// The smallest area of whole device pixels that holds `size`
    /// device-independent pixels at `scale`.
    pub open spec fn spec_from_dp(size: Size, scale: Scale) -> ScaledArea {
        let size_px = size.spec_to_px(scale).spec_expand();
        ScaledArea { size_dp: size_px.spec_to_dp(scale), size_px }
    }

    /// The area of `size` device pixels at `scale`.
    pub fn from_px(size: Size, scale: Scale) -> (a: ScaledArea)
        requires
            scale.wf(),
        ensures
            a == ScaledArea::spec_from_px(size, scale),
    {
        ScaledArea { size_dp: size.to_dp(scale), size_px: size }
    }

    /// The smallest area of whole device pixels that holds `size`
    /// device-independent pixels at `scale`.
    pub fn from_dp(size: Size, scale: Scale) -> (a: ScaledArea)
        requires
            scale.wf(),
        ensures
            a == ScaledArea::spec_from_dp(size, scale),
    {
        let size_px = size.to_px(scale).expand();
        ScaledArea { size_dp: size_px.to_dp(scale), size_px }
    }

    /// The extent in device-independent pixels.
    pub fn size_dp(&self) -> (s: Size)
        ensures
            s == self.spec_size_dp(),
    {
        self.size_dp
    }

    /// The extent in device pixels.
    pub fn size_px(&self) -> (s: Size)
        ensures
            s == self.spec_size_px(),
    {
        self.size_px
    }
}

/// Scaling a coordinate down to pixels and back, both times rounding down,
/// never moves it up, and moves it down by at most the tolerance.
pub proof fn lemma_floor_round_trip(v: int, s: int)
    requires
        s > 0,
    ensures
        ({
            let q = floor_div(v * s, UNIT as int);
            let b = floor_div(q * UNIT, s);
            b <= v && v - b <= Scale::tolerance(s)
        }),
{
    let u = UNIT as int;
    let a = v * s;
    let q = a / u;
    let b = (q * u) / s;
    let t = u / s;
    vstd::arithmetic::div_mod::lemma_fundamental_div_mod(a, u);
    vstd::arithmetic::div_mod::lemma_mod_bound(a, u);
    vstd::arithmetic::div_mod::lemma_fundamental_div_mod(q * u, s);
    vstd::arithmetic::div_mod::lemma_mod_bound(q * u, s);
    vstd::arithmetic::div_mod::lemma_fundamental_div_mod(u, s);
    vstd::arithmetic::div_mod::lemma_mod_bound(u, s);
    let r1 = a % u;
    let r2 = (q * u) % s;
    let r3 = u % s;
    assert(a == u * q + r1);
    assert(q * u == s * b + r2);
    assert(u == s * t + r3);
    assert(u * q == q * u) by (nonlinear_arith);
    // s * b <= q * u <= v * s
    assert(b <= v) by (nonlinear_arith)
        requires
            s > 0,
            s * b <= v * s,
    ;
    // (v - b) * s == r1 + r2 < u + s == s * (t + 1) + r3 < s * (t + 2)
    assert((v - b) * s == v * s - s * b) by (nonlinear_arith);
    assert((v - b) * s < s * (t + 2)) by (nonlinear_arith)
        requires
            (v - b) * s == r1 + r2,
            r1 < u,
            r2 < s,
            u == s * t + r3,
            r3 < s,
    ;
    assert(v - b < t + 2) by (nonlinear_arith)
        requires
            s > 0,
            (v - b) * s < s * (t + 2),
    ;
}

/// Scaling a coordinate up to pixels and back, both times rounding up, never
/// moves it down, and moves it up by at most the tolerance.
pub proof fn lemma_ceil_round_trip(v: int, s: int)
    requires
        s > 0,
    ensures
        ({
            let q = ceil_div(v * s, UNIT as int);
            let b = ceil_div(q * UNIT, s);
            b >= v && b - v <= Scale::tolerance(s)
        }),
{
    let u = UNIT as int;
    lemma_floor_round_trip(-v, s);
    assert(-(v * s) == (-v) * s) by (nonlinear_arith);
    let qf = floor_div((-v) * s, u);
    assert(ceil_div(v * s, u) == -qf);
    assert(-((-qf) * u) == qf * u) by (nonlinear_arith);
}

/// Converting a rectangle in device-independent pixels to device pixels and
/// back at one scale, where no step saturates, gives a rectangle that covers
/// the original and whose every edge lies within the tolerance of the
/// original edge.
pub proof fn lemma_rect_round_trip(r: Rect, scale: Scale)
    requires
        scale.wf(),
        r.converts_exactly(scale),
    ensures
        ({
            let back = r.spec_to_px(scale).spec_to_dp(scale);
            &&& r.cells().subset_of(back.cells())
            &&& 0 <= r.x0 - back.x0 <= Scale::tolerance(scale.spec_x() as int)
            &&& 0 <= r.y0 - back.y0 <= Scale::tolerance(scale.spec_y() as int)
            &&& 0 <= back.x1 - r.x1 <= Scale::tolerance(scale.spec_x() as int)
            &&& 0 <= back.y1 - r.y1 <= Scale::tolerance(scale.spec_y() as int)
        }),
{
    lemma_floor_round_trip(r.x0 as int, scale.spec_x() as int);
    lemma_floor_round_trip(r.y0 as int, scale.spec_y() as int);
    lemma_ceil_round_trip(r.x1 as int, scale.spec_x() as int);
    lemma_ceil_round_trip(r.y1 as int, scale.spec_y() as int);
}

} // verus!
