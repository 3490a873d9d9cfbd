//! Fixed-point arithmetic with sixteen fractional bits.
//!
//! Lengths, coordinates and scale factors are integers counting units of
//! 1/65536. Products and quotients are computed exactly in 128 bits, rounded
//! to a neighbouring unit, and saturated to the 64-bit range.

use vstd::prelude::*;

verus! {

/// The fixed-point representation of the number one.
pub const UNIT: i64 = 65536;

/// `v` limited to the range of `i64`.
pub open spec fn clamp_i64(v: int) -> int {
    if v < i64::MIN {
        i64::MIN as int
    } else if v > i64::MAX {
        i64::MAX as int
    } else {
        v
    }
}

/// The largest integer not above `a / b`, for positive `b`.
pub open spec fn floor_div(a: int, b: int) -> int {
    a / b
}

/// The smallest integer not below `a / b`, for positive `b`.
pub open spec fn ceil_div(a: int, b: int) -> int {
    -((-a) / b)
}

/// Product of a fixed-point value and a fixed-point factor, rounded down.
pub open spec fn mul_floor(v: int, s: int) -> int {
    clamp_i64(floor_div(v * s, UNIT as int))
}

/// Product of a fixed-point value and a fixed-point factor, rounded up.
pub open spec fn mul_ceil(v: int, s: int) -> int {
    clamp_i64(ceil_div(v * s, UNIT as int))
}

/// Quotient of a fixed-point value by a positive fixed-point factor, rounded down.
pub open spec fn div_floor(v: int, s: int) -> int {
    clamp_i64(floor_div(v * UNIT, s))
}

/// Quotient of a fixed-point value by a positive fixed-point factor, rounded up.
pub open spec fn div_ceil(v: int, s: int) -> int {
    clamp_i64(ceil_div(v * UNIT, s))
}

/// Saturating conversion from 128 to 64 bits.
pub fn saturate(v: i128) -> (r: i64)
    ensures
        r == clamp_i64(v as int),
{
    if v < i64::MIN as i128 {
        i64::MIN
    } else if v > i64::MAX as i128 {
        i64::MAX
    } else {
        v as i64
    }
}

/// Floor division of a signed numerator by a positive divisor.
pub fn floor_div_i128(a: i128, b: i128) -> (q: i128)
    requires
        b > 0,
        a > i128::MIN,
    ensures
        q == floor_div(a as int, b as int),
        a >= 0 ==> 0 <= q <= a,
        a < 0 ==> a <= q <= 0,
{
    if a >= 0 {
        proof {
            lemma_div_magnitude(a as int, b as int);
        }
        a / b
    } else {
        let n: i128 = -a;
        let q: i128 = n / b;
        let r: i128 = n % b;
        proof {
            lemma_floor_div_neg(n as int, b as int);
            lemma_div_magnitude(n as int, b as int);
            vstd::arithmetic::div_mod::lemma_fundamental_div_mod(n as int, b as int);
            if r != 0 {
                assert(q < n) by (nonlinear_arith)
                    requires
                        n == b * q + r,
                        b > 0,
                        q >= 0,
                        r > 0,
                ;
            }
        }
        if r == 0 {
            -q
        } else {
            -q - 1
        }
    }
}

/// Ceiling division of a signed numerator by a positive divisor.
pub fn ceil_div_i128(a: i128, b: i128) -> (q: i128)
    requires
        b > 0,
        a > i128::MIN,
    ensures
        q == ceil_div(a as int, b as int),
        a >= 0 ==> 0 <= q <= a,
        a < 0 ==> a <= q <= 0,
{
    let f: i128 = floor_div_i128(-a, b);
    -f
}

/// Dividing a non-negative number by a positive one yields a non-negative
/// number that is no larger.
pub proof fn lemma_div_magnitude(n: int, b: int)
    requires
        n >= 0,
        b > 0,
    ensures
        0 <= n / b <= n,
{
    vstd::arithmetic::div_mod::lemma_fundamental_div_mod(n, b);
    vstd::arithmetic::div_mod::lemma_mod_bound(n, b);
    let q = n / b;
    let r = n % b;
    assert(0 <= q <= n) by (nonlinear_arith)
        requires
            n == b * q + r,
            0 <= r < b,
            n >= 0,
            b > 0,
    ;
}

/// For a non-negative `n`, the floor of `-n / b` is `-(n / b)` when `b`
/// divides `n`, and one less otherwise.
pub proof fn lemma_floor_div_neg(n: int, b: int)
    requires
        n >= 0,
        b > 0,
    ensures
        (-n) / b == if n % b == 0 { -(n / b) } else { -(n / b) - 1 },
{
    vstd::arithmetic::div_mod::lemma_fundamental_div_mod(n, b);
    vstd::arithmetic::div_mod::lemma_fundamental_div_mod(-n, b);
    vstd::arithmetic::div_mod::lemma_mod_bound(n, b);
    vstd::arithmetic::div_mod::lemma_mod_bound(-n, b);
    let q = n / b;
    let r = n % b;
    let q2 = (-n) / b;
    let r2 = (-n) % b;
    assert(b * q + r + b * q2 + r2 == 0);
    assert(b * (q + q2) == b * q + b * q2) by (nonlinear_arith);
    assert(b * (q + q2) == -(r + r2));
    assert(0 <= r + r2 < 2 * b);
    if r == 0 {
        assert(q + q2 == 0) by (nonlinear_arith)
            requires
                b > 0,
                b * (q + q2) == -r2,
                0 <= r2 < b,
        ;
    } else {
        assert(q + q2 == -1) by (nonlinear_arith)
            requires
                b > 0,
                b * (q + q2) == -(r + r2),
                0 < r + r2 < 2 * b,
        ;
    }
}

/// `mul_floor` in executable form.
pub fn mul_floor_exec(v: i64, s: u32) -> (r: i64)
    ensures
        r == mul_floor(v as int, s as int),
{
    proof {
        lemma_product_bound(v as int, s as int);
    }
    let p: i128 = (v as i128) * (s as i128);
    saturate(floor_div_i128(p, UNIT as i128))
}

/// `mul_ceil` in executable form.
pub fn mul_ceil_exec(v: i64, s: u32) -> (r: i64)
    ensures
        r == mul_ceil(v as int, s as int),
{
    proof {
        lemma_product_bound(v as int, s as int);
    }
    let p: i128 = (v as i128) * (s as i128);
    saturate(ceil_div_i128(p, UNIT as i128))
}

/// `div_floor` in executable form.
pub fn div_floor_exec(v: i64, s: u32) -> (r: i64)
    requires
        s > 0,
    ensures
        r == div_floor(v as int, s as int),
{
    let p: i128 = (v as i128) * 65536;
    assert(p == v * UNIT);
    saturate(floor_div_i128(p, s as i128))
}

/// `div_ceil` in executable form.
pub fn div_ceil_exec(v: i64, s: u32) -> (r: i64)
    requires
        s > 0,
    ensures
        r == div_ceil(v as int, s as int),
{
    let p: i128 = (v as i128) * 65536;
    assert(p == v * UNIT);
    saturate(ceil_div_i128(p, s as i128))
}

/// Product of two fixed-point values, rounded down.
pub open spec fn mul_fixed(a: int, b: int) -> int {
    clamp_i64(floor_div(a * b, UNIT as int))
}

/// `mul_fixed` in executable form.
pub fn mul_fixed_exec(a: i64, b: i64) -> (r: i64)
    ensures
        r == mul_fixed(a as int, b as int),
{
    assert(-0x4000_0000_0000_0000_0000_0000_0000_0000 <= (a as int) * (b as int)
        <= 0x4000_0000_0000_0000_0000_0000_0000_0000) by (nonlinear_arith)
        requires
            -0x8000_0000_0000_0000 <= a as int <= 0x8000_0000_0000_0000,
            -0x8000_0000_0000_0000 <= b as int <= 0x8000_0000_0000_0000,
    ;
    let p: i128 = (a as i128) * (b as i128);
    saturate(floor_div_i128(p, 65536))
}

/// `v` times the whole number `n`, limited to the range of `i64`.
pub open spec fn mul_whole(v: int, n: int) -> int {
    clamp_i64(v * n)
}

/// `mul_whole` in executable form, for a factor of up to sixteen bits.
pub fn mul_whole_exec(v: i64, n: u16) -> (r: i64)
    ensures
        r == mul_whole(v as int, n as int),
{
    assert(-0x8000_0000_0000_0000 * 0x1_0000 <= (v as int) * (n as int) <= 0x8000_0000_0000_0000 * 0x1_0000)
        by (nonlinear_arith)
        requires
            -0x8000_0000_0000_0000 <= v as int <= 0x8000_0000_0000_0000,
            0 <= n as int <= 0x1_0000,
    ;
    saturate((v as i128) * (n as i128))
}

/// The product of a 64-bit value and a 32-bit factor stays well inside 128 bits.
pub proof fn lemma_product_bound(v: int, s: int)
    requires
        i64::MIN <= v <= i64::MAX,
        0 <= s <= u32::MAX,
    ensures
        -0x8000_0000_0000_0000_0000_0000 <= v * s <= 0x8000_0000_0000_0000_0000_0000,
{
    assert(-0x8000_0000_0000_0000 * 0x1_0000_0000 <= v * s <= 0x8000_0000_0000_0000
        * 0x1_0000_0000) by (nonlinear_arith)
        requires
            -0x8000_0000_0000_0000 <= v <= 0x8000_0000_0000_0000,
            0 <= s <= 0x1_0000_0000,
    ;
}

} // verus!
