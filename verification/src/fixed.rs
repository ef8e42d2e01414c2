//! Fixed-point lengths: one unit is a hundredth of a pixel.

use vstd::prelude::*;

verus! {

/// How many units make one pixel.
pub const UNITS_PER_PIXEL: i32 = 100;

/// The value that is kept when `v` is written to a field: `v` itself where it
/// fits the field, else the nearest value that does.
pub open spec fn stored(v: int) -> int {
    if v < i32::MIN {
        i32::MIN as int
    } else if v > i32::MAX {
        i32::MAX as int
    } else {
        v
    }
}

/// Brings an exact intermediate result back into the range of a field.
pub fn store(v: i64) -> (r: i32)
    ensures
        r == stored(v as int),
{
    if v < -2147483648i64 {
        i32::MIN
    } else if v > 2147483647i64 {
        i32::MAX
    } else {
        v as i32
    }
}

/// A sprite's native size in pixels times its scale in percent: the scaled
/// size in units.
pub open spec fn scaled(pixels: u16, percent: i32) -> int {
    pixels * percent
}

/// The scaled size of a sprite, in units.
pub fn scale(pixels: u16, percent: i32) -> (r: i64)
    ensures
        r == scaled(pixels, percent),
        -0x8000_0000_0000 <= r <= 0x8000_0000_0000,
{
    let p: i64 = pixels as i64;
    let q: i64 = percent as i64;
    assert(-0x8000_0000_0000 <= p * q <= 0x8000_0000_0000) by (nonlinear_arith)
        requires
            0 <= p <= 0xffff,
            -0x8000_0000 <= q <= 0x7fff_ffff,
    ;
    p * q
}

/// Whether two axis-aligned boxes, each given by its top-left corner and its
/// size, have a point strictly inside both. Boxes that only touch along an
/// edge do not overlap.
pub open spec fn boxes_overlap(
    ax: int,
    ay: int,
    aw: int,
    ah: int,
    bx: int,
    by: int,
    bw: int,
    bh: int,
) -> bool {
    &&& ax < bx + bw
    &&& ax + aw > bx
    &&& ay < by + bh
    &&& ay + ah > by
}

/// Division of whole numbers that drops the fraction, for a positive `d`.
pub open spec fn toward_zero(n: int, d: int) -> int {
    if n >= 0 {
        n / d
    } else {
        -((-n) / d)
    }
}

/// Divides and drops the fraction.
pub(crate) fn div_toward_zero(n: i64, d: i64) -> (q: i64)
    requires
        d > 0,
        n > i64::MIN,
    ensures
        q == toward_zero(n as int, d as int),
        n >= 0 ==> 0 <= q <= n,
        n < 0 ==> n <= q <= 0,
{
    if n >= 0 {
        assert(0 <= n / d <= n) by (nonlinear_arith)
            requires
                n >= 0,
                d > 0,
        ;
        n / d
    } else {
        let m: i64 = -n;
        assert(0 <= m / d <= m) by (nonlinear_arith)
            requires
                m >= 0,
                d > 0,
        ;
        -(m / d)
    }
}

/// Brings a wide intermediate result back into the range of a field.
pub(crate) fn store_wide(v: i128) -> (r: i32)
    ensures
        r == stored(v as int),
{
    if v < -2147483648i128 {
        i32::MIN
    } else if v > 2147483647i128 {
        i32::MAX
    } else {
        v as i32
    }
}

} // verus!
