//! Positions in pixel space and in the local coordinate range [-1, 1].
//!
//! Local coordinates are exact fractions: converting a pixel coordinate
//! `p` against a screen dimension `s` yields `2 * (p / s) - 1`, held as
//! the fraction `(2 p - s) / s` with no rounding.

use vstd::prelude::*;

verus! {

/// A position in pixel coordinates.
#[derive(Clone, Copy, Debug, PartialEq, Eq, Structural)]
pub struct PixelPos {
    pub x: i32,
    pub y: i32,
}

/// An exact fraction `num / den` with a positive denominator.
#[derive(Clone, Copy, Debug, PartialEq, Eq, Structural)]
pub struct Frac {
    pub num: i128,
    pub den: i128,
}

/// A position in local coordinates: each axis is an exact fraction,
/// in [-1, 1] whenever the pixel position lay inside the screen.
#[derive(Clone, Copy, Debug, PartialEq, Eq, Structural)]
pub struct LocalPos {
    pub x: Frac,
    pub y: Frac,
}

/// Bounds holding of every fraction that `convert_axis` produces: the
/// denominator is a screen dimension and the numerator is `2 p - s` for
/// a pixel coordinate `p`, so both stay well inside `i128`.
pub open spec fn frac_wf(f: Frac) -> bool {
    &&& 0 < f.den <= 0x8000_0000
    &&& -0x2_0000_0000 <= f.num <= 0x2_0000_0000
}

/// Both axes of a local position satisfy `frac_wf`.
pub open spec fn local_wf(p: LocalPos) -> bool {
    frac_wf(p.x) && frac_wf(p.y)
}

/// `f` is one axis of the pixel-to-local conversion of coordinate `p`
/// against screen dimension `s`: `2 * (p / s) - 1`, i.e. `(2 p - s) / s`.
pub open spec fn is_convert_axis(f: Frac, p: int, s: int) -> bool {
    f.num == 2 * p - s && f.den == s
}

/// `l` is the pixel-to-local conversion of `p` against a screen of
/// `w` by `h` pixels.
pub open spec fn is_convert(l: LocalPos, p: PixelPos, w: int, h: int) -> bool {
    is_convert_axis(l.x, p.x as int, w) && is_convert_axis(l.y, p.y as int, h)
}

/// One axis of the pixel-to-local conversion.
pub fn convert_axis(p: i32, s: i32) -> (r: Frac)
    requires
        0 < s,
    ensures
        is_convert_axis(r, p as int, s as int),
        frac_wf(r),
{
    Frac { num: 2 * (p as i128) - (s as i128), den: s as i128 }
}

/// Convert a position in pixels to a position in the range [-1, 1]:
/// on each axis, `local = 2 * (pixel / screen) - 1`, held exactly.
pub fn convert_to_local(p: PixelPos, screen_w: i32, screen_h: i32) -> (r: LocalPos)
    requires
        0 < screen_w,
        0 < screen_h,
    ensures
        is_convert(r, p, screen_w as int, screen_h as int),
        local_wf(r),
{
    LocalPos { x: convert_axis(p.x, screen_w), y: convert_axis(p.y, screen_h) }
}

/// `r` is the exact difference `a - b`, before reduction:
/// `(a.num * b.den - b.num * a.den) / (a.den * b.den)`.
pub open spec fn is_frac_sub(r: Frac, a: Frac, b: Frac) -> bool {
    r.num == a.num * b.den - b.num * a.den && r.den == a.den * b.den
}

/// `d` is the exact difference `a - b` on both axes.
pub open spec fn is_local_sub(d: LocalPos, a: LocalPos, b: LocalPos) -> bool {
    is_frac_sub(d.x, a.x, b.x) && is_frac_sub(d.y, a.y, b.y)
}

/// Exact difference of two fractions produced by the conversion above.
pub fn frac_sub(a: Frac, b: Frac) -> (r: Frac)
    requires
        frac_wf(a),
        frac_wf(b),
    ensures
        is_frac_sub(r, a, b),
        0 < r.den,
        a == b ==> r.num == 0,
{
    proof {
        assert(-0x1_0000_0000_0000_0000 <= a.num * b.den <= 0x1_0000_0000_0000_0000
            && -0x1_0000_0000_0000_0000 <= b.num * a.den <= 0x1_0000_0000_0000_0000
            && 0 < a.den * b.den <= 0x4000_0000_0000_0000) by (nonlinear_arith)
            requires
                0 < a.den <= 0x8000_0000,
                0 < b.den <= 0x8000_0000,
                -0x2_0000_0000 <= a.num <= 0x2_0000_0000,
                -0x2_0000_0000 <= b.num <= 0x2_0000_0000;
    }
    Frac { num: a.num * b.den - b.num * a.den, den: a.den * b.den }
}

} // verus!
