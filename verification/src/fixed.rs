//! Exact 16.16 fixed-point scalars.
//!
//! All scale factors, advances and path coordinates of this crate are carried
//! as a signed 64-bit count of 1/65536 units, so every computation is exact
//! integer arithmetic and equality of coordinates is exact equality.

use vstd::prelude::*;

verus! {

/// Number of fixed-point units in 1.0.
pub const FIXED_ONE: i64 = 65536;

/// Largest accepted pixel-scale value, in fixed-point units (16384 pixels).
pub const SCALE_MAX: i64 = 0x4000_0000;

/// Bound on a derived per-axis scale factor: a pixel scale of at most
/// `SCALE_MAX` divided by a font height of at least 1 design unit.
pub const FACTOR_MAX: i64 = 0x4000_0000_0000;

/// Bound on a draw origin coordinate, in fixed-point units.
pub const ORIGIN_MAX: i64 = 0x10_0000_0000_0000;

/// A scalar in 16.16 fixed point: the represented value is `bits / 65536`.
#[derive(Clone, Copy, Debug, PartialEq, Eq, Structural)]
pub struct Fixed(pub i64);

impl Fixed {
    /// The raw count of 1/65536 units.
    pub open spec fn bits(self) -> int {
        self.0 as int
    }

    /// The fixed-point value of a whole number.
    pub fn from_int(v: i32) -> (r: Fixed)
        ensures
            r.bits() == v as int * 65536,
    {
        Fixed((v as i64) * 65536)
    }
}

/// A pair of scalars: an x and a y component.
#[derive(Clone, Copy, Debug, PartialEq, Eq, Structural)]
pub struct Vec2(pub Fixed, pub Fixed);

/// The scale factor that maps a design-unit distance to fixed-point pixels
/// for a requested pixel size `pix` (fixed point) and a font height `fh`
/// (design units): the value `pix / fh`, which a fixed-point `pix` already
/// carries in 16.16 units, rounded toward zero.  At pixel sizes below one
/// 65536th of the font height the factor truncates to zero and every scaled
/// advance and coordinate is zero.
pub open spec fn scale_factor(pix: int, fh: int) -> int {
    pix / fh
}

/// Computes `scale_factor` for an accepted pixel size and a positive font
/// height.
pub fn compute_scale_factor(pix: i64, fh: i32) -> (r: i64)
    requires
        0 <= pix <= SCALE_MAX,
        1 <= fh,
    ensures
        r == scale_factor(pix as int, fh as int),
        0 <= r <= FACTOR_MAX,
{
    let q: u64 = (pix as u64) / (fh as u64);
    assert(q == scale_factor(pix as int, fh as int)) by {
        assert(q == pix as int / (fh as int));
    };
    assert(q <= 0x4000_0000_0000) by {
        assert(pix as int / (fh as int) <= pix as int) by (nonlinear_arith)
            requires
                1 <= fh,
                0 <= pix as int,
        ;
    };
    q as i64
}

/// A signed 16-bit design-unit value times a bounded scale factor stays
/// within half the 64-bit range, leaving room for one translation.
pub proof fn lemma_scaled_bound(v: int, s: int)
    requires
        -32768 <= v <= 32767,
        0 <= s <= FACTOR_MAX,
    ensures
        -0x2000_0000_0000_0000 <= v * s <= 0x2000_0000_0000_0000,
{
    assert(-0x2000_0000_0000_0000 <= v * s <= 0x2000_0000_0000_0000) by (nonlinear_arith)
        requires
            -32768 <= v <= 32767,
            0 <= s <= 0x4000_0000_0000,
    ;
}

} // verus!
