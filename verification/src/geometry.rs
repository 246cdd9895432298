//! Coordinate math: conversion between logical and physical pixels.
//!
//! A scale factor is the ratio of physical pixels to logical pixels.  It is
//! kept as an exact rational so that conversions are stated and proved
//! without rounding surprises: converting a physical length to logical units
//! is exact, and converting back rounds to the nearest integer pixel.

use vstd::prelude::*;

verus! {

/// Rounded division `a / b` for `b > 0`: the quotient rounded to the
/// nearest integer, halves rounded up.
pub open spec fn round_div(a: int, b: int) -> int {
    (a + b / 2) / b
}

/// A two-dimensional integer vector (window positions, move events).
#[derive(Clone, Copy, Debug, PartialEq, Eq, Structural)]
pub struct IVec2 {
    pub x: i32,
    pub y: i32,
}

impl IVec2 {
    pub fn new(x: i32, y: i32) -> (v: IVec2)
        ensures
            v.x == x,
            v.y == y,
    {
        IVec2 { x, y }
    }
}

/// A point in physical pixels, as the backend reports it.
#[derive(Clone, Copy, Debug, PartialEq, Eq, Structural)]
pub struct PhysicalPoint {
    pub x: i64,
    pub y: i64,
}

impl PhysicalPoint {
    pub fn new(x: i64, y: i64) -> (p: PhysicalPoint)
        ensures
            p.x == x,
            p.y == y,
    {
        PhysicalPoint { x, y }
    }
}

/// A point in logical pixels, each axis an exact rational.
#[derive(Clone, Copy, Debug, PartialEq, Eq, Structural)]
pub struct LogicalPoint {
    pub x: LogicalPx,
    pub y: LogicalPx,
}

impl LogicalPoint {
    pub fn new(x: LogicalPx, y: LogicalPx) -> (p: LogicalPoint)
        ensures
            p.x == x,
            p.y == y,
    {
        LogicalPoint { x, y }
    }
}

/// The ratio of physical pixels to logical pixels, as an exact rational
/// `num / den`.  Both parts are kept small so that every product the
/// conversions need fits comfortably in machine integers.
#[derive(Clone, Copy, Debug, PartialEq, Eq, Structural)]
pub struct ScaleFactor {
    pub num: u32,
    pub den: u32,
}

impl ScaleFactor {
    /// The numerator of the ratio.
    pub open spec fn spec_num(self) -> int {
        self.num as int
    }

    /// The denominator of the ratio.
    pub open spec fn spec_den(self) -> int {
        self.den as int
    }

    /// Both parts are at least one (the ratio is positive) and at most
    /// 65536 (so products of two parts fit in 32 bits with room to spare).
    pub open spec fn wf(self) -> bool {
        1 <= self.spec_num() <= 65536 && 1 <= self.spec_den() <= 65536
    }

    pub fn new(num: u32, den: u32) -> (s: ScaleFactor)
        requires
            1 <= num <= 65536,
            1 <= den <= 65536,
        ensures
            s.wf(),
            s.spec_num() == num,
            s.spec_den() == den,
    {
        ScaleFactor { num, den }
    }

    /// The identity scale factor: one physical pixel per logical pixel.
    pub fn one() -> (s: ScaleFactor)
        ensures
            s.wf(),
            s.spec_num() == 1,
            s.spec_den() == 1,
    {
        ScaleFactor { num: 1, den: 1 }
    }

    pub fn numerator(&self) -> (r: u32)
        ensures
            r == self.spec_num(),
    {
        self.num
    }

    pub fn denominator(&self) -> (r: u32)
        ensures
            r == self.spec_den(),
    {
        self.den
    }

    /// Whether two scale factors denote the same ratio, regardless of the
    /// representation chosen for each.
    pub fn same_ratio(&self, other: &ScaleFactor) -> (r: bool)
        ensures
            r == (self.spec_num() * other.spec_den() == other.spec_num() * self.spec_den()),
    {
        proof {
            assert(0 <= self.spec_num() * other.spec_den() <= 0xFFFFFFFF * 0xFFFFFFFF)
                by (nonlinear_arith)
                requires
                    0 <= self.spec_num() <= 0xFFFFFFFF,
                    0 <= other.spec_den() <= 0xFFFFFFFF,
            ;
            assert(0 <= other.spec_num() * self.spec_den() <= 0xFFFFFFFF * 0xFFFFFFFF)
                by (nonlinear_arith)
                requires
                    0 <= other.spec_num() <= 0xFFFFFFFF,
                    0 <= self.spec_den() <= 0xFFFFFFFF,
            ;
        }
        (self.num as u64) * (other.den as u64) == (other.num as u64) * (self.den as u64)
    }
}

/// A length or offset in logical pixels, as an exact rational `num / den`.
///
/// Logical quantities arise by dividing physical pixel counts by a scale
/// factor; keeping them as rationals makes that division exact.
#[derive(Clone, Copy, Debug, PartialEq, Eq, Structural)]
pub struct LogicalPx {
    pub num: i64,
    pub den: u32,
}

impl LogicalPx {
    pub open spec fn spec_num(self) -> int {
        self.num as int
    }

    pub open spec fn spec_den(self) -> int {
        self.den as int
    }

    /// The denominator is a scale-factor part and the numerator is a pixel
    /// count times a scale-factor part, so both stay well inside 64 bits.
    pub open spec fn wf(self) -> bool {
        &&& 1 <= self.spec_den() <= 65536
        &&& -0x4000000000000 <= self.spec_num() <= 0x4000000000000
    }

    /// A whole number of logical pixels.
    pub fn from_pixels(px: u32) -> (l: LogicalPx)
        ensures
            l.wf(),
            l.spec_num() == px,
            l.spec_den() == 1,
    {
        LogicalPx { num: px as i64, den: 1 }
    }

    pub fn numerator(&self) -> (r: i64)
        ensures
            r == self.spec_num(),
    {
        self.num
    }

    pub fn denominator(&self) -> (r: u32)
        ensures
            r == self.spec_den(),
    {
        self.den
    }

    /// The whole number of logical pixels, rounded down, saturating at
    /// `u32::MAX`.
    pub fn floor_px(&self) -> (r: u32)
        requires
            self.wf(),
            self.spec_num() >= 0,
        ensures
            r == vstd::math::min(self.spec_num() / self.spec_den(), u32::MAX as int),
    {
        let q: u64 = (self.num as u64) / (self.den as u64);
        if q > u32::MAX as u64 {
            u32::MAX
        } else {
            q as u32
        }
    }

    /// Whether two logical quantities denote the same rational value.
    pub fn same_value(&self, other: &LogicalPx) -> (r: bool)
        ensures
            r == (self.spec_num() * other.spec_den() == other.spec_num() * self.spec_den()),
    {
        proof {
            assert(-0x8000000000000000 * 0x100000000 <= self.spec_num() * other.spec_den()
                <= 0x8000000000000000 * 0x100000000) by (nonlinear_arith)
                requires
                    -0x8000000000000000 <= self.spec_num() <= 0x8000000000000000,
                    0 <= other.spec_den() <= 0x100000000,
            ;
            assert(-0x8000000000000000 * 0x100000000 <= other.spec_num() * self.spec_den()
                <= 0x8000000000000000 * 0x100000000) by (nonlinear_arith)
                requires
                    -0x8000000000000000 <= other.spec_num() <= 0x8000000000000000,
                    0 <= self.spec_den() <= 0x100000000,
            ;
        }
        (self.num as i128) * (other.den as i128) == (other.num as i128) * (self.den as i128)
    }
}

/// The physical pixel count that a nonnegative logical quantity maps to
/// under a scale factor: the product rounded to the nearest integer,
/// saturating at `u32::MAX` (the backend cannot represent more).
pub open spec fn spec_to_physical(l: LogicalPx, s: ScaleFactor) -> int {
    vstd::math::min(
        round_div(l.spec_num() * s.spec_num(), l.spec_den() * s.spec_den()),
        u32::MAX as int,
    )
}

/// The exact logical quantity that a physical pixel count corresponds to
/// under a scale factor.
pub fn to_logical(physical: u32, scale: ScaleFactor) -> (l: LogicalPx)
    requires
        scale.wf(),
    ensures
        l.wf(),
        l.spec_num() == physical * scale.spec_den(),
        l.spec_den() == scale.spec_num(),
        l.spec_num() >= 0,
{
    proof {
        assert(physical * scale.spec_den() <= 0xFFFFFFFF * 65536) by (nonlinear_arith)
            requires
                physical <= 0xFFFFFFFF,
                0 <= scale.spec_den() <= 65536,
        ;
        assert(physical * scale.spec_den() >= 0) by (nonlinear_arith)
            requires
                physical >= 0,
                scale.spec_den() >= 0,
        ;
    }
    LogicalPx { num: (physical as i64) * (scale.den as i64), den: scale.num }
}

/// The exact logical quantity for a signed physical offset (cursor and
/// touch coordinates may fall outside the window).
pub fn to_logical_offset(physical: i64, scale: ScaleFactor) -> (l: LogicalPx)
    requires
        scale.wf(),
        -0x200000000 <= physical <= 0x200000000,
    ensures
        l.wf(),
        l.spec_num() == physical * scale.spec_den(),
        l.spec_den() == scale.spec_num(),
{
    proof {
        assert(-0x4000000000000 <= physical * scale.spec_den() <= 0x4000000000000)
            by (nonlinear_arith)
            requires
                -0x200000000 <= physical <= 0x200000000,
                1 <= scale.spec_den() <= 65536,
        ;
    }
    LogicalPx { num: physical * (scale.den as i64), den: scale.num }
}

/// The physical pixel count for a nonnegative logical quantity: rounded to
/// the nearest integer pixel, saturating at `u32::MAX`.
pub fn to_physical(l: LogicalPx, scale: ScaleFactor) -> (p: u32)
    requires
        l.wf(),
        scale.wf(),
        l.spec_num() >= 0,
    ensures
        p == spec_to_physical(l, scale),
{
    proof {
        assert(0 <= l.spec_num() * scale.spec_num() <= 0x4000000000000 * 65536)
            by (nonlinear_arith)
            requires
                0 <= l.spec_num() <= 0x4000000000000,
                1 <= scale.spec_num() <= 65536,
        ;
        assert(1 <= l.spec_den() * scale.spec_den() <= 65536 * 65536) by (nonlinear_arith)
            requires
                1 <= l.spec_den() <= 65536,
                1 <= scale.spec_den() <= 65536,
        ;
    }
    let a: u128 = (l.num as u128) * (scale.num as u128);
    let b: u128 = (l.den as u128) * (scale.den as u128);
    let q: u128 = (a + b / 2) / b;
    if q > u32::MAX as u128 {
        u32::MAX
    } else {
        q as u32
    }
}

/// The physical offset for a signed whole number of logical pixels,
/// rounding half away from zero.
pub open spec fn spec_to_physical_offset(x: int, s: ScaleFactor) -> int {
    if x >= 0 {
        round_div(x * s.spec_num(), s.spec_den())
    } else {
        -round_div(-x * s.spec_num(), s.spec_den())
    }
}

pub fn to_physical_offset(x: i32, scale: ScaleFactor) -> (p: i64)
    requires
        scale.wf(),
    ensures
        p == spec_to_physical_offset(x as int, scale),
        -0x1000000000000 <= p <= 0x1000000000000,
{
    let magnitude: u64 = if x >= 0 {
        x as u64
    } else {
        (-(x as i64)) as u64
    };
    proof {
        assert(magnitude * scale.spec_num() <= 0x80000000 * 65536) by (nonlinear_arith)
            requires
                0 <= magnitude <= 0x80000000,
                1 <= scale.spec_num() <= 65536,
        ;
        assert(magnitude * scale.spec_num() >= 0) by (nonlinear_arith)
            requires
                magnitude >= 0,
                scale.spec_num() >= 0,
        ;
        lemma_round_div_bounds(magnitude * scale.spec_num(), scale.spec_den());
    }
    let scaled: u64 = magnitude * (scale.num as u64);
    let q: u64 = (scaled + (scale.den / 2) as u64) / (scale.den as u64);
    if x >= 0 {
        q as i64
    } else {
        -(q as i64)
    }
}

/// Rounded division of a nonnegative number stays between 0 and the
/// dividend.
pub proof fn lemma_round_div_bounds(a: int, b: int)
    requires
        0 <= a,
        1 <= b,
    ensures
        0 <= round_div(a, b) <= a,
{
    let h = b / 2;
    assert(0 <= h < b);
    assert((a + h) / b >= 0) by (nonlinear_arith)
        requires
            a + h >= 0,
            b >= 1,
    ;
    assert((a + h) / b <= a) by (nonlinear_arith)
        requires
            0 <= a,
            0 <= h < b,
            1 <= b,
    ;
}

/// Converting a physical length to logical units and back reproduces the
/// length exactly: the logical value is an exact rational, and rounding a
/// whole number returns it unchanged.
pub proof fn lemma_logical_physical_round_trip(physical: u32, l: LogicalPx, s: ScaleFactor)
    requires
        s.wf(),
        l.spec_num() == physical * s.spec_den(),
        l.spec_den() == s.spec_num(),
    ensures
        spec_to_physical(l, s) == physical,
{
    let b = l.spec_den() * s.spec_den();
    assert(1 <= b <= 65536 * 65536) by (nonlinear_arith)
        requires
            b == l.spec_den() * s.spec_den(),
            1 <= l.spec_den() <= 65536,
            1 <= s.spec_den() <= 65536,
    ;
    assert(l.spec_num() * s.spec_num() == b * physical) by (nonlinear_arith)
        requires
            l.spec_num() == physical * s.spec_den(),
            l.spec_den() == s.spec_num(),
            b == l.spec_den() * s.spec_den(),
    ;
    assert(0 <= b / 2 < b);
    vstd::arithmetic::div_mod::lemma_div_multiples_vanish_fancy(physical as int, b / 2, b);
    assert((b * physical + b / 2) / b == physical);
}

} // verus!
