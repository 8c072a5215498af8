//! Integer vectors and the clamped arithmetic used on world coordinates.

use vstd::prelude::*;

verus! {

/// The nearest value to `v` that an `i32` can hold.
pub open spec fn clamp_i32(v: int) -> int {
    if v < i32::MIN as int {
        i32::MIN as int
    } else if v > i32::MAX as int {
        i32::MAX as int
    } else {
        v
    }
}

/// Division that rounds toward zero, for a positive divisor.
pub open spec fn div_toward_zero(a: int, b: int) -> int
    recommends
        b > 0,
{
    if a >= 0 {
        a / b
    } else {
        -((-a) / b)
    }
}

/// Subtraction that stops at the ends of the `i32` range.
pub fn sub_clamped(a: i32, b: i32) -> (r: i32)
    ensures
        r as int == clamp_i32(a as int - b as int),
{
    let wide: i64 = a as i64 - b as i64;
    if wide < i32::MIN as i64 {
        i32::MIN
    } else if wide > i32::MAX as i64 {
        i32::MAX
    } else {
        wide as i32
    }
}

/// Addition that stops at the ends of the `i32` range.
pub fn add_clamped(a: i32, b: i32) -> (r: i32)
    ensures
        r as int == clamp_i32(a as int + b as int),
{
    let wide: i64 = a as i64 + b as i64;
    if wide < i32::MIN as i64 {
        i32::MIN
    } else if wide > i32::MAX as i64 {
        i32::MAX
    } else {
        wide as i32
    }
}

/// The mirror image of `value` about the line that lies `origin` below zero,
/// stopping at the ends of the `i32` range.
pub fn mirror_clamped(origin: i32, value: i32) -> (r: i32)
    ensures
        r as int == clamp_i32(-(origin as int) - value as int),
{
    let wide: i64 = -(origin as i64) - value as i64;
    if wide < i32::MIN as i64 {
        i32::MIN
    } else if wide > i32::MAX as i64 {
        i32::MAX
    } else {
        wide as i32
    }
}

/// Multiplication that stops at the ends of the `i32` range.
pub fn mul_clamped(a: i32, b: i32) -> (r: i32)
    ensures
        r as int == clamp_i32(a as int * b as int),
{
    assert(-0x4000_0000_0000_0000 <= a as int * b as int <= 0x4000_0000_0000_0000)
        by (nonlinear_arith)
        requires
            -0x8000_0000 <= a as int <= 0x7fff_ffff,
            -0x8000_0000 <= b as int <= 0x7fff_ffff,
    ;
    let wide: i64 = a as i64 * b as i64;
    if wide < i32::MIN as i64 {
        i32::MIN
    } else if wide > i32::MAX as i64 {
        i32::MAX
    } else {
        wide as i32
    }
}

/// A thousandth of the product, rounded toward zero, stopping at the ends of
/// the `i32` range.
pub fn thousandth_clamped(a: i32, b: i32) -> (r: i32)
    ensures
        r as int == clamp_i32(div_toward_zero(a as int * b as int, 1000)),
{
    assert(-0x4000_0000_0000_0000 <= a as int * b as int <= 0x4000_0000_0000_0000)
        by (nonlinear_arith)
        requires
            -0x8000_0000 <= a as int <= 0x7fff_ffff,
            -0x8000_0000 <= b as int <= 0x7fff_ffff,
    ;
    let wide: i64 = (a as i64 * b as i64) / 1000;
    if wide < i32::MIN as i64 {
        i32::MIN
    } else if wide > i32::MAX as i64 {
        i32::MAX
    } else {
        wide as i32
    }
}

/// A pair of integers: a tile index, a size in tiles or pixels, or an offset.
#[derive(Clone, Copy, Debug, PartialEq, Eq, Structural)]
pub struct IVec2 {
    pub x: i32,
    pub y: i32,
}

/// A point of the world: `x` and `y` in world units, `z` the drawing layer.
#[derive(Clone, Copy, Debug, PartialEq, Eq, Structural)]
pub struct IVec3 {
    pub x: i32,
    pub y: i32,
    pub z: i32,
}

impl IVec2 {
    pub fn new(x: i32, y: i32) -> (v: IVec2)
        ensures
            v == (IVec2 { x, y }),
    {
        IVec2 { x, y }
    }

    /// The component-wise sum, each component clamped to the `i32` range.
    pub open spec fn plus(self, other: IVec2) -> IVec2 {
        IVec2 {
            x: clamp_i32(self.x as int + other.x as int) as i32,
            y: clamp_i32(self.y as int + other.y as int) as i32,
        }
    }

    /// Moves an index by an offset; see [`IVec2::plus`].
    pub fn offset(self, by: IVec2) -> (v: IVec2)
        ensures
            v == self.plus(by),
    {
        IVec2 { x: add_clamped(self.x, by.x), y: add_clamped(self.y, by.y) }
    }
}

impl IVec3 {
    pub fn new(x: i32, y: i32, z: i32) -> (v: IVec3)
        ensures
            v == (IVec3 { x, y, z }),
    {
        IVec3 { x, y, z }
    }
}

} // verus!
