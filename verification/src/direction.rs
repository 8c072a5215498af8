//! Directions as unit vectors in fixed point. An intent to move counts
//! thousandths: a vector of length [`UNIT`] is one whole step.

use vstd::prelude::*;
use crate::vector::{div_toward_zero, IVec2};

verus! {

/// The length of a unit vector, in the thousandths that an intent counts.
pub const UNIT: i32 = 1000;

/// Whether `root` is the square root of `value`, rounded down.
pub open spec fn is_floor_sqrt(root: int, value: int) -> bool {
    0 <= root && root * root <= value < (root + 1) * (root + 1)
}

/// The square root of `value`, rounded down.
pub open spec fn floor_sqrt(value: int) -> int {
    choose|root: int| is_floor_sqrt(root, value)
}

/// A number has one rounded-down square root only.
pub proof fn lemma_floor_sqrt_unique(first: int, second: int, value: int)
    requires
        is_floor_sqrt(first, value),
        is_floor_sqrt(second, value),
    ensures
        first == second,
{
    if first < second {
        assert((first + 1) * (first + 1) <= second * second) by (nonlinear_arith)
            requires
                0 <= first,
                first + 1 <= second,
        ;
    } else if second < first {
        assert((second + 1) * (second + 1) <= first * first) by (nonlinear_arith)
            requires
                0 <= second,
                second + 1 <= first,
        ;
    }
}

/// The square root of `value`, rounded down, by halving the range it can
/// lie in.
pub fn isqrt(value: u128) -> (root: u64)
    requires
        value < 0x40_0000_0000_0000_0000_0000,
    ensures
        is_floor_sqrt(root as int, value as int),
        root as int == floor_sqrt(value as int),
{
    let mut low: u128 = 0;
    let mut high: u128 = 0x800_0000_0000;
    assert(0x800_0000_0000 * 0x800_0000_0000 == 0x40_0000_0000_0000_0000_0000) by (nonlinear_arith);
    while high - low > 1
        invariant
            low < high <= 0x800_0000_0000,
            low * low <= value < high * high,
        decreases high - low,
    {
        let mid: u128 = low + (high - low) / 2;
        assert(mid * mid < 0x40_0000_0000_0000_0000_0000) by (nonlinear_arith)
            requires
                0 <= mid < 0x800_0000_0000,
        ;
        if mid * mid <= value {
            low = mid;
        } else {
            high = mid;
        }
    }
    proof {
        assert(is_floor_sqrt(low as int, value as int));
        lemma_floor_sqrt_unique(low as int, floor_sqrt(value as int), value as int);
    }
    low as u64
}

/// The unit vector along `(a, b)`, in thousandths, each component rounded
/// toward zero; the zero vector for no direction at all.
pub open spec fn spec_unit_toward(a: int, b: int) -> IVec2 {
    if a == 0 && b == 0 {
        IVec2 { x: 0, y: 0 }
    } else {
        let length = floor_sqrt((a * a + b * b) * 1_000_000);
        IVec2 {
            x: div_toward_zero(a * 1_000_000, length) as i32,
            y: div_toward_zero(b * 1_000_000, length) as i32,
        }
    }
}

/// What is known of the length that [`spec_unit_toward`] divides by: it is
/// the rounded-down root, and no shorter than either component.
pub proof fn lemma_scaled_length(a: int, b: int)
    requires
        a != 0 || b != 0,
    ensures
        is_floor_sqrt(floor_sqrt((a * a + b * b) * 1_000_000), (a * a + b * b) * 1_000_000),
        floor_sqrt((a * a + b * b) * 1_000_000) >= 1000,
        floor_sqrt((a * a + b * b) * 1_000_000) >= 1000 * a,
        floor_sqrt((a * a + b * b) * 1_000_000) >= -1000 * a,
        floor_sqrt((a * a + b * b) * 1_000_000) >= 1000 * b,
        floor_sqrt((a * a + b * b) * 1_000_000) >= -1000 * b,
{
    let value = (a * a + b * b) * 1_000_000;
    assert(value >= 1_000_000 && value >= 1_000_000 * (a * a) && value >= 1_000_000 * (b * b))
        by (nonlinear_arith)
        requires
            value == (a * a + b * b) * 1_000_000,
            a != 0 || b != 0,
    ;
    lemma_floor_sqrt_exists(value);
    let length = floor_sqrt(value);
    lemma_root_at_least(length, value, 1000);
    let wide = if a >= 0 {
        1000 * a
    } else {
        -1000 * a
    };
    assert(wide * wide == 1_000_000 * (a * a)) by (nonlinear_arith)
        requires
            wide == 1000 * a || wide == -1000 * a,
    ;
    lemma_root_at_least(length, value, wide);
    let high = if b >= 0 {
        1000 * b
    } else {
        -1000 * b
    };
    assert(high * high == 1_000_000 * (b * b)) by (nonlinear_arith)
        requires
            high == 1000 * b || high == -1000 * b,
    ;
    lemma_root_at_least(length, value, high);
}

/// A root is no less than any number whose square the value reaches.
proof fn lemma_root_at_least(root: int, value: int, bound: int)
    requires
        is_floor_sqrt(root, value),
        0 <= bound,
        bound * bound <= value,
    ensures
        root >= bound,
{
    if root < bound {
        assert((root + 1) * (root + 1) <= bound * bound) by (nonlinear_arith)
            requires
                0 <= root,
                root + 1 <= bound,
        ;
    }
}

/// Every number from zero on has a rounded-down square root.
pub proof fn lemma_floor_sqrt_exists(value: int)
    requires
        value >= 0,
    ensures
        is_floor_sqrt(floor_sqrt(value), value),
    decreases value,
{
    if value == 0 {
        assert(is_floor_sqrt(0, 0));
    } else {
        lemma_floor_sqrt_exists(value - 1);
        let before = floor_sqrt(value - 1);
        if (before + 1) * (before + 1) <= value {
            assert((before + 1) * (before + 1) == value);
            assert(value < (before + 2) * (before + 2)) by (nonlinear_arith)
                requires
                    (before + 1) * (before + 1) == value,
                    before >= 0,
            ;
            assert(is_floor_sqrt(before + 1, value));
        } else {
            assert(is_floor_sqrt(before, value));
        }
    }
}

/// The unit vector along `(a, b)`; see [`spec_unit_toward`].
pub fn unit_toward(a: i64, b: i64) -> (unit: IVec2)
    requires
        -0xffff_ffff <= a <= 0xffff_ffff,
        -0xffff_ffff <= b <= 0xffff_ffff,
    ensures
        unit == spec_unit_toward(a as int, b as int),
        -1000 <= unit.x <= 1000,
        -1000 <= unit.y <= 1000,
{
    if a == 0 && b == 0 {
        return IVec2 { x: 0, y: 0 };
    }
    assert(0 <= a * a <= 0xffff_ffff * 0xffff_ffff && 0 <= b * b <= 0xffff_ffff * 0xffff_ffff)
        by (nonlinear_arith)
        requires
            -0xffff_ffff <= a <= 0xffff_ffff,
            -0xffff_ffff <= b <= 0xffff_ffff,
    ;
    let square: u128 = (a as i128 * a as i128 + b as i128 * b as i128) as u128;
    let scaled: u128 = square * 1_000_000;
    let length: u64 = isqrt(scaled);
    proof {
        lemma_scaled_length(a as int, b as int);
        lemma_quotient_within(a as int * 1_000_000, length as int);
        lemma_quotient_within(b as int * 1_000_000, length as int);
    }
    let x: i128 = (a as i128 * 1_000_000) / (length as i128);
    let y: i128 = (b as i128 * 1_000_000) / (length as i128);
    IVec2 { x: x as i32, y: y as i32 }
}

/// A quotient is no longer than a thousand where the divisor is at least a
/// thousandth of what it divides.
proof fn lemma_quotient_within(value: int, divisor: int)
    requires
        divisor > 0,
        -1000 * divisor <= value <= 1000 * divisor,
    ensures
        -1000 <= div_toward_zero(value, divisor) <= 1000,
{
    let size = if value >= 0 {
        value
    } else {
        -value
    };
    assert(0 <= size / divisor <= 1000) by (nonlinear_arith)
        requires
            divisor > 0,
            0 <= size <= 1000 * divisor,
    ;
}

/// The size of a number.
pub open spec fn abs(value: int) -> int {
    if value >= 0 {
        value
    } else {
        -value
    }
}

/// A quotient of numbers from zero on, times the divisor, reaches the value
/// from below and misses it by less than the divisor.
proof fn lemma_quotient_bounds(value: int, divisor: int)
    requires
        value >= 0,
        divisor > 0,
    ensures
        0 <= value / divisor,
        (value / divisor) * divisor <= value < (value / divisor + 1) * divisor,
{
    vstd::arithmetic::div_mod::lemma_fundamental_div_mod(value, divisor);
    vstd::arithmetic::div_mod::lemma_mod_bound(value, divisor);
    vstd::arithmetic::div_mod::lemma_div_pos_is_pos(value, divisor);
    let quotient = value / divisor;
    assert((quotient + 1) * divisor == quotient * divisor + divisor) by (nonlinear_arith);
    assert(quotient * divisor == divisor * quotient) by (nonlinear_arith);
}

/// Squares keep the order of numbers from zero on.
proof fn lemma_square_order(small: int, large: int)
    requires
        0 <= small <= large,
    ensures
        small * small <= large * large,
{
    assert(small * small <= large * large) by (nonlinear_arith)
        requires
            0 <= small <= large,
    ;
}

/// Squares keep the strict order of numbers from zero on.
proof fn lemma_square_strict_order(small: int, large: int)
    requires
        0 <= small < large,
    ensures
        small * small < large * large,
{
    assert(small * small < large * large) by (nonlinear_arith)
        requires
            0 <= small < large,
    ;
}

/// The sizes of the components of a unit vector are the quotients of the
/// sizes.
proof fn lemma_unit_sizes(a: int, b: int)
    requires
        a != 0 || b != 0,
    ensures
        abs(spec_unit_toward(a, b).x as int) == (abs(a) * 1_000_000) / floor_sqrt(
            (a * a + b * b) * 1_000_000,
        ),
        abs(spec_unit_toward(a, b).y as int) == (abs(b) * 1_000_000) / floor_sqrt(
            (a * a + b * b) * 1_000_000,
        ),
        a >= 0 ==> spec_unit_toward(a, b).x >= 0,
        a <= 0 ==> spec_unit_toward(a, b).x <= 0,
        b >= 0 ==> spec_unit_toward(a, b).y >= 0,
        b <= 0 ==> spec_unit_toward(a, b).y <= 0,
{
    lemma_scaled_length(a, b);
    let length = floor_sqrt((a * a + b * b) * 1_000_000);
    lemma_quotient_within(a * 1_000_000, length);
    lemma_quotient_within(b * 1_000_000, length);
    lemma_quotient_bounds(abs(a) * 1_000_000, length);
    lemma_quotient_bounds(abs(b) * 1_000_000, length);
}

/// The vector that [`spec_unit_toward`] gives has unit length within
/// rounding: it is shorter than 1001 thousandths, and with one thousandth
/// more on each component it is longer than 1000.
pub proof fn lemma_unit_toward_is_unit(a: int, b: int)
    requires
        a != 0 || b != 0,
    ensures
        ({
            let unit = spec_unit_toward(a, b);
            &&& unit.x * unit.x + unit.y * unit.y < 1001 * 1001
            &&& (abs(unit.x as int) + 1) * (abs(unit.x as int) + 1) + (abs(unit.y as int) + 1) * (abs(
                unit.y as int,
            ) + 1) > 1000 * 1000
        }),
{
    lemma_scaled_length(a, b);
    lemma_unit_sizes(a, b);
    let value = (a * a + b * b) * 1_000_000;
    let length = floor_sqrt(value);
    let wide = abs(a) * 1_000_000;
    let high = abs(b) * 1_000_000;
    let p = wide / length;
    let q = high / length;
    lemma_quotient_bounds(wide, length);
    lemma_quotient_bounds(high, length);
    let unit = spec_unit_toward(a, b);
    assert(unit.x * unit.x == p * p) by (nonlinear_arith)
        requires
            unit.x == p || unit.x == -p,
    ;
    assert(unit.y * unit.y == q * q) by (nonlinear_arith)
        requires
            unit.y == q || unit.y == -q,
    ;
    assert(wide * wide + high * high == value * 1_000_000) by (nonlinear_arith)
        requires
            wide == abs(a) * 1_000_000,
            high == abs(b) * 1_000_000,
            value == (a * a + b * b) * 1_000_000,
            abs(a) == a || abs(a) == -a,
            abs(b) == b || abs(b) == -b,
    ;
    // Not too long.
    lemma_square_order(p * length, wide);
    lemma_square_order(q * length, high);
    assert((p * length) * (p * length) + (q * length) * (q * length) == (p * p + q * q) * (length
        * length)) by (nonlinear_arith);
    assert(value * 1_000_000 < ((length + 1) * (length + 1)) * 1_000_000) by (nonlinear_arith)
        requires
            value < (length + 1) * (length + 1),
    ;
    lemma_square_order((length + 1) * 1000, 1001 * length);
    assert(((length + 1) * 1000) * ((length + 1) * 1000) == ((length + 1) * (length + 1))
        * 1_000_000) by (nonlinear_arith);
    assert((1001 * length) * (1001 * length) == (1001 * 1001) * (length * length))
        by (nonlinear_arith);
    let squares = p * p + q * q;
    let area = length * length;
    assert(area > 0) by (nonlinear_arith)
        requires
            area == length * length,
            length >= 1000,
    ;
    assert(squares < 1001 * 1001) by (nonlinear_arith)
        requires
            squares * area < (1001 * 1001) * area,
            area > 0,
    ;
    // Not too short.
    lemma_square_strict_order(wide, (p + 1) * length);
    lemma_square_strict_order(high, (q + 1) * length);
    assert(((p + 1) * length) * ((p + 1) * length) + ((q + 1) * length) * ((q + 1) * length) == ((p
        + 1) * (p + 1) + (q + 1) * (q + 1)) * (length * length)) by (nonlinear_arith);
    assert(value * 1_000_000 >= area * 1_000_000) by (nonlinear_arith)
        requires
            value >= area,
    ;
    let more = (p + 1) * (p + 1) + (q + 1) * (q + 1);
    assert(more > 1_000_000) by (nonlinear_arith)
        requires
            more * area > area * 1_000_000,
            area > 0,
    ;
}

/// The vector that [`spec_unit_toward`] gives points along `(a, b)` within
/// rounding: each component has the sign of its own, and the two are in
/// the proportion of `a` to `b` but for less than one thousandth each.
pub proof fn lemma_unit_toward_points_along(a: int, b: int)
    requires
        a != 0 || b != 0,
    ensures
        ({
            let unit = spec_unit_toward(a, b);
            &&& a >= 0 ==> unit.x >= 0
            &&& a <= 0 ==> unit.x <= 0
            &&& b >= 0 ==> unit.y >= 0
            &&& b <= 0 ==> unit.y <= 0
            &&& abs(abs(unit.x as int) * abs(b) - abs(unit.y as int) * abs(a)) < abs(a) + abs(b)
        }),
{
    lemma_scaled_length(a, b);
    lemma_unit_sizes(a, b);
    let length = floor_sqrt((a * a + b * b) * 1_000_000);
    let wide = abs(a) * 1_000_000;
    let high = abs(b) * 1_000_000;
    let p = wide / length;
    let q = high / length;
    lemma_quotient_bounds(wide, length);
    lemma_quotient_bounds(high, length);
    let short_x = wide - p * length;
    let short_y = high - q * length;
    let left = abs(a);
    let up = abs(b);
    assert((p * up - q * left) * length == short_y * left - short_x * up) by (nonlinear_arith)
        requires
            short_x == left * 1_000_000 - p * length,
            short_y == up * 1_000_000 - q * length,
    ;
    assert((p + 1) * length == p * length + length) by (nonlinear_arith);
    assert((q + 1) * length == q * length + length) by (nonlinear_arith);
    let cross = p * up - q * left;
    assert(-(left + up) < cross < left + up) by (nonlinear_arith)
        requires
            cross * length == short_y * left - short_x * up,
            0 <= short_x < length,
            0 <= short_y < length,
            left >= 0,
            up >= 0,
            left + up > 0,
            length > 0,
    ;
}

/// Along an axis the unit vector is exact.
pub proof fn lemma_unit_toward_on_axis(a: int)
    requires
        a > 0,
    ensures
        spec_unit_toward(a, 0) == (IVec2 { x: 1000, y: 0 }),
        spec_unit_toward(-a, 0) == (IVec2 { x: -1000i32, y: 0 }),
        spec_unit_toward(0, a) == (IVec2 { x: 0, y: 1000 }),
        spec_unit_toward(0, -a) == (IVec2 { x: 0, y: -1000i32 }),
{
    let value = (a * a) * 1_000_000;
    assert((1000 * a) * (1000 * a) == value) by (nonlinear_arith)
        requires
            value == (a * a) * 1_000_000,
    ;
    assert(value < (1000 * a + 1) * (1000 * a + 1)) by (nonlinear_arith)
        requires
            (1000 * a) * (1000 * a) == value,
            a > 0,
    ;
    assert(is_floor_sqrt(1000 * a, value));
    lemma_floor_sqrt_exists(value);
    lemma_floor_sqrt_unique(1000 * a, floor_sqrt(value), value);
    assert((-a) * (-a) == a * a) by (nonlinear_arith);
    assert((a * 1_000_000) / (1000 * a) == 1000) by (nonlinear_arith)
        requires
            a > 0,
    ;
    assert(0int / (1000 * a) == 0) by (nonlinear_arith)
        requires
            a > 0,
    ;
}

} // verus!
