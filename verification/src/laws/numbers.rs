//! Numbers and identifiers.

use vstd::arithmetic::power2::pow2;
use vstd::prelude::*;

use crate::binary64::Binary64;
use crate::geometry::{Point, Rectangle, Scale, Size, SizeI32};

verus! {

impl Binary64 {
    /// Whether the bits are those of a number: without the sign they are at most infinity's.
    pub open spec fn has_value(self) -> bool {
        self.bits % 0x8000_0000_0000_0000 <= 0x7ff0_0000_0000_0000
    }

    /// Whether the bits are the same, or those of two zeros.
    pub open spec fn is_same_as(self, other: Self) -> bool {
        self.bits == other.bits || (self.bits % 0x8000_0000_0000_0000 == 0 && other.bits
            % 0x8000_0000_0000_0000 == 0)
    }

    /// Whether the bits are those of one and the same number.
    pub open spec fn has_same_value_as(self, other: Self) -> bool {
        self.has_value() && other.has_value() && self.is_same_as(other)
    }

    /// Whether `n` is the integer nearest to the number that is left when the sign is dropped, the
    /// larger one of two that are equally near. The lower 52 bits are the fraction, the 11 bits
    /// above them the exponent, biased by 1023.
    pub open spec fn is_nearest_without_sign(self, n: int) -> bool {
        let magnitude = self.bits as int % 0x8000_0000_0000_0000;
        let exponent = magnitude / 0x10_0000_0000_0000;
        let fraction = magnitude % 0x10_0000_0000_0000;
        if exponent == 0 {
            let unit = pow2(1074);
            -unit < 2 * (n * unit - fraction) <= unit
        } else if exponent < 1075 {
            let unit = pow2((1075 - exponent) as nat);
            -unit < 2 * (n * unit - (fraction + 0x10_0000_0000_0000)) <= unit
        } else {
            n == (fraction + 0x10_0000_0000_0000) * pow2((exponent - 1075) as nat)
        }
    }
}

/// Identifiers from one counter are distinct until it has gone all the way round.
pub proof fn law_ids_are_distinct(first: u64, i: nat, j: nat)
    requires
        i < j < i + 0x1_0000_0000_0000_0000,
    ensures
        crate::ids::nth_id(first, i) != crate::ids::nth_id(first, j),
{
}

/// What a counter hands out after one identifier is what it would have handed out next.
pub proof fn law_ids_follow_on(first: u64, n: nat)
    ensures
        crate::ids::nth_id(first, 0) == first,
        crate::ids::nth_id(crate::ids::nth_id(first, 1), n) == crate::ids::nth_id(first, n + 1),
{
}

/// Numeric equality and order are as expected: equality is symmetric and transitive, and of two
/// numbers exactly one of less, equal and greater holds.
pub proof fn law_numbers_are_ordered(a: Binary64, b: Binary64, c: Binary64)
    ensures
        a.equals(b) <==> b.equals(a),
        a.equals(b) && b.equals(c) ==> a.equals(c),
        a.below(b) && b.below(c) ==> a.below(c),
        !a.nan() && !b.nan() ==> (a.below(b) || a.equals(b) || b.below(a)),
        !(a.below(b) && a.equals(b)) && !(a.below(b) && b.below(a)),
        a.nan() ==> !a.equals(b) && !a.below(b) && !b.below(a),
        a.negated().negated() == a,
        a.below(b) <==> b.negated().below(a.negated()),
{
}

/// Rounding goes to the nearest integer: a number below the range where all numbers are integers
/// is off by at most a half, and where two integers are equally near it goes away from zero.
pub proof fn law_rounding_is_nearest(x: Binary64)
    requires
        x.biased_exponent() < 1075,
    ensures
        ({
            let shift = if x.biased_exponent() == 0 {
                1074
            } else {
                1075 - x.biased_exponent()
            };
            let unit = vstd::arithmetic::power2::pow2(shift as nat);
            -unit < 2 * (x.rounded_magnitude() * unit - x.significand()) <= unit
        }),
{
    let shift = if x.biased_exponent() == 0 {
        1074
    } else {
        1075 - x.biased_exponent()
    };
    let unit = vstd::arithmetic::power2::pow2(shift as nat) as int;
    let significand = x.significand();
    let rounded = x.rounded_magnitude();
    vstd::arithmetic::power2::lemma_pow2_pos(shift as nat);
    assert(rounded == (2 * significand + unit) / (2 * unit));
    assert(-unit < 2 * (rounded * unit - significand) <= unit) by (nonlinear_arith)
        requires
            rounded == (2 * significand + unit) / (2 * unit),
            unit > 0,
    ;
}

/// A counter counts by one and goes from the largest identifier to zero.
pub proof fn law_ids_count_by_one(first: u64, n: nat)
    ensures
        first + n <= u64::MAX ==> crate::ids::nth_id(first, n) == first + n,
        crate::ids::nth_id(u64::MAX, 1) == 0,
{
}

/// Equality, order and sign by the bits: without their sign, numbers are ordered as their bits
/// are; the sign turns the order round, and the two zeros are equal.
pub proof fn law_numbers_go_by_their_bits(a: Binary64, b: Binary64)
    ensures
        a.nan() <==> !a.has_value(),
        a.finite() <==> a.bits % 0x8000_0000_0000_0000 < 0x7ff0_0000_0000_0000,
        a.positive() <==> 0 < a.bits <= 0x7ff0_0000_0000_0000,
        a.equals(b) <==> a.has_same_value_as(b),
        !a.has_value() || !b.has_value() ==> !a.below(b),
        a.has_value() && b.has_value() ==> {
            let sign = 0x8000_0000_0000_0000u64;
            &&& a.bits < sign && b.bits < sign ==> (a.below(b) <==> a.bits < b.bits)
            &&& a.bits >= sign && b.bits >= sign ==> (a.below(b) <==> a.bits > b.bits)
            &&& a.bits >= sign && b.bits < sign ==> (a.below(b) <==> a.bits != sign || b.bits != 0)
            &&& a.bits < sign && b.bits >= sign ==> !a.below(b)
        },
        a.negated().bits == (a.bits + 0x8000_0000_0000_0000) % 0x1_0000_0000_0000_0000,
{
}

/// Points, sizes, rectangles and scales are equal where each of their numbers is, whatever the
/// others are.
pub proof fn law_shapes_go_by_their_numbers(
    points: (Point, Point),
    sizes: (Size, Size),
    rectangles: (Rectangle, Rectangle),
    scales: (Scale, Scale),
)
    ensures
        points.0.equals(points.1) <==> points.0.x.has_same_value_as(points.1.x)
            && points.0.y.has_same_value_as(points.1.y),
        points.0.is_origin() <==> points.0.x.bits % 0x8000_0000_0000_0000 == 0 && points.0.y.bits
            % 0x8000_0000_0000_0000 == 0,
        points.0.mirrored().x.bits == (points.0.x.bits + 0x8000_0000_0000_0000)
            % 0x1_0000_0000_0000_0000,
        points.0.mirrored().y.bits == (points.0.y.bits + 0x8000_0000_0000_0000)
            % 0x1_0000_0000_0000_0000,
        sizes.0.equals(sizes.1) <==> sizes.0.w.has_same_value_as(sizes.1.w)
            && sizes.0.h.has_same_value_as(sizes.1.h),
        sizes.0.positive() <==> 0 < sizes.0.w.bits <= 0x7ff0_0000_0000_0000 && 0 < sizes.0.h.bits
            <= 0x7ff0_0000_0000_0000,
        rectangles.0.equals(rectangles.1) <==> rectangles.0.loc.x.has_same_value_as(
            rectangles.1.loc.x,
        ) && rectangles.0.loc.y.has_same_value_as(rectangles.1.loc.y)
            && rectangles.0.size.w.has_same_value_as(rectangles.1.size.w)
            && rectangles.0.size.h.has_same_value_as(rectangles.1.size.h),
        scales.0.equals(scales.1) <==> scales.0.integer == scales.1.integer
            && scales.0.fractional.has_same_value_as(scales.1.fractional),
        scales.0.agrees_with(scales.1) <==> scales.0.integer == scales.1.integer
            && scales.0.fractional.is_same_as(scales.1.fractional),
{
    law_numbers_go_by_their_bits(points.0.x, points.1.x);
    law_numbers_go_by_their_bits(points.0.y, points.1.y);
    law_numbers_go_by_their_bits(sizes.0.w, sizes.1.w);
    law_numbers_go_by_their_bits(sizes.0.h, sizes.1.h);
    law_numbers_go_by_their_bits(rectangles.0.loc.x, rectangles.1.loc.x);
    law_numbers_go_by_their_bits(rectangles.0.loc.y, rectangles.1.loc.y);
    law_numbers_go_by_their_bits(rectangles.0.size.w, rectangles.1.size.w);
    law_numbers_go_by_their_bits(rectangles.0.size.h, rectangles.1.size.h);
    law_numbers_go_by_their_bits(scales.0.fractional, scales.1.fractional);
}

/// A number with `n` as the nearest integer to it, its sign aside, is rounded to `n` with its
/// sign, or to the end of the range beyond which that is. What is not a number is rounded to zero.
pub proof fn law_rounding_keeps_sign_and_range(x: Binary64, n: int)
    ensures
        !x.has_value() ==> x.rounded_to_i32() == 0,
        x.has_value() && x.is_nearest_without_sign(n) ==> {
            &&& x.bits < 0x8000_0000_0000_0000 ==> x.rounded_to_i32() == if n > i32::MAX {
                i32::MAX as int
            } else {
                n
            }
            &&& x.bits >= 0x8000_0000_0000_0000 ==> x.rounded_to_i32() == if -n < i32::MIN {
                i32::MIN as int
            } else {
                -n
            }
        },
        exists|m: int| m >= 0 && x.is_nearest_without_sign(m),
{
    lemma_rounded_magnitude_is_nearest(x);
    if x.is_nearest_without_sign(n) {
        lemma_nearest_is_unique(x, n, x.rounded_magnitude());
    }
    if x.biased_exponent() < 1054 {
        lemma_rounded_magnitude_in_range(x);
    }
}

/// A number less than half an integer short of the end of the range is rounded to an integer that
/// is at most half away from it.
pub proof fn law_rounding_is_off_by_half_at_most(x: Binary64)
    requires
        x.bits % 0x8000_0000_0000_0000 < 0x41df_ffff_ffe0_0000,
    ensures
        x.bits < 0x8000_0000_0000_0000 ==> x.is_nearest_without_sign(x.rounded_to_i32() as int),
        x.bits >= 0x8000_0000_0000_0000 ==> x.is_nearest_without_sign(-(x.rounded_to_i32() as int)),
{
    lemma_rounded_magnitude_is_nearest(x);
    lemma_rounded_magnitude_in_range(x);
}

/// A whole number is rounded to itself: `n` is a number between two powers of two whose bits are
/// the exponent of the lower one and, as the fraction, how far `n` is on the way to the upper one.
pub proof fn law_whole_numbers_stay(x: Binary64, n: int, exponent: int)
    requires
        0 <= exponent <= 30,
        pow2(exponent as nat) <= n < pow2((exponent + 1) as nat),
        x.bits % 0x8000_0000_0000_0000 == (1023 + exponent) * 0x10_0000_0000_0000 + (n - pow2(
            exponent as nat,
        )) * pow2((52 - exponent) as nat),
    ensures
        x.bits < 0x8000_0000_0000_0000 ==> x.rounded_to_i32() == n,
        x.bits >= 0x8000_0000_0000_0000 ==> x.rounded_to_i32() == -n,
{
    let low = pow2(exponent as nat) as int;
    let unit = pow2((52 - exponent) as nat) as int;
    let fraction = (n - low) * unit;
    vstd::arithmetic::power2::lemma_pow2_adds(exponent as nat, (52 - exponent) as nat);
    vstd::arithmetic::power2::lemma2_to64();
    vstd::arithmetic::power2::lemma2_to64_rest();
    vstd::arithmetic::power2::lemma_pow2_pos((52 - exponent) as nat);
    vstd::arithmetic::power2::lemma_pow2_unfold((exponent + 1) as nat);
    if exponent < 30 {
        vstd::arithmetic::power2::lemma_pow2_strictly_increases((exponent + 1) as nat, 31);
    }
    assert(0 <= fraction < 0x10_0000_0000_0000 && n * unit == fraction + 0x10_0000_0000_0000)
        by (nonlinear_arith)
        requires
            fraction == (n - low) * unit,
            low * unit == 0x10_0000_0000_0000,
            low <= n < 2 * low,
            unit > 0,
    ;
    assert(x.is_nearest_without_sign(n));
    law_rounding_keeps_sign_and_range(x, n);
}

/// A size is rounded side by side: the width in pixels is the rounded width, whatever the height
/// is, and the height in pixels the rounded height, whatever the width is. So a size that lies on
/// its side is rounded to the same pixels on their side.
pub proof fn law_sides_are_rounded_apart(size: Size, other: Size)
    ensures
        size.rounded().w == size.w.rounded_to_i32(),
        size.rounded().h == size.h.rounded_to_i32(),
        size.w == other.w ==> size.rounded().w == other.rounded().w,
        size.h == other.h ==> size.rounded().h == other.rounded().h,
        (Size { w: size.h, h: size.w }).rounded() == (SizeI32 {
            w: size.rounded().h,
            h: size.rounded().w,
        }),
{
}

/// Each side of a size is rounded to pixels that are at most half a pixel away from that very
/// side.
pub proof fn law_size_is_off_by_half_a_pixel_at_most(size: Size)
    requires
        size.w.bits < 0x41df_ffff_ffe0_0000,
        size.h.bits < 0x41df_ffff_ffe0_0000,
    ensures
        size.w.is_nearest_without_sign(size.rounded().w as int),
        size.h.is_nearest_without_sign(size.rounded().h as int),
{
    law_rounding_is_off_by_half_at_most(size.w);
    law_rounding_is_off_by_half_at_most(size.h);
}

/// A size of whole pixels is rounded to itself.
pub proof fn law_whole_pixels_stay(size: Size, w: int, h: int, exponents: (int, int))
    requires
        0 <= exponents.0 <= 30,
        0 <= exponents.1 <= 30,
        pow2(exponents.0 as nat) <= w < pow2((exponents.0 + 1) as nat),
        pow2(exponents.1 as nat) <= h < pow2((exponents.1 + 1) as nat),
        size.w.bits == (1023 + exponents.0) * 0x10_0000_0000_0000 + (w - pow2(exponents.0 as nat))
            * pow2((52 - exponents.0) as nat),
        size.h.bits == (1023 + exponents.1) * 0x10_0000_0000_0000 + (h - pow2(exponents.1 as nat))
            * pow2((52 - exponents.1) as nat),
        size.w.bits < 0x8000_0000_0000_0000,
        size.h.bits < 0x8000_0000_0000_0000,
    ensures
        size.rounded().w == w,
        size.rounded().h == h,
{
    law_whole_numbers_stay(size.w, w, exponents.0);
    law_whole_numbers_stay(size.h, h, exponents.1);
}

proof fn lemma_rounded_magnitude_is_nearest(x: Binary64)
    ensures
        x.is_nearest_without_sign(x.rounded_magnitude()),
        x.rounded_magnitude() >= 0,
{
    if x.biased_exponent() < 1075 {
        law_rounding_is_nearest(x);
        let shift = if x.biased_exponent() == 0 {
            1074
        } else {
            1075 - x.biased_exponent()
        };
        let unit = pow2(shift as nat) as int;
        let rounded = x.rounded_magnitude();
        let significand = x.significand();
        vstd::arithmetic::power2::lemma_pow2_pos(shift as nat);
        assert(rounded >= 0) by (nonlinear_arith)
            requires
                -unit < 2 * (rounded * unit - significand),
                significand >= 0,
                unit > 0,
        ;
    } else {
        let unit = pow2((x.biased_exponent() - 1075) as nat) as int;
        let significand = x.significand();
        assert(significand * unit >= 0) by (nonlinear_arith)
            requires
                significand >= 0,
                unit >= 0,
        ;
    }
}

proof fn lemma_nearest_is_unique(x: Binary64, n: int, m: int)
    requires
        x.is_nearest_without_sign(n),
        x.is_nearest_without_sign(m),
    ensures
        n == m,
{
    if x.biased_exponent() < 1075 {
        let shift = if x.biased_exponent() == 0 {
            1074
        } else {
            1075 - x.biased_exponent()
        };
        let unit = pow2(shift as nat) as int;
        let significand = x.significand();
        assert(n == m) by (nonlinear_arith)
            requires
                -unit < 2 * (n * unit - significand) <= unit,
                -unit < 2 * (m * unit - significand) <= unit,
        ;
    }
}

proof fn lemma_rounded_magnitude_in_range(x: Binary64)
    requires
        x.biased_exponent() < 1054,
    ensures
        x.rounded_magnitude() <= 0x8000_0000,
        x.magnitude() < 0x41df_ffff_ffe0_0000 ==> x.rounded_magnitude() < 0x8000_0000,
{
    let shift = if x.biased_exponent() == 0 {
        1074
    } else {
        1075 - x.biased_exponent()
    };
    let unit = pow2(shift as nat) as int;
    let significand = x.significand();
    let rounded = x.rounded_magnitude();
    law_rounding_is_nearest(x);
    vstd::arithmetic::power2::lemma2_to64();
    if shift > 22 {
        vstd::arithmetic::power2::lemma_pow2_strictly_increases(22, shift as nat);
        vstd::arithmetic::power2::lemma2_to64_rest();
        if shift > 23 {
            vstd::arithmetic::power2::lemma_pow2_strictly_increases(23, shift as nat);
        }
        assert(rounded < 0x8000_0000) by (nonlinear_arith)
            requires
                2 * (rounded * unit - significand) <= unit,
                significand < 0x20_0000_0000_0000,
                unit >= 0x80_0000,
        ;
    } else {
        assert(rounded * unit == rounded * 0x40_0000) by (nonlinear_arith)
            requires
                unit == 0x40_0000,
        ;
    }
}

} // verus!
