//! Double-precision numbers, held as their IEEE 754 bit patterns.
//!
//! Every question that the bridge asks of a number (is it larger, is it a quarter turn) is
//! answered here with integer arithmetic on the pattern, and stated over the number's value.

use vstd::arithmetic::mul::{lemma_mul_inequality, lemma_mul_strict_inequality};
use vstd::arithmetic::power2::{
    lemma2_to64, lemma2_to64_rest, lemma_pow2_adds, lemma_pow2_pos,
    lemma_pow2_strictly_increases, lemma_pow2_unfold, pow2,
};
use vstd::prelude::*;

verus! {

/// The pattern that holds nothing but the sign.
pub const SIGN: u64 = 0x8000_0000_0000_0000;

/// How many patterns share one exponent.
pub const BINADE: u64 = 0x10_0000_0000_0000;

/// The pattern of positive infinity.
pub const INFINITY: u64 = 0x7ff0_0000_0000_0000;

/// The pattern of the largest finite number.
pub const LARGEST: u64 = 0x7fef_ffff_ffff_ffff;

/// The pattern of the smallest finite number, the negative of the largest.
pub const SMALLEST: u64 = 0xffef_ffff_ffff_ffff;

/// The pattern of zero.
pub const ZERO: u64 = 0;

/// The pattern of one.
pub const ONE: u64 = 0x3ff0_0000_0000_0000;

/// The pattern of 90.
pub const NINETY: u64 = 0x4056_8000_0000_0000;

/// The pattern of 270.
pub const TWO_HUNDRED_SEVENTY: u64 = 0x4070_e000_0000_0000;

/// A double-precision number. `==` compares patterns, not values.
#[derive(Clone, Copy, Debug, PartialEq, Eq, Structural)]
pub struct Double {
    pub bits: u64,
}

/// The value of a pattern without sign, counted in the smallest positive double (2 to the -1074).
///
/// Infinity gets the value that its exponent would have if it were an ordinary one: more than
/// any finite number, which is all that an order needs.
pub open spec fn magnitude_units(pattern: int) -> int {
    let exponent = pattern / BINADE as int;
    let fraction = pattern % BINADE as int;
    if exponent == 0 {
        fraction
    } else {
        (BINADE + fraction) * pow2((exponent - 1) as nat)
    }
}

/// One, counted in the smallest positive double.
pub open spec fn one_in_units() -> int {
    pow2(1074) as int
}

pub open spec fn distance(a: int, b: int) -> int {
    if a <= b {
        b - a
    } else {
        a - b
    }
}

impl Double {
    #[verifier::allow_in_spec]
    pub fn from_bits(bits: u64) -> Double
        returns
            (Double { bits }),
    {
        Double { bits }
    }

    pub open spec fn pattern_without_sign(self) -> int {
        self.bits as int % SIGN as int
    }

    pub open spec fn not_a_number(self) -> bool {
        self.pattern_without_sign() > INFINITY
    }

    /// The number's value, counted in the smallest positive double.
    pub open spec fn units(self) -> int {
        if self.bits >= SIGN {
            -magnitude_units(self.pattern_without_sign())
        } else {
            magnitude_units(self.pattern_without_sign())
        }
    }

    /// The number is exactly `numerator / denominator`.
    pub open spec fn is_exactly(self, numerator: int, denominator: int) -> bool {
        &&& !self.not_a_number()
        &&& self.units() * denominator == numerator * one_in_units()
    }

    /// No number is closer to `numerator / denominator` than this one.
    pub open spec fn is_nearest_to(self, numerator: int, denominator: int) -> bool {
        &&& !self.not_a_number()
        &&& forall|other: Double|
            #![trigger other.units()]
            !other.not_a_number() ==> distance(
                self.units() * denominator,
                numerator * one_in_units(),
            ) <= distance(other.units() * denominator, numerator * one_in_units())
    }

    /// The number or its negative is exactly `whole`.
    pub open spec fn has_absolute_value(self, whole: int) -> bool {
        &&& !self.not_a_number()
        &&& (self.units() == whole * one_in_units() || self.units() == -whole * one_in_units())
    }

    /// An integer that orders the patterns as their values are ordered.
    pub open spec fn rank_spec(self) -> int {
        if self.bits >= SIGN {
            -self.pattern_without_sign()
        } else {
            self.pattern_without_sign()
        }
    }

    fn rank(self) -> (rank: i64)
        ensures
            rank == self.rank_spec(),
    {
        if self.bits >= SIGN {
            -((self.bits - SIGN) as i64)
        } else {
            self.bits as i64
        }
    }

    /// `self <= other`, which no comparison with a NaN meets.
    pub fn at_most(self, other: Double) -> (answer: bool)
        ensures
            answer == (!self.not_a_number() && !other.not_a_number() && self.units()
                <= other.units()),
    {
        proof {
            lemma_rank_orders(self, other);
        }
        !self.is_nan() && !other.is_nan() && self.rank() <= other.rank()
    }

    /// The larger of `self` and `other`. A NaN gives way to the other number, and of two equal
    /// values `other` is taken.
    pub fn larger(self, other: Double) -> (result: Double)
        ensures
            result == self.larger_spec(other),
    {
        proof {
            lemma_rank_orders(other, self);
        }
        if self.is_nan() {
            other
        } else if other.is_nan() || other.rank() < self.rank() {
            self
        } else {
            other
        }
    }

    pub open spec fn larger_spec(self, other: Double) -> Double {
        if !self.not_a_number() && (other.not_a_number() || self.units() > other.units()) {
            self
        } else {
            other
        }
    }

    /// The smaller of `self` and `other`. A NaN gives way to the other number, and of two equal
    /// values `other` is taken.
    pub fn smaller(self, other: Double) -> (result: Double)
        ensures
            result == self.smaller_spec(other),
    {
        proof {
            lemma_rank_orders(self, other);
        }
        if self.is_nan() {
            other
        } else if other.is_nan() || self.rank() < other.rank() {
            self
        } else {
            other
        }
    }

    pub open spec fn smaller_spec(self, other: Double) -> Double {
        if !self.not_a_number() && (other.not_a_number() || self.units() < other.units()) {
            self
        } else {
            other
        }
    }

    /// An angle in degrees that turns width into height: 90 or 270, in either direction.
    pub open spec fn quarter_turn(self) -> bool {
        self.has_absolute_value(90) || self.has_absolute_value(270)
    }

    pub fn is_quarter_turn(self) -> (answer: bool)
        ensures
            answer == self.quarter_turn(),
    {
        proof {
            lemma_whole_patterns();
            lemma_absolute_value(self, Double::from_bits(NINETY), 90);
            lemma_absolute_value(self, Double::from_bits(TWO_HUNDRED_SEVENTY), 270);
        }
        let unsigned: u64 = self.bits % SIGN;
        unsigned == NINETY || unsigned == TWO_HUNDRED_SEVENTY
    }

    pub fn is_nan(self) -> (answer: bool)
        ensures
            answer == self.not_a_number(),
    {
        self.bits % SIGN > INFINITY
    }
}

/// A larger pattern has a larger value.
proof fn lemma_magnitude_increases(a: int, b: int)
    requires
        0 <= a < b,
    ensures
        magnitude_units(a) < magnitude_units(b),
{
    let binade = BINADE as int;
    let (ea, fa) = (a / binade, a % binade);
    let (eb, fb) = (b / binade, b % binade);
    if ea == eb {
        assert(fa < fb);
        if ea > 0 {
            let unit = pow2((ea - 1) as nat) as int;
            lemma_pow2_pos((ea - 1) as nat);
            lemma_mul_strict_inequality(binade + fa, binade + fb, unit);
        }
    } else {
        assert(ea < eb);
        let unit_b = pow2((eb - 1) as nat) as int;
        lemma_pow2_pos((eb - 1) as nat);
        assert(binade * unit_b <= magnitude_units(b)) by {
            lemma_mul_inequality(binade, binade + fb, unit_b);
        }
        if ea == 0 {
            assert(fa < binade * unit_b) by (nonlinear_arith)
                requires
                    fa < binade,
                    binade > 0,
                    unit_b >= 1,
            ;
        } else {
            let unit_a = pow2((ea - 1) as nat) as int;
            lemma_pow2_pos((ea - 1) as nat);
            lemma_mul_strict_inequality(binade + fa, 2 * binade, unit_a);
            lemma_pow2_unfold(ea as nat);
            if ea < eb - 1 {
                lemma_pow2_strictly_increases(ea as nat, (eb - 1) as nat);
            }
            assert(2 * binade * unit_a <= binade * unit_b) by (nonlinear_arith)
                requires
                    2 * unit_a <= unit_b,
                    binade > 0,
            ;
        }
    }
}

/// Two numbers are ordered as their ranks are.
pub(crate) proof fn lemma_rank_orders(a: Double, b: Double)
    ensures
        a.rank_spec() < b.rank_spec() <==> a.units() < b.units(),
        a.rank_spec() == b.rank_spec() <==> a.units() == b.units(),
{
    let (pa, pb) = (a.pattern_without_sign(), b.pattern_without_sign());
    assert(magnitude_units(0) == 0);
    if 0 < pa {
        lemma_magnitude_increases(0, pa);
    }
    if 0 < pb {
        lemma_magnitude_increases(0, pb);
    }
    if pa < pb {
        lemma_magnitude_increases(pa, pb);
    } else if pb < pa {
        lemma_magnitude_increases(pb, pa);
    }
}

/// The value of a positive finite number, and one, as multiples of the number's last place.
proof fn lemma_last_place(d: Double, exponent: nat, significand: int)
    requires
        0 < exponent <= 1075,
        BINADE <= significand < 2 * BINADE,
        d.bits == (exponent - 1) * BINADE + significand,
    ensures
        !d.not_a_number(),
        d.pattern_without_sign() == d.bits,
        pow2((exponent - 1) as nat) > 0,
        d.units() == significand * pow2((exponent - 1) as nat),
        one_in_units() == pow2((1075 - exponent) as nat) * pow2((exponent - 1) as nat),
{
    let binade = BINADE as int;
    let fraction = significand - binade;
    assert(d.bits as int == exponent * binade + fraction) by (nonlinear_arith)
        requires
            d.bits as int == (exponent - 1) * binade + significand,
            fraction == significand - binade,
    ;
    assert(d.bits as int / binade == exponent && d.bits as int % binade == fraction)
        by (nonlinear_arith)
        requires
            d.bits as int == exponent * binade + fraction,
            0 <= fraction < binade,
    ;
    assert(exponent * binade <= 1075 * binade) by (nonlinear_arith)
        requires
            exponent <= 1075,
            binade > 0,
    ;
    lemma_pow2_pos((exponent - 1) as nat);
    lemma_pow2_adds((1075 - exponent) as nat, (exponent - 1) as nat);
}

/// A number is `numerator / denominator` when its significand is, shifted to the last place.
pub(crate) proof fn lemma_exactly(
    d: Double,
    exponent: nat,
    significand: int,
    numerator: int,
    denominator: int,
)
    requires
        0 < exponent <= 1075,
        BINADE <= significand < 2 * BINADE,
        d.bits == (exponent - 1) * BINADE + significand,
        significand * denominator == numerator * pow2((1075 - exponent) as nat),
    ensures
        d.is_exactly(numerator, denominator),
{
    lemma_last_place(d, exponent, significand);
    let unit = pow2((exponent - 1) as nat) as int;
    let shift = pow2((1075 - exponent) as nat) as int;
    assert((significand * unit) * denominator == numerator * (shift * unit)) by (nonlinear_arith)
        requires
            significand * denominator == numerator * shift,
    ;
}

/// A number is the nearest to `numerator / denominator` when its significand is within half a
/// last place, and is not the first of its binade.
pub(crate) proof fn lemma_nearest(
    d: Double,
    exponent: nat,
    significand: int,
    numerator: int,
    denominator: int,
)
    requires
        0 < exponent <= 1075,
        BINADE < significand < 2 * BINADE - 1,
        d.bits == (exponent - 1) * BINADE + significand,
        denominator > 0,
        2 * distance(significand * denominator, numerator * pow2((1075 - exponent) as nat))
            <= denominator,
    ensures
        d.is_nearest_to(numerator, denominator),
{
    lemma_last_place(d, exponent, significand);
    let unit = pow2((exponent - 1) as nat) as int;
    let shift = pow2((1075 - exponent) as nat) as int;
    let target = numerator * one_in_units();
    let off = significand * denominator - numerator * shift;
    assert(d.units() * denominator - target == off * unit) by (nonlinear_arith)
        requires
            d.units() == significand * unit,
            target == numerator * (shift * unit),
            off == significand * denominator - numerator * shift,
    ;
    assert(-(denominator * unit) <= 2 * (off * unit) <= denominator * unit) by (nonlinear_arith)
        requires
            -denominator <= 2 * off <= denominator,
            unit > 0,
    ;
    let above = Double::from_bits((d.bits + 1) as u64);
    let below = Double::from_bits((d.bits - 1) as u64);
    lemma_last_place(above, exponent, significand + 1);
    lemma_last_place(below, exponent, significand - 1);
    assert(above.units() == d.units() + unit && below.units() == d.units() - unit)
        by (nonlinear_arith)
        requires
            d.units() == significand * unit,
            above.units() == (significand + 1) * unit,
            below.units() == (significand - 1) * unit,
    ;
    assert forall|other: Double|
        #![trigger other.units()]
        !other.not_a_number() implies distance(d.units() * denominator, target) <= distance(
        other.units() * denominator,
        target,
    ) by {
        lemma_rank_orders(other, d);
        lemma_rank_orders(other, above);
        lemma_rank_orders(other, below);
        if other.units() > d.units() {
            assert(other.units() * denominator >= d.units() * denominator + denominator * unit)
                by (nonlinear_arith)
                requires
                    other.units() >= d.units() + unit,
                    denominator > 0,
            ;
        } else if other.units() < d.units() {
            assert(other.units() * denominator <= d.units() * denominator - denominator * unit)
                by (nonlinear_arith)
                requires
                    other.units() <= d.units() - unit,
                    denominator > 0,
            ;
        }
    }
}

/// The pattern of one stands for this number.
pub(crate) proof fn lemma_one()
    ensures
        Double::from_bits(ONE).is_exactly(1, 1),
{
    lemma2_to64_rest();
    lemma_exactly(Double::from_bits(ONE), 1023, 0x10_0000_0000_0000, 1, 1);
}

/// The patterns of 90 and 270 stand for these numbers.
proof fn lemma_whole_patterns()
    ensures
        Double::from_bits(NINETY).is_exactly(90, 1),
        Double::from_bits(TWO_HUNDRED_SEVENTY).is_exactly(270, 1),
{
    lemma2_to64_rest();
    lemma_exactly(Double::from_bits(NINETY), 1029, 0x16_8000_0000_0000, 90, 1);
    lemma_exactly(Double::from_bits(TWO_HUNDRED_SEVENTY), 1031, 0x10_e000_0000_0000, 270, 1);
}

/// A number has the absolute value of a positive number when its pattern is that number's, but
/// for the sign.
proof fn lemma_absolute_value(d: Double, positive: Double, whole: int)
    requires
        positive.bits < SIGN,
        positive.is_exactly(whole, 1),
        whole > 0,
    ensures
        d.has_absolute_value(whole) <==> d.pattern_without_sign() == positive.bits,
{
    let unsigned = Double::from_bits(d.bits % SIGN);
    lemma_rank_orders(unsigned, positive);
    lemma_rank_orders(unsigned, Double::from_bits(0));
    lemma_pow2_pos(1074);
    assert(whole * one_in_units() > 0) by (nonlinear_arith)
        requires
            whole > 0,
            one_in_units() > 0,
    ;
    assert(-whole * one_in_units() == -(whole * one_in_units())) by (nonlinear_arith);
}

/// Every finite number lies between the smallest and the largest.
pub proof fn law_finite_range(d: Double)
    requires
        d.pattern_without_sign() < INFINITY,
    ensures
        Double::from_bits(SMALLEST).units() <= d.units() <= Double::from_bits(LARGEST).units(),
        Double::from_bits(SMALLEST).units() == -Double::from_bits(LARGEST).units(),
{
    lemma_rank_orders(Double::from_bits(SMALLEST), d);
    lemma_rank_orders(d, Double::from_bits(LARGEST));
}

/// Infinity lies above every finite number.
pub proof fn law_infinity_is_above(d: Double)
    requires
        d.pattern_without_sign() < INFINITY,
    ensures
        d.units() < Double::from_bits(INFINITY).units(),
{
    lemma_rank_orders(d, Double::from_bits(INFINITY));
}

/// What a pattern's value is: the first patterns count up by one, a step of one exponent doubles
/// the value, and the sign bit negates it. This leaves no other value for any pattern.
pub proof fn law_value_of_pattern(bits: u64)
    requires
        bits < 0x8000_0000_0000_0000,
    ensures
        bits < 0x20_0000_0000_0000 ==> Double::from_bits(bits).units() == bits,
        0x10_0000_0000_0000 <= bits < 0x7ff0_0000_0000_0000 ==> Double::from_bits(
            (bits + 0x10_0000_0000_0000) as u64,
        ).units() == 2 * Double::from_bits(bits).units(),
        Double::from_bits((bits + 0x8000_0000_0000_0000) as u64).units() == -Double::from_bits(
            bits,
        ).units(),
{
    let binade = BINADE as int;
    let exponent = bits as int / binade;
    lemma2_to64();
    if exponent == 1 {
        let unit = pow2(0) as int;
        assert(bits as int * unit == bits) by (nonlinear_arith)
            requires
                unit == 1,
        ;
    }
    if 0x10_0000_0000_0000 <= bits < 0x7ff0_0000_0000_0000 {
        let next = Double::from_bits((bits + 0x10_0000_0000_0000) as u64);
        assert(next.bits as int / binade == exponent + 1);
        assert(next.bits as int % binade == bits as int % binade);
        lemma_pow2_unfold(exponent as nat);
        let significand = binade + bits as int % binade;
        let unit = pow2((exponent - 1) as nat) as int;
        assert(significand * (2 * unit) == 2 * (significand * unit)) by (nonlinear_arith);
    }
}

/// A pattern is not a number exactly where it lies above infinity's, the sign left out.
pub proof fn law_not_a_number(d: Double)
    ensures
        d.not_a_number() <==> 0x7ff0_0000_0000_0000 < d.bits < 0x8000_0000_0000_0000 || d.bits
            > 0xfff0_0000_0000_0000,
{
}

/// Numbers are ordered as their values are, and only the two zeros share a value.
pub proof fn law_values_tell_numbers_apart(a: Double, b: Double)
    requires
        a.units() == b.units(),
    ensures
        a.bits == b.bits || (a.bits % 0x8000_0000_0000_0000 == 0 && b.bits % 0x8000_0000_0000_0000
            == 0),
{
    lemma_rank_orders(a, b);
}

/// The larger of two numbers is one of them and no less than either; where one of them is not a
/// number it is the other, and where neither is, so is it.
pub proof fn law_larger(a: Double, b: Double)
    ensures
        ({
            let result = a.larger_spec(b);
            &&& result == a || result == b
            &&& !a.not_a_number() && !b.not_a_number() ==> !result.not_a_number() && result.units()
                >= a.units() && result.units() >= b.units()
            &&& a.not_a_number() && !b.not_a_number() ==> result == b
            &&& b.not_a_number() && !a.not_a_number() ==> result == a
        }),
{
}

/// The smaller of two numbers is one of them and no more than either; where one of them is not a
/// number it is the other, and where neither is, so is it.
pub proof fn law_smaller(a: Double, b: Double)
    ensures
        ({
            let result = a.smaller_spec(b);
            &&& result == a || result == b
            &&& !a.not_a_number() && !b.not_a_number() ==> !result.not_a_number() && result.units()
                <= a.units() && result.units() <= b.units()
            &&& a.not_a_number() && !b.not_a_number() ==> result == b
            &&& b.not_a_number() && !a.not_a_number() ==> result == a
        }),
{
}

/// A quarter turn is an angle whose value, or its negative, is 90 or 270 times that of one.
pub proof fn law_quarter_turn(d: Double)
    ensures
        ({
            let one = Double::from_bits(0x3ff0_0000_0000_0000).units();
            &&& one > 0
            &&& d.quarter_turn() <==> !d.not_a_number() && (d.units() == 90 * one || d.units()
                == -90 * one || d.units() == 270 * one || d.units() == -270 * one)
        }),
{
    lemma_one();
    lemma_pow2_pos(1074);
}

} // verus!
