//! Percentages as DepotDownloader prints them.

use vstd::arithmetic::div_mod::lemma_div_denominator;
use vstd::prelude::*;

use crate::decimal::{decimal, push_wide_decimal};
use crate::rounding::{
    as_double, bit_length, bit_length_bounds, nearest_even, power_of_two, powers_by_value,
    round_half_even, round_to_bits, rounded, rounded_fraction_scales, rounded_scales,
    rounded_with_part, two_to, two_to_adds, two_to_grows, two_to_is_positive, Rounded,
};
use crate::ui::format::{hundredths_text, push_hundredths, push_tenths, tenths_text};

verus! {

/// A percentage as DepotDownloader prints it, with two decimals.
#[derive(Debug, Clone, Copy, PartialEq, Eq, Structural)]
pub enum Percent {
    /// Hundredths of a percent.
    Hundredths(u64),
    /// More than that counter holds: whole percents, which is all that single
    /// precision tells of such a number.
    Whole(u128),
    /// More than single precision holds.
    Infinite,
}

/// The percentage that a number of hundredths stands for.
pub open spec fn of_hundredths(hundredths: nat) -> Percent {
    if hundredths <= u64::MAX {
        Percent::Hundredths(hundredths as u64)
    } else {
        let whole = rounded(hundredths, 100, 24);
        if whole < two_to(128) {
            Percent::Whole(whole as u128)
        } else {
            Percent::Infinite
        }
    }
}

/// Hundredths of a percent as a number of 24 bits of precision, counted in
/// units of two to the power of -30.
pub open spec fn single_units(hundredths: nat) -> nat {
    rounded(hundredths * two_to(30), 100, 24)
}

/// A finite percentage in single precision, counted in units of two to the
/// power of -30.
pub open spec fn percent_units(percent: Percent) -> nat
    recommends
        !(percent is Infinite),
{
    match percent {
        Percent::Hundredths(hundredths) => single_units(hundredths as nat),
        Percent::Whole(whole) => whole as nat * two_to(30),
        Percent::Infinite => 0,
    }
}

/// One percentage is less than another, both in single precision.
pub open spec fn is_less(first: Percent, second: Percent) -> bool {
    match (first, second) {
        (Percent::Infinite, _) => false,
        (_, Percent::Infinite) => true,
        _ => percent_units(first) < percent_units(second),
    }
}

/// The hundredth part of a percentage in units of two to the power of -30, as a
/// number of 53 bits of precision in units of two to the power of -66.
pub open spec fn factor_units(units: nat) -> nat {
    rounded(units * two_to(36), 100, 53)
}

/// The product of a factor in units of two to the power of -66 and a number,
/// in 53 bits of precision and without its fraction.
pub open spec fn product_of(factor: nat, total: nat) -> nat {
    let product = rounded(factor * as_double(total), 1, 53) / two_to(66);
    if product <= u64::MAX {
        product
    } else {
        u64::MAX as nat
    }
}

/// How much of `total` a percentage makes: the product of the two, each taken
/// in floating point precision, without its fraction. An infinite percentage
/// makes all that can be counted, but of nothing it makes nothing.
pub open spec fn share(percent: Percent, total: nat) -> nat {
    match percent {
        Percent::Infinite => if total == 0 {
            0
        } else {
            u64::MAX as nat
        },
        _ => product_of(factor_units(percent_units(percent)), total),
    }
}

/// A percentage with one decimal, rounded half to even.
pub open spec fn percent_tenths_text(percent: Percent) -> Seq<char> {
    match percent {
        Percent::Hundredths(hundredths) => tenths_text(
            nearest_even(single_units(hundredths as nat) * 10, two_to(30)),
        ),
        Percent::Whole(whole) => decimal(whole as nat) + ".0"@,
        Percent::Infinite => "inf"@,
    }
}

/// A percentage with two decimals, rounded half to even.
pub open spec fn percent_hundredths_text(percent: Percent) -> Seq<char> {
    match percent {
        Percent::Hundredths(hundredths) => hundredths_text(
            nearest_even(single_units(hundredths as nat) * 100, two_to(30)),
        ),
        Percent::Whole(whole) => decimal(whole as nat) + ".00"@,
        Percent::Infinite => "inf"@,
    }
}

/// The bounds on the steps that lead to a share.
proof fn quotient_bits(num: nat, bound: nat)
    requires
        num <= two_to(bound),
        bound >= 6,
    ensures
        num / 100 <= two_to((bound - 6) as nat),
        bit_length(num / 100) <= bound - 5,
{
    two_to_adds((bound - 6) as nat, 6);
    assert(two_to(6) == 64) by {
        reveal_with_fuel(two_to, 7);
    }
    assert(num / 100 <= two_to((bound - 6) as nat)) by (nonlinear_arith)
        requires
            num <= two_to((bound - 6) as nat) * 64,
    ;
    two_to_is_positive((bound - 6) as nat);
    assert(two_to((bound - 5) as nat) == 2 * two_to((bound - 6) as nat));
    bit_length_bounds(num / 100, (bound - 5) as nat);
}

/// Hundredths of a percent as a number of 24 bits of precision, counted in
/// units of two to the power of -30.
fn single(hundredths: u64) -> (units: u128)
    ensures
        units == single_units(hundredths as nat),
        units <= two_to(89),
{
    proof {
        powers_by_value();
    }
    let num = hundredths as u128 * 0x4000_0000;
    proof {
        two_to_adds(64, 30);
        assert(num <= two_to(94));
        quotient_bits(num as nat, 94);
    }
    let result = round_to_bits(num, 100, 24);
    proof {
        two_to_grows(result.shift as nat, 65);
        two_to_adds(24, 65);
        two_to_grows(89, 126);
        assert(result.mantissa * two_to(result.shift as nat) <= two_to(24) * two_to(65))
            by (nonlinear_arith)
            requires
                result.mantissa <= two_to(24),
                two_to(result.shift as nat) <= two_to(65),
        ;
    }
    result.mantissa * power_of_two(result.shift)
}

/// The product of a factor in units of two to the power of -66 and a number.
fn product(factor: Rounded, total: u64) -> (part: u64)
    requires
        factor.mantissa <= two_to(53),
        factor.shift <= 200,
    ensures
        part == product_of(factor.value(), total as nat),
{
    proof {
        powers_by_value();
    }
    let size = round_to_bits(total as u128, 1, 53);
    proof {
        assert(total as nat / 1 == total);
        bit_length_bounds(total as nat, 64);
        two_to_adds(53, 53);
        assert(factor.mantissa * size.mantissa <= two_to(53) * two_to(53)) by (nonlinear_arith)
            requires
                factor.mantissa <= two_to(53),
                size.mantissa <= two_to(53),
        ;
    }
    let exact = factor.mantissa * size.mantissa;
    let product = round_to_bits(exact, 1, 53);
    proof {
        assert(exact as nat / 1 == exact);
        assert(two_to(107) == 2 * two_to(106));
        bit_length_bounds(exact as nat, 107);
        share_in_parts(factor.mantissa as nat, factor.shift as nat, size.mantissa as nat, size.shift as nat);
    }
    let shift = factor.shift + size.shift + product.shift;
    let ghost scaled = product.mantissa as nat * two_to(shift as nat);
    proof {
        let a = factor.shift as nat + size.shift as nat;
        let m = product.mantissa as nat;
        let s = product.shift as nat;
        two_to_adds(s, a);
        assert(m * two_to(s) * two_to(a) == m * (two_to(s) * two_to(a))) by (nonlinear_arith);
        assert(scaled == rounded(
            factor.value() * as_double(total as nat),
            1,
            53,
        ));
    }
    if shift > 130 {
        proof {
            let m = product.mantissa as nat;
            let u = two_to((shift - 66) as nat);
            two_to_adds((shift - 66) as nat, 66);
            two_to_grows(65, (shift - 66) as nat);
            assert(two_to(65) == 2 * two_to(64));
            assert(scaled == (m * u) * two_to(66)) by (nonlinear_arith)
                requires
                    scaled == m * two_to(shift as nat),
                    two_to(shift as nat) == u * two_to(66),
            ;
            vstd::arithmetic::div_mod::lemma_div_by_multiple((m * u) as int, two_to(66) as int);
            assert(m > 0 ==> m * u >= u) by (nonlinear_arith);
            assert(m == 0 ==> m * u == 0) by (nonlinear_arith);
        }
        if product.mantissa == 0 {
            0
        } else {
            u64::MAX
        }
    } else if shift >= 66 {
        let up = shift - 66;
        proof {
            two_to_adds(up as nat, 66);
            two_to_grows(up as nat, 66);
            two_to_adds(53, 66);
            two_to_grows(119, 126);
            let m = product.mantissa as nat;
            let u = two_to(up as nat);
            assert(m * u <= two_to(53) * two_to(66)) by (nonlinear_arith)
                requires
                    m <= two_to(53),
                    u <= two_to(66),
            ;
            assert(scaled == (m * u) * two_to(66)) by (nonlinear_arith)
                requires
                    scaled == m * two_to(shift as nat),
                    two_to(shift as nat) == u * two_to(66),
            ;
            vstd::arithmetic::div_mod::lemma_div_by_multiple((m * u) as int, two_to(66) as int);
        }
        let part = product.mantissa * power_of_two(up);
        if part <= u64::MAX as u128 {
            part as u64
        } else {
            u64::MAX
        }
    } else {
        let down = 66 - shift;
        let divisor = power_of_two(down);
        proof {
            two_to_is_positive(down as nat);
            two_to_is_positive(shift as nat);
            two_to_adds(down as nat, shift as nat);
            let m = product.mantissa as nat;
            let d = two_to(down as nat);
            let u = two_to(shift as nat);
            assert(d * u == two_to(66));
            vstd::arithmetic::div_mod::lemma_div_by_multiple(m as int, u as int);
            lemma_div_denominator(scaled as int, u as int, d as int);
            assert(u * d == d * u) by (nonlinear_arith);
            assert(m / d <= m) by (nonlinear_arith)
                requires
                    d > 0,
            ;
        }
        (product.mantissa / divisor) as u64
    }
}

impl Percent {
    /// The percentage that stands for a whole number of percent.
    pub fn whole(percent: u8) -> (result: Percent)
        ensures
            result == Percent::Hundredths((percent * 100) as u64),
    {
        Percent::Hundredths(percent as u64 * 100)
    }

    /// The percentage of a whole number and hundredths beside it, where the two
    /// are more than the counter of hundredths holds.
    pub fn beyond_hundredths(whole: u128, part: u8) -> (percent: Percent)
        requires
            part < 100,
            whole * 100 + part > u64::MAX,
        ensures
            percent == of_hundredths((whole * 100 + part) as nat),
    {
        let marked = if part > 0 && whole % 2 == 0 {
            whole + 1
        } else {
            whole
        };
        let ghost bits = bit_length(whole as nat);
        proof {
            powers_by_value();
            two_to_adds(30, 20);
            bit_length_bounds(whole as nat, 50);
            bit_length_bounds(whole as nat, 128);
            rounded_with_part(whole as nat, part as nat, 24);
            assert(marked as nat / 1 == marked);
        }
        let result = round_to_bits(marked, 1, 24);
        assert(result.shift <= 104);
        if result.mantissa == 0x100_0000 && result.shift == 104 {
            proof {
                two_to_adds(24, 104);
            }
            return Percent::Infinite;
        }
        proof {
            let m = result.mantissa as nat;
            let u = two_to(result.shift as nat);
            two_to_is_positive(result.shift as nat);
            if m == two_to(24) {
                two_to_adds(24, result.shift as nat);
                two_to_grows(24 + result.shift as nat, 127);
                assert(two_to(128) == 2 * two_to(127));
                two_to_is_positive(127);
            } else {
                two_to_adds(24, 104);
                two_to_grows(result.shift as nat, 104);
                assert(m * u < two_to(24) * two_to(104)) by (nonlinear_arith)
                    requires
                        m < two_to(24),
                        0 < u <= two_to(104),
                ;
            }
        }
        Percent::Whole(result.mantissa * power_of_two(result.shift))
    }

    /// Whether this percentage is less than `other`, both in single precision.
    pub fn less_than(self, other: Percent) -> (yes: bool)
        ensures
            yes == is_less(self, other),
    {
        proof {
            powers_by_value();
        }
        match (self, other) {
            (Percent::Infinite, _) => false,
            (_, Percent::Infinite) => true,
            (Percent::Hundredths(first), Percent::Hundredths(second)) => {
                single(first) < single(second)
            },
            (Percent::Whole(first), Percent::Whole(second)) => first < second,
            (Percent::Hundredths(first), Percent::Whole(second)) => {
                single(first) / 0x4000_0000 < second
            },
            (Percent::Whole(first), Percent::Hundredths(second)) => {
                let units = single(second);
                first < units / 0x4000_0000 || (first == units / 0x4000_0000 && units % 0x4000_0000
                    > 0)
            },
        }
    }

    /// How much of `total` this percentage makes.
    pub fn share_of(self, total: u64) -> (part: u64)
        ensures
            part == share(self, total as nat),
    {
        proof {
            powers_by_value();
        }
        match self {
            Percent::Infinite => if total == 0 {
                0
            } else {
                u64::MAX
            },
            Percent::Hundredths(hundredths) => {
                let units = single(hundredths);
                proof {
                    two_to_adds(89, 36);
                    two_to_grows(125, 126);
                    assert(units * two_to(36) <= two_to(89) * two_to(36)) by (nonlinear_arith)
                        requires
                            units <= two_to(89),
                    ;
                }
                let num = units * 0x10_0000_0000;
                proof {
                    quotient_bits(num as nat, 125);
                }
                product(round_to_bits(num, 100, 53), total)
            },
            Percent::Whole(whole) => {
                proof {
                    two_to_adds(30, 36);
                    assert(whole as nat * two_to(30) * two_to(36) == whole as nat * two_to(66))
                        by (nonlinear_arith)
                        requires
                            two_to(30) * two_to(36) == two_to(66),
                    ;
                    two_to_adds(53, 6);
                    assert(two_to(6) == 64) by {
                        reveal_with_fuel(two_to, 7);
                    }
                    assert(two_to(59) == 0x800_0000_0000_0000);
                    two_to_adds(59, 66);
                    two_to_grows(125, 126);
                }
                if whole < 0x800_0000_0000_0000 {
                    proof {
                        assert(whole * two_to(66) <= two_to(59) * two_to(66)) by (nonlinear_arith)
                            requires
                                whole <= two_to(59),
                        ;
                    }
                    let num = whole * 0x4_0000_0000_0000_0000;
                    proof {
                        quotient_bits(num as nat, 125);
                    }
                    return product(round_to_bits(num, 100, 53), total);
                }
                let result = round_to_bits(whole, 100, 53);
                proof {
                    assert(two_to(53) == 2 * two_to(52));
                    assert(whole as nat / 100 >= two_to(52));
                    rounded_fraction_scales(whole as nat, 100, 66, 53);
                    bit_length_bounds(whole as nat / 100, 128);
                    two_to_adds(result.shift as nat, 66);
                    assert(result.mantissa * two_to(result.shift as nat) * two_to(66)
                        == result.mantissa * two_to((result.shift + 66) as nat)) by (nonlinear_arith)
                        requires
                            two_to(result.shift as nat) * two_to(66) == two_to(
                                (result.shift + 66) as nat,
                            ),
                    ;
                }
                let factor = Rounded { mantissa: result.mantissa, shift: result.shift + 66 };
                product(factor, total)
            },
        }
    }

    /// Appends this percentage with one decimal.
    pub fn push_tenths(self, out: &mut String)
        ensures
            final(out)@ == old(out)@ + percent_tenths_text(self),
    {
        match self {
            Percent::Hundredths(hundredths) => {
                let units = single(hundredths);
                proof {
                    shown_units_fit();
                }
                push_tenths(out, round_half_even(units * 10, 0x4000_0000));
            },
            Percent::Whole(whole) => {
                push_wide_decimal(out, whole);
                out.append(".0");
                assert(out@ =~= old(out)@ + percent_tenths_text(self));
            },
            Percent::Infinite => {
                out.append("inf");
            },
        }
    }

    /// Appends this percentage with two decimals.
    pub fn push_hundredths(self, out: &mut String)
        ensures
            final(out)@ == old(out)@ + percent_hundredths_text(self),
    {
        match self {
            Percent::Hundredths(hundredths) => {
                let units = single(hundredths);
                proof {
                    shown_units_fit();
                }
                push_hundredths(out, round_half_even(units * 100, 0x4000_0000));
            },
            Percent::Whole(whole) => {
                push_wide_decimal(out, whole);
                out.append(".00");
                assert(out@ =~= old(out)@ + percent_hundredths_text(self));
            },
            Percent::Infinite => {
                out.append("inf");
            },
        }
    }
}

/// The units of a percentage leave room for its decimals.
proof fn shown_units_fit()
    ensures
        two_to(30) == 0x4000_0000,
        two_to(89) == 0x800_0000_0000_0000 * two_to(30),
        two_to(89) * 100 <= u128::MAX,
{
    powers_by_value();
    two_to_adds(59, 30);
    two_to_adds(53, 6);
    assert(two_to(6) == 64) by {
        reveal_with_fuel(two_to, 7);
    }
}

/// A product of two numbers in parts, rounded, is the rounded product of the
/// mantissas scaled by both shifts.
proof fn share_in_parts(m: nat, s: nat, n: nat, t: nat)
    ensures
        rounded((m * two_to(s)) * (n * two_to(t)), 1, 53) == rounded(m * n, 1, 53) * two_to(s + t),
{
    two_to_adds(s, t);
    assert((m * two_to(s)) * (n * two_to(t)) == (m * n) * (two_to(s) * two_to(t)))
        by (nonlinear_arith);
    rounded_scales(m * n, s + t, 53);
}

} // verus!
