//! How percentages compare, and how much they make of a total.

use vstd::arithmetic::div_mod::lemma_fundamental_div_mod;
use vstd::prelude::*;

use super::percent::{
    factor_units, is_less, of_hundredths, share, single_units, Percent,
};
use crate::rounding::{as_double, powers_by_value, rounded, two_to};
use crate::rounding_laws::{counts_are_held_closely, distance, rounding_error_is_bounded};

verus! {

/// A percentage is held in single precision to one part in two to the power of
/// 24.
proof fn units_are_close(hundredths: nat)
    ensures
        distance(single_units(hundredths) * 100, hundredths * 0x4000_0000) <= 50 + 64 * hundredths,
{
    powers_by_value();
    let exact = hundredths * two_to(30);
    rounding_error_is_bounded(exact, 100, 24);
    let off = distance(single_units(hundredths) * 100, exact);
    if !(2 * off <= 100) {
        assert(off * 0x100_0000 <= hundredths * 0x4000_0000);
    }
}

/// Up to ten thousand percent one percentage is less than another exactly where
/// it has fewer hundredths; none is less than itself, and an infinite one less
/// than no other.
pub proof fn percentages_compare_by_their_hundredths(a: u64, b: u64, other: Percent)
    requires
        a <= 1_000_000,
        b <= 1_000_000,
    ensures
        is_less(Percent::Hundredths(a), Percent::Hundredths(b)) <==> a < b,
        !is_less(other, other),
        !is_less(Percent::Infinite, other),
        is_less(Percent::Hundredths(a), Percent::Infinite),
{
    units_are_close(a as nat);
    units_are_close(b as nat);
}

/// One that is less than a second, which is less than a third, is less than the
/// third; and of two finite ones not both are less.
pub proof fn comparison_is_an_order(a: Percent, b: Percent, c: Percent)
    ensures
        is_less(a, b) && is_less(b, c) ==> is_less(a, c),
        !(is_less(a, b) && is_less(b, a)),
{
}

/// Hundredths that a counter holds are kept exactly.
pub proof fn hundredths_are_kept(hundredths: nat)
    ensures
        hundredths <= u64::MAX ==> of_hundredths(hundredths) == Percent::Hundredths(
            hundredths as u64,
        ),
        hundredths > u64::MAX ==> !(of_hundredths(hundredths) is Hundredths),
{
}

/// The hundredth part of a percentage is close to it.
proof fn factor_is_close(hundredths: nat)
    requires
        hundredths <= 10_000,
    ensures
        ({
            let units = single_units(hundredths);
            &&& units <= 110_000_000_000
            &&& distance(factor_units(units) * 100, units * 0x10_0000_0000) <= 1_000_000
        }),
{
    powers_by_value();
    units_are_close(hundredths);
    let units = single_units(hundredths);
    assert(units <= 110_000_000_000);
    let exact = units * two_to(36);
    rounding_error_is_bounded(exact, 100, 53);
    let off = distance(factor_units(units) * 100, exact);
    if !(2 * off <= 100) {
        assert(off * 0x20_0000_0000_0000 <= units * 0x10_0000_0000);
    }
}

/// What a percentage makes of a total is what it says, to one part in ten
/// million and the fraction that is left out: `hundredths` of a percent make
/// `hundredths` times the total over ten thousand.
pub proof fn shares_are_close(hundredths: u64, total: nat)
    requires
        hundredths <= 10_000,
        total < 0x20_0000_0000_0000,
    ensures
        1000 * distance(
            share(Percent::Hundredths(hundredths), total) * 10_000,
            hundredths as nat * total,
        ) <= total + 10_000_000,
{
    powers_by_value();
    let h = hundredths as nat;
    let t = total;
    let units = single_units(h);
    let factor = factor_units(units);
    units_are_close(h);
    factor_is_close(h);
    counts_are_held_closely(t);
    assert(as_double(t) == t);
    let exact = factor * t;
    let held = rounded(exact, 1, 53);
    rounding_error_is_bounded(exact, 1, 53);
    let off = distance(held, exact);
    assert(distance(held * 1, exact) == off);
    assert(factor <= 80_000_000_000_000_000_000);
    assert(off <= 10_000 * t) by {
        if 2 * off <= 1 {
            assert(off == 0);
        } else {
            assert(off * 0x20_0000_0000_0000 <= exact);
            assert(exact <= 80_000_000_000_000_000_000 * t) by (nonlinear_arith)
                requires
                    exact == factor * t,
                    factor <= 80_000_000_000_000_000_000,
            ;
        }
    }
    let e1: int = units * 100 - h * 0x4000_0000;
    let e2: int = factor * 100 - units * 0x10_0000_0000;
    assert(-700_000 <= e1 <= 700_000);
    assert(-1_000_000 <= e2 <= 1_000_000);
    // The exact product, step by step, against that of the hundredths.
    let goal: nat = h * t * 0x4_0000_0000_0000_0000;
    assert(10_000 * exact == goal + 100 * (e2 * t) + 0x10_0000_0000 * (e1 * t))
        by (nonlinear_arith)
        requires
            exact == factor * t,
            e1 == units * 100 - h * 0x4000_0000,
            e2 == factor * 100 - units * 0x10_0000_0000,
            goal == h * t * 0x4_0000_0000_0000_0000,
    ;
    assert(-700_000 * t <= e1 * t <= 700_000 * t) by (nonlinear_arith)
        requires
            -700_000 <= e1 <= 700_000,
            t >= 0,
    ;
    assert(-1_000_000 * t <= e2 * t <= 1_000_000 * t) by (nonlinear_arith)
        requires
            -1_000_000 <= e2 <= 1_000_000,
            t >= 0,
    ;
    let product = held / two_to(66);
    lemma_fundamental_div_mod(held as int, two_to(66) as int);
    assert(product * 0x4_0000_0000_0000_0000 <= held);
    assert(held < product * 0x4_0000_0000_0000_0000 + 0x4_0000_0000_0000_0000);
    assert(product <= u64::MAX) by {
        assert(h * t <= 10_000 * t) by (nonlinear_arith)
            requires
                h <= 10_000,
        ;
    }
    let whole: nat = h * t;
    assert(goal == whole * 0x4_0000_0000_0000_0000);
    assert(share(Percent::Hundredths(hundredths), total) == product);
}

/// Percentages too large for hundredths are held to one part in two to the
/// power of 24, compare as numbers, and are more than any that fits; only beyond
/// two to the power of 128 are they infinite.
pub proof fn large_percentages_are_close(hundredths: nat, a: u128, b: u128)
    requires
        hundredths > u64::MAX,
    ensures
        of_hundredths(hundredths) matches Percent::Whole(whole) ==> distance(
            whole as nat * 100,
            hundredths,
        ) * 0x100_0000 <= hundredths,
        of_hundredths(hundredths) is Infinite ==> hundredths
            >= 0xFFFF_FF00_0000_0000_0000_0000_0000_0000 * 100,
        is_less(Percent::Whole(a), Percent::Whole(b)) <==> a < b,
        is_less(Percent::Whole(a), Percent::Infinite),
{
    powers_by_value();
    let whole = rounded(hundredths, 100, 24);
    rounding_error_is_bounded(hundredths, 100, 24);
    let off = distance(whole * 100, hundredths);
    if 2 * off <= 100 {
        assert(off * 0x100_0000 <= hundredths);
    }
    assert(two_to(30) == 0x4000_0000);
}

/// An infinite percentage makes of a total all that can be counted, and of
/// nothing nothing.
pub proof fn infinite_shares(total: nat)
    ensures
        total > 0 ==> share(Percent::Infinite, total) == u64::MAX,
        share(Percent::Infinite, 0) == 0,
        share(Percent::Infinite, total) <= u64::MAX,
{
}

} // verus!
