//! How far rounding goes.

use vstd::arithmetic::div_mod::lemma_fundamental_div_mod;
use vstd::prelude::*;

use crate::rounding::{
    as_double, bit_length, bit_length_bounds, excess_bits, nearest_even, rounded, two_to,
    two_to_adds, two_to_is_positive,
};

verus! {

/// The distance of two whole numbers.
pub open spec fn distance(a: nat, b: nat) -> nat {
    if a >= b {
        (a - b) as nat
    } else {
        (b - a) as nat
    }
}

/// The nearest whole number is no further off than half of one, no other is
/// nearer, and where two are as near it is the even one.
pub proof fn nearest_is_within_a_half(num: nat, den: nat, other: nat)
    requires
        den > 0,
    ensures
        2 * distance(nearest_even(num, den) * den, num) <= den,
        distance(nearest_even(num, den) * den, num) <= distance(other * den, num),
        2 * distance(nearest_even(num, den) * den, num) == den ==> nearest_even(num, den) % 2
            == 0,
{
    let below = num / den;
    let over = num % den;
    let near = nearest_even(num, den);
    lemma_fundamental_div_mod(num as int, den as int);
    assert(den * below == below * den) by (nonlinear_arith);
    assert((below + 1) * den == below * den + den) by (nonlinear_arith);
    assert(0 <= over < den);
    if near == below {
        assert(distance(near * den, num) == over);
    } else {
        assert(distance(near * den, num) == den - over);
    }
    if other <= below {
        assert(other * den <= below * den) by (nonlinear_arith)
            requires
                other <= below,
        ;
    } else {
        assert(other * den >= (below + 1) * den) by (nonlinear_arith)
            requires
                other >= below + 1,
        ;
    }
    if 2 * over == den && near == below + 1 {
        assert(below % 2 == 1);
    }
}

/// A rounded fraction is off by no more than half of one where it fits the
/// precision, and otherwise by no more than one part in two to the power of the
/// precision.
pub proof fn rounding_error_is_bounded(num: nat, den: nat, precision: nat)
    requires
        den > 0,
        precision > 0,
    ensures
        ({
            let off = distance(rounded(num, den, precision) * den, num);
            2 * off <= den || off * two_to(precision) <= num
        }),
{
    let excess = excess_bits(num / den, precision);
    let unit = den * two_to(excess);
    two_to_is_positive(excess);
    assert(unit > 0) by (nonlinear_arith)
        requires
            den > 0,
            two_to(excess) > 0,
            unit == den * two_to(excess),
    ;
    let near = nearest_even(num, unit);
    nearest_is_within_a_half(num, unit, 0);
    assert(near * two_to(excess) * den == near * unit) by (nonlinear_arith)
        requires
            unit == den * two_to(excess),
    ;
    let off = distance(rounded(num, den, precision) * den, num);
    assert(2 * off <= unit);
    if excess == 0 {
        assert(two_to(0) == 1);
        assert(unit == den) by (nonlinear_arith)
            requires
                unit == den * two_to(excess),
                two_to(excess) == 1,
        ;
    } else {
        let bits = (bit_length(num / den) - 1) as nat;
        bit_length_bounds(num / den, bits);
        assert(num / den >= two_to(bits));
        assert(bits == excess + (precision - 1));
        two_to_adds(excess, (precision - 1) as nat);
        lemma_fundamental_div_mod(num as int, den as int);
        let half = two_to((precision - 1) as nat);
        assert(two_to(precision) == 2 * half);
        assert(off * (2 * half) <= num) by (nonlinear_arith)
            requires
                2 * off <= den * two_to(excess),
                num / den >= two_to(excess) * half,
                num >= den * (num / den),
                den > 0,
                off >= 0,
                half >= 0,
        {
            assert((2 * off) * half <= (den * two_to(excess)) * half);
            assert((den * two_to(excess)) * half == den * (two_to(excess) * half));
            assert(den * (two_to(excess) * half) <= den * (num / den));
        }
    }
}

/// A count is held exactly below two to the power of 53, and above that it is
/// off by no more than one part in that many.
pub proof fn counts_are_held_closely(n: nat)
    ensures
        n < two_to(53) ==> as_double(n) == n,
        distance(as_double(n), n) * two_to(53) <= n,
{
    if n < two_to(53) {
        bit_length_bounds(n, 53);
        crate::rounding::rounded_keeps_short_numbers(n, 53);
        assert(0 * two_to(53) == 0);
    } else {
        rounding_error_is_bounded(n, 1, 53);
        let off = distance(as_double(n), n);
        assert(as_double(n) * 1 == as_double(n));
        if 2 * off <= 1 {
            assert(off == 0);
            assert(0 * two_to(53) == 0);
        }
    }
}

/// Rounding keeps the order of what is rounded.
pub proof fn nearest_keeps_the_order(a: nat, b: nat, den: nat)
    requires
        den > 0,
        a <= b,
    ensures
        nearest_even(a, den) <= nearest_even(b, den),
{
    let x = nearest_even(a, den);
    let y = nearest_even(b, den);
    if x > y {
        nearest_is_within_a_half(a, den, y);
        nearest_is_within_a_half(b, den, x);
        assert(x * den >= y * den + den) by (nonlinear_arith)
            requires
                x >= y + 1,
                den > 0,
        ;
        assert(a == b);
    }
}

} // verus!
