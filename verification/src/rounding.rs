//! Rounding to binary floating point precision, done on whole numbers.
//!
//! A number of a floating point format with `p` bits of precision is a whole
//! number of at most `p` bits times a power of two. Rounding to the format
//! takes the nearest such number, and of two equally near ones the one whose
//! last bit is zero.

use vstd::arithmetic::div_mod::{
    lemma_div_denominator, lemma_fundamental_div_mod, lemma_fundamental_div_mod_converse,
};
use vstd::prelude::*;

verus! {

/// Two to the power of `e`.
pub open spec fn two_to(e: nat) -> nat
    decreases e,
{
    if e == 0 {
        1
    } else {
        2 * two_to((e - 1) as nat)
    }
}

/// The whole number nearest to the fraction `num / den`, and of two equally
/// near ones the even one.
pub open spec fn nearest_even(num: nat, den: nat) -> nat
    recommends
        den > 0,
{
    let below = num / den;
    let over = num % den;
    if 2 * over < den || (2 * over == den && below % 2 == 0) {
        below
    } else {
        below + 1
    }
}

/// How many binary digits `n` has; zero has none.
pub open spec fn bit_length(n: nat) -> nat
    decreases n,
{
    if n == 0 {
        0
    } else {
        1 + bit_length(n / 2)
    }
}

/// How many of the binary digits of `n` lie beyond the first `precision`.
pub open spec fn excess_bits(n: nat, precision: nat) -> nat {
    if bit_length(n) > precision {
        (bit_length(n) - precision) as nat
    } else {
        0
    }
}

/// The fraction `num / den` rounded to `precision` binary digits, none of
/// them finer than one.
pub open spec fn rounded(num: nat, den: nat, precision: nat) -> nat {
    let excess = excess_bits(num / den, precision);
    nearest_even(num, den * two_to(excess)) * two_to(excess)
}

/// A whole number as a number of 53 bits of precision.
pub open spec fn as_double(n: nat) -> nat {
    rounded(n, 1, 53)
}

/// Powers of two are positive.
pub proof fn two_to_is_positive(e: nat)
    ensures
        two_to(e) > 0,
    decreases e,
{
    if e > 0 {
        two_to_is_positive((e - 1) as nat);
    }
}

/// A larger exponent makes no smaller power.
pub proof fn two_to_grows(a: nat, b: nat)
    requires
        a <= b,
    ensures
        two_to(a) <= two_to(b),
    decreases b,
{
    if a < b {
        two_to_grows(a, (b - 1) as nat);
    }
}

/// Exponents add up under multiplication.
pub proof fn two_to_adds(a: nat, b: nat)
    ensures
        two_to(a) * two_to(b) == two_to(a + b),
    decreases a,
{
    if a > 0 {
        two_to_adds((a - 1) as nat, b);
        assert((a - 1) as nat + b == (a + b - 1) as nat);
        assert(two_to(a + b) == 2 * two_to((a + b - 1) as nat));
        assert(two_to(a) * two_to(b) == 2 * two_to((a - 1) as nat) * two_to(b));
        assert(2 * two_to((a - 1) as nat) * two_to(b) == 2 * (two_to((a - 1) as nat) * two_to(b)))
            by (nonlinear_arith);
    } else {
        assert(two_to(a) * two_to(b) == two_to(b)) by (nonlinear_arith)
            requires
                two_to(a) == 1,
        ;
    }
}

/// A number below a power of two has no more digits than the exponent says,
/// and one that reaches the power has more.
pub proof fn bit_length_bounds(n: nat, k: nat)
    ensures
        n < two_to(k) <==> bit_length(n) <= k,
    decreases k,
{
    two_to_is_positive(k);
    if k > 0 && n > 0 {
        bit_length_bounds(n / 2, (k - 1) as nat);
    }
}

/// Some powers of two by value.
pub proof fn powers_by_value()
    ensures
        two_to(10) == 0x400,
        two_to(11) == 0x800,
        two_to(20) == 0x10_0000,
        two_to(24) == 0x100_0000,
        two_to(30) == 0x4000_0000,
        two_to(36) == 0x10_0000_0000,
        two_to(53) == 0x20_0000_0000_0000,
        two_to(64) == 0x1_0000_0000_0000_0000,
        two_to(66) == 0x4_0000_0000_0000_0000,
        two_to(106) == 0x400_0000_0000_0000_0000_0000_0000,
        two_to(126) == 0x4000_0000_0000_0000_0000_0000_0000_0000,
        two_to(128) == 0x1_0000_0000_0000_0000_0000_0000_0000_0000,
{
    reveal_with_fuel(two_to, 12);
    assert(two_to(3) == 8);
    two_to_adds(10, 10);
    assert(two_to(20) == 0x10_0000);
    two_to_adds(20, 3);
    assert(two_to(23) == 0x80_0000);
    two_to_adds(20, 4);
    two_to_adds(20, 10);
    assert(two_to(30) == 0x4000_0000);
    two_to_adds(30, 6);
    two_to_adds(30, 23);
    assert(two_to(53) == 0x20_0000_0000_0000);
    two_to_adds(53, 11);
    assert(two_to(64) == 0x1_0000_0000_0000_0000);
    two_to_adds(64, 2);
    two_to_adds(53, 53);
    assert(two_to(106) == 0x400_0000_0000_0000_0000_0000_0000);
    two_to_adds(106, 20);
    two_to_adds(64, 64);
}

/// Doubling adds one binary digit.
proof fn bit_length_doubles(n: nat)
    requires
        n > 0,
    ensures
        bit_length(2 * n) == bit_length(n) + 1,
{
    assert(2 * n / 2 == n);
}

/// Scaling by a power of two adds as many binary digits.
proof fn bit_length_scales(n: nat, k: nat)
    requires
        n > 0,
    ensures
        bit_length(n * two_to(k)) == bit_length(n) + k,
        n * two_to(k) > 0,
    decreases k,
{
    two_to_is_positive(k);
    assert(n * two_to(k) > 0) by (nonlinear_arith)
        requires
            n > 0,
            two_to(k) > 0,
    ;
    if k > 0 {
        bit_length_scales(n, (k - 1) as nat);
        bit_length_doubles(n * two_to((k - 1) as nat));
        assert(n * (2 * two_to((k - 1) as nat)) == 2 * (n * two_to((k - 1) as nat)))
            by (nonlinear_arith);
    } else {
        assert(n * 1 == n);
    }
}

/// A common factor does not change what a fraction is rounded to.
proof fn nearest_even_reduces(num: nat, den: nat, factor: nat)
    requires
        den > 0,
        factor > 0,
    ensures
        nearest_even(num * factor, den * factor) == nearest_even(num, den),
{
    let below = num / den;
    let over = num % den;
    lemma_fundamental_div_mod(num as int, den as int);
    assert(num * factor == below * (den * factor) + over * factor) by (nonlinear_arith)
        requires
            num == den * below + over,
    ;
    assert(0 <= over * factor < den * factor) by (nonlinear_arith)
        requires
            0 <= over < den,
            factor > 0,
    ;
    assert(den * factor > 0) by (nonlinear_arith)
        requires
            den > 0,
            factor > 0,
    ;
    lemma_fundamental_div_mod_converse(
        (num * factor) as int,
        (den * factor) as int,
        below as int,
        (over * factor) as int,
    );
    assert((2 * (over * factor) < den * factor) == (2 * over < den)) by (nonlinear_arith)
        requires
            factor > 0,
    ;
    assert((2 * (over * factor) == den * factor) == (2 * over == den)) by (nonlinear_arith)
        requires
            factor > 0,
    ;
}

/// A whole number is its own nearest whole number.
proof fn nearest_even_of_whole(n: nat, den: nat)
    requires
        den > 0,
    ensures
        nearest_even(n * den, den) == n,
{
    lemma_fundamental_div_mod_converse((n * den) as int, den as int, n as int, 0);
}

/// A number that fits the precision stays as it is.
pub proof fn rounded_keeps_short_numbers(n: nat, precision: nat)
    requires
        bit_length(n) <= precision,
    ensures
        rounded(n, 1, precision) == n,
{
    assert(n / 1 == n);
    nearest_even_of_whole(n, 1);
    assert(n * 1 == n);
}

/// Rounding a whole number commutes with scaling it by a power of two.
pub proof fn rounded_scales(n: nat, k: nat, precision: nat)
    ensures
        rounded(n * two_to(k), 1, precision) == rounded(n, 1, precision) * two_to(k),
{
    let scaled = n * two_to(k);
    assert(n / 1 == n && scaled / 1 == scaled);
    if n == 0 {
        assert(0 * two_to(k) == 0) by (nonlinear_arith);
        rounded_keeps_short_numbers(0, precision);
    } else {
        bit_length_scales(n, k);
        let e = excess_bits(scaled, precision);
        if bit_length(n) > precision {
            let d = excess_bits(n, precision);
            assert(e == d + k);
            two_to_adds(d, k);
            two_to_is_positive(d);
            two_to_is_positive(k);
            nearest_even_reduces(n, two_to(d), two_to(k));
            let m = nearest_even(n, two_to(d));
            assert(1 * two_to(e) == two_to(d) * two_to(k));
            assert(1 * two_to(d) == two_to(d));
            assert(m * (two_to(d) * two_to(k)) == m * two_to(d) * two_to(k)) by (nonlinear_arith);
        } else {
            rounded_keeps_short_numbers(n, precision);
            assert(e <= k);
            two_to_adds((k - e) as nat, e);
            two_to_is_positive(e);
            let m = n * two_to((k - e) as nat);
            assert(scaled == m * two_to(e)) by (nonlinear_arith)
                requires
                    scaled == n * two_to(k),
                    two_to((k - e) as nat) * two_to(e) == two_to(k),
                    m == n * two_to((k - e) as nat),
            ;
            nearest_even_of_whole(m, two_to(e));
            assert(1 * two_to(e) == two_to(e));
        }
    }
}

/// Rounding a fraction commutes with scaling it by a power of two, where the
/// fraction has all the digits of the precision to begin with.
pub proof fn rounded_fraction_scales(num: nat, den: nat, k: nat, precision: nat)
    requires
        den > 0,
        precision > 0,
        num / den >= two_to((precision - 1) as nat),
    ensures
        rounded(num * two_to(k), den, precision) == rounded(num, den, precision) * two_to(k),
{
    let q = num / den;
    let scaled = num * two_to(k);
    let p = scaled / den;
    let b = bit_length(q);
    let u = two_to(k);
    two_to_is_positive(k);
    two_to_is_positive((precision - 1) as nat);
    bit_length_bounds(q, (precision - 1) as nat);
    bit_length_bounds(q, b);
    bit_length_bounds(q, (b - 1) as nat);
    lemma_fundamental_div_mod(num as int, den as int);
    let r = num % den;
    assert(q * u <= p && p < (q + 1) * u) by {
        let over = r * u;
        assert(scaled == den * (q * u) + over) by (nonlinear_arith)
            requires
                num == den * q + r,
                scaled == num * u,
                over == r * u,
        ;
        assert(over < den * u) by (nonlinear_arith)
            requires
                r < den,
                u > 0,
                over == r * u,
        ;
        lemma_fundamental_div_mod(scaled as int, den as int);
        let rest = scaled % den;
        assert(q * u <= p) by (nonlinear_arith)
            requires
                scaled == den * (q * u) + over,
                scaled == den * p + rest,
                rest < den,
                over >= 0,
                den > 0,
        ;
        assert(p < (q + 1) * u) by (nonlinear_arith)
            requires
                scaled == den * (q * u) + over,
                over < den * u,
                scaled == den * p + rest,
                rest >= 0,
                den > 0,
        ;
    }
    two_to_adds((b - 1) as nat, k);
    two_to_adds(b, k);
    assert(two_to((b - 1) as nat) * u <= q * u) by (nonlinear_arith)
        requires
            two_to((b - 1) as nat) <= q,
    ;
    assert((q + 1) * u <= two_to(b) * u) by (nonlinear_arith)
        requires
            q + 1 <= two_to(b),
    ;
    bit_length_bounds(p, b + k);
    bit_length_bounds(p, (b - 1 + k) as nat);
    let e = excess_bits(q, precision);
    assert(excess_bits(p, precision) == e + k);
    two_to_adds(e, k);
    two_to_is_positive(e);
    let step = den * two_to(e);
    assert(step > 0) by (nonlinear_arith)
        requires
            den > 0,
            two_to(e) > 0,
            step == den * two_to(e),
    ;
    nearest_even_reduces(num, step, u);
    assert(den * two_to(e + k) == step * u) by (nonlinear_arith)
        requires
            two_to(e + k) == two_to(e) * u,
            step == den * two_to(e),
    ;
    let m = nearest_even(num, step);
    assert(m * two_to(e + k) == m * two_to(e) * u) by (nonlinear_arith)
        requires
            two_to(e + k) == two_to(e) * u,
    ;
}

/// A fraction that reaches a power of two is not rounded below it.
pub proof fn rounded_reaches(num: nat, den: nat, k: nat, precision: nat)
    requires
        den > 0,
        precision > 0,
        num / den >= two_to(k),
    ensures
        rounded(num, den, precision) >= two_to(k),
{
    let q = num / den;
    let b = bit_length(q);
    let e = excess_bits(q, precision);
    two_to_is_positive(k);
    two_to_is_positive(e);
    bit_length_bounds(q, k);
    bit_length_bounds(q, (b - 1) as nat);
    let step = den * two_to(e);
    lemma_div_denominator(num as int, den as int, two_to(e) as int);
    let below = num / step;
    assert(below == q / two_to(e));
    assert(e <= b - 1);
    let top = two_to((b - 1 - e) as nat);
    two_to_adds((b - 1 - e) as nat, e);
    assert(below >= top) by (nonlinear_arith)
        requires
            below == q / two_to(e),
            q >= top * two_to(e),
            two_to(e) > 0,
    ;
    let m = nearest_even(num, step);
    assert(m >= below);
    assert(m * two_to(e) >= top * two_to(e)) by (nonlinear_arith)
        requires
            m >= top,
    ;
    two_to_grows(k, (b - 1) as nat);
}

/// A whole number and a part of one hundred, rounded to a precision that ends
/// far above one, are rounded as the whole number alone, with its last digit set
/// where there is a part.
pub proof fn rounded_with_part(whole: nat, part: nat, precision: nat)
    requires
        part < 100,
        precision > 0,
        bit_length(whole) >= precision + 2,
    ensures
        ({
            let marked = if part > 0 && whole % 2 == 0 {
                whole + 1
            } else {
                whole
            };
            &&& rounded(whole * 100 + part, 100, precision) == rounded(marked, 1, precision)
            &&& bit_length(marked) == bit_length(whole)
        }),
{
    let marked = if part > 0 && whole % 2 == 0 {
        whole + 1
    } else {
        whole
    };
    let num = whole * 100 + part;
    let b = bit_length(whole);
    assert(num / 100 == whole);
    assert(marked / 1 == marked);
    bit_length_bounds(whole, b);
    bit_length_bounds(whole, (b - 1) as nat);
    assert(two_to(b) == 2 * two_to((b - 1) as nat));
    bit_length_bounds(marked, b);
    bit_length_bounds(marked, (b - 1) as nat);
    let e = excess_bits(whole, precision);
    let step = two_to(e);
    let half = two_to((e - 1) as nat);
    let quarter = two_to((e - 2) as nat);
    assert(step == 2 * half && half == 2 * quarter);
    two_to_is_positive(e);
    let below = whole / step;
    let over = whole % step;
    lemma_fundamental_div_mod(whole as int, step as int);
    assert(step * below == 2 * (half * below)) by (nonlinear_arith)
        requires
            step == 2 * half,
    ;
    assert(whole % 2 == over % 2);
    let marked_over = over + (marked - whole);
    assert(marked_over < step);
    assert(marked == below * step + marked_over) by (nonlinear_arith)
        requires
            whole == step * below + over,
            marked_over == over + (marked - whole),
    ;
    lemma_fundamental_div_mod_converse(
        marked as int,
        step as int,
        below as int,
        marked_over as int,
    );
    let wide_step = 100 * step;
    let wide_over = over * 100 + part;
    assert(num == below * wide_step + wide_over) by (nonlinear_arith)
        requires
            whole == step * below + over,
            num == whole * 100 + part,
            wide_step == 100 * step,
            wide_over == over * 100 + part,
    ;
    lemma_fundamental_div_mod_converse(
        num as int,
        wide_step as int,
        below as int,
        wide_over as int,
    );
    assert(1 * step == step);
}

/// A number held as a mantissa and a count of binary places.
#[derive(Debug, Clone, Copy)]
pub struct Rounded {
    pub mantissa: u128,
    pub shift: u32,
}

impl Rounded {
    /// The number held.
    pub open spec fn value(self) -> nat {
        self.mantissa as nat * two_to(self.shift as nat)
    }
}

/// Two to the power of `e`.
pub fn power_of_two(e: u32) -> (power: u128)
    requires
        e < 128,
    ensures
        power == two_to(e as nat),
{
    let mut power: u128 = 1;
    let mut i: u32 = 0;
    while i < e
        invariant
            i <= e < 128,
            power == two_to(i as nat),
        decreases e - i,
    {
        assert(two_to(i as nat) <= two_to(126)) by {
            two_to_grows(i as nat, 126);
        }
        assert(two_to(126) == 0x4000_0000_0000_0000_0000_0000_0000_0000) by {
            powers_by_value();
        }
        power = power * 2;
        i = i + 1;
    }
    power
}

/// The whole number nearest to a fraction, and of two equally near ones the
/// even one.
pub fn round_half_even(num: u128, den: u128) -> (nearest: u128)
    requires
        den > 0,
        num / den < u128::MAX,
    ensures
        nearest == nearest_even(num as nat, den as nat),
{
    let below = num / den;
    let over = num % den;
    if over < den - over || (over == den - over && below % 2 == 0) {
        below
    } else {
        below + 1
    }
}

/// A fraction rounded to `precision` binary digits, none of them finer than
/// one.
pub fn round_to_bits(num: u128, den: u128, precision: u32) -> (result: Rounded)
    requires
        den > 0,
        1 <= precision <= 64,
    ensures
        result.value() == rounded(num as nat, den as nat, precision as nat),
        result.mantissa <= two_to(precision as nat),
        result.shift == excess_bits(num as nat / den as nat, precision as nat),
{
    let limit = power_of_two(precision);
    let mut whole: u128 = num / den;
    let mut step: u128 = den;
    let mut shift: u32 = 0;
    proof {
        assert(den * 1 == den);
        two_to_is_positive((precision - 1) as nat);
    }
    while whole >= limit
        invariant
            den > 0,
            step > 0,
            limit == two_to(precision as nat),
            1 <= precision <= 64,
            limit >= 2,
            step == den * two_to(shift as nat),
            whole == num / step,
            bit_length(num as nat / den as nat) == bit_length(whole as nat) + shift,
            shift > 0 ==> whole >= two_to((precision - 1) as nat),
            shift <= 128,
        decreases whole,
    {
        proof {
            assert(step * 2 <= num) by (nonlinear_arith)
                requires
                    num / step >= 2,
                    step > 0,
            ;
            lemma_div_denominator(num as int, step as int, 2);
            assert(den * (2 * two_to(shift as nat)) == 2 * (den * two_to(shift as nat)))
                by (nonlinear_arith);
            bit_length_bounds(num as nat / den as nat, 128);
            assert(two_to(128) == 0x1_0000_0000_0000_0000_0000_0000_0000_0000) by {
                powers_by_value();
            }
            assert(num as nat / den as nat <= num) by (nonlinear_arith)
                requires
                    den > 0,
            ;
            bit_length_bounds(whole as nat, precision as nat);
        }
        whole = whole / 2;
        step = step * 2;
        shift = shift + 1;
    }
    proof {
        bit_length_bounds(whole as nat, precision as nat);
        if shift > 0 {
            bit_length_bounds(whole as nat, (precision - 1) as nat);
        }
    }
    let mantissa = round_half_even(num, step);
    Rounded { mantissa, shift }
}

/// A whole number as a number of 53 bits of precision.
pub fn to_double(n: u64) -> (value: u128)
    ensures
        value == as_double(n as nat),
        value <= 0x1_0000_0000_0000_0000,
{
    let result = round_to_bits(n as u128, 1, 53);
    proof {
        bit_length_bounds(n as nat, 64);
        powers_by_value();
        assert(n as nat / 1 == n);
        two_to_grows(result.shift as nat, 11);
        two_to_adds(53, 11);
        assert(result.mantissa * two_to(result.shift as nat) <= two_to(53) * two_to(11))
            by (nonlinear_arith)
            requires
                result.mantissa <= two_to(53),
                two_to(result.shift as nat) <= two_to(11),
        ;
    }
    result.mantissa * power_of_two(result.shift)
}

} // verus!
