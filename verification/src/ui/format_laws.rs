//! What holds of shown numbers and times.

use vstd::prelude::*;

use super::format::{bytes_text, elapsed_text, hundredths_text, tenths_text};
use crate::decimal::{
    decimal, decimal_is_digits, decimal_pair, digit_char, digit_value, digits_value,
    digits_value_of_decimal,
};
use crate::rounding::{
    as_double, bit_length_bounds, nearest_even, powers_by_value, rounded_keeps_short_numbers, two_to,
};
use crate::text::{ends_with, is_digit};

verus! {

/// Two digits stand for a number below one hundred, and for no other.
proof fn decimal_pair_is_two_digits(a: nat, b: nat)
    requires
        a < 100,
        b < 100,
    ensures
        decimal_pair(a).len() == 2,
        decimal_pair(a) == decimal_pair(b) ==> a == b,
{
    pair_digits(a);
    pair_digits(b);
    if decimal_pair(a) == decimal_pair(b) {
        assert(decimal_pair(a)[0] == decimal_pair(b)[0]);
        assert(decimal_pair(a)[1] == decimal_pair(b)[1]);
    }
}

/// The two digits of a number below one hundred.
proof fn pair_digits(n: nat)
    requires
        n < 100,
    ensures
        decimal_pair(n) =~= seq![digit_char(n / 10), digit_char(n % 10)],
{
    reveal_with_fuel(decimal, 3);
    assert(digit_char(0) == '0');
}

/// An elapsed time always ends in its seconds, with two digits, and so is
/// another text every second.
pub proof fn elapsed_always_shows_its_seconds(total: u64)
    ensures
        ends_with(elapsed_text(total), decimal_pair((total % 60) as nat)),
        total < u64::MAX ==> elapsed_text(total) != elapsed_text((total + 1) as u64),
{
    let text = elapsed_text(total);
    let seconds = (total % 60) as nat;
    decimal_pair_is_two_digits(seconds, seconds);
    assert(text.skip(text.len() - 2) =~= decimal_pair(seconds));
    assert(text.subrange(text.len() - 2, text.len() as int) =~= decimal_pair(seconds));
    if total < u64::MAX {
        let next = elapsed_text((total + 1) as u64);
        let later = ((total + 1) as u64 % 60) as nat;
        decimal_pair_is_two_digits(seconds, later);
        decimal_pair_is_two_digits(later, later);
        assert(next.skip(next.len() - 2) =~= decimal_pair(later));
        assert(seconds != later);
    }
}

/// What the numbers before the last colon are together worth, each worth sixty
/// times the next, and what the digits after it are.
pub open spec fn sixties(text: Seq<char>) -> (nat, nat)
    decreases text.len(),
{
    if text.len() == 0 {
        (0, 0)
    } else {
        let (whole, part) = sixties(text.drop_last());
        if text.last() == ':' {
            (whole * 60 + part, 0)
        } else {
            (whole, part * 10 + digit_value(text.last()))
        }
    }
}

/// Numbers separated by colons, read in base 60.
pub open spec fn base_60(text: Seq<char>) -> nat {
    sixties(text).0 * 60 + sixties(text).1
}

/// How many colons a text holds.
pub open spec fn colons(text: Seq<char>) -> nat
    decreases text.len(),
{
    if text.len() == 0 {
        0
    } else {
        colons(text.drop_last()) + if text.last() == ':' {
            1nat
        } else {
            0
        }
    }
}

/// Digits after a colon, or at the start, are a number of their own.
proof fn digits_are_a_part(text: Seq<char>, digits: Seq<char>)
    requires
        sixties(text).1 == 0,
        forall|i: int| 0 <= i < digits.len() ==> is_digit(#[trigger] digits[i]),
    ensures
        sixties(text + digits) == (sixties(text).0, digits_value(digits)),
        colons(text + digits) == colons(text),
    decreases digits.len(),
{
    let whole = text + digits;
    if digits.len() == 0 {
        assert(whole =~= text);
    } else {
        let rest = digits.drop_last();
        assert(whole.drop_last() =~= text + rest);
        assert forall|i: int| 0 <= i < rest.len() implies is_digit(#[trigger] rest[i]) by {
            assert(is_digit(digits[i]));
        }
        digits_are_a_part(text, rest);
        assert(is_digit(digits[digits.len() - 1]));
    }
}

/// A colon ends a number.
proof fn colon_ends_a_part(text: Seq<char>)
    ensures
        sixties(text + ":"@) == (base_60(text), 0nat),
        colons(text + ":"@) == colons(text) + 1,
{
    reveal_strlit(":");
    assert((text + ":"@).drop_last() =~= text);
}

/// Two digits are worth the number that they stand for.
proof fn pair_is_worth_its_number(n: nat)
    requires
        n < 100,
    ensures
        digits_value(decimal_pair(n)) == n,
        forall|i: int| 0 <= i < decimal_pair(n).len() ==> is_digit(#[trigger] decimal_pair(n)[i]),
{
    pair_digits(n);
    let pair = decimal_pair(n);
    assert(pair.drop_last() =~= seq![digit_char(n / 10)]);
    assert(pair.drop_last().drop_last() =~= Seq::empty());
    reveal_with_fuel(digits_value, 3);
}

/// An elapsed time can be read back: its numbers in base 60 are the seconds, so
/// that two times have the same text only where they are the same number of
/// seconds. It has three numbers from one hour on and two below, and all but
/// the first have two digits.
pub proof fn elapsed_can_be_read_back(total: u64)
    ensures
        base_60(elapsed_text(total)) == total,
        colons(elapsed_text(total)) == if total >= 3600 {
            2nat
        } else {
            1
        },
        ends_with(elapsed_text(total), ":"@ + decimal_pair((total % 60) as nat)),
        total >= 3600 ==> ends_with(
            elapsed_text(total),
            ":"@ + decimal_pair((total % 3600 / 60) as nat) + ":"@ + decimal_pair(
                (total % 60) as nat,
            ),
        ),
        decimal_pair((total % 60) as nat).len() == 2,
        decimal_pair((total % 3600 / 60) as nat).len() == 2,
{
    let hours = (total / 3600) as nat;
    let minutes = (total % 3600 / 60) as nat;
    let seconds = (total % 60) as nat;
    let text = elapsed_text(total);
    let last = decimal_pair(seconds);
    let middle = decimal_pair(minutes);
    reveal_strlit(":");
    pair_is_worth_its_number(minutes);
    pair_is_worth_its_number(seconds);
    pair_digits(minutes);
    pair_digits(seconds);
    let nothing = Seq::<char>::empty();
    let first = if hours > 0 {
        hours
    } else {
        minutes
    };
    decimal_is_digits(first);
    digits_value_of_decimal(first);
    digits_are_a_part(nothing, decimal(first));
    assert(nothing + decimal(first) =~= decimal(first));
    let begun = decimal(first) + ":"@;
    colon_ends_a_part(decimal(first));
    if hours > 0 {
        digits_are_a_part(begun, middle);
        colon_ends_a_part(begun + middle);
        digits_are_a_part(begun + middle + ":"@, last);
        assert(text =~= begun + middle + ":"@ + last);
        let end = ":"@ + middle + ":"@ + last;
        assert(text.subrange(text.len() - end.len(), text.len() as int) =~= end);
    } else {
        digits_are_a_part(begun, last);
        assert(text =~= begun + last);
    }
    let end = ":"@ + last;
    assert(text.subrange(text.len() - end.len(), text.len() as int) =~= end);
}

/// Two elapsed times have the same text exactly where they are the same number
/// of seconds.
pub proof fn elapsed_texts_tell_times_apart(a: u64, b: u64)
    ensures
        elapsed_text(a) == elapsed_text(b) <==> a == b,
{
    elapsed_can_be_read_back(a);
    elapsed_can_be_read_back(b);
}

/// A whole number of units is shown as that number, with zeros for decimals.
pub proof fn whole_units_are_exact(n: nat)
    requires
        0 < n < 1024,
    ensures
        bytes_text(n) == decimal(n) + " B"@,
        bytes_text(n * two_to(10)) == decimal(n) + ".0"@ + " KB"@,
        bytes_text(n * two_to(20)) == decimal(n) + ".00"@ + " MB"@,
        bytes_text(n * two_to(30)) == decimal(n) + ".00"@ + " GB"@,
{
    powers_by_value();
    short_numbers_are_doubles(n);
    short_numbers_are_doubles(n * two_to(10));
    short_numbers_are_doubles(n * two_to(20));
    short_numbers_are_doubles(n * two_to(30));
    multiples_need_no_rounding(n * 10, two_to(10));
    multiples_need_no_rounding(n * 100, two_to(20));
    multiples_need_no_rounding(n * 100, two_to(30));
    reveal_strlit(".");
    reveal_strlit(".0");
    reveal_strlit(".00");
    pair_digits(0);
    assert(digit_char(0) == '0');
    assert((n * 100) / 100 == n && (n * 100) % 100 == 0);
    assert((n * 10) / 10 == n && (n * 10) % 10 == 0);
    assert(hundredths_text(n * 100) =~= decimal(n) + ".00"@);
    assert(tenths_text(n * 10) =~= decimal(n) + ".0"@);
}

/// A number below two to the power of 53 is held exactly.
proof fn short_numbers_are_doubles(n: nat)
    requires
        n < 0x20_0000_0000_0000,
    ensures
        as_double(n) == n,
{
    powers_by_value();
    bit_length_bounds(n, 53);
    rounded_keeps_short_numbers(n, 53);
}

/// A multiple divides without a remainder.
proof fn multiples_need_no_rounding(times: nat, den: nat)
    requires
        den > 0,
    ensures
        nearest_even(times * den, den) == times,
{
    vstd::arithmetic::div_mod::lemma_fundamental_div_mod_converse(
        (times * den) as int,
        den as int,
        times as int,
        0,
    );
}

} // verus!
