//! Whole numbers in decimal notation: writing them and reading them back.

use vstd::prelude::*;

use crate::text::{chars_of, digit};

verus! {

/// The character that stands for a digit's value.
pub open spec fn digit_char(value: nat) -> char
    recommends
        value < 10,
{
    (48 + value) as char
}

/// The value that a digit's character stands for.
pub open spec fn digit_value(c: char) -> nat
    recommends
        crate::text::is_digit(c),
{
    (c as int - 48) as nat
}

/// `n` in decimal notation, without leading zeros.
pub open spec fn decimal(n: nat) -> Seq<char>
    decreases n,
{
    if n < 10 {
        seq![digit_char(n)]
    } else {
        decimal(n / 10).push(digit_char(n % 10))
    }
}

/// `n` in decimal notation, in two characters at least.
pub open spec fn decimal_pair(n: nat) -> Seq<char> {
    if n < 10 {
        seq!['0'] + decimal(n)
    } else {
        decimal(n)
    }
}

/// The number that a row of digits stands for.
pub open spec fn digits_value(digits: Seq<char>) -> nat
    decreases digits.len(),
{
    if digits.len() == 0 {
        0
    } else {
        digits_value(digits.drop_last()) * 10 + digit_value(digits.last())
    }
}

/// What follows one leading plus sign, or the whole text where there is none.
pub open spec fn without_plus(text: Seq<char>) -> Seq<char> {
    if text.len() > 0 && text[0] == '+' {
        text.drop_first()
    } else {
        text
    }
}

/// The number that a text stands for: digits, at least one of them, with or
/// without one leading plus sign. Any other text stands for none.
pub open spec fn number(text: Seq<char>) -> Option<nat> {
    let digits = without_plus(text);
    if digits.len() > 0 && crate::text::all_digits(digits) {
        Some(digits_value(digits))
    } else {
        None
    }
}

/// The number that a text stands for, where it is at most `limit`.
pub open spec fn number_up_to(text: Seq<char>, limit: nat) -> Option<nat> {
    match number(text) {
        Some(n) => if n <= limit {
            Some(n)
        } else {
            None
        },
        None => None,
    }
}

/// Decimal notation is a non-empty row of digits.
pub proof fn decimal_is_digits(n: nat)
    ensures
        decimal(n).len() > 0,
        crate::text::all_digits(decimal(n)),
    decreases n,
{
    if n >= 10 {
        decimal_is_digits(n / 10);
        let shorter = decimal(n / 10);
        assert forall|i: int| 0 <= i < decimal(n).len() implies crate::text::is_digit(
            #[trigger] decimal(n)[i],
        ) by {
            if i < shorter.len() {
                assert(decimal(n)[i] == shorter[i]);
            }
        }
    }
}

/// A row of digits that is decimal notation stands for the number written.
pub proof fn digits_value_of_decimal(n: nat)
    ensures
        digits_value(decimal(n)) == n,
    decreases n,
{
    if n >= 10 {
        digits_value_of_decimal(n / 10);
        assert(decimal(n).drop_last() == decimal(n / 10));
    } else {
        assert(decimal(n).drop_last() == Seq::<char>::empty());
        assert(digits_value(Seq::<char>::empty()) == 0);
    }
}

/// Reading back what was written gives the number that was written.
pub proof fn number_of_decimal(n: nat)
    ensures
        number(decimal(n)) == Some(n),
{
    decimal_is_digits(n);
    digits_value_of_decimal(n);
    assert(crate::text::is_digit(decimal(n)[0]));
}

/// Two numbers with the same decimal notation are the same number.
pub proof fn decimal_is_injective(a: nat, b: nat)
    requires
        decimal(a) == decimal(b),
    ensures
        a == b,
{
    digits_value_of_decimal(a);
    digits_value_of_decimal(b);
}

/// Appends `n` in decimal notation.
pub fn push_decimal(out: &mut String, n: u64)
    ensures
        final(out)@ == old(out)@ + decimal(n as nat),
    decreases n,
{
    if n >= 10 {
        push_decimal(out, n / 10);
    }
    let last = (48 + (n % 10) as u8) as char;
    out.push(last);
    assert(out@ =~= old(out)@ + decimal(n as nat));
}

/// Appends `n` in decimal notation, in two characters at least.
pub fn push_decimal_pair(out: &mut String, n: u64)
    ensures
        final(out)@ == old(out)@ + decimal_pair(n as nat),
{
    if n < 10 {
        out.push('0');
    }
    push_decimal(out, n);
    assert(out@ =~= old(out)@ + decimal_pair(n as nat));
}

/// Appends a number of up to 128 bits in decimal notation.
pub fn push_wide_decimal(out: &mut String, n: u128)
    ensures
        final(out)@ == old(out)@ + decimal(n as nat),
    decreases n,
{
    if n >= 10 {
        push_wide_decimal(out, n / 10);
    }
    let last = (48 + (n % 10) as u8) as char;
    out.push(last);
    assert(out@ =~= old(out)@ + decimal(n as nat));
}

/// The number that the first `count` digits stand for, where it fits in 128
/// bits.
pub fn wide_digits(digits: &Vec<char>, count: usize) -> (value: Option<u128>)
    requires
        count <= digits@.len(),
        crate::text::all_digits(digits@),
    ensures
        match value {
            Some(n) => digits_value(digits@.take(count as int)) == n,
            None => digits_value(digits@.take(count as int)) > u128::MAX,
        },
{
    let mut n: u128 = 0;
    let mut too_big = false;
    let mut i: usize = 0;
    assert(digits@.take(0) == Seq::<char>::empty());
    while i < count
        invariant
            i <= count <= digits@.len(),
            crate::text::all_digits(digits@),
            too_big ==> digits_value(digits@.take(i as int)) > u128::MAX,
            !too_big ==> digits_value(digits@.take(i as int)) == n,
        decreases count - i,
    {
        let ghost before = digits@.take(i as int);
        let ghost after = digits@.take(i + 1);
        assert(after.drop_last() == before);
        assert(crate::text::is_digit(digits@[i as int]));
        let value = (digits[i] as u32 - 48) as u128;
        assert(digits_value(after) == digits_value(before) * 10 + value);
        if !too_big {
            if n > u128::MAX / 10 || n * 10 > u128::MAX - value {
                too_big = true;
            } else {
                n = n * 10 + value;
            }
        }
        i = i + 1;
    }
    if too_big {
        None
    } else {
        Some(n)
    }
}

/// `n` in decimal notation.
pub fn to_decimal(n: u64) -> (text: String)
    ensures
        text@ == decimal(n as nat),
{
    let mut text = String::new();
    push_decimal(&mut text, n);
    assert(text@ =~= decimal(n as nat));
    text
}

/// The number that a text stands for, where it is at most `limit`.
pub fn parse_up_to(text: &str, limit: u64) -> (parsed: Option<u64>)
    ensures
        match parsed {
            Some(n) => number_up_to(text@, limit as nat) == Some(n as nat),
            None => number_up_to(text@, limit as nat) is None,
        },
{
    let chars = chars_of(text);
    let mut start: usize = 0;
    if chars.len() > 0 && chars[0] == '+' {
        start = 1;
    }
    let ghost digits = without_plus(text@);
    assert(digits == chars@.skip(start as int));
    if start == chars.len() {
        return None;
    }
    let mut n: u64 = 0;
    let mut too_big = false;
    let mut i: usize = start;
    assert(digits.take(0) == Seq::<char>::empty());
    while i < chars.len()
        invariant
            start <= i <= chars@.len(),
            digits == chars@.skip(start as int),
            crate::text::all_digits(digits.take(i - start)),
            too_big ==> digits_value(digits.take(i - start)) > limit,
            !too_big ==> digits_value(digits.take(i - start)) == n && n <= limit,
            digits == without_plus(text@),
            digits.len() > 0,
        decreases chars@.len() - i,
    {
        let ghost before = digits.take(i - start);
        let ghost after = digits.take(i + 1 - start);
        assert(after.drop_last() == before);
        assert(after.last() == chars@[i as int]);
        if !digit(chars[i]) {
            assert(!crate::text::is_digit(digits[i - start]));
            return None;
        }
        let value = (chars[i] as u32 - 48) as u64;
        assert(digits_value(after) == digits_value(before) * 10 + value);
        if !too_big {
            if n > limit / 10 || value > limit || n * 10 > limit - value {
                too_big = true;
            } else {
                n = n * 10 + value;
            }
        }
        assert forall|j: int| 0 <= j < after.len() implies crate::text::is_digit(
            #[trigger] after[j],
        ) by {
            if j < before.len() {
                assert(after[j] == before[j]);
            }
        }
        i = i + 1;
    }
    assert(digits.take(i - start) == digits);
    if too_big {
        None
    } else {
        Some(n)
    }
}

/// The number that a text stands for, where it fits in 64 bits.
pub fn parse_u64(text: &str) -> (parsed: Option<u64>)
    ensures
        match parsed {
            Some(n) => number_up_to(text@, u64::MAX as nat) == Some(n as nat),
            None => number_up_to(text@, u64::MAX as nat) is None,
        },
{
    parse_up_to(text, u64::MAX)
}

/// The number that a text stands for, where it fits in 32 bits.
pub fn parse_u32(text: &str) -> (parsed: Option<u32>)
    ensures
        match parsed {
            Some(n) => number_up_to(text@, u32::MAX as nat) == Some(n as nat),
            None => number_up_to(text@, u32::MAX as nat) is None,
        },
{
    match parse_up_to(text, u32::MAX as u64) {
        Some(n) => Some(n as u32),
        None => None,
    }
}

} // verus!
