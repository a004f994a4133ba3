//! What holds of texts that were trimmed, compared and joined.

use vstd::prelude::*;

use crate::decimal::{
    decimal, decimal_is_digits, digits_value, number, number_up_to, without_plus,
};
use crate::text::{
    all_digits, ascii_lower, begins_with, contains_text, ends_with, equal_ignoring_ascii_case,
    is_digit, is_white_space, joined, leading_digits, occurs_at, trim_left, trim_right, trimmed,
};

verus! {

/// Every character is white space.
pub open spec fn is_blank(text: Seq<char>) -> bool {
    forall|i: int| 0 <= i < text.len() ==> is_white_space(#[trigger] text[i])
}

/// What is taken off the front is white space, and what is left begins with
/// none.
pub proof fn leading_white_space_goes(text: Seq<char>) -> (gone: int)
    ensures
        0 <= gone <= text.len(),
        is_blank(text.take(gone)),
        trim_left(text) == text.skip(gone),
        gone < text.len() ==> !is_white_space(text[gone]),
    decreases text.len(),
{
    if text.len() > 0 && is_white_space(text[0]) {
        let rest = text.drop_first();
        let more = leading_white_space_goes(rest);
        assert(text.skip(more + 1) =~= rest.skip(more));
        assert forall|i: int| 0 <= i < more + 1 implies is_white_space(
            #[trigger] text.take(more + 1)[i],
        ) by {
            if i > 0 {
                assert(rest.take(more)[i - 1] == text[i]);
            }
        }
        more + 1
    } else {
        assert(text.skip(0) =~= text);
        0
    }
}

/// What is taken off the end is white space, and what is left ends with none.
pub proof fn trailing_white_space_goes(text: Seq<char>) -> (kept: int)
    ensures
        0 <= kept <= text.len(),
        is_blank(text.skip(kept)),
        trim_right(text) == text.take(kept),
        kept > 0 ==> !is_white_space(text[kept - 1]),
    decreases text.len(),
{
    if text.len() > 0 && is_white_space(text.last()) {
        let rest = text.drop_last();
        let kept = trailing_white_space_goes(rest);
        assert(text.take(kept) =~= rest.take(kept));
        assert forall|i: int| 0 <= i < text.skip(kept).len() implies is_white_space(
            #[trigger] text.skip(kept)[i],
        ) by {
            if kept + i < rest.len() {
                assert(rest.skip(kept)[i] == text[kept + i]);
            }
        }
        kept
    } else {
        assert(text.take(text.len() as int) =~= text);
        text.len() as int
    }
}

/// A text is its trimmed part with nothing but white space before and behind,
/// and the trimmed part has none at either end. So a text that is blank leaves
/// nothing, and one that is trimmed already stays as it is.
pub proof fn only_outer_white_space_goes(text: Seq<char>) -> (ends: (int, int))
    ensures
        ({
            let (from, to) = ends;
            &&& 0 <= from <= to <= text.len()
            &&& trimmed(text) == text.subrange(from, to)
            &&& is_blank(text.take(from))
            &&& is_blank(text.skip(to))
        }),
        trimmed(text).len() > 0 ==> {
            &&& !is_white_space(trimmed(text)[0])
            &&& !is_white_space(trimmed(text)[trimmed(text).len() - 1])
        },
        trimmed(text).len() == 0 <==> is_blank(text),
        trimmed(trimmed(text)) == trimmed(text),
{
    let from = leading_white_space_goes(text);
    let rest = trim_left(text);
    let kept = trailing_white_space_goes(rest);
    let part = trimmed(text);
    assert(part =~= text.subrange(from, from + kept));
    assert(text.skip(from + kept) =~= rest.skip(kept));
    if kept > 0 {
        assert(part[0] == rest[0]);
        assert(rest[0] == text[from]);
        assert(part[part.len() - 1] == rest[kept - 1]);
        assert(trim_left(part) == part);
        assert(part.last() == part[part.len() - 1]);
        assert(trim_right(part) == part);
        assert(text[from] == text.subrange(from, from + kept)[0]);
    } else {
        assert(part =~= Seq::empty());
        assert(trim_left(part) == part);
        assert(trim_right(part) == part);
        assert forall|i: int| 0 <= i < text.len() implies is_white_space(#[trigger] text[i]) by {
            if i < from {
                assert(text.take(from)[i] == text[i]);
            } else {
                assert(text.skip(from)[i - from] == text[i]);
            }
        }
    }
    (from, from + kept)
}

/// Of the ASCII characters white space is the blank and those from the tab to
/// the carriage return; no digit or letter is.
pub proof fn ascii_white_space(c: char)
    ensures
        (c as u32) < 128 ==> (is_white_space(c) <==> (9 <= c as u32 && c as u32 <= 13) || c as u32
            == 32),
        is_digit(c) ==> !is_white_space(c),
        is_digit(c) <==> 48 <= c as u32 && c as u32 <= 57,
{
}

/// Lower case changes the letters `A` to `Z` into those 32 further on and
/// nothing else, and a second time nothing at all.
pub proof fn lower_case_of_ascii(c: char)
    ensures
        'A' <= c <= 'Z' ==> ascii_lower(c) as u32 == c as u32 + 32,
        !('A' <= c <= 'Z') ==> ascii_lower(c) == c,
        !('A' <= ascii_lower(c) <= 'Z'),
        ascii_lower(ascii_lower(c)) == ascii_lower(c),
{
}

/// Equality but for case holds of a text and itself, both ways, and through a
/// third; texts of different length never have it, and characters that are no
/// letters have to be the same.
pub proof fn equality_but_for_case(a: Seq<char>, b: Seq<char>, c: Seq<char>)
    ensures
        equal_ignoring_ascii_case(a, a),
        equal_ignoring_ascii_case(a, b) ==> equal_ignoring_ascii_case(b, a),
        equal_ignoring_ascii_case(a, b) && equal_ignoring_ascii_case(b, c)
            ==> equal_ignoring_ascii_case(a, c),
        equal_ignoring_ascii_case(a, b) ==> a.len() == b.len(),
        equal_ignoring_ascii_case(a, b) ==> forall|i: int|
            0 <= i < a.len() ==> (#[trigger] a[i]) == b[i] || (a[i] as u32) == b[i] as u32 + 32
                || (a[i] as u32) + 32 == b[i] as u32,
{
    if equal_ignoring_ascii_case(a, b) {
        assert forall|i: int| 0 <= i < b.len() implies ascii_lower(#[trigger] b[i]) == ascii_lower(
            a[i],
        ) by {
            assert(ascii_lower(a[i]) == ascii_lower(b[i]));
        }
        assert forall|i: int| 0 <= i < a.len() implies (#[trigger] a[i]) == b[i] || (a[i] as u32)
            == b[i] as u32 + 32 || (a[i] as u32) + 32 == b[i] as u32 by {
            assert(ascii_lower(a[i]) == ascii_lower(b[i]));
            lower_case_of_ascii(a[i]);
            lower_case_of_ascii(b[i]);
        }
        if equal_ignoring_ascii_case(b, c) {
            assert forall|i: int| 0 <= i < a.len() implies ascii_lower(#[trigger] a[i])
                == ascii_lower(c[i]) by {
                assert(ascii_lower(a[i]) == ascii_lower(b[i]));
                assert(ascii_lower(b[i]) == ascii_lower(c[i]));
            }
        }
    }
}

/// A text contains every part of itself, begins with every front part and ends
/// with every back part; and what it contains stands in it.
pub proof fn parts_are_contained(text: Seq<char>, from: int, to: int)
    requires
        0 <= from <= to <= text.len(),
    ensures
        contains_text(text, text.subrange(from, to)),
        begins_with(text, text.take(to)),
        ends_with(text, text.skip(from)),
{
    assert(occurs_at(text, text.subrange(from, to), from));
    assert(text.subrange(0, text.take(to).len() as int) =~= text.take(to));
    let back = text.skip(from);
    assert(text.subrange(text.len() - back.len(), text.len() - back.len() + back.len()) =~= back);
}

/// A text that contains another has it between two further parts; one that
/// begins or ends with it has a single one, behind or before it.
pub proof fn contained_parts_stand_there(text: Seq<char>, pattern: Seq<char>)
    ensures
        contains_text(text, pattern) ==> exists|before: Seq<char>, behind: Seq<char>|
            text == #[trigger] (before + pattern + behind),
        begins_with(text, pattern) ==> text == pattern + text.skip(pattern.len() as int),
        ends_with(text, pattern) ==> text == text.take(text.len() - pattern.len()) + pattern,
{
    if contains_text(text, pattern) {
        let at = choose|at: int| occurs_at(text, pattern, at);
        let before = text.take(at);
        let behind = text.skip(at + pattern.len());
        assert(text.subrange(at, at + pattern.len()) =~= pattern);
        assert(text =~= before + pattern + behind) by {
            assert forall|i: int| 0 <= i < text.len() implies text[i] == (before + pattern
                + behind)[i] by {
                if at <= i < at + pattern.len() {
                    assert(text.subrange(at, at + pattern.len())[i - at] == text[i]);
                }
            }
        }
    }
    if begins_with(text, pattern) {
        assert(text.subrange(0, pattern.len() as int) =~= pattern);
        assert(text =~= pattern + text.skip(pattern.len() as int)) by {
            assert forall|i: int| 0 <= i < pattern.len() implies text[i] == pattern[i] by {
                assert(text.subrange(0, pattern.len() as int)[i] == text[i]);
            }
        }
    }
    if ends_with(text, pattern) {
        let at = text.len() - pattern.len();
        assert(text =~= text.take(at) + pattern) by {
            assert forall|i: int| at <= i < text.len() implies text[i] == pattern[i - at] by {
                assert(text.subrange(at, at + pattern.len())[i - at] == text[i]);
            }
        }
    }
}

/// The digits that a text begins with are its front part of digits, and the
/// longest one.
pub proof fn leading_digits_are_the_longest(text: Seq<char>)
    ensures
        ({
            let digits = leading_digits(text);
            &&& digits.len() <= text.len()
            &&& digits == text.take(digits.len() as int)
            &&& all_digits(digits)
            &&& digits.len() < text.len() ==> !is_digit(text[digits.len() as int])
        }),
    decreases text.len(),
{
    if text.len() > 0 && is_digit(text[0]) {
        let rest = text.drop_first();
        leading_digits_are_the_longest(rest);
        let digits = leading_digits(text);
        let fewer = leading_digits(rest);
        assert(digits =~= text.take(digits.len() as int)) by {
            assert forall|i: int| 0 < i < digits.len() implies digits[i] == text[i] by {
                assert(digits[i] == fewer[i - 1]);
                assert(fewer[i - 1] == rest.take(fewer.len() as int)[i - 1]);
            }
        }
        assert forall|i: int| 0 <= i < digits.len() implies is_digit(#[trigger] digits[i]) by {
            if i > 0 {
                assert(digits[i] == fewer[i - 1]);
            }
        }
        if digits.len() < text.len() {
            assert(rest[fewer.len() as int] == text[digits.len() as int]);
        }
    } else {
        assert(leading_digits(text) =~= text.take(0));
    }
}

/// Joined texts hold every text whole, with the separator between two
/// neighbours: one text is itself, none is nothing, and two lists are joined
/// as their joins with a separator between them.
pub proof fn joins_hold_every_part(
    first: Seq<Seq<char>>,
    second: Seq<Seq<char>>,
    one: Seq<char>,
    separator: Seq<char>,
)
    ensures
        joined(Seq::empty(), separator) == Seq::<char>::empty(),
        joined(seq![one], separator) == one,
        first.len() > 0 && second.len() > 0 ==> joined(first + second, separator) == joined(
            first,
            separator,
        ) + separator + joined(second, separator),
    decreases second.len(),
{
    if first.len() > 0 && second.len() > 0 {
        let all = first + second;
        let fewer = second.drop_last();
        assert(all.drop_last() =~= first + fewer);
        assert(all.last() == second.last());
        joins_hold_every_part(first, fewer, one, separator);
        if fewer.len() == 0 {
            assert(first + fewer =~= first);
        }
        assert(joined(all, separator) =~= joined(first, separator) + separator + joined(
            second,
            separator,
        ));
    }
}

/// Reading digits counts in tens: a digit behind others is worth itself, and
/// those before it ten times what they were.
pub proof fn digits_count_in_tens(digits: Seq<char>, c: char)
    ensures
        is_digit(c) ==> digits_value(digits.push(c)) == digits_value(digits) * 10 + (c as u32
            - 48),
        digits_value(Seq::empty()) == 0,
{
    assert(digits.push(c).drop_last() =~= digits);
}

/// A text stands for a number exactly where it is digits, with at most one plus
/// sign before them; the sign does not matter, and the bound only decides
/// whether there is a number.
pub proof fn numbers_are_digits(text: Seq<char>, limit: nat)
    ensures
        text.len() > 0 && all_digits(text) ==> number(text) == Some(digits_value(text)),
        text.len() > 0 && all_digits(text) ==> number(seq!['+'] + text) == Some(
            digits_value(text),
        ),
        text.len() == 0 ==> number(text) is None,
        text.len() > 0 && !is_digit(text[0]) && text[0] != '+' ==> number(text) is None,
        text.len() > 0 && !is_digit(text[text.len() - 1]) ==> number(text) is None,
        number_up_to(text, limit) is Some <==> number(text) is Some && number(text).unwrap()
            <= limit,
        number_up_to(text, limit) is Some ==> number_up_to(text, limit) == number(text),
{
    if text.len() > 0 && all_digits(text) {
        assert(is_digit(text[0]));
        assert((seq!['+'] + text).drop_first() =~= text);
    }
    if text.len() > 0 && !is_digit(text[0]) && text[0] != '+' {
        assert(!all_digits(text));
    }
    if text.len() > 0 && !is_digit(text[text.len() - 1]) {
        let digits = without_plus(text);
        if number(text) is Some {
            assert(is_digit(digits[digits.len() - 1]));
        }
    }
}

/// A number's notation has no zero in front but for zero itself, and grows by
/// one digit where the number grows tenfold.
pub proof fn notation_is_the_shortest(n: nat)
    ensures
        decimal(n)[0] == '0' <==> n == 0,
        n > 0 ==> decimal(n * 10).len() == decimal(n).len() + 1,
    decreases n,
{
    if n >= 10 {
        notation_is_the_shortest(n / 10);
        assert(decimal(n)[0] == decimal(n / 10)[0]) by {
            decimal_is_digits(n / 10);
        }
    }
    if n > 0 {
        assert((n * 10) / 10 == n);
    }
}

} // verus!
