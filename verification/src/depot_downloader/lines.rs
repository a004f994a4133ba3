//! The shapes of DepotDownloader's output lines: fixed words around fields.

use vstd::prelude::*;

use crate::text::{digit, is_digit, matches_at, occurs_at, text_between};

verus! {

/// Whether a character beyond ASCII is a decimal digit in the sense of a
/// regular expression's `\d`.
pub uninterp spec fn unicode_decimal_digit(c: char) -> bool;

/// Asks `regex::Regex::is_match` whether the pattern `\d` covers the one
/// character. The answer depends on the character alone: it is the class
/// `\p{Nd}` of the Unicode tables that the crate holds.
#[verifier::external_body]
fn matches_digit_class(c: char) -> (yes: bool)
    ensures
        yes == unicode_decimal_digit(c),
{
    regex::Regex::new(r"^\d$").unwrap().is_match(&c.to_string())
}

/// A decimal digit of any script.
pub open spec fn is_decimal_digit(c: char) -> bool {
    if (c as u32) < 128 {
        is_digit(c)
    } else {
        unicode_decimal_digit(c)
    }
}

/// A non-empty row of decimal digits of any script.
pub open spec fn digit_word(word: Seq<char>) -> bool {
    &&& word.len() > 0
    &&& forall|i: int| 0 <= i < word.len() ==> is_decimal_digit(#[trigger] word[i])
}

/// A non-empty text on one line.
pub open spec fn one_line(word: Seq<char>) -> bool {
    &&& word.len() > 0
    &&& forall|i: int| 0 <= i < word.len() ==> #[trigger] word[i] != '\n'
}

/// `line` begins with `prefix` and ends with `suffix`, the two apart.
pub open spec fn is_framed(line: Seq<char>, prefix: Seq<char>, suffix: Seq<char>) -> bool {
    &&& prefix.len() + suffix.len() <= line.len()
    &&& occurs_at(line, prefix, 0)
    &&& occurs_at(line, suffix, line.len() - suffix.len())
}

/// What stands between `prefix` and `suffix` in a line framed by them.
pub open spec fn framed_field(line: Seq<char>, prefix: Seq<char>, suffix: Seq<char>) -> Seq<char> {
    line.subrange(prefix.len() as int, line.len() - suffix.len())
}

/// Three rows of digits fill the gaps between the four fixed parts of `line`.
pub open spec fn fills_three(
    line: Seq<char>,
    parts: (Seq<char>, Seq<char>, Seq<char>, Seq<char>),
    a: Seq<char>,
    b: Seq<char>,
    c: Seq<char>,
) -> bool {
    &&& digit_word(a)
    &&& digit_word(b)
    &&& digit_word(c)
    &&& line == parts.0 + (a + (parts.1 + (b + (parts.2 + (c + parts.3)))))
}

/// The three rows of digits that fill the gaps between the four fixed parts
/// of `line`, where there are such.
pub open spec fn three_fields(
    line: Seq<char>,
    parts: (Seq<char>, Seq<char>, Seq<char>, Seq<char>),
) -> Option<(Seq<char>, Seq<char>, Seq<char>)> {
    if exists|a: Seq<char>, b: Seq<char>, c: Seq<char>| fills_three(line, parts, a, b, c) {
        let (a, b, c) = choose|a: Seq<char>, b: Seq<char>, c: Seq<char>|
            fills_three(line, parts, a, b, c);
        Some((a, b, c))
    } else {
        None
    }
}

/// A fixed part that cannot be taken for the end of a row of digits.
pub open spec fn ends_digits(part: Seq<char>) -> bool {
    part.len() > 0 && !is_decimal_digit(part[0])
}

/// `end` is where the row of digits that begins at `from` ends.
pub open spec fn digits_end(line: Seq<char>, from: int, end: int) -> bool {
    &&& 0 <= from <= end <= line.len()
    &&& forall|i: int| from <= i < end ==> is_decimal_digit(#[trigger] line[i])
    &&& end == line.len() || !is_decimal_digit(line[end])
}

/// Where a row of digits is followed by something else, the cut between the
/// two can be only at the end of the digits.
proof fn cut_is_unique(line: Seq<char>, from: int, end: int, word: Seq<char>, rest: Seq<char>)
    requires
        digits_end(line, from, end),
        line.skip(from) == word + rest,
        digit_word(word),
        ends_digits(rest),
    ensures
        word == line.subrange(from, end),
        rest == line.skip(end),
{
    let tail = line.skip(from);
    let n = end - from;
    assert(forall|i: int| 0 <= i < tail.len() ==> #[trigger] tail[i] == line[from + i]);
    if word.len() < n {
        assert(tail[word.len() as int] == rest[0]);
        assert(is_decimal_digit(line[from + word.len()]));
    }
    if word.len() > n {
        assert(tail[n] == word[n]);
        assert(is_decimal_digit(word[n]));
        assert(line[end] == tail[n]);
    }
    assert(word =~= line.subrange(from, end)) by {
        assert forall|i: int| 0 <= i < word.len() implies word[i] == line.subrange(from, end)[i] by {
            assert(tail[i] == word[i]);
        }
    }
    assert(rest =~= line.skip(end)) by {
        assert forall|i: int| 0 <= i < rest.len() implies rest[i] == line.skip(end)[i] by {
            assert(tail[n + i] == rest[i]);
        }
    }
}

/// The three fields of a line, cut one after the other from the left.
proof fn fields_in_order(
    line: Seq<char>,
    parts: (Seq<char>, Seq<char>, Seq<char>, Seq<char>),
    a: Seq<char>,
    b: Seq<char>,
    c: Seq<char>,
    end_a: int,
)
    requires
        ends_digits(parts.1),
        fills_three(line, parts, a, b, c),
        digits_end(line, parts.0.len() as int, end_a),
    ensures
        occurs_at(line, parts.0, 0),
        a == line.subrange(parts.0.len() as int, end_a),
        line.skip(end_a) == parts.1 + (b + (parts.2 + (c + parts.3))),
{
    let rest = parts.1 + (b + (parts.2 + (c + parts.3)));
    assert(line.subrange(0, parts.0.len() as int) =~= parts.0);
    assert(line.skip(parts.0.len() as int) =~= a + rest);
    assert(rest[0] == parts.1[0]);
    cut_is_unique(line, parts.0.len() as int, end_a, a, rest);
}

/// The fixed part and the row of digits that a tail of the line begins with.
proof fn next_in_order(
    line: Seq<char>,
    at: int,
    part: Seq<char>,
    word: Seq<char>,
    rest: Seq<char>,
    end: int,
)
    requires
        0 <= at <= line.len(),
        line.skip(at) == part + (word + rest),
        digit_word(word),
        ends_digits(rest),
    ensures
        occurs_at(line, part, at),
        digits_end(line, at + part.len(), end) ==> word == line.subrange(at + part.len(), end)
            && line.skip(end) == rest,
{
    assert(line.skip(at).len() == part.len() + (word.len() + rest.len()));
    assert(line.skip(at).take(part.len() as int) =~= part);
    assert(line.subrange(at, at + part.len()) =~= line.skip(at).take(part.len() as int));
    assert(line.skip(at + part.len()) =~= line.skip(at).skip(part.len() as int));
    assert(line.skip(at).skip(part.len() as int) =~= word + rest);
    if digits_end(line, at + part.len(), end) {
        cut_is_unique(line, at + part.len(), end, word, rest);
    }
}

/// Two texts that begin alike and are the same go on alike.
proof fn cancel_left(part: Seq<char>, x: Seq<char>, y: Seq<char>)
    requires
        part + x == part + y,
    ensures
        x == y,
{
    assert((part + x).skip(part.len() as int) =~= x);
    assert((part + y).skip(part.len() as int) =~= y);
}

/// Two texts that are the same are cut the same way after their digits.
proof fn cancel_digits(a: Seq<char>, x: Seq<char>, b: Seq<char>, y: Seq<char>)
    requires
        a + x == b + y,
        digit_word(a),
        digit_word(b),
        ends_digits(x),
        ends_digits(y),
    ensures
        a == b,
        x == y,
{
    let line = a + x;
    assert(line.skip(0) =~= a + x);
    assert(line.skip(0) =~= b + y);
    let end = a.len() as int;
    assert(line[end] == x[0]);
    assert(forall|i: int| 0 <= i < end ==> #[trigger] line[i] == a[i]);
    assert(digits_end(line, 0, end));
    cut_is_unique(line, 0, end, a, x);
    cut_is_unique(line, 0, end, b, y);
}

/// At most one triple of rows of digits fills the gaps of a line.
pub proof fn three_fields_are_unique(
    line: Seq<char>,
    parts: (Seq<char>, Seq<char>, Seq<char>, Seq<char>),
    a: Seq<char>,
    b: Seq<char>,
    c: Seq<char>,
)
    requires
        ends_digits(parts.1),
        ends_digits(parts.2),
        ends_digits(parts.3),
        fills_three(line, parts, a, b, c),
    ensures
        three_fields(line, parts) == Some((a, b, c)),
{
    let (a2, b2, c2) = choose|a: Seq<char>, b: Seq<char>, c: Seq<char>|
        fills_three(line, parts, a, b, c);
    assert(fills_three(line, parts, a2, b2, c2));
    let after_b = parts.2 + (c + parts.3);
    let after_b2 = parts.2 + (c2 + parts.3);
    let after_a = parts.1 + (b + after_b);
    let after_a2 = parts.1 + (b2 + after_b2);
    cancel_left(parts.0, a + after_a, a2 + after_a2);
    cancel_digits(a, after_a, a2, after_a2);
    cancel_left(parts.1, b + after_b, b2 + after_b2);
    cancel_digits(b, after_b, b2, after_b2);
    cancel_left(parts.2, c + parts.3, c2 + parts.3);
    cancel_digits(c, parts.3, c2, parts.3);
}

/// A line put together from left to right out of fixed parts and digits.
proof fn pieces_fill(
    line: Seq<char>,
    parts: (Seq<char>, Seq<char>, Seq<char>, Seq<char>),
    end_a: int,
    end_b: int,
    end_c: int,
)
    requires
        occurs_at(line, parts.0, 0),
        digits_end(line, parts.0.len() as int, end_a),
        parts.0.len() < end_a,
        occurs_at(line, parts.1, end_a),
        digits_end(line, end_a + parts.1.len(), end_b),
        end_a + parts.1.len() < end_b,
        occurs_at(line, parts.2, end_b),
        digits_end(line, end_b + parts.2.len(), end_c),
        end_b + parts.2.len() < end_c,
        occurs_at(line, parts.3, end_c),
        end_c + parts.3.len() == line.len(),
    ensures
        fills_three(
            line,
            parts,
            line.subrange(parts.0.len() as int, end_a),
            line.subrange(end_a + parts.1.len(), end_b),
            line.subrange(end_b + parts.2.len(), end_c),
        ),
{
    let start_a = parts.0.len() as int;
    let start_b = end_a + parts.1.len();
    let start_c = end_b + parts.2.len();
    let a = line.subrange(start_a, end_a);
    let b = line.subrange(start_b, end_b);
    let c = line.subrange(start_c, end_c);
    assert(line.subrange(end_b, start_c) == parts.2);
    assert(line.subrange(end_a, start_b) == parts.1);
    assert(line.subrange(0, start_a) == parts.0);
    assert(line.skip(end_c) =~= line.subrange(end_c, end_c + parts.3.len()));
    assert(line.skip(start_c) =~= c + line.skip(end_c));
    assert(line.skip(end_b) =~= line.subrange(end_b, start_c) + line.skip(start_c));
    assert(line.skip(start_b) =~= b + line.skip(end_b));
    assert(line.skip(end_a) =~= line.subrange(end_a, start_b) + line.skip(start_b));
    assert(line.skip(start_a) =~= a + line.skip(end_a));
    assert(line =~= line.subrange(0, start_a) + line.skip(start_a));
}

/// Whether the character is a decimal digit of any script.
pub fn decimal_digit(c: char) -> (yes: bool)
    ensures
        yes == is_decimal_digit(c),
{
    if (c as u32) < 128 {
        digit(c)
    } else {
        matches_digit_class(c)
    }
}

/// Where the row of digits that begins at `from` ends.
pub fn skip_digits(line: &Vec<char>, from: usize) -> (end: usize)
    requires
        from <= line@.len(),
    ensures
        digits_end(line@, from as int, end as int),
{
    let mut end: usize = from;
    while end < line.len() && decimal_digit(line[end])
        invariant
            from <= end <= line@.len(),
            forall|i: int| from <= i < end ==> is_decimal_digit(#[trigger] line@[i]),
        decreases line@.len() - end,
    {
        end = end + 1;
    }
    end
}

/// The three rows of digits that fill the gaps between the four fixed parts
/// of the line, where there are such.
pub fn three_words(
    line: &Vec<char>,
    part0: &Vec<char>,
    part1: &Vec<char>,
    part2: &Vec<char>,
    part3: &Vec<char>,
) -> (words: Option<(String, String, String)>)
    requires
        ends_digits(part1@),
        ends_digits(part2@),
        ends_digits(part3@),
    ensures
        match words {
            Some((a, b, c)) => three_fields(line@, (part0@, part1@, part2@, part3@)) == Some(
                (a@, b@, c@),
            ),
            None => three_fields(line@, (part0@, part1@, part2@, part3@)) is None,
        },
{
    let ghost parts = (part0@, part1@, part2@, part3@);
    if !matches_at(line, part0, 0) {
        assert forall|a: Seq<char>, b: Seq<char>, c: Seq<char>| !fills_three(
            line@,
            parts,
            a,
            b,
            c,
        ) by {
            if fills_three(line@, parts, a, b, c) {
                assert(line@.subrange(0, part0@.len() as int) =~= part0@);
            }
        }
        return None;
    }
    let start_a = part0.len();
    let end_a = skip_digits(line, start_a);
    if end_a == start_a || !matches_at(line, part1, end_a) {
        assert forall|a: Seq<char>, b: Seq<char>, c: Seq<char>| !fills_three(
            line@,
            parts,
            a,
            b,
            c,
        ) by {
            if fills_three(line@, parts, a, b, c) {
                let after_b = part2@ + (c + part3@);
                fields_in_order(line@, parts, a, b, c, end_a as int);
                next_in_order(line@, end_a as int, part1@, b, after_b, 0);
            }
        }
        return None;
    }
    assert(end_a + part1@.len() <= line.len());
    let start_b = end_a + part1.len();
    let end_b = skip_digits(line, start_b);
    if end_b == start_b || !matches_at(line, part2, end_b) {
        assert forall|a: Seq<char>, b: Seq<char>, c: Seq<char>| !fills_three(
            line@,
            parts,
            a,
            b,
            c,
        ) by {
            if fills_three(line@, parts, a, b, c) {
                let after_b = part2@ + (c + part3@);
                fields_in_order(line@, parts, a, b, c, end_a as int);
                next_in_order(line@, end_a as int, part1@, b, after_b, end_b as int);
                next_in_order(line@, end_b as int, part2@, c, part3@, 0);
            }
        }
        return None;
    }
    assert(end_b + part2@.len() <= line.len());
    let start_c = end_b + part2.len();
    let end_c = skip_digits(line, start_c);
    if end_c == start_c || part3.len() != line.len() - end_c || !matches_at(line, part3, end_c) {
        assert forall|a: Seq<char>, b: Seq<char>, c: Seq<char>| !fills_three(
            line@,
            parts,
            a,
            b,
            c,
        ) by {
            if fills_three(line@, parts, a, b, c) {
                let after_b = part2@ + (c + part3@);
                fields_in_order(line@, parts, a, b, c, end_a as int);
                next_in_order(line@, end_a as int, part1@, b, after_b, end_b as int);
                next_in_order(line@, end_b as int, part2@, c, part3@, end_c as int);
                assert(line@.subrange(end_c as int, line@.len() as int) == part3@);
            }
        }
        return None;
    }
    let a = text_between(line, start_a, end_a);
    let b = text_between(line, start_b, end_b);
    let c = text_between(line, start_c, end_c);
    proof {
        pieces_fill(line@, parts, end_a as int, end_b as int, end_c as int);
        three_fields_are_unique(line@, parts, a@, b@, c@);
    }
    Some((a, b, c))
}

/// What stands between `prefix` and `suffix`, where the line is framed by
/// them.
pub fn field_between(line: &Vec<char>, prefix: &Vec<char>, suffix: &Vec<char>) -> (field: Option<
    Vec<char>,
>)
    ensures
        match field {
            Some(chars) => is_framed(line@, prefix@, suffix@) && chars@ == framed_field(
                line@,
                prefix@,
                suffix@,
            ),
            None => !is_framed(line@, prefix@, suffix@),
        },
{
    if prefix.len() > line.len() || suffix.len() > line.len() - prefix.len() {
        return None;
    }
    let end = line.len() - suffix.len();
    if !matches_at(line, prefix, 0) || !matches_at(line, suffix, end) {
        return None;
    }
    let mut chars: Vec<char> = Vec::new();
    let mut i: usize = prefix.len();
    while i < end
        invariant
            prefix@.len() <= i <= end <= line@.len(),
            chars@ == line@.subrange(prefix@.len() as int, i as int),
        decreases end - i,
    {
        chars.push(line[i]);
        assert(line@.subrange(prefix@.len() as int, i + 1) == line@.subrange(
            prefix@.len() as int,
            i as int,
        ).push(line@[i as int]));
        i = i + 1;
    }
    Some(chars)
}

} // verus!
