//! The parts of an output line that are told apart by scanning: file progress
//! and terminal progress escape sequences.

use vstd::prelude::*;

use super::lines::{decimal_digit, digits_end, is_decimal_digit, one_line, skip_digits};
use crate::text::{is_white_space, matches_at, occurs_at, text_between, white_space};

verus! {

/// How many decimal digits of any script `text` begins with.
pub open spec fn digit_run(text: Seq<char>) -> nat
    decreases text.len(),
{
    if text.len() > 0 && is_decimal_digit(text[0]) {
        1 + digit_run(text.drop_first())
    } else {
        0
    }
}

/// How many characters of white space `text` begins with.
pub open spec fn white_run(text: Seq<char>) -> nat
    decreases text.len(),
{
    if text.len() > 0 && is_white_space(text[0]) {
        1 + white_run(text.drop_first())
    } else {
        0
    }
}

/// The number and the path of a line `  12.34% path`: white space or none,
/// digits, a point, two digits, a percent sign, white space, and a path that
/// goes on to the end of the line. The path is all that follows the white
/// space, or the last character of it where nothing follows.
pub open spec fn file_progress(line: Seq<char>) -> Option<(Seq<char>, Seq<char>)> {
    let start = white_run(line) as int;
    let point = start + digit_run(line.skip(start));
    let gap = white_run(line.skip(point + 4)) as int;
    let rest = line.skip(point + 4 + gap);
    let path = if rest.len() > 0 {
        rest
    } else {
        line.skip(line.len() - 1)
    };
    if {
        &&& point > start
        &&& point + 4 < line.len()
        &&& line[point] == '.'
        &&& is_decimal_digit(line[point + 1])
        &&& is_decimal_digit(line[point + 2])
        &&& line[point + 3] == '%'
        &&& gap > 0
        &&& rest.len() > 0 || gap > 1
        &&& one_line(path)
    } {
        Some((line.subrange(start, point + 3), path))
    } else {
        None
    }
}

/// What a terminal progress escape sequence begins with.
pub open spec fn escape_intro() -> Seq<char> {
    seq!['\u{1b}', ']', '9', ';', '4', ';']
}

/// The length and the percentage field of the terminal progress escape
/// sequence that `text` begins with: `ESC ]9;4;state;percent BEL`, with a row
/// of digits for the state and one to three digits for the percentage.
pub open spec fn escape_at_start(text: Seq<char>) -> Option<(nat, Seq<char>)> {
    let state = digit_run(text.skip(6)) as int;
    let percent = digit_run(text.skip(7 + state)) as int;
    if {
        &&& occurs_at(text, escape_intro(), 0)
        &&& state > 0
        &&& 6 + state < text.len()
        &&& text[6 + state] == ';'
        &&& 1 <= percent <= 3
        &&& 7 + state + percent < text.len()
        &&& text[7 + state + percent] == '\u{7}'
    } {
        Some(((8 + state + percent) as nat, text.subrange(7 + state, 7 + state + percent)))
    } else {
        None
    }
}

/// The percentage fields of the escape sequences in `text`, from left to
/// right.
pub open spec fn escape_fields(text: Seq<char>) -> Seq<Seq<char>>
    decreases text.len(),
{
    if text.len() == 0 {
        Seq::empty()
    } else {
        match escape_at_start(text) {
            Some((length, percent)) => seq![percent] + escape_fields(text.skip(length as int)),
            None => escape_fields(text.drop_first()),
        }
    }
}

/// `text` without the escape sequences in it.
pub open spec fn without_escapes(text: Seq<char>) -> Seq<char>
    decreases text.len(),
{
    if text.len() == 0 {
        Seq::empty()
    } else {
        match escape_at_start(text) {
            Some((length, _)) => without_escapes(text.skip(length as int)),
            None => seq![text[0]] + without_escapes(text.drop_first()),
        }
    }
}

/// The end of a row of digits lies as far on as the row is long.
pub proof fn digit_run_from(line: Seq<char>, from: int, end: int)
    requires
        digits_end(line, from, end),
    ensures
        digit_run(line.skip(from)) == end - from,
    decreases end - from,
{
    let tail = line.skip(from);
    if from < end {
        assert(tail[0] == line[from]);
        assert(tail.drop_first() == line.skip(from + 1));
        digit_run_from(line, from + 1, end);
    } else if end < line.len() {
        assert(tail[0] == line[end]);
    }
}

/// Where the row of digits that begins at `from` ends.
pub fn digits_after(line: &Vec<char>, from: usize) -> (end: usize)
    requires
        from <= line@.len(),
    ensures
        from <= end <= line@.len(),
        digit_run(line@.skip(from as int)) == end - from,
{
    let end = skip_digits(line, from);
    proof {
        digit_run_from(line@, from as int, end as int);
    }
    end
}

/// Where the white space that begins at `from` ends.
pub fn skip_white(line: &Vec<char>, from: usize) -> (end: usize)
    requires
        from <= line@.len(),
    ensures
        from <= end <= line@.len(),
        white_run(line@.skip(from as int)) == end - from,
{
    let mut end: usize = from;
    while end < line.len() && white_space(line[end])
        invariant
            from <= end <= line@.len(),
            white_run(line@.skip(from as int)) == end - from + white_run(line@.skip(end as int)),
        decreases line@.len() - end,
    {
        assert(line@.skip(end as int).drop_first() == line@.skip(end + 1));
        assert(line@.skip(end as int)[0] == line@[end as int]);
        end = end + 1;
    }
    assert(end < line@.len() ==> line@.skip(end as int)[0] == line@[end as int]);
    end
}

/// The number and the path of a file progress line.
pub fn file_progress_fields(line: &Vec<char>) -> (fields: Option<(Vec<char>, String)>)
    ensures
        match fields {
            Some((number, path)) => file_progress(line@) == Some((number@, path@)),
            None => file_progress(line@) is None,
        },
{
    let start = skip_white(line, 0);
    assert(line@.skip(0) == line@);
    let point = digits_after(line, start);
    let length = line.len();
    if point == start || length - point <= 4 {
        return None;
    }
    if line[point] != '.' || !decimal_digit(line[point + 1]) || !decimal_digit(line[point + 2])
        || line[point + 3] != '%' {
        return None;
    }
    let rest = skip_white(line, point + 4);
    if rest == point + 4 {
        return None;
    }
    let mut from: usize = rest;
    if rest == length {
        if rest == point + 5 {
            return None;
        }
        from = length - 1;
    }
    let ghost path = line@.skip(from as int);
    let mut broken = false;
    let mut i: usize = from;
    while i < length
        invariant
            from <= i <= length == line@.len(),
            path == line@.skip(from as int),
            broken ==> !one_line(path),
            !broken ==> forall|j: int| 0 <= j < i - from ==> #[trigger] path[j] != '\n',
        decreases length - i,
    {
        assert(path[i - from] == line@[i as int]);
        if line[i] == '\n' {
            broken = true;
        }
        i = i + 1;
    }
    if broken {
        return None;
    }
    let mut number: Vec<char> = Vec::new();
    let mut k: usize = start;
    while k < point + 3
        invariant
            start <= k <= point + 3 <= line@.len(),
            point + 3 <= usize::MAX,
            number@ == line@.subrange(start as int, k as int),
        decreases point + 3 - k,
    {
        number.push(line[k]);
        assert(line@.subrange(start as int, k + 1) == line@.subrange(start as int, k as int).push(
            line@[k as int],
        ));
        k = k + 1;
    }
    assert(line@.subrange(from as int, length as int) == path);
    Some((number, text_between(line, from, length)))
}

/// The length and the percentage field of the escape sequence that begins at
/// `at`.
pub fn escape_from(text: &Vec<char>, at: usize) -> (escape: Option<(usize, String)>)
    requires
        at <= text@.len(),
    ensures
        match escape {
            Some((length, percent)) => escape_at_start(text@.skip(at as int)) == Some(
                (length as nat, percent@),
            ) && 0 < length && at + length <= text@.len(),
            None => escape_at_start(text@.skip(at as int)) is None,
        },
{
    let ghost tail = text@.skip(at as int);
    let intro: Vec<char> = vec!['\u{1b}', ']', '9', ';', '4', ';'];
    assert(intro@ == escape_intro());
    let here = matches_at(text, &intro, at);
    assert(here == occurs_at(tail, escape_intro(), 0)) by {
        if at + 6 <= text@.len() {
            assert(text@.subrange(at as int, at + 6) =~= tail.subrange(0, 6));
        }
    }
    if !here {
        return None;
    }
    assert(at + 6 <= text.len());
    let state_end = digits_after(text, at + 6);
    assert(tail.skip(6) == text@.skip(at + 6));
    let ghost state = state_end - (at + 6);
    if state_end == at + 6 || state_end == text.len() || text[state_end] != ';' {
        assert(state_end < text@.len() ==> tail[6 + state] == text@[state_end as int]);
        return None;
    }
    assert(tail[6 + state] == text@[state_end as int]);
    let percent_end = digits_after(text, state_end + 1);
    assert(tail.skip(7 + state) == text@.skip(state_end + 1));
    let ghost percent = percent_end - (state_end + 1);
    let width = percent_end - (state_end + 1);
    if width < 1 || width > 3 || percent_end == text.len() || text[percent_end] != '\u{7}' {
        assert(percent_end < text@.len() ==> tail[7 + state + percent]
            == text@[percent_end as int]);
        return None;
    }
    assert(tail[7 + state + percent] == text@[percent_end as int]);
    let field = text_between(text, state_end + 1, percent_end);
    assert(field@ =~= tail.subrange(7 + state, 7 + state + percent));
    Some((percent_end + 1 - at, field))
}

} // verus!
