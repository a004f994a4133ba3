//! QR codes as rows of dark and light modules.

use vstd::prelude::*;

use crate::text::{chars_of, is_white_space, joined, white_space};

verus! {

/// The QR code of a text as `QrCode::new` makes it: its width and its modules
/// row by row, dark ones as `true`. Nothing where it makes none.
pub uninterp spec fn qr_modules(text: Seq<char>) -> Option<(nat, Seq<bool>)>;

/// The modules of a QR code, row by row.
#[derive(Debug)]
pub struct QrModules {
    pub width: usize,
    pub modules: Vec<bool>,
}

/// `QrCode::new` makes the QR code of a text, or fails; its `width` is that of
/// the square that its `to_colors` fill, row by row.
#[verifier::external_body]
fn encode(text: &str) -> (code: Option<QrModules>)
    ensures
        match code {
            Some(code) => {
                &&& qr_modules(text@) == Some((code.width as nat, code.modules@))
                &&& code.width > 0
                &&& code.modules@.len() == code.width * code.width
            },
            None => qr_modules(text@) is None,
        },
{
    qrcode::QrCode::new(text).ok().map(
        |code|
            QrModules {
                width: code.width(),
                modules: code.to_colors().into_iter().map(
                    |color| matches!(color, qrcode::Color::Dark),
                ).collect(),
            },
    )
}

/// The modules cut into rows of the given width.
pub open spec fn rows_of(modules: Seq<bool>, width: nat) -> Seq<Seq<bool>>
    decreases modules.len(),
{
    if width == 0 || modules.len() == 0 {
        Seq::empty()
    } else if modules.len() <= width {
        seq![modules]
    } else {
        seq![modules.take(width as int)] + rows_of(modules.skip(width as int), width)
    }
}

/// The rows as sequences.
pub open spec fn row_views(rows: Seq<Vec<bool>>) -> Seq<Seq<bool>> {
    rows.map_values(|row: Vec<bool>| row@)
}

/// Cuts modules into rows of the given width.
pub fn module_rows(modules: &Vec<bool>, width: usize) -> (rows: Vec<Vec<bool>>)
    requires
        width > 0,
    ensures
        row_views(rows@) == rows_of(modules@, width as nat),
{
    let mut rows: Vec<Vec<bool>> = Vec::new();
    let mut start: usize = 0;
    assert(modules@.skip(0) =~= modules@);
    assert(row_views(rows@) =~= Seq::empty());
    assert(row_views(rows@) + rows_of(modules@, width as nat) =~= rows_of(modules@, width as nat));
    while start < modules.len()
        invariant
            start <= modules@.len(),
            width > 0,
            row_views(rows@) + rows_of(modules@.skip(start as int), width as nat) == rows_of(
                modules@,
                width as nat,
            ),
        decreases modules@.len() - start,
    {
        let ghost rest = modules@.skip(start as int);
        let left = modules.len() - start;
        let length = if left <= width {
            left
        } else {
            width
        };
        let mut row: Vec<bool> = Vec::new();
        let mut i: usize = 0;
        while i < length
            invariant
                i <= length,
                start + length <= modules.len(),
                row@ == modules@.subrange(start as int, start + i),
            decreases length - i,
        {
            row.push(modules[start + i]);
            i = i + 1;
            assert(row@ =~= modules@.subrange(start as int, start + i));
        }
        assert(row@ =~= rest.take(length as int));
        let ghost before = rows@;
        rows.push(row);
        start = start + length;
        assert(row_views(rows@) =~= row_views(before).push(row@));
        proof {
            let remaining = modules@.skip(start as int);
            assert(rest.skip(length as int) =~= remaining);
            if left <= width {
                assert(rest.take(length as int) =~= rest);
                assert(remaining =~= Seq::empty());
                assert(row_views(rows@) + rows_of(remaining, width as nat) =~= row_views(before)
                    + rows_of(rest, width as nat));
            } else {
                assert(row_views(rows@) + rows_of(remaining, width as nat) =~= row_views(before)
                    + rows_of(rest, width as nat));
            }
        }
    }
    assert(modules@.skip(start as int) =~= Seq::empty());
    assert(row_views(rows@) + Seq::<Seq<bool>>::empty() =~= row_views(rows@));
    rows
}

/// The rows of the QR code of a text, dark modules as `true`; nothing where it
/// has none, such as where it is too long.
pub fn qr_rows(text: &str) -> (rows: Option<Vec<Vec<bool>>>)
    ensures
        match rows {
            Some(rows) => {
                &&& qr_modules(text@) is Some
                &&& ({
                    let (width, modules) = qr_modules(text@).unwrap();
                    &&& row_views(rows@) == rows_of(modules, width)
                    &&& rows@.len() == width
                    &&& forall|i: int| 0 <= i < rows@.len() ==> (#[trigger] rows@[i])@.len() == width
                })
            },
            None => qr_modules(text@) is None,
        },
{
    match encode(text) {
        Some(code) => {
            let rows = module_rows(&code.modules, code.width);
            proof {
                let width = code.width as nat;
                square_has_equal_rows(code.modules@, width, width);
                assert forall|i: int| 0 <= i < rows@.len() implies (#[trigger] rows@[i])@.len()
                    == width by {
                    assert(row_views(rows@)[i].len() == width);
                }
            }
            Some(rows)
        },
        None => None,
    }
}

/// As many modules as so many full rows hold are so many full rows.
pub proof fn square_has_equal_rows(modules: Seq<bool>, width: nat, count: nat)
    requires
        width > 0,
        modules.len() == width * count,
    ensures
        rows_of(modules, width).len() == count,
        forall|i: int|
            0 <= i < count ==> (#[trigger] rows_of(modules, width)[i]) == modules.subrange(
                i * width,
                (i + 1) * width,
            ),
        forall|i: int| 0 <= i < count ==> (#[trigger] rows_of(modules, width)[i]).len() == width,
    decreases count,
{
    let rows = rows_of(modules, width);
    if count == 0 {
        assert(modules.len() == 0) by (nonlinear_arith)
            requires
                modules.len() == width * count,
                count == 0,
        ;
    } else if count == 1 {
        assert(modules.len() == width) by (nonlinear_arith)
            requires
                modules.len() == width * count,
                count == 1,
        ;
        assert(modules.subrange(0, width as int) =~= modules);
        assert forall|i: int| 0 <= i < count implies (#[trigger] rows[i]) == modules.subrange(
            i * width,
            (i + 1) * width,
        ) by {
            assert(i * width == 0 && (i + 1) * width == width) by (nonlinear_arith)
                requires
                    i == 0,
            ;
        }
    } else {
        let rest = modules.skip(width as int);
        assert(width * count > width && width * count - width == width * (count - 1)) by (
        nonlinear_arith)
            requires
                width > 0,
                count > 1,
        ;
        square_has_equal_rows(rest, width, (count - 1) as nat);
        let later = rows_of(rest, width);
        assert forall|i: int| 0 <= i < count implies (#[trigger] rows[i]) == modules.subrange(
            i * width,
            (i + 1) * width,
        ) && rows[i].len() == width by {
            if i == 0 {
                assert(i * width == 0 && (i + 1) * width == width) by (nonlinear_arith)
                    requires
                        i == 0,
                ;
                assert(rows[0] =~= modules.subrange(0, width as int));
            } else {
                assert(rows[i] == later[i - 1]);
                assert(i * width - width == (i - 1) * width && (i + 1) * width - width == i * width
                    && 0 <= (i - 1) * width <= i * width && (i + 1) * width <= count * width)
                    by (nonlinear_arith)
                    requires
                        1 <= i < count,
                        width > 0,
                ;
                assert(count * width == width * count) by (nonlinear_arith);
                assert(rows[i] =~= modules.subrange(i * width, (i + 1) * width));
            }
        }
    }
}

/// The lines of a text: what stands between line feeds, without a carriage
/// return right before one. A line feed at the very end begins no line.
pub open spec fn lines_of(text: Seq<char>) -> Seq<Seq<char>>
    decreases text.len(),
{
    if text.len() == 0 {
        Seq::empty()
    } else {
        let end = line_length(text);
        if end < text.len() {
            seq![without_return(text.take(end as int))] + lines_of(text.skip(end as int + 1))
        } else {
            seq![text]
        }
    }
}

/// How far it is to the first line feed, or to the end.
pub open spec fn line_length(text: Seq<char>) -> nat
    decreases text.len(),
{
    if text.len() == 0 || text[0] == '\n' {
        0
    } else {
        1 + line_length(text.skip(1))
    }
}

/// The line without a carriage return at its end.
pub open spec fn without_return(line: Seq<char>) -> Seq<char> {
    if line.len() > 0 && line.last() == '\r' {
        line.drop_last()
    } else {
        line
    }
}

/// The modules of one line of terminal art, in which each module is drawn as
/// two identical characters: those whose first character is no white space are
/// dark. Light modules are plain spaces, whatever became of the block
/// character that draws the dark ones.
pub open spec fn art_row(line: Seq<char>) -> Seq<bool> {
    Seq::new((line.len() + 1) / 2, |i: int| !is_white_space(line[2 * i]))
}

/// The rows of modules of a QR code drawn as terminal art.
pub open spec fn art_rows(art: Seq<char>) -> Seq<Seq<bool>> {
    lines_of(art).map_values(|line: Seq<char>| art_row(line))
}

/// The modules of the line of art from `from` to `to`.
fn art_row_of(art: &Vec<char>, from: usize, to: usize) -> (row: Vec<bool>)
    requires
        from <= to <= art@.len(),
    ensures
        row@ == art_row(art@.subrange(from as int, to as int)),
{
    let ghost line = art@.subrange(from as int, to as int);
    let length = to - from;
    let count = length / 2 + length % 2;
    let mut row: Vec<bool> = Vec::new();
    let mut i: usize = 0;
    while i < count
        invariant
            i <= count,
            count == (length + 1) / 2,
            length == to - from,
            to <= art.len(),
            line == art@.subrange(from as int, to as int),
            row@ == art_row(line).take(i as int),
        decreases count - i,
    {
        let at = from + 2 * i;
        assert(line[2 * i as int] == art@[at as int]);
        row.push(!white_space(art[at]));
        i = i + 1;
        assert(row@ =~= art_row(line).take(i as int));
    }
    assert(art_row(line).take(i as int) =~= art_row(line));
    row
}

/// The rows of modules of a QR code drawn as terminal art.
pub fn qr_art_rows(art: &str) -> (rows: Vec<Vec<bool>>)
    ensures
        row_views(rows@) == art_rows(art@),
{
    let chars = chars_of(art);
    let mut rows: Vec<Vec<bool>> = Vec::new();
    let mut start: usize = 0;
    assert(chars@.skip(0) =~= chars@);
    assert(row_views(rows@) + art_rows(chars@) =~= art_rows(art@));
    while start < chars.len()
        invariant
            start <= chars@.len(),
            row_views(rows@) + art_rows(chars@.skip(start as int)) == art_rows(art@),
        decreases chars@.len() - start,
    {
        let ghost rest = chars@.skip(start as int);
        let mut end: usize = start;
        assert(chars@.skip(end as int) =~= rest);
        while end < chars.len() && chars[end] != '\n'
            invariant
                start <= end <= chars@.len(),
                rest == chars@.skip(start as int),
                line_length(rest) == end - start + line_length(chars@.skip(end as int)),
            decreases chars@.len() - end,
        {
            assert(chars@.skip(end as int)[0] == chars@[end as int]);
            assert(chars@.skip(end as int).skip(1) =~= chars@.skip(end + 1));
            end = end + 1;
        }
        assert(end < chars@.len() ==> chars@.skip(end as int)[0] == chars@[end as int]);
        let ghost before = rows@;
        let ghost length = (end - start) as int;
        if end == chars.len() {
            let row = art_row_of(&chars, start, end);
            assert(chars@.subrange(start as int, end as int) =~= rest);
            rows.push(row);
            start = end;
            proof {
                assert(row_views(rows@) =~= row_views(before).push(row@));
                assert(chars@.skip(start as int) =~= Seq::empty());
                assert(art_rows(rest) =~= seq![art_row(rest)]);
                assert(row_views(rows@) + art_rows(chars@.skip(start as int)) =~= row_views(before)
                    + art_rows(rest));
            }
        } else {
            let mut cut: usize = end;
            if end > start && chars[end - 1] == '\r' {
                cut = end - 1;
            }
            let row = art_row_of(&chars, start, cut);
            rows.push(row);
            proof {
                let line = rest.take(length);
                assert(without_return(line) =~= chars@.subrange(start as int, cut as int));
                assert(rest.skip(length + 1) =~= chars@.skip(end + 1));
                assert(row_views(rows@) =~= row_views(before).push(row@));
                assert(art_rows(rest) =~= seq![art_row(without_return(line))] + art_rows(
                    chars@.skip(end + 1),
                ));
                assert(row_views(rows@) + art_rows(chars@.skip(end + 1)) =~= row_views(before)
                    + art_rows(rest));
            }
            start = end + 1;
        }
    }
    assert(chars@.skip(start as int) =~= Seq::empty());
    assert(art_rows(Seq::empty()) =~= Seq::empty());
    assert(row_views(rows@) + Seq::<Seq<bool>>::empty() =~= row_views(rows@));
    rows
}

/// How wide the drawing is: as wide as its first row.
pub fn art_columns(rows: &Vec<Vec<bool>>) -> (columns: usize)
    ensures
        columns == if rows@.len() > 0 {
            rows@[0]@.len()
        } else {
            0
        },
{
    if rows.len() > 0 {
        rows[0].len()
    } else {
        0
    }
}

/// No line feed stands in the line, and no carriage return at its end.
pub open spec fn is_plain_line(line: Seq<char>) -> bool {
    &&& forall|i: int| 0 <= i < line.len() ==> #[trigger] line[i] != '\n'
    &&& line.len() > 0
    &&& line.last() != '\r'
}

/// The lines of art that were joined come apart again as they were.
pub proof fn joined_lines_come_apart(lines: Seq<Seq<char>>)
    requires
        forall|i: int| 0 <= i < lines.len() ==> is_plain_line(#[trigger] lines[i]),
    ensures
        lines_of(joined(lines, "\n"@)) == lines,
    decreases lines.len(),
{
    reveal_strlit("\n");
    if lines.len() == 0 {
        assert(lines_of(joined(lines, "\n"@)) =~= lines);
    } else if lines.len() == 1 {
        let line = lines[0];
        assert(is_plain_line(line));
        line_length_is(line, line.len());
        assert(lines_of(line) =~= lines);
    } else {
        let first = lines[0];
        let rest = lines.drop_first();
        assert(is_plain_line(first));
        assert(forall|i: int| 0 <= i < rest.len() ==> rest[i] == lines[i + 1]);
        joined_from_the_front(lines, "\n"@);
        joined_lines_come_apart(rest);
        let text = joined(lines, "\n"@);
        line_length_is(text, first.len());
        assert(text.take(first.len() as int) =~= first);
        assert(text.skip(first.len() as int + 1) =~= joined(rest, "\n"@));
        assert(lines_of(text) =~= seq![first] + lines_of(joined(rest, "\n"@)));
        assert(lines_of(text) =~= lines);
    }
}

/// The first line is as long as it is to the first line feed.
proof fn line_length_is(text: Seq<char>, end: nat)
    requires
        end <= text.len(),
        end < text.len() ==> text[end as int] == '\n',
        forall|i: int| 0 <= i < end ==> text[i] != '\n',
    ensures
        line_length(text) == end,
    decreases end,
{
    if end > 0 {
        let rest = text.skip(1);
        assert(forall|i: int| 0 <= i < rest.len() ==> rest[i] == text[i + 1]);
        line_length_is(rest, (end - 1) as nat);
    }
}

/// Joined parts begin with the first one.
proof fn joined_from_the_front(parts: Seq<Seq<char>>, separator: Seq<char>)
    requires
        parts.len() >= 2,
    ensures
        joined(parts, separator) == parts[0] + separator + joined(parts.drop_first(), separator),
    decreases parts.len(),
{
    let rest = parts.drop_first();
    if parts.len() == 2 {
        assert(parts.drop_last().len() == 1);
        assert(joined(parts.drop_last(), separator) == parts[0]);
        assert(joined(rest, separator) == parts.last());
    } else {
        joined_from_the_front(parts.drop_last(), separator);
        assert(parts.drop_last().drop_first() =~= rest.drop_last());
        assert(joined(parts, separator) =~= parts[0] + separator + joined(rest, separator));
    }
}

} // verus!
