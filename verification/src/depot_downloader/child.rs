//! Lines of DepotDownloader's output, from the bytes it writes.

use vstd::prelude::*;
use vstd::utf8::{decode_utf8, valid_utf8};

use crate::text::{chars_of, text_between};

verus! {

/// The text that `String::from_utf8_lossy` reads from bytes.
pub uninterp spec fn lossy_text(bytes: Seq<u8>) -> Seq<char>;

/// `String::from_utf8_lossy` never fails: it reads bytes that are valid UTF-8
/// as what they encode, and puts U+FFFD in place of what is not valid. Which
/// bytes one such character stands for is left to `lossy_text`.
#[verifier::external_body]
fn utf8_lossy(bytes: &Vec<u8>) -> (text: String)
    ensures
        text@ == lossy_text(bytes@),
        valid_utf8(bytes@) ==> text@ == decode_utf8(bytes@),
{
    String::from_utf8_lossy(bytes).into_owned()
}

/// A character that ends a line.
pub open spec fn is_line_end(c: char) -> bool {
    c == '\r' || c == '\n'
}

/// The text without the characters at its end that end a line.
pub open spec fn without_line_end(text: Seq<char>) -> Seq<char>
    decreases text.len(),
{
    if text.len() > 0 && is_line_end(text.last()) {
        without_line_end(text.drop_last())
    } else {
        text
    }
}

/// The text without the characters at its end that end a line.
pub fn trim_line_end(text: &str) -> (line: String)
    ensures
        line@ == without_line_end(text@),
{
    let chars = chars_of(text);
    let mut end: usize = chars.len();
    assert(chars@.take(end as int) =~= text@);
    while end > 0 && (chars[end - 1] == '\r' || chars[end - 1] == '\n')
        invariant
            end <= chars@.len(),
            without_line_end(chars@.take(end as int)) == without_line_end(text@),
        decreases end,
    {
        end = end - 1;
        assert(chars@.take(end + 1).drop_last() =~= chars@.take(end as int));
    }
    assert(chars@.subrange(0, end as int) =~= chars@.take(end as int));
    text_between(&chars, 0, end)
}

/// The line that raw output bytes hold, up to and with the end of the line.
/// Bytes that are no valid text never fail: one malformed line cannot take
/// down what reads the lines after it.
pub fn output_line(raw_line: &Vec<u8>) -> (line: String)
    ensures
        line@ == without_line_end(lossy_text(raw_line@)),
        valid_utf8(raw_line@) ==> line@ == without_line_end(decode_utf8(raw_line@)),
{
    let text = utf8_lossy(raw_line);
    trim_line_end(text.as_str())
}

/// A line without its end is the beginning of the text, ends in no character
/// that ends a line, and what was taken off holds only such characters.
pub proof fn line_end_is_all_that_goes(text: Seq<char>)
    ensures
        ({
            let line = without_line_end(text);
            &&& line.len() <= text.len()
            &&& line == text.take(line.len() as int)
            &&& line.len() > 0 ==> !is_line_end(line.last())
            &&& forall|i: int| line.len() <= i < text.len() ==> is_line_end(#[trigger] text[i])
        }),
    decreases text.len(),
{
    if text.len() > 0 && is_line_end(text.last()) {
        let rest = text.drop_last();
        line_end_is_all_that_goes(rest);
        let line = without_line_end(text);
        assert(line =~= text.take(line.len() as int));
        assert forall|i: int| line.len() <= i < text.len() implies is_line_end(
            #[trigger] text[i],
        ) by {
            if i < rest.len() {
                assert(rest[i] == text[i]);
            }
        }
    } else {
        assert(text =~= text.take(text.len() as int));
    }
}

} // verus!
