//! Steam app ids as people type and paste them.

use vstd::prelude::*;

use crate::text::{
    all_digits, chars_of, contains_text, digit, digits_from, find_from, is_digit, leading_digits,
    occurs_at,
};

verus! {

/// The digits of a text, in order.
pub open spec fn digits_only(text: Seq<char>) -> Seq<char>
    decreases text.len(),
{
    if text.len() == 0 {
        Seq::empty()
    } else if is_digit(text.last()) {
        digits_only(text.drop_last()).push(text.last())
    } else {
        digits_only(text.drop_last())
    }
}

/// `at` is where `pattern` stands in `text` for the first time.
pub open spec fn is_first_occurrence(text: Seq<char>, pattern: Seq<char>, at: int) -> bool {
    &&& occurs_at(text, pattern, at)
    &&& forall|j: int| 0 <= j < at ==> !occurs_at(text, pattern, j)
}

/// Where `pattern` stands in `text` for the first time, if it does.
pub open spec fn first_occurrence(text: Seq<char>, pattern: Seq<char>) -> int {
    choose|at: int| is_first_occurrence(text, pattern, at)
}

/// The app id in a text: the digits right after the first `/app/` of a store
/// address, or else all of the text's digits.
pub open spec fn app_id_in(text: Seq<char>) -> Seq<char> {
    if contains_text(text, "/app/"@) {
        leading_digits(text.skip(first_occurrence(text, "/app/"@) + "/app/"@.len()))
    } else {
        digits_only(text)
    }
}

/// Extracts a Steam app id from either plain text or a store URL such as
/// `https://store.steampowered.com/app/393380/Squad/`.
pub fn parse_app_id(text: &str) -> (app_id: String)
    ensures
        app_id@ == app_id_in(text@),
{
    let chars = chars_of(text);
    let segment = chars_of("/app/");
    match find_from(&chars, &segment, 0) {
        Some(at) => {
            proof {
                assert(is_first_occurrence(text@, "/app/"@, at as int));
                let first = first_occurrence(text@, "/app/"@);
                assert(is_first_occurrence(text@, "/app/"@, first));
                assert(first == at);
                assert(chars.len() >= at + segment.len());
            }
            digits_from(&chars, at + segment.len())
        },
        None => {
            let mut digits = String::new();
            let mut i: usize = 0;
            while i < chars.len()
                invariant
                    i <= chars@.len(),
                    digits@ == digits_only(chars@.take(i as int)),
                decreases chars@.len() - i,
            {
                assert(chars@.take(i + 1).drop_last() =~= chars@.take(i as int));
                if digit(chars[i]) {
                    digits.push(chars[i]);
                }
                i = i + 1;
            }
            assert(chars@.take(i as int) =~= text@);
            digits
        },
    }
}

/// Digits picked out of a text are digits, and of digits all are picked.
proof fn digits_only_are_digits(text: Seq<char>)
    ensures
        all_digits(digits_only(text)),
        all_digits(text) ==> digits_only(text) == text,
    decreases text.len(),
{
    if text.len() > 0 {
        digits_only_are_digits(text.drop_last());
        if all_digits(text) {
            assert(is_digit(text.last()));
            assert forall|i: int| 0 <= i < text.drop_last().len() implies is_digit(
                #[trigger] text.drop_last()[i],
            ) by {
                assert(text.drop_last()[i] == text[i]);
            }
            assert(digits_only(text) =~= text);
        }
    }
}

/// Leading digits are digits.
proof fn leading_digits_are_digits(text: Seq<char>)
    ensures
        all_digits(leading_digits(text)),
    decreases text.len(),
{
    if text.len() > 0 && is_digit(text[0]) {
        leading_digits_are_digits(text.drop_first());
    }
}

/// An app id holds nothing but digits, whatever the text it was read from.
pub proof fn app_id_is_digits(text: Seq<char>)
    ensures
        all_digits(app_id_in(text)),
{
    if contains_text(text, "/app/"@) {
        leading_digits_are_digits(
            text.skip(first_occurrence(text, "/app/"@) + "/app/"@.len()),
        );
    } else {
        digits_only_are_digits(text);
    }
}

/// Plain digits are kept as they are, so reading an app id again changes
/// nothing.
pub proof fn plain_digits_are_kept(text: Seq<char>)
    requires
        all_digits(text),
    ensures
        app_id_in(text) == text,
{
    reveal_strlit("/app/");
    if contains_text(text, "/app/"@) {
        let at = choose|at: int| occurs_at(text, "/app/"@, at);
        assert(text.subrange(at, at + 5)[0] == '/');
        assert(is_digit(text[at]));
    }
    digits_only_are_digits(text);
}

} // verus!
