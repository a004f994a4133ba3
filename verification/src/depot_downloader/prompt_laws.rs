//! What is read out of prompts, errors and progress escape sequences.

use vstd::prelude::*;

use super::lines::{
    digits_end, fills_three, framed_field, is_decimal_digit, is_framed, one_line, three_fields,
};
use super::parser::{
    depot_finished_parts, depot_line, feed_step, idle_step, overall_events, plain_event,
    plain_events, prompt_line, qr_art_line, qr_heading, summary_line, total_downloaded_parts, worded,
    DownloadEventView,
};
use super::scan::{
    digit_run, digit_run_from, escape_at_start, escape_fields, escape_intro, file_progress,
    white_run, without_escapes,
};
use crate::decimal::{decimal, decimal_is_digits, number, number_of_decimal, number_up_to};
use crate::text::{
    begins_with, contains_text, ends_with, is_digit, is_white_space, occurs_at, trimmed,
};

verus! {

/// A line that begins with another character than `prefix` does not begin with
/// `prefix`.
proof fn begins_otherwise(line: Seq<char>, prefix: Seq<char>)
    requires
        line.len() > 0,
        prefix.len() > 0,
        line[0] != prefix[0],
    ensures
        !occurs_at(line, prefix, 0),
{
    if occurs_at(line, prefix, 0) {
        assert(line.subrange(0, prefix.len() as int)[0] == line[0]);
    }
}

/// A line that begins with `S` or `E` is neither about a branch nor about a
/// depot nor a summary nor about a file: it is a prompt, an error or nothing.
proof fn only_prompts_begin_so(line: Seq<char>)
    requires
        line.len() > 0,
        line[0] == 'S' || line[0] == 'E',
    ensures
        plain_event(line) == prompt_line(line),
{
    reveal_strlit("Using app branch: '");
    reveal_strlit("Downloading depot ");
    reveal_strlit("Processing depot ");
    reveal_strlit("Depot ");
    reveal_strlit("Total downloaded: ");
    begins_otherwise(line, "Using app branch: '"@);
    begins_otherwise(line, "Downloading depot "@);
    begins_otherwise(line, "Processing depot "@);
    assert forall|a: Seq<char>, b: Seq<char>, c: Seq<char>| !fills_three(
        line,
        depot_finished_parts(),
        a,
        b,
        c,
    ) by {
        let parts = depot_finished_parts();
        let whole = parts.0 + (a + (parts.1 + (b + (parts.2 + (c + parts.3)))));
        assert(whole[0] == 'D');
    }
    assert forall|a: Seq<char>, b: Seq<char>, c: Seq<char>| !fills_three(
        line,
        total_downloaded_parts(),
        a,
        b,
        c,
    ) by {
        let parts = total_downloaded_parts();
        let whole = parts.0 + (a + (parts.1 + (b + (parts.2 + (c + parts.3)))));
        assert(whole[0] == 'T');
    }
    assert(three_fields(line, depot_finished_parts()) is None);
    assert(three_fields(line, total_downloaded_parts()) is None);
    assert(depot_line(line) is None);
    assert(summary_line(line) is None);
    assert(white_run(line) == 0);
    assert(line.skip(0) =~= line);
    assert(!is_decimal_digit(line[0]));
    assert(digit_run(line.skip(0)) == 0);
    assert(file_progress(line) is None);
}

/// The question for a code from an e-mail is read as that, with the address
/// that stands in it.
pub proof fn email_prompt_is_read(email: Seq<char>)
    requires
        one_line(email),
    ensures
        plain_event(
            "STEAM GUARD! Please enter the auth code sent to the email at "@ + email + ":"@,
        ) == Some(DownloadEventView::SteamGuardEmailCodeRequested { email }),
{
    let prefix = "STEAM GUARD! Please enter the auth code sent to the email at "@;
    let suffix = ":"@;
    let line = prefix + email + suffix;
    reveal_strlit("STEAM GUARD! Please enter the auth code sent to the email at ");
    assert(line.subrange(0, prefix.len() as int) =~= prefix);
    assert(line.subrange(line.len() - suffix.len(), line.len() as int) =~= suffix);
    assert(framed_field(line, prefix, suffix) =~= email);
    assert(line[0] == 'S');
    only_prompts_begin_so(line);
}

/// Any other line that begins with `STEAM GUARD!` asks for a code from the
/// authenticator where it speaks of one, and otherwise for a confirmation where
/// it speaks of that; never for the other, and never is it an error.
pub proof fn guard_prompts_are_read(rest: Seq<char>)
    requires
        worded(
            "STEAM GUARD!"@ + rest,
            "STEAM GUARD! Please enter the auth code sent to the email at "@,
            ":"@,
        ) is None,
    ensures
        ({
            let line = "STEAM GUARD!"@ + rest;
            let event = plain_event(line);
            &&& contains_text(line, "2-factor auth code"@) ==> event == Some(
                DownloadEventView::SteamGuardCodeRequested,
            )
            &&& !contains_text(line, "2-factor auth code"@) && contains_text(
                line,
                "confirm your sign in"@,
            ) ==> event == Some(DownloadEventView::SteamGuardConfirmationRequested)
            &&& !contains_text(line, "2-factor auth code"@) && !contains_text(
                line,
                "confirm your sign in"@,
            ) ==> !(event matches Some(DownloadEventView::SteamGuardCodeRequested)) && !(
            event matches Some(DownloadEventView::SteamGuardConfirmationRequested))
        }),
{
    let line = "STEAM GUARD!"@ + rest;
    reveal_strlit("STEAM GUARD!");
    assert(line[0] == 'S');
    assert(line.subrange(0, "STEAM GUARD!"@.len() as int) =~= "STEAM GUARD!"@);
    only_prompts_begin_so(line);
}

/// A line that begins with `Error` is an error, and its message is the whole
/// line.
pub proof fn errors_are_read(rest: Seq<char>)
    ensures
        plain_event("Error"@ + rest) == Some(
            DownloadEventView::ErrorLine { message: "Error"@ + rest },
        ),
{
    let line = "Error"@ + rest;
    reveal_strlit("Error");
    reveal_strlit("STEAM GUARD!");
    reveal_strlit("STEAM GUARD! Please enter the auth code sent to the email at ");
    assert(line[0] == 'E');
    assert(line.subrange(0, 5) =~= "Error"@);
    begins_otherwise(line, "STEAM GUARD!"@);
    begins_otherwise(line, "STEAM GUARD! Please enter the auth code sent to the email at "@);
    only_prompts_begin_so(line);
}

/// A line that speaks of something encountered and of aborting is an error with
/// the whole line as its message, unless it asks for a login; and an error is
/// always one or the other.
pub proof fn aborts_are_errors(line: Seq<char>)
    ensures
        contains_text(line, "Encountered"@) && contains_text(line, "Aborting"@) && !begins_with(
            line,
            "STEAM GUARD!"@,
        ) ==> prompt_line(line) == Some(DownloadEventView::ErrorLine { message: line }),
        prompt_line(line) matches Some(DownloadEventView::ErrorLine { message }) ==> {
            &&& message == line
            &&& begins_with(line, "Error"@) || contains_text(line, "Encountered"@)
                && contains_text(line, "Aborting"@)
        },
{
    reveal_strlit("STEAM GUARD!");
    reveal_strlit("STEAM GUARD! Please enter the auth code sent to the email at ");
    let prefix = "STEAM GUARD! Please enter the auth code sent to the email at "@;
    if worded(line, prefix, ":"@) is Some {
        assert(line.subrange(0, prefix.len() as int) =~= prefix);
        assert(line.subrange(0, 12) =~= "STEAM GUARD!"@) by {
            assert forall|i: int| 0 <= i < 12 implies line[i] == "STEAM GUARD!"@[i] by {
                assert(line.subrange(0, prefix.len() as int)[i] == prefix[i]);
            }
        }
        assert(begins_with(line, "STEAM GUARD!"@));
    }
}

/// A terminal progress escape sequence: its state and its percentage in
/// decimals.
pub open spec fn escape_of(state: nat, percent: nat) -> Seq<char> {
    seq!['\u{1b}', ']', '9', ';', '4', ';'] + decimal(state) + seq![';'] + decimal(percent)
        + seq!['\u{7}']
}

/// An escape sequence is recognised whole, with its percentage.
proof fn escape_is_recognised(state: nat, percent: nat, rest: Seq<char>)
    requires
        percent <= 999,
    ensures
        escape_at_start(escape_of(state, percent) + rest) == Some(
            (escape_of(state, percent).len(), decimal(percent)),
        ),
{
    let s = decimal(state);
    let p = decimal(percent);
    let text = escape_of(state, percent) + rest;
    decimal_is_digits(state);
    decimal_is_digits(percent);
    assert(p.len() <= 3) by {
        reveal_with_fuel(decimal, 4);
    }
    assert(text.subrange(0, 6) =~= escape_intro());
    let first = 6 + s.len() as int;
    assert forall|i: int| 6 <= i < first implies is_decimal_digit(#[trigger] text[i]) by {
        assert(text[i] == s[i - 6]);
        assert(is_digit(s[i - 6]));
    }
    assert(text[first] == ';');
    assert(digits_end(text, 6, first));
    digit_run_from(text, 6, first);
    let second = first + 1 + p.len() as int;
    assert forall|i: int| first + 1 <= i < second implies is_decimal_digit(#[trigger] text[i]) by {
        assert(text[i] == p[i - first - 1]);
        assert(is_digit(p[i - first - 1]));
    }
    assert(text[second] == '\u{7}');
    assert(digits_end(text, first + 1, second));
    digit_run_from(text, first + 1, second);
    assert(text.subrange(first + 1, second) =~= p);
}

/// An escape sequence gives its percentage and is gone from the text, wherever
/// it stands: what follows it is read as if it stood alone, and a character
/// that begins none stays.
pub proof fn escapes_are_taken_out(state: nat, percent: nat, c: char, rest: Seq<char>)
    requires
        percent <= 999,
        c != '\u{1b}',
    ensures
        escape_fields(escape_of(state, percent) + rest) == seq![decimal(percent)] + escape_fields(
            rest,
        ),
        without_escapes(escape_of(state, percent) + rest) == without_escapes(rest),
        escape_fields(seq![c] + rest) == escape_fields(rest),
        without_escapes(seq![c] + rest) == seq![c] + without_escapes(rest),
{
    let escape = escape_of(state, percent);
    let text = escape + rest;
    escape_is_recognised(state, percent, rest);
    assert(text.skip(escape.len() as int) =~= rest);
    let other = seq![c] + rest;
    assert(other[0] == c);
    assert(other.drop_first() =~= rest);
    assert(escape_at_start(other) is None) by {
        if occurs_at(other, escape_intro(), 0) {
            assert(other.subrange(0, 6)[0] == other[0]);
        }
    }
}

/// The percentages of escape sequences become overall progress in order: each
/// up to 100 as it is, one above that as 100, and one too large for a byte as
/// none.
pub proof fn percentages_become_progress(
    first: Seq<Seq<char>>,
    second: Seq<Seq<char>>,
    percent: nat,
)
    ensures
        overall_events(first + second) == overall_events(first) + overall_events(second),
        percent <= 100 ==> overall_events(seq![decimal(percent)]) == seq![
            DownloadEventView::OverallProgress { percent: percent as u8 },
        ],
        100 < percent <= 255 ==> overall_events(seq![decimal(percent)]) == seq![
            DownloadEventView::OverallProgress { percent: 100 },
        ],
        percent > 255 ==> overall_events(seq![decimal(percent)])
            == Seq::<DownloadEventView>::empty(),
    decreases second.len(),
{
    reveal_with_fuel(overall_events, 2);
    let one = seq![decimal(percent)];
    number_of_decimal(percent);
    assert(one.drop_last() =~= Seq::empty());
    assert(one.last() == decimal(percent));
    assert(overall_events(one.drop_last()) =~= Seq::empty());
    if percent <= 100 {
        assert(overall_events(one) =~= seq![
            DownloadEventView::OverallProgress { percent: percent as u8 },
        ]);
    } else if percent <= 255 {
        assert(overall_events(one) =~= seq![DownloadEventView::OverallProgress { percent: 100 }]);
    } else {
        assert(number_up_to(decimal(percent), 255) is None);
    }
    if second.len() == 0 {
        assert(first + second =~= first);
    } else {
        percentages_become_progress(first, second.drop_last(), percent);
        assert((first + second).drop_last() =~= first + second.drop_last());
        assert((first + second).last() == second.last());
    }
    assert(overall_events(first + second) =~= overall_events(first) + overall_events(second));
}

/// A line that holds a progress sequence and then some text gives the progress
/// first and then what the text says, as the text alone would.
pub proof fn progress_comes_before_the_text(state: nat, percent: nat, rest: Seq<char>)
    requires
        percent <= 100,
        !contains_text(escape_of(state, percent) + rest, qr_heading()),
        !contains_text(rest, qr_heading()),
    ensures
        idle_step(escape_of(state, percent) + rest).1 == seq![
            DownloadEventView::OverallProgress { percent: percent as u8 },
        ] + idle_step(rest).1,
        idle_step(escape_of(state, percent) + rest).0 is None,
{
    escapes_are_taken_out(state, percent, 'a', rest);
    percentages_become_progress(seq![decimal(percent)], escape_fields(rest), percent);
    let line = escape_of(state, percent) + rest;
    assert(idle_step(line).1 =~= seq![
        DownloadEventView::OverallProgress { percent: percent as u8 },
    ] + idle_step(rest).1);
}

/// A line of nothing but white space says nothing, and a line of other text is
/// read without the white space around it.
pub proof fn white_space_says_nothing(line: Seq<char>)
    ensures
        trimmed(line).len() == 0 ==> plain_events(trimmed(line)) == Seq::<
            DownloadEventView,
        >::empty(),
        trimmed(line).len() > 0 && plain_event(trimmed(line)) is Some ==> plain_events(
            trimmed(line),
        ) == seq![plain_event(trimmed(line)).unwrap()],
        trimmed(line).len() > 0 && plain_event(trimmed(line)) is None ==> plain_events(
            trimmed(line),
        ) == seq![DownloadEventView::OtherOutput],
        contains_text(line, qr_heading()) ==> idle_step(line).0 == Some(Seq::<Seq<char>>::empty())
            && idle_step(line).1 == Seq::<DownloadEventView>::empty(),
        feed_step(None, line) == idle_step(line),
{
}

/// A line framed by two texts is the first, the field and the second.
proof fn frame_is_the_line(line: Seq<char>, prefix: Seq<char>, suffix: Seq<char>)
    requires
        is_framed(line, prefix, suffix),
    ensures
        line == prefix + framed_field(line, prefix, suffix) + suffix,
{
    let whole = prefix + framed_field(line, prefix, suffix) + suffix;
    assert forall|i: int| 0 <= i < line.len() implies line[i] == whole[i] by {
        if i < prefix.len() {
            assert(line.subrange(0, prefix.len() as int)[i] == line[i]);
        } else if i >= line.len() - suffix.len() {
            let at = line.len() - suffix.len();
            assert(line.subrange(at, at + suffix.len())[i - at] == line[i]);
        }
    }
    assert(line =~= whole);
}

/// A run at the front of a text is part of it.
proof fn runs_are_within(text: Seq<char>)
    ensures
        white_run(text) <= text.len(),
        digit_run(text) <= text.len(),
    decreases text.len(),
{
    if text.len() > 0 {
        runs_are_within(text.drop_first());
    }
}

/// An event about a depot, a branch or a login stands for what the line says:
/// the line is the event's own words around the number or the text that the
/// event carries.
pub proof fn events_say_what_stands(line: Seq<char>)
    ensures
        match plain_event(line) {
            Some(DownloadEventView::ProcessingDepot { depot_id }) => exists|digits: Seq<char>|
                line == #[trigger] ("Processing depot "@ + digits) && number(digits) == Some(
                    depot_id as nat,
                ),
            Some(DownloadEventView::DownloadingDepot { depot_id }) => exists|digits: Seq<char>|
                line == #[trigger] ("Downloading depot "@ + digits) && number(digits) == Some(
                    depot_id as nat,
                ),
            Some(DownloadEventView::DownloadingDepotManifest { depot_id }) => exists|
                digits: Seq<char>,
            |
                line == #[trigger] ("Downloading depot "@ + digits + " manifest"@) && number(digits)
                    == Some(depot_id as nat),
            Some(DownloadEventView::UsingBranch { branch }) => line == "Using app branch: '"@
                + branch + "'."@,
            Some(DownloadEventView::SteamGuardEmailCodeRequested { email }) => line
                == "STEAM GUARD! Please enter the auth code sent to the email at "@ + email + ":"@,
            Some(DownloadEventView::SteamGuardCodeRequested) => begins_with(line, "STEAM GUARD!"@)
                && contains_text(line, "2-factor auth code"@),
            Some(DownloadEventView::SteamGuardConfirmationRequested) => begins_with(
                line,
                "STEAM GUARD!"@,
            ) && contains_text(line, "confirm your sign in"@),
            Some(DownloadEventView::ErrorLine { message }) => message == line,
            Some(DownloadEventView::DepotFinished {
                depot_id,
                compressed_bytes,
                uncompressed_bytes,
            }) => exists|a: Seq<char>, b: Seq<char>, c: Seq<char>|
                {
                    &&& line == #[trigger] ("Depot "@ + (a + (" - Downloaded "@ + (b + (
                    " bytes ("@ + (c + " bytes uncompressed)"@))))))
                    &&& number(a) == Some(depot_id as nat)
                    &&& number(b) == Some(compressed_bytes as nat)
                    &&& number(c) == Some(uncompressed_bytes as nat)
                },
            Some(DownloadEventView::TotalDownloaded {
                compressed_bytes,
                uncompressed_bytes,
                depot_count,
            }) => exists|a: Seq<char>, b: Seq<char>, c: Seq<char>|
                {
                    &&& line == #[trigger] ("Total downloaded: "@ + (a + (" bytes ("@ + (b + (
                    " bytes uncompressed) from "@ + (c + " depots"@))))))
                    &&& number(a) == Some(compressed_bytes as nat)
                    &&& number(b) == Some(uncompressed_bytes as nat)
                    &&& number(c) == Some(depot_count as nat)
                },
            Some(DownloadEventView::FileProgress { path, .. }) => ends_with(line, path),
            Some(DownloadEventView::OverallProgress { .. }) => false,
            Some(DownloadEventView::QrCodeReady { .. }) => false,
            Some(DownloadEventView::OtherOutput) => false,
            None => true,
        },
{
    let none = Seq::<char>::empty();
    match plain_event(line) {
        Some(DownloadEventView::ProcessingDepot { .. }) => {
            let digits = framed_field(line, "Processing depot "@, none);
            frame_is_the_line(line, "Processing depot "@, none);
            assert("Processing depot "@ + digits + none =~= "Processing depot "@ + digits);
        },
        Some(DownloadEventView::DownloadingDepot { .. }) => {
            let digits = framed_field(line, "Downloading depot "@, none);
            frame_is_the_line(line, "Downloading depot "@, none);
            assert("Downloading depot "@ + digits + none =~= "Downloading depot "@ + digits);
        },
        Some(DownloadEventView::DownloadingDepotManifest { .. }) => {
            frame_is_the_line(line, "Downloading depot "@, " manifest"@);
        },
        Some(DownloadEventView::UsingBranch { .. }) => {
            frame_is_the_line(line, "Using app branch: '"@, "'."@);
        },
        Some(DownloadEventView::SteamGuardEmailCodeRequested { .. }) => {
            frame_is_the_line(
                line,
                "STEAM GUARD! Please enter the auth code sent to the email at "@,
                ":"@,
            );
        },
        Some(DownloadEventView::DepotFinished { .. }) => {
            let (a, b, c) = three_fields(line, depot_finished_parts()).unwrap();
            assert(fills_three(line, depot_finished_parts(), a, b, c));
        },
        Some(DownloadEventView::TotalDownloaded { .. }) => {
            let (a, b, c) = three_fields(line, total_downloaded_parts()).unwrap();
            assert(fills_three(line, total_downloaded_parts(), a, b, c));
        },
        Some(DownloadEventView::FileProgress { path, .. }) => {
            let start = white_run(line) as int;
            let point = start + digit_run(line.skip(start));
            runs_are_within(line);
            runs_are_within(line.skip(start));
            runs_are_within(line.skip(point + 4));
            let at = line.len() - path.len();
            assert(line.subrange(at, at + path.len()) =~= path);
        },
        _ => {},
    }
}

/// The line that announces a QR code starts the collecting of its rows,
/// whatever stands around the announcement; no other does.
pub proof fn announced_codes_are_collected(line: Seq<char>)
    ensures
        contains_text(line, "Use the Steam Mobile App to sign in with this QR code:"@) <==> feed_step(
            None,
            line,
        ).0 is Some,
{
}

/// A row of a QR code is drawn with one character and white space: any row of
/// those is one, a blank line too, and a line with two different characters in
/// it is none and ends the code.
pub proof fn rows_are_drawn_with_one_character(line: Seq<char>, c: char, i: int, j: int)
    ensures
        (forall|k: int|
            0 <= k < line.len() ==> (#[trigger] line[k]) == c || is_white_space(line[k]))
            ==> qr_art_line(line),
        0 <= i < line.len() && 0 <= j < line.len() && line[i] != line[j] && !is_white_space(line[i])
            && !is_white_space(line[j]) ==> !qr_art_line(line),
{
}

} // verus!
