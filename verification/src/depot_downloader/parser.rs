//! Turns DepotDownloader's raw output lines into events.

use vstd::prelude::*;

use super::lines::{
    digit_word, ends_digits, field_between, framed_field, is_framed, one_line, decimal_digit,
    is_decimal_digit, three_fields, three_words,
};
use super::percent::{of_hundredths, Percent};
use super::scan::{escape_fields, escape_from, file_progress, file_progress_fields, without_escapes};
use crate::decimal::{
    digit_value, digits_value, number, number_up_to, parse_up_to, wide_digits,
};
use crate::rounding::{powers_by_value, rounded_reaches};
use crate::text::{
    all_digits, begins_with, chars_of, contains, contains_text, digit, is_digit, is_white_space,
    join, joined, starts_with, text_between, trim, trimmed, views, white_space,
};

verus! {

/// A single meaningful thing DepotDownloader's console output told us.
#[derive(Debug, Clone, PartialEq)]
pub enum DownloadEvent {
    UsingBranch { branch: String },
    ProcessingDepot { depot_id: u64 },
    DownloadingDepotManifest { depot_id: u64 },
    DownloadingDepot { depot_id: u64 },
    /// A depot's running percentage, from the line printed once per completed
    /// file.
    FileProgress { percent: Percent, path: String },
    /// The overall run percentage, from the terminal progress escape
    /// sequence.
    OverallProgress { percent: u8 },
    DepotFinished { depot_id: u64, compressed_bytes: u64, uncompressed_bytes: u64 },
    TotalDownloaded { compressed_bytes: u64, uncompressed_bytes: u64, depot_count: u32 },
    SteamGuardCodeRequested,
    SteamGuardEmailCodeRequested { email: String },
    SteamGuardConfirmationRequested,
    QrCodeReady { ascii_art: String },
    ErrorLine { message: String },
    /// Output that maps to nothing more specific.
    OtherOutput,
}

/// An event with its texts as sequences of characters.
pub enum DownloadEventView {
    UsingBranch { branch: Seq<char> },
    ProcessingDepot { depot_id: u64 },
    DownloadingDepotManifest { depot_id: u64 },
    DownloadingDepot { depot_id: u64 },
    FileProgress { percent: Percent, path: Seq<char> },
    OverallProgress { percent: u8 },
    DepotFinished { depot_id: u64, compressed_bytes: u64, uncompressed_bytes: u64 },
    TotalDownloaded { compressed_bytes: u64, uncompressed_bytes: u64, depot_count: u32 },
    SteamGuardCodeRequested,
    SteamGuardEmailCodeRequested { email: Seq<char> },
    SteamGuardConfirmationRequested,
    QrCodeReady { ascii_art: Seq<char> },
    ErrorLine { message: Seq<char> },
    OtherOutput,
}

impl View for DownloadEvent {
    type V = DownloadEventView;

    open spec fn view(&self) -> DownloadEventView {
        match *self {
            DownloadEvent::UsingBranch { branch } => DownloadEventView::UsingBranch {
                branch: branch@,
            },
            DownloadEvent::ProcessingDepot { depot_id } => DownloadEventView::ProcessingDepot {
                depot_id,
            },
            DownloadEvent::DownloadingDepotManifest { depot_id } =>
                DownloadEventView::DownloadingDepotManifest { depot_id },
            DownloadEvent::DownloadingDepot { depot_id } => DownloadEventView::DownloadingDepot {
                depot_id,
            },
            DownloadEvent::FileProgress { percent, path } => DownloadEventView::FileProgress {
                percent,
                path: path@,
            },
            DownloadEvent::OverallProgress { percent } => DownloadEventView::OverallProgress {
                percent,
            },
            DownloadEvent::DepotFinished { depot_id, compressed_bytes, uncompressed_bytes } =>
                DownloadEventView::DepotFinished { depot_id, compressed_bytes, uncompressed_bytes },
            DownloadEvent::TotalDownloaded { compressed_bytes, uncompressed_bytes, depot_count } =>
                DownloadEventView::TotalDownloaded {
                compressed_bytes,
                uncompressed_bytes,
                depot_count,
            },
            DownloadEvent::SteamGuardCodeRequested => DownloadEventView::SteamGuardCodeRequested,
            DownloadEvent::SteamGuardEmailCodeRequested { email } =>
                DownloadEventView::SteamGuardEmailCodeRequested { email: email@ },
            DownloadEvent::SteamGuardConfirmationRequested =>
                DownloadEventView::SteamGuardConfirmationRequested,
            DownloadEvent::QrCodeReady { ascii_art } => DownloadEventView::QrCodeReady {
                ascii_art: ascii_art@,
            },
            DownloadEvent::ErrorLine { message } => DownloadEventView::ErrorLine {
                message: message@,
            },
            DownloadEvent::OtherOutput => DownloadEventView::OtherOutput,
        }
    }
}

/// The views of a list of events.
pub open spec fn event_views(events: Seq<DownloadEvent>) -> Seq<DownloadEventView> {
    events.map_values(|event: DownloadEvent| event@)
}

/// The row of digits that stands between `prefix` and `suffix` in `line`,
/// where the line is made of the three.
pub open spec fn numbered(line: Seq<char>, prefix: Seq<char>, suffix: Seq<char>) -> Option<
    Seq<char>,
> {
    if is_framed(line, prefix, suffix) && digit_word(framed_field(line, prefix, suffix)) {
        Some(framed_field(line, prefix, suffix))
    } else {
        None
    }
}

/// The text without line breaks that stands between `prefix` and `suffix` in
/// `line`, where the line is made of the three.
pub open spec fn worded(line: Seq<char>, prefix: Seq<char>, suffix: Seq<char>) -> Option<
    Seq<char>,
> {
    if is_framed(line, prefix, suffix) && one_line(framed_field(line, prefix, suffix)) {
        Some(framed_field(line, prefix, suffix))
    } else {
        None
    }
}

/// The fixed parts of the line that sums a depot up.
pub open spec fn depot_finished_parts() -> (Seq<char>, Seq<char>, Seq<char>, Seq<char>) {
    ("Depot "@, " - Downloaded "@, " bytes ("@, " bytes uncompressed)"@)
}

/// The fixed parts of the line that sums the whole run up.
pub open spec fn total_downloaded_parts() -> (Seq<char>, Seq<char>, Seq<char>, Seq<char>) {
    ("Total downloaded: "@, " bytes ("@, " bytes uncompressed) from "@, " depots"@)
}

/// A 64-bit number in digits.
pub open spec fn wide(digits: Seq<char>) -> Option<nat> {
    number_up_to(digits, u64::MAX as nat)
}

/// The digits of a percentage with two decimals, its point left out.
pub open spec fn percent_digits(number: Seq<char>) -> Seq<char> {
    number.take(number.len() - 3) + number.skip(number.len() - 2)
}

/// The percentage that digits, a point and two digits stand for. Digits of
/// other scripts than ASCII stand for none.
pub open spec fn percent_of(number: Seq<char>) -> Option<Percent> {
    let digits = percent_digits(number);
    if all_digits(digits) {
        Some(of_hundredths(digits_value(digits)))
    } else {
        None
    }
}

/// The event that a line stands for, where it names one depot by its number.
/// A number too large to be a depot's stands for none.
pub open spec fn depot_line(line: Seq<char>) -> Option<Option<DownloadEventView>> {
    match numbered(line, "Downloading depot "@, " manifest"@) {
        Some(digits) => Some(
            match wide(digits) {
                Some(n) => Some(
                    DownloadEventView::DownloadingDepotManifest { depot_id: n as u64 },
                ),
                None => None,
            },
        ),
        None => match numbered(line, "Processing depot "@, Seq::empty()) {
            Some(digits) => Some(
                match wide(digits) {
                    Some(n) => Some(DownloadEventView::ProcessingDepot { depot_id: n as u64 }),
                    None => None,
                },
            ),
            None => match numbered(line, "Downloading depot "@, Seq::empty()) {
                Some(digits) => Some(
                    match wide(digits) {
                        Some(n) => Some(DownloadEventView::DownloadingDepot { depot_id: n as u64 }),
                        None => None,
                    },
                ),
                None => None,
            },
        },
    }
}

/// The event that a line stands for, where it sums up a depot or the run.
pub open spec fn summary_line(line: Seq<char>) -> Option<Option<DownloadEventView>> {
    match three_fields(line, depot_finished_parts()) {
        Some((id, compressed, uncompressed)) => Some(
            match (wide(id), wide(compressed), wide(uncompressed)) {
                (Some(a), Some(b), Some(c)) => Some(
                    DownloadEventView::DepotFinished {
                        depot_id: a as u64,
                        compressed_bytes: b as u64,
                        uncompressed_bytes: c as u64,
                    },
                ),
                _ => None,
            },
        ),
        None => match three_fields(line, total_downloaded_parts()) {
            Some((compressed, uncompressed, depots)) => Some(
                match (
                    wide(compressed),
                    wide(uncompressed),
                    number_up_to(depots, u32::MAX as nat),
                ) {
                    (Some(a), Some(b), Some(c)) => Some(
                        DownloadEventView::TotalDownloaded {
                            compressed_bytes: a as u64,
                            uncompressed_bytes: b as u64,
                            depot_count: c as u32,
                        },
                    ),
                    _ => None,
                },
            ),
            None => None,
        },
    }
}

/// The event that a line stands for, where it is a login prompt or reports an
/// error.
pub open spec fn prompt_line(line: Seq<char>) -> Option<DownloadEventView> {
    match worded(
        line,
        "STEAM GUARD! Please enter the auth code sent to the email at "@,
        ":"@,
    ) {
        Some(email) => Some(DownloadEventView::SteamGuardEmailCodeRequested { email }),
        None => if begins_with(line, "STEAM GUARD!"@) && contains_text(
            line,
            "2-factor auth code"@,
        ) {
            Some(DownloadEventView::SteamGuardCodeRequested)
        } else if begins_with(line, "STEAM GUARD!"@) && contains_text(
            line,
            "confirm your sign in"@,
        ) {
            Some(DownloadEventView::SteamGuardConfirmationRequested)
        } else if begins_with(line, "Error"@) || (contains_text(line, "Encountered"@)
            && contains_text(line, "Aborting"@)) {
            Some(DownloadEventView::ErrorLine { message: line })
        } else {
            None
        },
    }
}

/// The event that a line without escape sequences stands for, if any.
pub open spec fn plain_event(line: Seq<char>) -> Option<DownloadEventView> {
    match worded(line, "Using app branch: '"@, "'."@) {
        Some(branch) => Some(DownloadEventView::UsingBranch { branch }),
        None => match depot_line(line) {
            Some(event) => event,
            None => match summary_line(line) {
                Some(event) => event,
                None => match prompt_line(line) {
                    Some(event) => Some(event),
                    None => match file_progress(line) {
                        Some((number, path)) => match percent_of(number) {
                            Some(percent) => Some(DownloadEventView::FileProgress { percent, path }),
                            None => None,
                        },
                        None => None,
                    },
                },
            },
        },
    }
}

/// The overall progress that percentage fields report. A field beyond 255
/// reports nothing, one beyond 100 reports 100.
pub open spec fn overall_events(fields: Seq<Seq<char>>) -> Seq<DownloadEventView>
    decreases fields.len(),
{
    if fields.len() == 0 {
        Seq::empty()
    } else {
        let earlier = overall_events(fields.drop_last());
        match number_up_to(fields.last(), 255) {
            Some(n) => earlier.push(
                DownloadEventView::OverallProgress {
                    percent: if n <= 100 {
                        n as u8
                    } else {
                        100
                    },
                },
            ),
            None => earlier,
        }
    }
}

/// A line whose characters, white space aside, are all the same one. A row of
/// a QR code drawn in text is such a line.
pub open spec fn qr_art_line(line: Seq<char>) -> bool {
    forall|i: int, j: int|
        0 <= i < line.len() && 0 <= j < line.len() && !is_white_space(#[trigger] line[i])
            && !is_white_space(#[trigger] line[j]) ==> line[i] == line[j]
}

/// What announces a QR code.
pub open spec fn qr_heading() -> Seq<char> {
    "Use the Steam Mobile App to sign in with this QR code:"@
}

/// The plain event of a line as a list: a line that matches nothing is still
/// output, and an empty one is none.
pub open spec fn plain_events(text: Seq<char>) -> Seq<DownloadEventView> {
    if text.len() == 0 {
        Seq::empty()
    } else {
        match plain_event(text) {
            Some(event) => seq![event],
            None => seq![DownloadEventView::OtherOutput],
        }
    }
}

/// What a line means while no QR code is being collected: the lines collected
/// from then on, and the events.
pub open spec fn idle_step(line: Seq<char>) -> (Option<Seq<Seq<char>>>, Seq<DownloadEventView>) {
    if contains_text(line, qr_heading()) {
        (Some(Seq::empty()), Seq::empty())
    } else {
        (
            None,
            overall_events(escape_fields(line)) + plain_events(trimmed(without_escapes(line))),
        )
    }
}

/// What a line means after the lines collected so far: the lines collected
/// from then on, and the events.
pub open spec fn feed_step(collected: Option<Seq<Seq<char>>>, line: Seq<char>) -> (
    Option<Seq<Seq<char>>>,
    Seq<DownloadEventView>,
) {
    match collected {
        Some(lines) => if qr_art_line(line) {
            (Some(lines.push(line)), Seq::empty())
        } else {
            let (next, events) = idle_step(line);
            (next, seq![DownloadEventView::QrCodeReady { ascii_art: joined(lines, "\n"@) }] + events)
        },
        None => idle_step(line),
    }
}

/// What an idle period means after the lines collected so far: the lines
/// collected from then on, and the event.
pub open spec fn flush_step(collected: Option<Seq<Seq<char>>>) -> (
    Option<Seq<Seq<char>>>,
    Option<DownloadEventView>,
) {
    match collected {
        Some(lines) => if lines.len() == 0 {
            (collected, None)
        } else {
            (None, Some(DownloadEventView::QrCodeReady { ascii_art: joined(lines, "\n"@) }))
        },
        None => (None, None),
    }
}

/// Turns DepotDownloader's raw stdout lines into [`DownloadEvent`]s.
///
/// It has a state because the QR login prompt spans several lines: everything
/// after the heading up to the first line that is no QR art is one block.
/// DepotDownloader then waits for the scan and prints nothing that marks the
/// block's end, so the caller also calls [`Self::flush_pending_qr_block`]
/// after a short idle period.
pub struct OutputParser {
    collecting_qr_lines: Option<Vec<String>>,
}

impl View for OutputParser {
    type V = Option<Seq<Seq<char>>>;

    closed spec fn view(&self) -> Option<Seq<Seq<char>>> {
        match self.collecting_qr_lines {
            Some(lines) => Some(views(lines@)),
            None => None,
        }
    }
}

/// The row of digits that stands between `prefix` and `suffix`.
fn number_between(line: &Vec<char>, prefix: &Vec<char>, suffix: &Vec<char>) -> (field: Option<
    String,
>)
    ensures
        match field {
            Some(digits) => numbered(line@, prefix@, suffix@) == Some(digits@),
            None => numbered(line@, prefix@, suffix@) is None,
        },
{
    match field_between(line, prefix, suffix) {
        Some(field) => {
            let mut i: usize = 0;
            while i < field.len()
                invariant
                    i <= field@.len(),
                    forall|j: int| 0 <= j < i ==> is_decimal_digit(#[trigger] field@[j]),
                    field@ == framed_field(line@, prefix@, suffix@),
                decreases field@.len() - i,
            {
                if !decimal_digit(field[i]) {
                    assert(!is_decimal_digit(field@[i as int]));
                    return None;
                }
                i = i + 1;
            }
            if field.len() == 0 {
                return None;
            }
            let text = text_between(&field, 0, field.len());
            assert(text@ =~= field@);
            Some(text)
        },
        None => None,
    }
}

/// The text without line breaks that stands between `prefix` and `suffix`.
fn words_between(line: &Vec<char>, prefix: &Vec<char>, suffix: &Vec<char>) -> (field: Option<
    String,
>)
    ensures
        match field {
            Some(words) => worded(line@, prefix@, suffix@) == Some(words@),
            None => worded(line@, prefix@, suffix@) is None,
        },
{
    match field_between(line, prefix, suffix) {
        Some(field) => {
            let mut i: usize = 0;
            while i < field.len()
                invariant
                    i <= field@.len(),
                    forall|j: int| 0 <= j < i ==> #[trigger] field@[j] != '\n',
                    field@ == framed_field(line@, prefix@, suffix@),
                decreases field@.len() - i,
            {
                if field[i] == '\n' {
                    assert(field@[i as int] == '\n');
                    return None;
                }
                i = i + 1;
            }
            if field.len() == 0 {
                return None;
            }
            let text = text_between(&field, 0, field.len());
            assert(text@ =~= field@);
            Some(text)
        },
        None => None,
    }
}

/// A 64-bit number in digits.
fn wide_number(digits: &String) -> (n: Option<u64>)
    ensures
        match n {
            Some(n) => wide(digits@) == Some(n as nat),
            None => wide(digits@) is None,
        },
{
    parse_up_to(digits.as_str(), u64::MAX)
}

/// The percentage that digits, a point and two digits stand for.
fn read_percent(number: &Vec<char>) -> (percent: Option<Percent>)
    requires
        number@.len() >= 3,
    ensures
        percent == percent_of(number@),
{
    let point = number.len() - 3;
    let mut digits = String::new();
    let mut i: usize = 0;
    let ghost all = percent_digits(number@);
    while i < number.len()
        invariant
            i <= number@.len(),
            number@.len() >= 3,
            point == number@.len() - 3,
            all == percent_digits(number@),
            digits@ == all.take(
                if i <= point {
                    i as int
                } else {
                    i - 1
                },
            ),
            all_digits(digits@),
        decreases number@.len() - i,
    {
        if i != point {
            let ghost at = if i < point {
                i as int
            } else {
                i - 1
            };
            assert(all[at] == number@[i as int]);
            if !digit(number[i]) {
                assert(!is_digit(all[at]));
                return None;
            }
            assert(all.take(at + 1) == all.take(at).push(all[at]));
            digits.push(number[i]);
        }
        i = i + 1;
    }
    assert(all.take(all.len() as int) == all);
    assert(all[0] == digits@[0]);
    if let Some(hundredths) = parse_up_to(digits.as_str(), u64::MAX) {
        return Some(Percent::Hundredths(hundredths));
    }
    Some(large_percent(digits.as_str()))
}

/// The percentage that a row of digits, the last two of them decimals, stands
/// for, where it is more than the counter of hundredths holds.
fn large_percent(digits: &str) -> (percent: Percent)
    requires
        digits@.len() >= 2,
        all_digits(digits@),
        digits_value(digits@) > u64::MAX,
    ensures
        percent == of_hundredths(digits_value(digits@)),
{
    let chars = chars_of(digits);
    let end = chars.len() - 2;
    let ghost whole = digits@.take(end as int);
    assert(digits@.drop_last().drop_last() =~= whole);
    assert(is_digit(digits@[end as int]) && is_digit(digits@[end + 1]));
    assert(digits@.drop_last().last() == digits@[end as int]);
    let part = (chars[end] as u32 - 48) as u8 * 10 + (chars[end + 1] as u32 - 48) as u8;
    assert(digits_value(digits@) == digits_value(whole) * 100 + part) by {
        assert(digits_value(digits@.drop_last()) == digits_value(whole) * 10 + digit_value(
            digits@[end as int],
        ));
    }
    match wide_digits(&chars, end) {
        Some(n) => Percent::beyond_hundredths(n, part),
        None => {
            proof {
                powers_by_value();
                rounded_reaches(digits_value(digits@), 100, 128, 24);
            }
            Percent::Infinite
        },
    }
}

/// The event that a line stands for, where it names one depot by its number.
fn parse_depot_line(line: &Vec<char>) -> (event: Option<Option<DownloadEvent>>)
    ensures
        match event {
            Some(Some(event)) => depot_line(line@) == Some(Some(event@)),
            Some(None) => depot_line(line@) == Some(None::<DownloadEventView>),
            None => depot_line(line@) is None,
        },
{
    let nothing: Vec<char> = Vec::new();
    let downloading = chars_of("Downloading depot ");
    if let Some(digits) = number_between(line, &downloading, &chars_of(" manifest")) {
        return match wide_number(&digits) {
            Some(depot_id) => Some(Some(DownloadEvent::DownloadingDepotManifest { depot_id })),
            None => Some(None),
        };
    }
    if let Some(digits) = number_between(line, &chars_of("Processing depot "), &nothing) {
        return match wide_number(&digits) {
            Some(depot_id) => Some(Some(DownloadEvent::ProcessingDepot { depot_id })),
            None => Some(None),
        };
    }
    if let Some(digits) = number_between(line, &downloading, &nothing) {
        return match wide_number(&digits) {
            Some(depot_id) => Some(Some(DownloadEvent::DownloadingDepot { depot_id })),
            None => Some(None),
        };
    }
    None
}

/// The fixed parts of the summary lines end a row of digits.
proof fn summary_parts_end_digits()
    ensures
        ends_digits(depot_finished_parts().1),
        ends_digits(depot_finished_parts().2),
        ends_digits(depot_finished_parts().3),
        ends_digits(total_downloaded_parts().1),
        ends_digits(total_downloaded_parts().2),
        ends_digits(total_downloaded_parts().3),
{
    reveal_strlit(" - Downloaded ");
    reveal_strlit(" bytes (");
    reveal_strlit(" bytes uncompressed)");
    reveal_strlit(" bytes uncompressed) from ");
    reveal_strlit(" depots");
}

/// The event that a line stands for, where it sums up a depot or the run.
fn parse_summary_line(line: &Vec<char>) -> (event: Option<Option<DownloadEvent>>)
    ensures
        match event {
            Some(Some(event)) => summary_line(line@) == Some(Some(event@)),
            Some(None) => summary_line(line@) == Some(None::<DownloadEventView>),
            None => summary_line(line@) is None,
        },
{
    proof {
        summary_parts_end_digits();
    }
    if let Some((id, compressed, uncompressed)) = three_words(
        line,
        &chars_of("Depot "),
        &chars_of(" - Downloaded "),
        &chars_of(" bytes ("),
        &chars_of(" bytes uncompressed)"),
    ) {
        return match (wide_number(&id), wide_number(&compressed), wide_number(&uncompressed)) {
            (Some(depot_id), Some(compressed_bytes), Some(uncompressed_bytes)) => Some(
                Some(
                    DownloadEvent::DepotFinished {
                        depot_id,
                        compressed_bytes,
                        uncompressed_bytes,
                    },
                ),
            ),
            _ => Some(None),
        };
    }
    if let Some((compressed, uncompressed, depots)) = three_words(
        line,
        &chars_of("Total downloaded: "),
        &chars_of(" bytes ("),
        &chars_of(" bytes uncompressed) from "),
        &chars_of(" depots"),
    ) {
        return match (
            wide_number(&compressed),
            wide_number(&uncompressed),
            parse_up_to(depots.as_str(), u32::MAX as u64),
        ) {
            (Some(compressed_bytes), Some(uncompressed_bytes), Some(depots)) => Some(
                Some(
                    DownloadEvent::TotalDownloaded {
                        compressed_bytes,
                        uncompressed_bytes,
                        depot_count: depots as u32,
                    },
                ),
            ),
            _ => Some(None),
        };
    }
    None
}

/// The event that a line stands for, where it is a login prompt or reports an
/// error.
fn parse_prompt_line(line: &str) -> (event: Option<DownloadEvent>)
    ensures
        match event {
            Some(event) => prompt_line(line@) == Some(event@),
            None => prompt_line(line@) is None,
        },
{
    if let Some(email) = words_between(
        &chars_of(line),
        &chars_of("STEAM GUARD! Please enter the auth code sent to the email at "),
        &chars_of(":"),
    ) {
        return Some(DownloadEvent::SteamGuardEmailCodeRequested { email });
    }
    if starts_with(line, "STEAM GUARD!") && contains(line, "2-factor auth code") {
        return Some(DownloadEvent::SteamGuardCodeRequested);
    }
    if starts_with(line, "STEAM GUARD!") && contains(line, "confirm your sign in") {
        return Some(DownloadEvent::SteamGuardConfirmationRequested);
    }
    if starts_with(line, "Error") || (contains(line, "Encountered") && contains(line, "Aborting")) {
        return Some(DownloadEvent::ErrorLine { message: line.to_owned() });
    }
    None
}

/// The event that a line without escape sequences stands for, if any.
pub fn parse_plain_line(line: &str) -> (event: Option<DownloadEvent>)
    ensures
        match event {
            Some(event) => plain_event(line@) == Some(event@),
            None => plain_event(line@) is None,
        },
{
    let chars = chars_of(line);
    if let Some(branch) = words_between(
        &chars,
        &chars_of("Using app branch: '"),
        &chars_of("'."),
    ) {
        return Some(DownloadEvent::UsingBranch { branch });
    }
    if let Some(event) = parse_depot_line(&chars) {
        return event;
    }
    if let Some(event) = parse_summary_line(&chars) {
        return event;
    }
    if let Some(event) = parse_prompt_line(line) {
        return Some(event);
    }
    if let Some((number, path)) = file_progress_fields(&chars) {
        return match read_percent(&number) {
            Some(percent) => Some(DownloadEvent::FileProgress { percent, path }),
            None => None,
        };
    }
    None
}

/// Whether the characters of a line, white space aside, are all the same one.
pub fn is_qr_art_line(line: &str) -> (yes: bool)
    ensures
        yes == qr_art_line(line@),
{
    let chars = chars_of(line);
    let mut dark: Option<usize> = None;
    let mut i: usize = 0;
    while i < chars.len()
        invariant
            i <= chars@.len(),
            chars@ == line@,
            match dark {
                Some(k) => {
                    &&& k < i
                    &&& !is_white_space(chars@[k as int])
                    &&& forall|j: int|
                        0 <= j < i && !is_white_space(#[trigger] chars@[j]) ==> chars@[j]
                            == chars@[k as int]
                },
                None => forall|j: int| 0 <= j < i ==> is_white_space(#[trigger] chars@[j]),
            },
        decreases chars@.len() - i,
    {
        if !white_space(chars[i]) {
            match dark {
                Some(k) => {
                    if chars[i] != chars[k] {
                        assert(line@[i as int] != line@[k as int]);
                        return false;
                    }
                },
                None => {
                    dark = Some(i);
                },
            }
        }
        i = i + 1;
    }
    true
}

/// The overall progress that the escape sequences of a line report, and the
/// line without them.
fn split_escapes(line: &str) -> (split: (Vec<DownloadEvent>, String))
    ensures
        event_views(split.0@) == overall_events(escape_fields(line@)),
        split.1@ == without_escapes(line@),
{
    let chars = chars_of(line);
    let mut events: Vec<DownloadEvent> = Vec::new();
    let mut text = String::new();
    let ghost mut fields: Seq<Seq<char>> = Seq::empty();
    let mut i: usize = 0;
    proof {
        assert(chars@.skip(0) == chars@);
        assert(fields + escape_fields(chars@) =~= escape_fields(chars@));
        assert(text@ + without_escapes(chars@) =~= without_escapes(chars@));
        assert(event_views(events@) =~= overall_events(fields));
    }
    while i < chars.len()
        invariant
            i <= chars@.len(),
            chars@ == line@,
            fields + escape_fields(chars@.skip(i as int)) == escape_fields(line@),
            text@ + without_escapes(chars@.skip(i as int)) == without_escapes(line@),
            event_views(events@) == overall_events(fields),
        decreases chars@.len() - i,
    {
        let ghost tail = chars@.skip(i as int);
        match escape_from(&chars, i) {
            Some((length, percent)) => {
                proof {
                    assert(tail.skip(length as int) == chars@.skip(i + length));
                    let rest = escape_fields(tail.skip(length as int));
                    assert(fields + (seq![percent@] + rest) =~= fields.push(percent@) + rest);
                    assert(fields.push(percent@).drop_last() =~= fields);
                    fields = fields.push(percent@);
                }
                if let Some(n) = parse_up_to(percent.as_str(), 255) {
                    let percent: u8 = if n <= 100 {
                        n as u8
                    } else {
                        100
                    };
                    let ghost before = events@;
                    events.push(DownloadEvent::OverallProgress { percent });
                    assert(event_views(events@) =~= event_views(before).push(
                        DownloadEventView::OverallProgress { percent },
                    ));
                }
                i = i + length;
            },
            None => {
                assert(tail.drop_first() == chars@.skip(i + 1));
                assert(text@ + (seq![tail[0]] + without_escapes(tail.drop_first())) =~= text@.push(
                    tail[0],
                ) + without_escapes(tail.drop_first()));
                text.push(chars[i]);
                i = i + 1;
            },
        }
    }
    assert(fields + escape_fields(chars@.skip(i as int)) =~= fields);
    assert(text@ + without_escapes(chars@.skip(i as int)) =~= text@);
    (events, text)
}

impl OutputParser {
    /// A parser that is collecting no QR code.
    pub fn new() -> (parser: Self)
        ensures
            parser@ is None,
    {
        Self { collecting_qr_lines: None }
    }

    /// Takes one line while no QR code is being collected.
    fn feed_idle(&mut self, line: &str) -> (events: Vec<DownloadEvent>)
        requires
            old(self)@ is None,
        ensures
            (final(self)@, event_views(events@)) == idle_step(line@),
    {
        if contains(line, "Use the Steam Mobile App to sign in with this QR code:") {
            let lines: Vec<String> = Vec::new();
            assert(views(lines@) =~= Seq::empty());
            self.collecting_qr_lines = Some(lines);
            let events: Vec<DownloadEvent> = Vec::new();
            assert(event_views(events@) =~= Seq::empty());
            return events;
        }
        let (mut events, text_without_escapes) = split_escapes(line);
        let ghost overall = event_views(events@);
        let text = trim(text_without_escapes.as_str());
        if text.as_str().is_empty() {
            assert(overall + Seq::empty() =~= overall);
            return events;
        }
        let event = match parse_plain_line(text.as_str()) {
            Some(event) => event,
            None => DownloadEvent::OtherOutput,
        };
        let ghost view = event@;
        events.push(event);
        assert(event_views(events@) =~= overall + seq![view]);
        events
    }

    /// Takes one line of output and says what it means.
    pub fn feed(&mut self, line: &str) -> (events: Vec<DownloadEvent>)
        ensures
            (final(self)@, event_views(events@)) == feed_step(old(self)@, line@),
    {
        match self.collecting_qr_lines.take() {
            Some(mut qr_lines) => {
                if is_qr_art_line(line) {
                    let ghost before = qr_lines@;
                    qr_lines.push(line.to_owned());
                    assert(views(qr_lines@) =~= views(before).push(line@));
                    self.collecting_qr_lines = Some(qr_lines);
                    let events: Vec<DownloadEvent> = Vec::new();
                    assert(event_views(events@) =~= Seq::empty());
                    return events;
                }
                let ascii_art = join(&qr_lines, "\n");
                let ghost art = ascii_art@;
                let mut events: Vec<DownloadEvent> = Vec::new();
                events.push(DownloadEvent::QrCodeReady { ascii_art });
                let mut more = self.feed_idle(line);
                let ghost later = event_views(more@);
                events.append(&mut more);
                assert(event_views(events@) =~= seq![
                    DownloadEventView::QrCodeReady { ascii_art: art },
                ] + later);
                events
            },
            None => self.feed_idle(line),
        }
    }

    /// Shows the QR code collected so far although nothing marks its end: to
    /// be called after a short period with no new output. Does nothing where
    /// no QR code is being collected, or nothing has arrived for it yet.
    pub fn flush_pending_qr_block(&mut self) -> (event: Option<DownloadEvent>)
        ensures
            final(self)@ == flush_step(old(self)@).0,
            match event {
                Some(event) => flush_step(old(self)@).1 == Some(event@),
                None => flush_step(old(self)@).1 is None,
            },
    {
        match self.collecting_qr_lines.take() {
            Some(qr_lines) => {
                if qr_lines.len() == 0 {
                    self.collecting_qr_lines = Some(qr_lines);
                    return None;
                }
                let ascii_art = join(&qr_lines, "\n");
                Some(DownloadEvent::QrCodeReady { ascii_art })
            },
            None => None,
        }
    }
}

/// What a list of lines means, one after the other.
pub open spec fn feed_all(collected: Option<Seq<Seq<char>>>, lines: Seq<Seq<char>>) -> (
    Option<Seq<Seq<char>>>,
    Seq<DownloadEventView>,
)
    decreases lines.len(),
{
    if lines.len() == 0 {
        (collected, Seq::empty())
    } else {
        let (before, earlier) = feed_all(collected, lines.drop_last());
        let (after, latest) = feed_step(before, lines.last());
        (after, earlier + latest)
    }
}

/// Rows of QR art are collected without an event, blank rows of the quiet
/// zone among them.
pub proof fn qr_rows_are_collected(lines: Seq<Seq<char>>, rows: Seq<Seq<char>>)
    requires
        forall|i: int| 0 <= i < rows.len() ==> qr_art_line(#[trigger] rows[i]),
    ensures
        feed_all(Some(lines), rows) == (Some(lines + rows), Seq::<DownloadEventView>::empty()),
    decreases rows.len(),
{
    if rows.len() == 0 {
        assert(lines + rows =~= lines);
    } else {
        assert forall|i: int| 0 <= i < rows.drop_last().len() implies qr_art_line(
            #[trigger] rows.drop_last()[i],
        ) by {
            assert(qr_art_line(rows[i]));
        }
        qr_rows_are_collected(lines, rows.drop_last());
        assert(qr_art_line(rows[rows.len() - 1]));
        assert((lines + rows.drop_last()).push(rows.last()) =~= lines + rows);
        assert(Seq::<DownloadEventView>::empty() + Seq::<DownloadEventView>::empty()
            =~= Seq::<DownloadEventView>::empty());
    }
}

/// A QR code comes out whole: the heading, rows of QR art and then a line
/// that is none give the rows as one block, followed by what the last line
/// means by itself.
pub proof fn qr_block_comes_out_whole(
    heading: Seq<char>,
    rows: Seq<Seq<char>>,
    next: Seq<char>,
)
    requires
        contains_text(heading, qr_heading()),
        forall|i: int| 0 <= i < rows.len() ==> qr_art_line(#[trigger] rows[i]),
        !qr_art_line(next),
    ensures
        feed_step(None, heading) == (Some(Seq::<Seq<char>>::empty()), Seq::<
            DownloadEventView,
        >::empty()),
        feed_all(Some(Seq::empty()), rows) == (Some(rows), Seq::<DownloadEventView>::empty()),
        feed_step(Some(rows), next) == (
            idle_step(next).0,
            seq![DownloadEventView::QrCodeReady { ascii_art: joined(rows, "\n"@) }] + idle_step(
                next,
            ).1,
        ),
{
    qr_rows_are_collected(Seq::empty(), rows);
    assert(Seq::<Seq<char>>::empty() + rows =~= rows);
}

/// Flushing is one-shot: a second flush in a row gives nothing and changes
/// nothing.
pub proof fn flush_is_one_shot(collected: Option<Seq<Seq<char>>>)
    ensures
        flush_step(flush_step(collected).0) == (
            flush_step(collected).0,
            None::<DownloadEventView>,
        ),
{
}

/// A flush gives the block that the next line would otherwise have given.
pub proof fn flush_gives_the_same_block(rows: Seq<Seq<char>>, next: Seq<char>)
    requires
        rows.len() > 0,
        !qr_art_line(next),
    ensures
        flush_step(Some(rows)).1 == Some(feed_step(Some(rows), next).1[0]),
        flush_step(Some(rows)).0 is None,
{
}

/// No output passes unnoticed: a line that holds any text and announces no QR
/// code ends in an event of its own.
pub proof fn output_is_always_noticed(line: Seq<char>)
    requires
        !contains_text(line, qr_heading()),
        trimmed(without_escapes(line)).len() > 0,
    ensures
        idle_step(line).1.len() > 0,
        idle_step(line).1.last() == match plain_event(trimmed(without_escapes(line))) {
            Some(event) => event,
            None => DownloadEventView::OtherOutput,
        },
{
}

/// Overall progress never exceeds 100 percent.
pub proof fn overall_progress_is_bounded(fields: Seq<Seq<char>>, i: int)
    requires
        0 <= i < overall_events(fields).len(),
    ensures
        overall_events(fields)[i] matches DownloadEventView::OverallProgress { percent }
            && percent <= 100,
    decreases fields.len(),
{
    if i < overall_events(fields.drop_last()).len() {
        overall_progress_is_bounded(fields.drop_last(), i);
    }
}

} // verus!
