//! What DepotDownloader prints is what the parser reads.

use vstd::prelude::*;

use super::lines::{
    digit_word, ends_digits, fills_three, framed_field, is_decimal_digit, is_framed, one_line,
    three_fields, three_fields_are_unique,
};
use super::parser::{
    depot_finished_parts, percent_digits, percent_of, plain_event, total_downloaded_parts, wide,
    DownloadEventView,
};
use super::percent::of_hundredths;
use super::scan::{file_progress, white_run};
use crate::decimal::{
    decimal, decimal_is_digits, digit_char, digits_value, digits_value_of_decimal, number,
    number_of_decimal, number_up_to,
};
use crate::text::{contains_text, is_digit, is_white_space, occurs_at};

verus! {

/// A number written out is a row of digits and reads back as itself.
proof fn written_number(n: nat)
    ensures
        digit_word(decimal(n)),
        n <= u64::MAX ==> wide(decimal(n)) == Some(n),
        n <= u32::MAX ==> number_up_to(decimal(n), u32::MAX as nat) == Some(n),
{
    decimal_is_digits(n);
    number_of_decimal(n);
    assert forall|i: int| 0 <= i < decimal(n).len() implies is_decimal_digit(
        #[trigger] decimal(n)[i],
    ) by {
        assert(is_digit(decimal(n)[i]));
    }
}

/// A line that is put together from a prefix, a field and a suffix is framed
/// by the two around the field.
proof fn frame_of(prefix: Seq<char>, field: Seq<char>, suffix: Seq<char>)
    ensures
        is_framed(prefix + field + suffix, prefix, suffix),
        framed_field(prefix + field + suffix, prefix, suffix) == field,
{
    let line = prefix + field + suffix;
    assert(line.subrange(0, prefix.len() as int) =~= prefix);
    assert(line.subrange(line.len() - suffix.len(), line.len() as int) =~= suffix);
    assert(framed_field(line, prefix, suffix) =~= field);
}

/// A line whose characters differ from those of `prefix` does not begin with
/// it.
proof fn not_begun(line: Seq<char>, prefix: Seq<char>, at: int)
    requires
        0 <= at < prefix.len(),
        at < line.len() ==> line[at] != prefix[at],
    ensures
        !occurs_at(line, prefix, 0),
{
    if occurs_at(line, prefix, 0) {
        assert(line.subrange(0, prefix.len() as int)[at] == line[at]);
    }
}

/// The line that starts a depot's processing is read as that.
pub proof fn processing_depot_is_read(n: u64)
    ensures
        plain_event("Processing depot "@ + decimal(n as nat)) == Some(
            DownloadEventView::ProcessingDepot { depot_id: n },
        ),
{
    let line = "Processing depot "@ + decimal(n as nat);
    written_number(n as nat);
    frame_of("Processing depot "@, decimal(n as nat), Seq::empty());
    assert(line + Seq::<char>::empty() =~= line);
    reveal_strlit("Processing depot ");
    reveal_strlit("Using app branch: '");
    reveal_strlit("Downloading depot ");
    not_begun(line, "Using app branch: '"@, 0);
    not_begun(line, "Downloading depot "@, 0);
}

/// The line that starts a manifest's download is read as that.
pub proof fn downloading_depot_manifest_is_read(n: u64)
    ensures
        plain_event("Downloading depot "@ + decimal(n as nat) + " manifest"@) == Some(
            DownloadEventView::DownloadingDepotManifest { depot_id: n },
        ),
{
    let line = "Downloading depot "@ + decimal(n as nat) + " manifest"@;
    written_number(n as nat);
    frame_of("Downloading depot "@, decimal(n as nat), " manifest"@);
    reveal_strlit("Using app branch: '");
    reveal_strlit("Downloading depot ");
    not_begun(line, "Using app branch: '"@, 0);
}

/// The line that starts a depot's download is read as that.
pub proof fn downloading_depot_is_read(n: u64)
    ensures
        plain_event("Downloading depot "@ + decimal(n as nat)) == Some(
            DownloadEventView::DownloadingDepot { depot_id: n },
        ),
{
    let digits = decimal(n as nat);
    let line = "Downloading depot "@ + digits;
    written_number(n as nat);
    frame_of("Downloading depot "@, digits, Seq::empty());
    assert(line + Seq::<char>::empty() =~= line);
    reveal_strlit("Using app branch: '");
    reveal_strlit("Downloading depot ");
    reveal_strlit("Processing depot ");
    reveal_strlit(" manifest");
    not_begun(line, "Using app branch: '"@, 0);
    not_begun(line, "Processing depot "@, 0);
    if is_framed(line, "Downloading depot "@, " manifest"@) {
        let at = line.len() - 9;
        assert(line.subrange(at, at + 9)[8] == line[line.len() - 1]);
        assert(line[line.len() - 1] == digits[digits.len() - 1]);
        assert(is_decimal_digit(digits[digits.len() - 1]));
    }
}

/// The line that names the branch is read as that.
pub proof fn using_branch_is_read(branch: Seq<char>)
    requires
        one_line(branch),
    ensures
        plain_event("Using app branch: '"@ + branch + "'."@) == Some(
            DownloadEventView::UsingBranch { branch },
        ),
{
    frame_of("Using app branch: '"@, branch, "'."@);
}

/// A summary's fields are found in the line that they were written into.
proof fn written_fields(
    parts: (Seq<char>, Seq<char>, Seq<char>, Seq<char>),
    a: nat,
    b: nat,
    c: nat,
)
    requires
        ends_digits(parts.1),
        ends_digits(parts.2),
        ends_digits(parts.3),
    ensures
        three_fields(
            parts.0 + decimal(a) + parts.1 + decimal(b) + parts.2 + decimal(c) + parts.3,
            parts,
        ) == Some((decimal(a), decimal(b), decimal(c))),
{
    let line = parts.0 + decimal(a) + parts.1 + decimal(b) + parts.2 + decimal(c) + parts.3;
    written_number(a);
    written_number(b);
    written_number(c);
    assert(line =~= parts.0 + (decimal(a) + (parts.1 + (decimal(b) + (parts.2 + (decimal(c)
        + parts.3))))));
    three_fields_are_unique(line, parts, decimal(a), decimal(b), decimal(c));
}

/// The line that sums a depot up is read with the numbers written in it.
pub proof fn depot_finished_is_read(depot_id: u64, compressed_bytes: u64, uncompressed_bytes: u64)
    ensures
        plain_event(
            "Depot "@ + decimal(depot_id as nat) + " - Downloaded "@ + decimal(
                compressed_bytes as nat,
            ) + " bytes ("@ + decimal(uncompressed_bytes as nat) + " bytes uncompressed)"@,
        ) == Some(
            DownloadEventView::DepotFinished { depot_id, compressed_bytes, uncompressed_bytes },
        ),
{
    let line = "Depot "@ + decimal(depot_id as nat) + " - Downloaded "@ + decimal(
        compressed_bytes as nat,
    ) + " bytes ("@ + decimal(uncompressed_bytes as nat) + " bytes uncompressed)"@;
    reveal_strlit("Depot ");
    reveal_strlit(" - Downloaded ");
    reveal_strlit(" bytes (");
    reveal_strlit(" bytes uncompressed)");
    reveal_strlit("Using app branch: '");
    reveal_strlit("Downloading depot ");
    reveal_strlit("Processing depot ");
    written_number(depot_id as nat);
    written_number(compressed_bytes as nat);
    written_number(uncompressed_bytes as nat);
    written_fields(
        depot_finished_parts(),
        depot_id as nat,
        compressed_bytes as nat,
        uncompressed_bytes as nat,
    );
    assert(line[0] == 'D' && line[1] == 'e');
    not_begun(line, "Using app branch: '"@, 0);
    not_begun(line, "Downloading depot "@, 1);
    not_begun(line, "Processing depot "@, 0);
}

/// The line that sums the run up is read with the numbers written in it.
pub proof fn total_downloaded_is_read(
    compressed_bytes: u64,
    uncompressed_bytes: u64,
    depot_count: u32,
)
    ensures
        plain_event(
            "Total downloaded: "@ + decimal(compressed_bytes as nat) + " bytes ("@ + decimal(
                uncompressed_bytes as nat,
            ) + " bytes uncompressed) from "@ + decimal(depot_count as nat) + " depots"@,
        ) == Some(
            DownloadEventView::TotalDownloaded { compressed_bytes, uncompressed_bytes, depot_count },
        ),
{
    let line = "Total downloaded: "@ + decimal(compressed_bytes as nat) + " bytes ("@ + decimal(
        uncompressed_bytes as nat,
    ) + " bytes uncompressed) from "@ + decimal(depot_count as nat) + " depots"@;
    reveal_strlit("Total downloaded: ");
    reveal_strlit(" bytes (");
    reveal_strlit(" bytes uncompressed) from ");
    reveal_strlit(" depots");
    reveal_strlit("Using app branch: '");
    reveal_strlit("Downloading depot ");
    reveal_strlit("Processing depot ");
    reveal_strlit("Depot ");
    written_number(compressed_bytes as nat);
    written_number(uncompressed_bytes as nat);
    written_number(depot_count as nat);
    written_fields(
        total_downloaded_parts(),
        compressed_bytes as nat,
        uncompressed_bytes as nat,
        depot_count as nat,
    );
    assert(line[0] == 'T');
    not_begun(line, "Using app branch: '"@, 0);
    not_begun(line, "Downloading depot "@, 0);
    not_begun(line, "Processing depot "@, 0);
    assert(three_fields(line, depot_finished_parts()) is None) by {
        assert forall|a: Seq<char>, b: Seq<char>, c: Seq<char>| !fills_three(
            line,
            depot_finished_parts(),
            a,
            b,
            c,
        ) by {
            if fills_three(line, depot_finished_parts(), a, b, c) {
                assert(line[0] == "Depot "@[0]);
            }
        }
    }
}

/// A percentage in hundredths of a percent, with its point and two decimals.
pub open spec fn percent_text(hundredths: nat) -> Seq<char> {
    decimal(hundredths / 100) + seq![
        '.',
        digit_char(hundredths / 10 % 10),
        digit_char(hundredths % 10),
    ]
}

/// A percentage written out reads back as itself.
proof fn written_percent(hundredths: nat)
    ensures
        percent_of(percent_text(hundredths)) == Some(of_hundredths(hundredths)),
{
    let whole = decimal(hundredths / 100);
    let tenth = digit_char(hundredths / 10 % 10);
    let last = digit_char(hundredths % 10);
    let number = percent_text(hundredths);
    let digits = percent_digits(number);
    assert(digits =~= whole.push(tenth).push(last));
    decimal_is_digits(hundredths / 100);
    digits_value_of_decimal(hundredths / 100);
    assert(digits.drop_last() =~= whole.push(tenth));
    assert(whole.push(tenth).drop_last() =~= whole);
    assert(digits_value(whole.push(tenth)) == (hundredths / 100) * 10 + hundredths
        / 10 % 10);
    assert(digits_value(digits) == digits_value(digits.drop_last()) * 10 + hundredths % 10);
    assert(digits_value(digits) == hundredths);
    assert forall|i: int| 0 <= i < digits.len() implies is_digit(#[trigger] digits[i]) by {
        if i < whole.len() {
            assert(digits[i] == whole[i]);
        }
    }
}

/// The line printed once per completed file is read with the percentage and
/// the path written in it, unless the path makes an error report of it.
pub proof fn file_progress_is_read(hundredths: nat, path: Seq<char>)
    requires
        one_line(path),
        !is_white_space(path[0]),
        !(contains_text(percent_text(hundredths) + "% "@ + path, "Encountered"@)
            && contains_text(percent_text(hundredths) + "% "@ + path, "Aborting"@)),
    ensures
        plain_event(percent_text(hundredths) + "% "@ + path) == Some(
            DownloadEventView::FileProgress { percent: of_hundredths(hundredths), path },
        ),
{
    let whole = decimal(hundredths / 100);
    let number = percent_text(hundredths);
    let line = number + "% "@ + path;
    let point = whole.len() as int;
    reveal_strlit("% ");
    decimal_is_digits(hundredths / 100);
    written_percent(hundredths);
    assert(is_digit(whole[0]));
    assert(line[0] == whole[0]);
    assert(white_run(line) == 0);
    assert(line.skip(0) =~= line);
    assert(super::lines::digits_end(line, 0, point)) by {
        assert forall|i: int| 0 <= i < point implies is_decimal_digit(#[trigger] line[i]) by {
            assert(line[i] == whole[i]);
            assert(is_digit(whole[i]));
        }
    }
    super::scan::digit_run_from(line, 0, point);
    assert(line[point] == '.');
    assert(line[point + 1] == number[point + 1]);
    assert(line[point + 2] == number[point + 2]);
    assert(line[point + 3] == '%');
    let gap_text = line.skip(point + 4);
    assert(gap_text[0] == ' ');
    assert(gap_text.drop_first() =~= path);
    assert(white_run(path) == 0);
    assert(white_run(gap_text) == 1);
    assert(line.skip(point + 5) =~= path);
    assert(line.subrange(0, point + 3) =~= number);
    assert(file_progress(line) == Some((number, path)));
    reveal_strlit("Using app branch: '");
    reveal_strlit("Downloading depot ");
    reveal_strlit("Processing depot ");
    reveal_strlit("Depot ");
    reveal_strlit("Total downloaded: ");
    reveal_strlit("STEAM GUARD! Please enter the auth code sent to the email at ");
    reveal_strlit("STEAM GUARD!");
    reveal_strlit("Error");
    not_begun(line, "Using app branch: '"@, 0);
    not_begun(line, "Downloading depot "@, 0);
    not_begun(line, "Processing depot "@, 0);
    not_begun(line, "STEAM GUARD! Please enter the auth code sent to the email at "@, 0);
    not_begun(line, "STEAM GUARD!"@, 0);
    not_begun(line, "Error"@, 0);
    assert forall|a: Seq<char>, b: Seq<char>, c: Seq<char>|
        !fills_three(line, depot_finished_parts(), a, b, c) && !fills_three(
            line,
            total_downloaded_parts(),
            a,
            b,
            c,
        ) by {
        if fills_three(line, depot_finished_parts(), a, b, c) {
            assert(line[0] == "Depot "@[0]);
        }
        if fills_three(line, total_downloaded_parts(), a, b, c) {
            assert(line[0] == "Total downloaded: "@[0]);
        }
    }
}

} // verus!
