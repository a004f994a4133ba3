//! What is shown of a run's progress, of its speeds and of QR codes.

use vstd::prelude::*;

use super::form::can_download;
use super::qr_code::{
    art_row, art_rows, is_plain_line, joined_lines_come_apart, line_length, lines_of,
};
use super::session::{first_dir, SessionView};
use super::speed_history::{
    after_phase, after_reading, empty_history, retained, shown_at, HistoryView,
};
use super::state::{DiskPhase, PendingControl, RunStatsView};
use super::status::{controls_of, progress_text, Measured};
use crate::decimal::decimal;
use crate::depot_downloader::progress::age;
use crate::text::{is_white_space, joined};
use crate::ui::format::{bytes_text, eta_text, tenths_text};

verus! {

/// The lines of a run that downloads hold, each under its own label, the
/// percentage, the time left, what came over the network of what is to come,
/// what is on disk of what is to be, the files done of all, and the speeds of
/// the network and of the disk.
pub proof fn lines_of_a_download(stats: RunStatsView, measured: Measured)
    requires
        !stats.is_verifying,
    ensures
        ({
            let lines = progress_text(stats, measured);
            &&& lines.len() == 7
            &&& lines[0] == "Progress: "@ + tenths_text(measured.percent_tenths as nat) + "%"@
            &&& lines[1] == "ETA: "@ + eta_text(measured.eta_seconds)
            &&& lines[2] == "Downloaded: "@ + bytes_text(stats.network_bytes as nat) + " of "@
                + bytes_text(stats.network_total_bytes as nat)
            &&& lines[3] == "Written to disk: "@ + bytes_text(
                stats.completed_uncompressed_bytes as nat,
            ) + " of "@ + bytes_text(stats.total_uncompressed_bytes as nat)
            &&& lines[4] == "Files: "@ + decimal(stats.files_done as nat) + " of "@ + decimal(
                stats.total_files as nat,
            )
            &&& lines[5] == "Download: "@ + bytes_text(measured.download_speed as nat) + "/s"@
            &&& lines[6] == "Disk: "@ + bytes_text(measured.disk_speed as nat) + "/s"@
        }),
{
    let lines = progress_text(stats, measured);
    assert(lines[5] =~= "Download: "@ + bytes_text(measured.download_speed as nat) + "/s"@);
    assert(lines[6] =~= "Disk: "@ + bytes_text(measured.disk_speed as nat) + "/s"@);
}

/// Those of a run that verifies hold what it has validated, the files and the
/// speed of the disk, and nothing of the network.
pub proof fn lines_of_a_validation(stats: RunStatsView, measured: Measured)
    requires
        stats.is_verifying,
    ensures
        ({
            let lines = progress_text(stats, measured);
            &&& lines.len() == 5
            &&& lines[0] == "Progress: "@ + tenths_text(measured.percent_tenths as nat) + "%"@
            &&& lines[1] == "ETA: "@ + eta_text(measured.eta_seconds)
            &&& lines[2] == "Validated: "@ + bytes_text(stats.completed_uncompressed_bytes as nat)
                + " of "@ + bytes_text(stats.total_uncompressed_bytes as nat)
            &&& lines[3] == "Files: "@ + decimal(stats.files_done as nat) + " of "@ + decimal(
                stats.total_files as nat,
            )
            &&& lines[4] == "Validate: "@ + bytes_text(measured.disk_speed as nat) + "/s"@
        }),
{
    let lines = progress_text(stats, measured);
    assert(lines[4] =~= "Validate: "@ + bytes_text(measured.disk_speed as nat) + "/s"@);
}

/// The disk is validating wherever the run is, downloading where bytes have
/// come and it is not, and doing nothing of note before that.
pub proof fn disk_phases_are_told_apart(stats: RunStatsView)
    ensures
        stats.disk_phase() == Some(DiskPhase::Verifying) <==> stats.is_verifying,
        stats.disk_phase() == Some(DiskPhase::Downloading) <==> !stats.is_verifying
            && stats.network_bytes > 0,
        stats.disk_phase() is None <==> !stats.is_verifying && stats.network_bytes == 0,
{
}

/// Entries leave from the front alone, only where they are more than 136
/// seconds old, and the first one that is not stops it.
pub proof fn only_old_entries_leave<R>(samples: Seq<(u64, Seq<R>)>, now: u64) -> (gone: int)
    ensures
        0 <= gone <= samples.len(),
        retained(samples, now) == samples.skip(gone),
        forall|i: int| 0 <= i < gone ==> now - (#[trigger] samples[i]).0 > 136_000_000_000,
        gone < samples.len() ==> now - samples[gone].0 <= 136_000_000_000,
    decreases samples.len(),
{
    if samples.len() > 0 && age(now, samples[0].0) > 136_000_000_000 {
        let rest = samples.drop_first();
        let later = only_old_entries_leave(rest, now);
        assert(samples.skip(later + 1) =~= rest.skip(later));
        assert forall|i: int| 0 <= i < later + 1 implies now - (#[trigger] samples[i]).0
            > 136_000_000_000 by {
            if i > 0 {
                assert(rest[i - 1] == samples[i]);
            }
        }
        if later < rest.len() {
            assert(rest[later] == samples[later + 1]);
        }
        later + 1
    } else {
        assert(samples.skip(0) =~= samples);
        0
    }
}

/// The readings of one second become one entry, at the time of the last of
/// them: in the first five seconds readings are passed over; after that they
/// are gathered from the first one on, in order, and put down together with the
/// one that comes a second after it or later.
pub proof fn readings_are_gathered<R>(history: HistoryView<R>, reading: R, now: u64)
    ensures
        ({
            let after = after_reading(history, reading, now);
            let begun = match history.pending {
                Some((started_at, _)) => started_at,
                None => now,
            };
            let gathered = match history.pending {
                Some((_, readings)) => readings.push(reading),
                None => seq![reading],
            };
            &&& after.reset_at == history.reset_at
            &&& now - history.reset_at < 5_000_000_000 ==> after == history
            &&& now - history.reset_at >= 5_000_000_000 && now - begun < 1_000_000_000 ==> {
                &&& after.samples == history.samples
                &&& after.pending == Some((begun, gathered))
            }
            &&& now - history.reset_at >= 5_000_000_000 && now - begun >= 1_000_000_000 ==> {
                &&& after.pending is None
                &&& after.samples == retained(history.samples.push((now, gathered)), now)
            }
        }),
{
}

/// A history starts over exactly where the disk's phase changes, with nothing
/// in it and its first five seconds before it.
pub proof fn history_starts_over_with_the_phase<R>(
    history: HistoryView<R>,
    last: Option<DiskPhase>,
    phase: Option<DiskPhase>,
    now: u64,
)
    ensures
        last == phase ==> after_phase(history, last, phase, now) == history,
        last != phase ==> {
            let after = after_phase(history, last, phase, now);
            &&& after.samples.len() == 0
            &&& after.pending is None
            &&& after.reset_at == now
        },
        empty_history::<R>(now).samples.len() == 0,
        empty_history::<R>(now).reset_at == now,
        empty_history::<R>(now).pending is None,
{
}

/// What is shown are the entries that do not lie ahead, in order, each by its
/// place and its age.
pub proof fn shown_entries_are_those_past<R>(
    samples: Seq<(u64, Seq<R>)>,
    now: u64,
    sample: (u64, Seq<R>),
)
    requires
        samples.len() <= usize::MAX,
    ensures
        sample.0 > now ==> shown_at(samples.push(sample), now) == shown_at(samples, now),
        sample.0 <= now ==> {
            let shown = shown_at(samples.push(sample), now);
            &&& shown.len() == shown_at(samples, now).len() + 1
            &&& shown.drop_last() == shown_at(samples, now)
            &&& shown.last().index == samples.len()
            &&& shown.last().age == now - sample.0
        },
        shown_at(Seq::<(u64, Seq<R>)>::empty(), now).len() == 0,
{
    assert(samples.push(sample).drop_last() =~= samples);
    assert(samples.push(sample).last() == sample);
    if sample.0 <= now {
        assert(shown_at(samples.push(sample), now).drop_last() =~= shown_at(samples, now));
    }
}

/// The buttons are open exactly where nothing was asked for, and only the
/// button that was pressed says so.
pub proof fn pressed_buttons_say_so(control: PendingControl)
    ensures
        !controls_of(None).2,
        controls_of(Some(control)).2,
        (controls_of(Some(control)).0 != controls_of(None).0) <==> control
            == PendingControl::Pausing,
        (controls_of(Some(control)).1 != controls_of(None).1) <==> control
            == PendingControl::Cancelling,
        controls_of(None).0 == "Pause"@,
        controls_of(None).1 == "Cancel"@,
{
    reveal_strlit("Pausing…");
    reveal_strlit("Pause");
    reveal_strlit("Cancelling…");
    reveal_strlit("Cancel");
    assert("Pausing…"@.len() == 8);
    assert("Pause"@.len() == 5);
    assert("Cancelling…"@.len() == 11);
    assert("Cancel"@.len() == 6);
}

/// A download can be asked for exactly where a game is chosen and the session
/// is idle, finished or failed.
pub proof fn downloads_are_asked_for_at_rest(session: SessionView)
    ensures
        can_download(session) <==> session.selected_app is Some && (session.run_state is Idle
            || session.run_state is Finished || session.run_state is Failed),
{
}

/// The directory used last comes before any other.
pub proof fn last_directory_comes_first(dir: Seq<char>, other: Option<Seq<char>>)
    ensures
        first_dir(Some(dir), other) == Some(dir),
        first_dir(None, other) == other,
{
}

/// Art drawn with each module twice as wide as it is high is read back as the
/// modules: a module is dark exactly where something stands.
pub proof fn art_is_read_back(row: Seq<bool>, line: Seq<char>)
    requires
        line.len() == 2 * row.len(),
        forall|i: int|
            0 <= i < row.len() ==> (#[trigger] row[i] <==> !is_white_space(line[2 * i])),
    ensures
        art_row(line) == row,
{
    assert(art_row(line) =~= row);
}

/// Rows of art that are joined by line ends are read one by one.
pub proof fn art_is_read_row_by_row(lines: Seq<Seq<char>>, i: int)
    requires
        0 <= i < lines.len(),
        forall|k: int| 0 <= k < lines.len() ==> is_plain_line(#[trigger] lines[k]),
    ensures
        art_rows(joined(lines, "\n"@)).len() == lines.len(),
        art_rows(joined(lines, "\n"@))[i] == art_row(lines[i]),
{
    joined_lines_come_apart(lines);
}

/// A line of art ends at its line feed, with a carriage return before it or
/// not, and what follows is read as if it stood alone.
pub proof fn art_lines_end_at_line_feeds(line: Seq<char>, rest: Seq<char>)
    requires
        is_plain_line(line),
    ensures
        lines_of(line + seq!['\n'] + rest) == seq![line] + lines_of(rest),
        lines_of(line + seq!['\r', '\n'] + rest) == seq![line] + lines_of(rest),
        lines_of(Seq::empty()) == Seq::<Seq<char>>::empty(),
        lines_of(line) == seq![line],
{
    let plain = line + seq!['\n'] + rest;
    let returned = line + seq!['\r', '\n'] + rest;
    line_ends_at(plain, line.len());
    assert(plain.take(line.len() as int) =~= line);
    assert(plain.skip(line.len() as int + 1) =~= rest);
    line_ends_at(returned, line.len() + 1);
    assert(returned.take(line.len() as int + 1) =~= line.push('\r'));
    assert(line.push('\r').drop_last() =~= line);
    assert(returned.skip(line.len() as int + 2) =~= rest);
    line_ends_at(line, line.len());
}

/// A line is as long as its first line feed is far on, or as the text.
proof fn line_ends_at(text: Seq<char>, end: nat)
    requires
        end <= text.len(),
        end < text.len() ==> text[end as int] == '\n',
        forall|i: int| 0 <= i < end ==> (#[trigger] text[i]) != '\n',
    ensures
        line_length(text) == end,
    decreases end,
{
    if end > 0 {
        let rest = text.skip(1);
        assert forall|i: int| 0 <= i < end - 1 implies (#[trigger] rest[i]) != '\n' by {
            assert(rest[i] == text[i + 1]);
        }
        assert(text[0] != '\n');
        line_ends_at(rest, (end - 1) as nat);
    }
}

} // verus!
