//! What a tracker's speeds, times and messages say of what it was told.

use vstd::prelude::*;

use super::parser::DownloadEventView;
use super::percent::{is_less, percent_hundredths_text, Percent};
use super::progress::{
    after_disk_sample, after_event, age, initial_tracker, recent, AuthPromptView, Eta,
    TrackerView,
};
use crate::decimal::decimal;

verus! {

/// Samples leave from the front alone, only where they are more than six
/// seconds old, and the first one that is not stops it.
pub proof fn only_old_samples_leave<T>(samples: Seq<(u64, T)>, now: u64) -> (gone: int)
    ensures
        0 <= gone <= samples.len(),
        recent(samples, now) == samples.skip(gone),
        forall|i: int| 0 <= i < gone ==> now - (#[trigger] samples[i]).0 > 6_000_000_000,
        gone < samples.len() ==> now - samples[gone].0 <= 6_000_000_000,
    decreases samples.len(),
{
    if samples.len() > 0 && age(now, samples[0].0) > 6_000_000_000 {
        let rest = samples.drop_first();
        let later = only_old_samples_leave(rest, now);
        assert(samples.skip(later + 1) =~= rest.skip(later));
        assert forall|i: int| 0 <= i < later + 1 implies now - (#[trigger] samples[i]).0
            > 6_000_000_000 by {
            if i > 0 {
                assert(rest[i - 1] == samples[i]);
            }
        }
        if later < rest.len() {
            assert(rest[later] == samples[later + 1]);
        }
        later + 1
    } else {
        assert(samples.skip(0) =~= samples);
        0
    }
}

/// A sample just taken is the newest one kept.
proof fn new_sample_is_kept<T>(samples: Seq<(u64, T)>, value: T, now: u64)
    ensures
        recent(samples.push((now, value)), now).len() > 0,
        recent(samples.push((now, value)), now).last() == (now, value),
{
    let all = samples.push((now, value));
    let gone = only_old_samples_leave(all, now);
    if gone == all.len() {
        assert(now - all[samples.len() as int].0 > 6_000_000_000);
    }
    assert(all.skip(gone).last() == all.last());
}

/// After a disk sample the newest one kept is that of what has arrived by now.
/// Where it is later and larger than the oldest one kept, the disk speed is
/// what was added between the two over the time between them, whatever had
/// arrived before; and otherwise it is the speed that was known.
pub proof fn disk_speed_is_the_growth(tracker: TrackerView, bytes_on_disk: u64, at: u64)
    ensures
        ({
            let after = after_disk_sample(tracker, bytes_on_disk, at);
            let kept = after.disk_samples;
            let (t0, b0) = kept[0];
            let (t1, b1) = kept[kept.len() - 1];
            &&& kept.len() > 0
            &&& (t1, b1) == (at, after.stats.downloaded_bytes)
            &&& t1 > t0 && b1 > b0 ==> {
                &&& after.stats.disk_speed.bytes == b1 - b0
                &&& after.stats.disk_speed.nanos == t1 - t0
            }
            &&& !(t1 > t0 && b1 > b0) ==> after.stats.disk_speed == tracker.stats.disk_speed
        }),
{
    let after = after_disk_sample(tracker, bytes_on_disk, at);
    new_sample_is_kept(tracker.disk_samples, after.stats.downloaded_bytes, at);
    assert(after.disk_samples.last() == after.disk_samples[after.disk_samples.len() - 1]);
}

/// The samples kept are those there were, with the newest behind them, without
/// the ones at the front that are more than six seconds old.
pub proof fn disk_samples_are_those_taken(tracker: TrackerView, bytes_on_disk: u64, at: u64)
    ensures
        ({
            let after = after_disk_sample(tracker, bytes_on_disk, at);
            let taken = tracker.disk_samples.push((at, after.stats.downloaded_bytes));
            exists|gone: int|
                {
                    &&& 0 <= gone <= taken.len()
                    &&& after.disk_samples == #[trigger] taken.skip(gone)
                    &&& forall|i: int|
                        0 <= i < gone ==> at - (#[trigger] taken[i]).0 > 6_000_000_000
                    &&& gone < taken.len() ==> at - taken[gone].0 <= 6_000_000_000
                }
        }),
{
    let after = after_disk_sample(tracker, bytes_on_disk, at);
    let taken = tracker.disk_samples.push((at, after.stats.downloaded_bytes));
    let gone = only_old_samples_leave(taken, at);
    assert(after.disk_samples == taken.skip(gone));
}

/// Where what arrives grows steadily, by `bytes` in `nanos`, the disk speed is
/// that pace, however much had arrived before the first sample.
pub proof fn steady_growth_is_its_pace(
    tracker: TrackerView,
    bytes_on_disk: u64,
    at: u64,
    bytes: nat,
    nanos: nat,
)
    requires
        bytes > 0,
        nanos > 0,
        ({
            let kept = after_disk_sample(tracker, bytes_on_disk, at).disk_samples;
            &&& kept[kept.len() - 1].0 > kept[0].0
            &&& forall|i: int|
                0 <= i < kept.len() ==> ((#[trigger] kept[i]).1 - kept[0].1) * nanos == bytes * (
                kept[i].0 - kept[0].0)
        }),
    ensures
        ({
            let speed = after_disk_sample(tracker, bytes_on_disk, at).stats.disk_speed;
            speed.bytes * nanos == bytes * speed.nanos
        }),
{
    let after = after_disk_sample(tracker, bytes_on_disk, at);
    let kept = after.disk_samples;
    disk_speed_is_the_growth(tracker, bytes_on_disk, at);
    let (t0, b0) = kept[0];
    let (t1, b1) = kept[kept.len() - 1];
    assert((b1 - b0) * nanos == bytes * (t1 - t0));
    assert(b1 > b0) by (nonlinear_arith)
        requires
            (b1 - b0) * nanos == bytes * (t1 - t0),
            t1 > t0,
            bytes > 0,
            nanos > 0,
    ;
}

/// A disk sample changes the sizes and the speeds, and nothing else but the
/// remaining time: not what the download is doing, what is asked, or how far
/// it is.
pub proof fn disk_samples_leave_the_rest(tracker: TrackerView, bytes_on_disk: u64, at: u64)
    ensures
        ({
            let after = after_disk_sample(tracker, bytes_on_disk, at);
            &&& after.stats.status_message == tracker.stats.status_message
            &&& after.stats.depots_seen == tracker.stats.depots_seen
            &&& after.stats.current_depot_id == tracker.stats.current_depot_id
            &&& after.stats.current_depot_percent == tracker.stats.current_depot_percent
            &&& after.stats.auth_prompt == tracker.stats.auth_prompt
            &&& after.stats.qr_code_ascii_art == tracker.stats.qr_code_ascii_art
            &&& after.stats.qr_resolved_username == tracker.stats.qr_resolved_username
            &&& after.stats.error_message == tracker.stats.error_message
            &&& after.stats.is_finished == tracker.stats.is_finished
            &&& after.stats.final_compressed_bytes == tracker.stats.final_compressed_bytes
            &&& after.stats.final_uncompressed_bytes == tracker.stats.final_uncompressed_bytes
            &&& after.stats.download_speed.speed == after.stats.disk_speed
            &&& after.stats.download_speed.compressed == tracker.compressed_from_finished_depots
            &&& after.stats.download_speed.uncompressed
                == tracker.uncompressed_from_finished_depots
            &&& after.percent_samples == tracker.percent_samples
            &&& after.compressed_from_finished_depots == tracker.compressed_from_finished_depots
            &&& after.uncompressed_from_finished_depots
                == tracker.uncompressed_from_finished_depots
        }),
{
}

/// A remaining time comes from the oldest and the newest percentage kept, and
/// the time between them: where the newer one is later and more. Without such
/// a pair the time known before stays.
pub proof fn remaining_time_is_projected(tracker: TrackerView, bytes_on_disk: u64, at: u64)
    ensures
        ({
            let after = after_disk_sample(tracker, bytes_on_disk, at);
            let kept = tracker.percent_samples;
            let (t0, p0) = kept[0];
            let (t1, p1) = kept[kept.len() - 1];
            if kept.len() > 0 && t1 > t0 && is_less(p0, p1) {
                after.stats.eta == Some(
                    Eta::Projected { elapsed_nanos: (t1 - t0) as u64, first: p0, last: p1 },
                )
            } else {
                after.stats.eta == tracker.stats.eta
            }
        }),
{
    if tracker.percent_samples.len() > 0 {
        assert(tracker.percent_samples.last() == tracker.percent_samples[tracker.percent_samples.len()
            - 1]);
    }
}

/// The percentage that an event tells.
pub open spec fn percent_told(event: DownloadEventView) -> Option<Percent> {
    match event {
        DownloadEventView::FileProgress { percent, .. } => Some(percent),
        DownloadEventView::OverallProgress { percent } => Some(
            Percent::Hundredths((100 * percent) as u64),
        ),
        _ => None,
    }
}

/// A percentage that is told is the depot's from then on and the newest one
/// kept, and the remaining time is projected from the oldest one kept to it,
/// where that is earlier and less.
pub proof fn percentages_are_projected(tracker: TrackerView, event: DownloadEventView, now: u64)
    requires
        percent_told(event) is Some,
    ensures
        ({
            let percent = percent_told(event).unwrap();
            let after = after_event(tracker, event, now);
            let kept = after.percent_samples;
            let told = tracker.percent_samples.push((now, percent));
            let (t0, p0) = kept[0];
            &&& after.stats.current_depot_percent == percent
            &&& kept.len() > 0
            &&& kept[kept.len() - 1] == (now, percent)
            &&& if now > t0 && is_less(p0, percent) {
                after.stats.eta == Some(
                    Eta::Projected { elapsed_nanos: (now - t0) as u64, first: p0, last: percent },
                )
            } else {
                after.stats.eta == tracker.stats.eta
            }
            &&& exists|gone: int|
                {
                    &&& 0 <= gone <= told.len()
                    &&& kept == #[trigger] told.skip(gone)
                    &&& forall|i: int|
                        0 <= i < gone ==> now - (#[trigger] told[i]).0 > 6_000_000_000
                    &&& gone < told.len() ==> now - told[gone].0 <= 6_000_000_000
                }
        }),
{
    let percent = percent_told(event).unwrap();
    let after = after_event(tracker, event, now);
    new_sample_is_kept(tracker.percent_samples, percent, now);
    let told = tracker.percent_samples.push((now, percent));
    assert(after.percent_samples == recent(told, now));
    assert(after.percent_samples.last() == after.percent_samples[after.percent_samples.len() - 1]);
    let gone = only_old_samples_leave(told, now);
    assert(after.percent_samples == told.skip(gone));
}

/// An event changes the percentage and its samples only where it tells one or
/// begins a depot, and the remaining time only where it tells a percentage or
/// ends the run.
pub proof fn other_events_leave_the_pace(tracker: TrackerView, event: DownloadEventView, now: u64)
    ensures
        ({
            let after = after_event(tracker, event, now);
            &&& percent_told(event) is None && !(event is ProcessingDepot) ==> {
                &&& after.stats.current_depot_percent == tracker.stats.current_depot_percent
                &&& after.percent_samples == tracker.percent_samples
            }
            &&& event is TotalDownloaded ==> after.stats.eta == Some(Eta::Zero)
            &&& percent_told(event) is None && !(event is TotalDownloaded) ==> after.stats.eta
                == tracker.stats.eta
            &&& !(event is DepotFinished) ==> {
                &&& after.stats.download_speed == tracker.stats.download_speed
                &&& after.compressed_from_finished_depots
                    == tracker.compressed_from_finished_depots
                &&& after.uncompressed_from_finished_depots
                    == tracker.uncompressed_from_finished_depots
            }
            &&& after.stats.disk_speed == tracker.stats.disk_speed
            &&& after.stats.downloaded_bytes == tracker.stats.downloaded_bytes
            &&& after.stats.total_size_estimate_bytes == tracker.stats.total_size_estimate_bytes
            &&& after.disk_samples == tracker.disk_samples
            &&& after.baseline_disk_bytes == tracker.baseline_disk_bytes
            &&& after.stats.qr_resolved_username == tracker.stats.qr_resolved_username
            &&& !(event is TotalDownloaded) ==> {
                &&& after.stats.is_finished == tracker.stats.is_finished
                &&& after.stats.final_compressed_bytes == tracker.stats.final_compressed_bytes
                &&& after.stats.final_uncompressed_bytes == tracker.stats.final_uncompressed_bytes
            }
            &&& !(event is ErrorLine) ==> after.stats.error_message == tracker.stats.error_message
            &&& !(event is ProcessingDepot) ==> {
                &&& after.stats.depots_seen == tracker.stats.depots_seen
                &&& !(event is DownloadingDepot) ==> after.stats.current_depot_id
                    == tracker.stats.current_depot_id
            }
        }),
{
}

/// A finished run shows the bytes of its summary: those compressed as
/// compressed, those uncompressed as uncompressed.
pub proof fn summary_is_shown(
    tracker: TrackerView,
    compressed_bytes: u64,
    uncompressed_bytes: u64,
    depot_count: u32,
    now: u64,
)
    ensures
        ({
            let after = after_event(
                tracker,
                DownloadEventView::TotalDownloaded {
                    compressed_bytes,
                    uncompressed_bytes,
                    depot_count,
                },
                now,
            );
            &&& after.stats.is_finished
            &&& after.stats.final_compressed_bytes == Some(compressed_bytes)
            &&& after.stats.final_uncompressed_bytes == Some(uncompressed_bytes)
        }),
{
}

/// What is asked is what the last question asks: a code from the
/// authenticator, one from an e-mail to the address told, a confirmation, or a
/// QR code to scan. A question leaves everything else, an earlier QR code and
/// the status included.
pub proof fn questions_are_shown(tracker: TrackerView, event: DownloadEventView, now: u64)
    ensures
        ({
            let after = after_event(tracker, event, now).stats;
            &&& event is SteamGuardCodeRequested ==> after.auth_prompt == Some(AuthPromptView::Code)
            &&& event matches DownloadEventView::SteamGuardEmailCodeRequested { email }
                ==> after.auth_prompt == Some(AuthPromptView::EmailCode { email })
            &&& event is SteamGuardConfirmationRequested ==> after.auth_prompt == Some(
                AuthPromptView::Confirmation,
            )
            &&& event matches DownloadEventView::QrCodeReady { ascii_art } ==> {
                &&& after.qr_code_ascii_art == Some(ascii_art)
                &&& after.auth_prompt == tracker.stats.auth_prompt
            }
            &&& event is SteamGuardCodeRequested || event is SteamGuardEmailCodeRequested
                || event is SteamGuardConfirmationRequested ==> after.qr_code_ascii_art
                == tracker.stats.qr_code_ascii_art
        }),
{
}

/// The status names the depot, the branch or the file that the event tells of,
/// and events that tell of none leave it.
pub proof fn status_names_what_was_told(tracker: TrackerView, event: DownloadEventView, now: u64)
    ensures
        ({
            let before = tracker.stats.status_message;
            let status = after_event(tracker, event, now).stats.status_message;
            match event {
                DownloadEventView::UsingBranch { branch } => status == "Using branch '"@ + branch
                    + "'"@,
                DownloadEventView::ProcessingDepot { depot_id } => status == "Processing depot "@
                    + decimal(depot_id as nat),
                DownloadEventView::DownloadingDepotManifest { depot_id } => status
                    == "Downloading manifest for depot "@ + decimal(depot_id as nat),
                DownloadEventView::DownloadingDepot { depot_id } => status == "Downloading depot "@
                    + decimal(depot_id as nat),
                DownloadEventView::FileProgress { percent, path } => status
                    == percent_hundredths_text(percent) + "% - "@ + path,
                DownloadEventView::DepotFinished { depot_id, .. } => status == "Finished depot "@
                    + decimal(depot_id as nat),
                DownloadEventView::TotalDownloaded { depot_count, .. } => status == "Done - "@
                    + decimal(depot_count as nat) + " depot(s) downloaded"@,
                _ => status == before,
            }
        }),
{
}

/// A finished depot's bytes count at once: the download speed is the disk speed
/// scaled by the compressed to the uncompressed bytes of all finished so far.
pub proof fn finished_depots_scale_the_speed(
    tracker: TrackerView,
    depot_id: u64,
    compressed_bytes: u64,
    uncompressed_bytes: u64,
    now: u64,
)
    requires
        tracker.compressed_from_finished_depots + compressed_bytes <= u64::MAX,
        tracker.uncompressed_from_finished_depots + uncompressed_bytes <= u64::MAX,
    ensures
        ({
            let after = after_event(
                tracker,
                DownloadEventView::DepotFinished { depot_id, compressed_bytes, uncompressed_bytes },
                now,
            );
            let speed = after.stats.download_speed;
            &&& speed.speed == tracker.stats.disk_speed
            &&& speed.compressed == tracker.compressed_from_finished_depots + compressed_bytes
            &&& speed.uncompressed == tracker.uncompressed_from_finished_depots + uncompressed_bytes
            &&& after.compressed_from_finished_depots == speed.compressed
            &&& after.uncompressed_from_finished_depots == speed.uncompressed
        }),
{
}

/// A tracker that was told nothing shows nothing: no depot, no bytes, no speed,
/// no time, no question and no error.
pub proof fn trackers_begin_with_nothing()
    ensures
        ({
            let tracker = initial_tracker();
            let stats = tracker.stats;
            &&& stats.status_message.len() == 0
            &&& stats.depots_seen == 0
            &&& stats.current_depot_id is None
            &&& stats.current_depot_percent == Percent::Hundredths(0)
            &&& stats.downloaded_bytes == 0
            &&& stats.total_size_estimate_bytes == 0
            &&& stats.disk_speed.bytes == 0
            &&& stats.disk_speed.nanos > 0
            &&& stats.download_speed.speed.bytes == 0
            &&& stats.download_speed.speed.nanos > 0
            &&& stats.download_speed.compressed == 0
            &&& stats.download_speed.uncompressed == 0
            &&& stats.eta is None
            &&& stats.auth_prompt is None
            &&& stats.qr_code_ascii_art is None
            &&& stats.qr_resolved_username is None
            &&& stats.error_message is None
            &&& !stats.is_finished
            &&& stats.final_compressed_bytes is None
            &&& stats.final_uncompressed_bytes is None
            &&& tracker.percent_samples.len() == 0
            &&& tracker.disk_samples.len() == 0
            &&& tracker.baseline_disk_bytes is None
            &&& tracker.compressed_from_finished_depots == 0
            &&& tracker.uncompressed_from_finished_depots == 0
        }),
{
}

} // verus!
