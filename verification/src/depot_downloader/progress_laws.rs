//! What holds of a tracker whatever it is told.

use vstd::arithmetic::div_mod::lemma_div_by_multiple;
use vstd::prelude::*;

use super::parser::DownloadEventView;
use super::percent::{factor_units, percent_units, share, single_units, Percent};
use super::progress::{
    after_disk_sample, after_event, age, fits, initial_tracker, recent, TrackerView, SAMPLE_WINDOW,
};
use crate::rounding::{
    as_double, bit_length, bit_length_bounds, excess_bits, nearest_even, powers_by_value, rounded,
    rounded_keeps_short_numbers, rounded_scales, two_to, two_to_adds, two_to_is_positive,
};

verus! {

/// An event that asks for something before a login goes on.
pub open spec fn asks_for_login(event: DownloadEventView) -> bool {
    ||| event is SteamGuardCodeRequested
    ||| event is SteamGuardEmailCodeRequested
    ||| event is SteamGuardConfirmationRequested
    ||| event is QrCodeReady
}

/// A Steam Guard prompt or a QR code is gone as soon as any output follows it
/// that asks for nothing itself: a branch, depot activity, an error, a summary
/// or a line that means nothing in particular.
pub proof fn activity_clears_login_prompts(
    tracker: TrackerView,
    event: DownloadEventView,
    now: u64,
)
    requires
        !asks_for_login(event),
    ensures
        after_event(tracker, event, now).stats.auth_prompt is None,
        after_event(tracker, event, now).stats.qr_code_ascii_art is None,
{
}

/// A run once finished stays finished.
pub proof fn finished_stays_finished(
    tracker: TrackerView,
    event: DownloadEventView,
    now: u64,
    bytes_on_disk: u64,
    at: u64,
)
    requires
        tracker.stats.is_finished,
    ensures
        after_event(tracker, event, now).stats.is_finished,
        after_disk_sample(tracker, bytes_on_disk, at).stats.is_finished,
{
}

/// The first sample of the download directory is the baseline: nothing that
/// was there before counts as downloaded.
pub proof fn first_disk_sample_counts_nothing(tracker: TrackerView, bytes_on_disk: u64, at: u64)
    requires
        tracker.baseline_disk_bytes is None,
    ensures
        after_disk_sample(tracker, bytes_on_disk, at).baseline_disk_bytes == Some(bytes_on_disk),
        after_disk_sample(tracker, bytes_on_disk, at).stats.total_size_estimate_bytes == 0,
        after_disk_sample(tracker, bytes_on_disk, at).stats.downloaded_bytes == 0,
{
    nothing_has_no_share(tracker.stats.current_depot_percent);
}

/// The baseline once set never changes, and only growth past it counts.
pub proof fn only_growth_past_the_baseline_counts(
    tracker: TrackerView,
    baseline: u64,
    event: DownloadEventView,
    now: u64,
    bytes_on_disk: u64,
    at: u64,
)
    requires
        tracker.baseline_disk_bytes == Some(baseline),
    ensures
        after_event(tracker, event, now).baseline_disk_bytes == Some(baseline),
        after_disk_sample(tracker, bytes_on_disk, at).baseline_disk_bytes == Some(baseline),
        after_disk_sample(tracker, bytes_on_disk, at).stats.total_size_estimate_bytes == if bytes_on_disk
            >= baseline {
            bytes_on_disk - baseline
        } else {
            0
        },
{
}

/// A disk speed once measured is never lost: no event changes it, and a disk
/// sample only ever puts another positive speed in its place.
pub proof fn disk_speed_is_never_lost(
    tracker: TrackerView,
    event: DownloadEventView,
    now: u64,
    bytes_on_disk: u64,
    at: u64,
)
    requires
        tracker.stats.disk_speed.bytes > 0,
    ensures
        after_event(tracker, event, now).stats.disk_speed == tracker.stats.disk_speed,
        after_disk_sample(tracker, bytes_on_disk, at).stats.disk_speed.bytes > 0,
{
}

/// A speed is always taken over some time: no operation makes a speed over
/// none.
pub proof fn speeds_are_taken_over_some_time(
    tracker: TrackerView,
    event: DownloadEventView,
    now: u64,
    bytes_on_disk: u64,
    at: u64,
)
    requires
        tracker.stats.disk_speed.nanos > 0,
        tracker.stats.download_speed.speed.nanos > 0,
    ensures
        after_event(tracker, event, now).stats.disk_speed.nanos > 0,
        after_event(tracker, event, now).stats.download_speed.speed.nanos > 0,
        after_disk_sample(tracker, bytes_on_disk, at).stats.disk_speed.nanos > 0,
        after_disk_sample(tracker, bytes_on_disk, at).stats.download_speed.speed.nanos > 0,
{
}

/// After a disk sample or a finished depot, the download speed is the disk
/// speed scaled by the bytes of all depots finished so far.
pub proof fn download_speed_is_scaled_disk_speed(
    tracker: TrackerView,
    depot_id: u64,
    compressed_bytes: u64,
    uncompressed_bytes: u64,
    now: u64,
    bytes_on_disk: u64,
    at: u64,
)
    requires
        fits(
            tracker,
            (DownloadEventView::DepotFinished { depot_id, compressed_bytes, uncompressed_bytes }),
        ),
    ensures
        ({
            let finished = after_event(
                tracker,
                DownloadEventView::DepotFinished { depot_id, compressed_bytes, uncompressed_bytes },
                now,
            );
            let sampled = after_disk_sample(finished, bytes_on_disk, at);
            &&& finished.stats.download_speed.speed == finished.stats.disk_speed
            &&& sampled.stats.download_speed.speed == sampled.stats.disk_speed
            &&& sampled.stats.download_speed.compressed
                == tracker.compressed_from_finished_depots + compressed_bytes
            &&& sampled.stats.download_speed.uncompressed
                == tracker.uncompressed_from_finished_depots + uncompressed_bytes
        }),
{
}

/// One thing that a tracker is told.
pub enum Step {
    Event { event: DownloadEventView, now: u64 },
    DiskSample { bytes_on_disk: u64, at: u64 },
}

/// A tracker after one thing that it is told.
pub open spec fn after_step(tracker: TrackerView, step: Step) -> TrackerView {
    match step {
        Step::Event { event, now } => after_event(tracker, event, now),
        Step::DiskSample { bytes_on_disk, at } => after_disk_sample(tracker, bytes_on_disk, at),
    }
}

/// A new tracker after all that it is told, in order.
pub open spec fn after_steps(steps: Seq<Step>) -> TrackerView
    decreases steps.len(),
{
    if steps.len() == 0 {
        initial_tracker()
    } else {
        after_step(after_steps(steps.drop_last()), steps.last())
    }
}

/// The event that is told, if it is one.
pub open spec fn event_of(step: Step) -> Option<DownloadEventView> {
    match step {
        Step::Event { event, .. } => Some(event),
        Step::DiskSample { .. } => None,
    }
}

/// A summary of the whole download is told.
pub open spec fn tells_the_total(step: Step) -> bool {
    event_of(step) matches Some(DownloadEventView::TotalDownloaded { .. })
}

/// How many depots were told to be processed.
pub open spec fn depots_processed(steps: Seq<Step>) -> nat
    decreases steps.len(),
{
    if steps.len() == 0 {
        0
    } else {
        depots_processed(steps.drop_last()) + if event_of(steps.last()) matches Some(
            DownloadEventView::ProcessingDepot { .. },
        ) {
            1nat
        } else {
            0
        }
    }
}

/// The compressed and uncompressed bytes of all depots told to be finished.
pub open spec fn bytes_finished(steps: Seq<Step>) -> (nat, nat)
    decreases steps.len(),
{
    if steps.len() == 0 {
        (0, 0)
    } else {
        let earlier = bytes_finished(steps.drop_last());
        match event_of(steps.last()) {
            Some(DownloadEventView::DepotFinished { compressed_bytes, uncompressed_bytes, .. }) => (
                earlier.0 + compressed_bytes as nat,
                earlier.1 + uncompressed_bytes as nat,
            ),
            _ => earlier,
        }
    }
}

/// The depot that was last told to be processed or downloaded.
pub open spec fn last_depot(steps: Seq<Step>) -> Option<u64>
    decreases steps.len(),
{
    if steps.len() == 0 {
        None
    } else {
        match event_of(steps.last()) {
            Some(DownloadEventView::ProcessingDepot { depot_id }) => Some(depot_id),
            Some(DownloadEventView::DownloadingDepot { depot_id }) => Some(depot_id),
            _ => last_depot(steps.drop_last()),
        }
    }
}

/// The error that was last told.
pub open spec fn last_error(steps: Seq<Step>) -> Option<Seq<char>>
    decreases steps.len(),
{
    if steps.len() == 0 {
        None
    } else {
        match event_of(steps.last()) {
            Some(DownloadEventView::ErrorLine { message }) => Some(message),
            _ => last_error(steps.drop_last()),
        }
    }
}

/// The bytes on disk that were sampled, in order.
pub open spec fn disk_sizes(steps: Seq<Step>) -> Seq<u64>
    decreases steps.len(),
{
    if steps.len() == 0 {
        Seq::empty()
    } else {
        let earlier = disk_sizes(steps.drop_last());
        match steps.last() {
            Step::DiskSample { bytes_on_disk, .. } => earlier.push(bytes_on_disk),
            Step::Event { .. } => earlier,
        }
    }
}

/// All numbers told can be counted and added up.
pub open spec fn counts_fit(steps: Seq<Step>) -> bool {
    &&& depots_processed(steps) <= u32::MAX
    &&& bytes_finished(steps).0 <= u64::MAX
    &&& bytes_finished(steps).1 <= u64::MAX
}

/// Over any run of events, with disk samples anywhere between them: it is
/// finished exactly where a summary was told, the depots seen are those told
/// to be processed, the current depot and the error are those told last, and
/// the finished depots' bytes add up.
pub proof fn run_is_summed_up(steps: Seq<Step>)
    requires
        counts_fit(steps),
    ensures
        after_steps(steps).stats.is_finished <==> exists|i: int|
            0 <= i < steps.len() && tells_the_total(#[trigger] steps[i]),
        after_steps(steps).stats.depots_seen == depots_processed(steps),
        after_steps(steps).stats.current_depot_id == last_depot(steps),
        after_steps(steps).stats.error_message == last_error(steps),
        after_steps(steps).compressed_from_finished_depots == bytes_finished(steps).0,
        after_steps(steps).uncompressed_from_finished_depots == bytes_finished(steps).1,
    decreases steps.len(),
{
    if steps.len() > 0 {
        let earlier = steps.drop_last();
        run_is_summed_up(earlier);
        let finished = exists|i: int| 0 <= i < steps.len() && tells_the_total(#[trigger] steps[i]);
        if tells_the_total(steps.last()) {
            assert(tells_the_total(steps[steps.len() - 1]));
        }
        if after_steps(earlier).stats.is_finished {
            let i = choose|i: int| 0 <= i < earlier.len() && tells_the_total(#[trigger] earlier[i]);
            assert(tells_the_total(steps[i]));
        }
        if finished && !tells_the_total(steps.last()) {
            let i = choose|i: int| 0 <= i < steps.len() && tells_the_total(#[trigger] steps[i]);
            assert(tells_the_total(earlier[i]));
        }
    }
}

/// A run whose numbers can be counted never stops a tracker: each event of it
/// fits what came before.
pub proof fn run_can_be_taken(steps: Seq<Step>, event: DownloadEventView, now: u64)
    requires
        counts_fit(steps.push(Step::Event { event, now })),
    ensures
        fits(after_steps(steps), event),
{
    let told = steps.push(Step::Event { event, now });
    assert(told.drop_last() =~= steps);
    run_is_summed_up(steps);
}

/// Over any run, only the first and the last disk sample say how large the
/// download is: what the last holds more than the first, whatever lies
/// between. Right after a sample, what has arrived is the depot's share of
/// that.
pub proof fn first_and_last_sample_count(steps: Seq<Step>)
    ensures
        ({
            let sizes = disk_sizes(steps);
            let tracker = after_steps(steps);
            let estimate = tracker.stats.total_size_estimate_bytes;
            if sizes.len() == 0 {
                tracker.baseline_disk_bytes is None && estimate == 0
            } else {
                &&& tracker.baseline_disk_bytes == Some(sizes[0])
                &&& estimate == if sizes.last() >= sizes[0] {
                    sizes.last() - sizes[0]
                } else {
                    0
                }
                &&& steps.last() is DiskSample ==> tracker.stats.downloaded_bytes == share(
                    tracker.stats.current_depot_percent,
                    estimate as nat,
                ) as u64
            }
        }),
    decreases steps.len(),
{
    if steps.len() > 0 {
        first_and_last_sample_count(steps.drop_last());
    }
}

/// Times that never go back and end no later than `now`.
pub open spec fn in_order<T>(samples: Seq<(u64, T)>, now: u64) -> bool {
    &&& forall|i: int, j: int|
        0 <= i <= j < samples.len() ==> (#[trigger] samples[i]).0 <= (#[trigger] samples[j]).0
    &&& forall|i: int| 0 <= i < samples.len() ==> (#[trigger] samples[i]).0 <= now
}

/// What is recent of samples in order stays in order, lies in the window, and
/// keeps the newest sample.
pub proof fn recent_lies_in_the_window<T>(samples: Seq<(u64, T)>, now: u64)
    requires
        in_order(samples, now),
        samples.len() > 0,
        samples.last().0 == now,
    ensures
        in_order(recent(samples, now), now),
        recent(samples, now).len() > 0,
        recent(samples, now).last() == samples.last(),
        forall|i: int|
            0 <= i < recent(samples, now).len() ==> age(now, (#[trigger] recent(samples, now)[i]).0)
                <= SAMPLE_WINDOW,
    decreases samples.len(),
{
    if age(now, samples[0].0) > SAMPLE_WINDOW {
        let rest = samples.drop_first();
        assert(samples.len() > 1) by {
            if samples.len() == 1 {
                assert(samples[0] == samples.last());
            }
        }
        assert(forall|i: int| 0 <= i < rest.len() ==> rest[i] == samples[i + 1]);
        assert(in_order(rest, now)) by {
            assert forall|i: int, j: int| 0 <= i <= j < rest.len() implies (#[trigger] rest[i]).0
                <= (#[trigger] rest[j]).0 by {
                assert(samples[i + 1].0 <= samples[j + 1].0);
            }
        }
        assert(rest.last() == samples.last());
        recent_lies_in_the_window(rest, now);
    }
}

/// Sampled in order, the tracker keeps its disk samples in order, and those
/// that it keeps all lie within the window.
pub proof fn disk_samples_stay_in_the_window(tracker: TrackerView, bytes_on_disk: u64, at: u64)
    requires
        in_order(tracker.disk_samples, at),
    ensures
        ({
            let kept = after_disk_sample(tracker, bytes_on_disk, at).disk_samples;
            &&& in_order(kept, at)
            &&& kept.len() > 0
            &&& forall|i: int|
                0 <= i < kept.len() ==> age(at, (#[trigger] kept[i]).0) <= SAMPLE_WINDOW
        }),
{
    let downloaded = after_disk_sample(tracker, bytes_on_disk, at).stats.downloaded_bytes;
    let samples = tracker.disk_samples.push((at, downloaded));
    assert(in_order(samples, at)) by {
        assert forall|i: int, j: int| 0 <= i <= j < samples.len() implies (#[trigger] samples[i]).0
            <= (#[trigger] samples[j]).0 by {
            if j < tracker.disk_samples.len() {
                assert(tracker.disk_samples[i].0 <= tracker.disk_samples[j].0);
            }
        }
    }
    recent_lies_in_the_window(samples, at);
}

/// A new depot starts from nothing: no percentage, and no projection from the
/// percentages of the depot before it.
pub proof fn new_depot_starts_over(tracker: TrackerView, depot_id: u64, now: u64)
    ensures
        ({
            let begun = after_event(tracker, DownloadEventView::ProcessingDepot { depot_id }, now);
            &&& begun.stats.current_depot_id == Some(depot_id)
            &&& begun.stats.current_depot_percent == Percent::Hundredths(0)
            &&& begun.percent_samples.len() == 0
        }),
{
}

/// No percentage of nothing is more than nothing.
pub proof fn nothing_has_no_share(percent: Percent)
    ensures
        share(percent, 0) == 0,
{
    powers_by_value();
    rounded_keeps_short_numbers(0, 53);
    assert(factor_units(percent_units(percent)) * 0 == 0) by (nonlinear_arith);
    two_to_is_positive(66);
    assert(0nat / two_to(66) == 0) by (nonlinear_arith)
        requires
            two_to(66) > 0,
    ;
}

/// A number that is a multiple of the rounding step stays what it is.
proof fn rounded_keeps_multiples(n: nat, den: nat, precision: nat, times: nat)
    requires
        den > 0,
        n == den * two_to(excess_bits(n / den, precision)) * times,
    ensures
        rounded(n, den, precision) == times * two_to(excess_bits(n / den, precision)),
{
    let step = den * two_to(excess_bits(n / den, precision));
    two_to_is_positive(excess_bits(n / den, precision));
    assert(step > 0) by (nonlinear_arith)
        requires
            den > 0,
            two_to(excess_bits(n / den, precision)) > 0,
            step == den * two_to(excess_bits(n / den, precision)),
    ;
    assert(n == times * step + 0) by (nonlinear_arith)
        requires
            n == step * times,
    ;
    vstd::arithmetic::div_mod::lemma_fundamental_div_mod_converse(
        n as int,
        step as int,
        times as int,
        0,
    );
}

/// Rounding a number to 53 bits a second time changes nothing.
pub proof fn doubles_stay_what_they_are(n: nat)
    ensures
        rounded(as_double(n), 1, 53) == as_double(n),
{
    let excess = excess_bits(n / 1, 53);
    let step = two_to(excess);
    let times = nearest_even(n, 1 * step);
    assert(1 * step == step);
    assert(n / 1 == n);
    two_to_is_positive(excess);
    two_to_is_positive(53);
    assert(times <= two_to(53)) by {
        bit_length_bounds(n, 53 + excess);
        two_to_adds(53, excess);
        assert(n / step < two_to(53)) by (nonlinear_arith)
            requires
                n < two_to(53) * step,
                step > 0,
        ;
    }
    rounded_scales(times, excess, 53);
    if times < two_to(53) {
        bit_length_bounds(times, 53);
        rounded_keeps_short_numbers(times, 53);
    } else {
        rounded_scales(1, 53, 53);
        assert(1 * two_to(53) == times);
        assert(bit_length(1) == 1) by {
            reveal_with_fuel(bit_length, 3);
        }
        rounded_keeps_short_numbers(1, 53);
    }
}

/// All of a total is the total, as far as floating point precision holds it.
pub proof fn whole_share_is_the_total(total: nat)
    requires
        total <= u64::MAX,
    ensures
        share(Percent::Hundredths(10000), total) == if as_double(total) <= u64::MAX {
            as_double(total)
        } else {
            u64::MAX as nat
        },
        total < two_to(53) ==> share(Percent::Hundredths(10000), total) == total,
{
    powers_by_value();
    // One hundred percent, in units of two to the power of -30.
    let single = 100 * two_to(30);
    assert(single_units(10000) == single) by {
        let n = 10000 * two_to(30);
        assert(n / 100 == single);
        two_to_adds(7, 30);
        assert(two_to(6) == 64 && two_to(7) == 128) by {
            reveal_with_fuel(two_to, 8);
        }
        two_to_adds(6, 30);
        bit_length_bounds(single, 37);
        bit_length_bounds(single, 36);
        assert(excess_bits(n / 100, 24) == 13);
        two_to_adds(13, 17);
        let unit = two_to(13);
        let times = 100 * two_to(17);
        assert(n == 100 * unit * times) by (nonlinear_arith)
            requires
                n == 10000 * two_to(30),
                unit * two_to(17) == two_to(30),
                times == 100 * two_to(17),
        ;
        rounded_keeps_multiples(n, 100, 24, times);
        assert(times * unit == single) by (nonlinear_arith)
            requires
                times == 100 * two_to(17),
                unit * two_to(17) == two_to(30),
                single == 100 * two_to(30),
        ;
    }
    assert(factor_units(single_units(10000)) == two_to(66)) by {
        let n = single * two_to(36);
        two_to_adds(30, 36);
        assert(n == 100 * two_to(66)) by (nonlinear_arith)
            requires
                n == single * two_to(36),
                single == 100 * two_to(30),
                two_to(30) * two_to(36) == two_to(66),
        ;
        assert(n / 100 == two_to(66));
        assert(two_to(67) == 2 * two_to(66));
        two_to_is_positive(66);
        bit_length_bounds(two_to(66), 67);
        bit_length_bounds(two_to(66), 66);
        assert(excess_bits(n / 100, 53) == 14);
        two_to_adds(14, 52);
        assert(n == 100 * two_to(14) * two_to(52)) by (nonlinear_arith)
            requires
                n == 100 * two_to(66),
                two_to(14) * two_to(52) == two_to(66),
        ;
        rounded_keeps_multiples(n, 100, 53, two_to(52));
        assert(two_to(52) * two_to(14) == two_to(66)) by (nonlinear_arith)
            requires
                two_to(14) * two_to(52) == two_to(66),
        ;
    }
    let size = as_double(total);
    rounded_scales(size, 66, 53);
    doubles_stay_what_they_are(total);
    assert(two_to(66) * size == size * two_to(66)) by (nonlinear_arith);
    two_to_is_positive(66);
    lemma_div_by_multiple(size as int, two_to(66) as int);
    if total < two_to(53) {
        bit_length_bounds(total, 53);
        rounded_keeps_short_numbers(total, 53);
    }
}

} // verus!
