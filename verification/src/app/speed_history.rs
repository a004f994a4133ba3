//! The speeds of the last minutes, one entry per second. Times are counted in
//! nanoseconds from any fixed moment.

use vstd::prelude::*;

use std::collections::VecDeque;

use super::state::DiskPhase;
use crate::depot_downloader::progress::age;

verus! {

/// The span shown on the chart, in nanoseconds: two minutes.
pub const SPEED_HISTORY_SPAN: u64 = 120_000_000_000;

/// Extra history kept beyond the span: the chart's line and its smoothing both
/// extend slightly past the visible edge.
pub const HISTORY_PADDING: u64 = 16_000_000_000;

/// How long readings are collected into one entry. A single reading is noisy,
/// so each entry holds all of those seen during its second.
pub const SAMPLE_INTERVAL: u64 = 1_000_000_000;

/// How long readings are dropped after a reset: the moment right after one is
/// a ramp up from zero, not the steady speed.
pub const STARTUP_TRIM: u64 = 5_000_000_000;

/// The readings of about one second.
#[derive(Debug)]
pub struct SpeedSample<R> {
    pub at: u64,
    pub readings: Vec<R>,
}

/// The readings of the current second.
#[derive(Debug)]
struct PendingSample<R> {
    started_at: u64,
    readings: Vec<R>,
}

/// Speeds over time. What a reading is, and how an entry's readings are
/// averaged, is up to the user.
#[derive(Debug)]
pub struct SpeedHistory<R> {
    samples: VecDeque<SpeedSample<R>>,
    reset_at: u64,
    pending: Option<PendingSample<R>>,
}

/// What a history holds: its entries and their times, the time of the last
/// reset, and the readings of the current second with the time it began at.
#[verifier::ext_equal]
pub struct HistoryView<R> {
    pub samples: Seq<(u64, Seq<R>)>,
    pub reset_at: u64,
    pub pending: Option<(u64, Seq<R>)>,
}

impl<R> SpeedSample<R> {
    /// The entry's time and readings.
    pub open spec fn entry(self) -> (u64, Seq<R>) {
        (self.at, self.readings@)
    }
}

/// The entries with their readings as sequences.
pub open spec fn entries<R>(samples: Seq<SpeedSample<R>>) -> Seq<(u64, Seq<R>)> {
    samples.map_values(|sample: SpeedSample<R>| sample.entry())
}

impl<R> View for SpeedHistory<R> {
    type V = HistoryView<R>;

    closed spec fn view(&self) -> HistoryView<R> {
        HistoryView {
            samples: entries(self.samples@),
            reset_at: self.reset_at,
            pending: match self.pending {
                Some(pending) => Some((pending.started_at, pending.readings@)),
                None => None,
            },
        }
    }
}

/// The entries from the first one on that is not too old to be kept.
pub open spec fn retained<R>(samples: Seq<(u64, Seq<R>)>, now: u64) -> Seq<(u64, Seq<R>)>
    decreases samples.len(),
{
    if samples.len() > 0 && age(now, samples[0].0) > SPEED_HISTORY_SPAN + HISTORY_PADDING {
        retained(samples.drop_first(), now)
    } else {
        samples
    }
}

/// The history after a reading at `now`: nothing right after a reset; then the
/// reading is collected, and a second's readings become an entry.
pub open spec fn after_reading<R>(history: HistoryView<R>, reading: R, now: u64) -> HistoryView<R> {
    if age(now, history.reset_at) < STARTUP_TRIM {
        history
    } else {
        let (started_at, readings) = match history.pending {
            Some((started_at, readings)) => (started_at, readings.push(reading)),
            None => (now, seq![reading]),
        };
        if age(now, started_at) < SAMPLE_INTERVAL {
            HistoryView { pending: Some((started_at, readings)), ..history }
        } else {
            HistoryView {
                samples: retained(history.samples.push((now, readings)), now),
                pending: None,
                ..history
            }
        }
    }
}

/// A history without anything in it, reset at `now`.
pub open spec fn empty_history<R>(now: u64) -> HistoryView<R> {
    HistoryView { samples: Seq::empty(), reset_at: now, pending: None }
}

/// The history once the phase `last` was followed by `phase` at `now`: speeds
/// of different phases cannot be compared, so nothing is left of the earlier
/// one's.
pub open spec fn after_phase<R>(
    history: HistoryView<R>,
    last: Option<DiskPhase>,
    phase: Option<DiskPhase>,
    now: u64,
) -> HistoryView<R> {
    if last == phase {
        history
    } else {
        empty_history(now)
    }
}

/// How long before `now` something happened at `at`.
fn elapsed(now: u64, at: u64) -> (nanos: u64)
    ensures
        nanos == age(now, at),
{
    if now >= at {
        now - at
    } else {
        0
    }
}

/// An entry that is shown: its place in the history and its age.
#[derive(Debug, Clone, Copy, PartialEq, Eq, Structural)]
pub struct ShownSample {
    pub index: usize,
    pub age: u64,
}

/// The entries no newer than `now`, with their ages.
pub open spec fn shown_at<R>(samples: Seq<(u64, Seq<R>)>, now: u64) -> Seq<ShownSample>
    decreases samples.len(),
{
    if samples.len() == 0 {
        Seq::empty()
    } else {
        let before = shown_at(samples.drop_last(), now);
        if samples.last().0 <= now {
            before.push(
                ShownSample {
                    index: (samples.len() - 1) as usize,
                    age: age(now, samples.last().0),
                },
            )
        } else {
            before
        }
    }
}

impl<R> SpeedHistory<R> {
    /// An empty history, reset at `now`.
    pub fn new(now: u64) -> (history: Self)
        ensures
            history@ == empty_history::<R>(now),
    {
        let history = SpeedHistory { samples: VecDeque::new(), reset_at: now, pending: None };
        assert(history@.samples =~= Seq::empty());
        history
    }

    /// Takes a reading at `now`.
    pub fn push(&mut self, reading: R, now: u64)
        ensures
            final(self)@ == after_reading(old(self)@, reading, now),
    {
        if elapsed(now, self.reset_at) < STARTUP_TRIM {
            return;
        }
        let mut pending = match self.pending.take() {
            Some(pending) => pending,
            None => PendingSample { started_at: now, readings: Vec::new() },
        };
        let ghost known = pending.readings@;
        pending.readings.push(reading);
        assert(known.len() == 0 ==> pending.readings@ =~= seq![reading]);
        if elapsed(now, pending.started_at) < SAMPLE_INTERVAL {
            self.pending = Some(pending);
            return;
        }
        let ghost before = self.samples@;
        let sample = SpeedSample { at: now, readings: pending.readings };
        self.samples.push_back(sample);
        assert(entries(self.samples@) =~= entries(before).push((now, pending.readings@)));
        self.drop_old(now);
    }

    /// Drops the entries that are too old to be kept.
    fn drop_old(&mut self, now: u64)
        ensures
            final(self)@ == (HistoryView {
                samples: retained(old(self)@.samples, now),
                ..old(self)@
            }),
    {
        while self.samples.len() > 0 && elapsed(now, self.samples[0].at) > SPEED_HISTORY_SPAN
            + HISTORY_PADDING
            invariant
                self.reset_at == old(self).reset_at,
                self.pending == old(self).pending,
                retained(entries(self.samples@), now) == retained(old(self)@.samples, now),
            decreases self.samples@.len(),
        {
            let ghost all = entries(self.samples@);
            assert(all[0] == self.samples@[0].entry());
            self.samples.pop_front();
            assert(entries(self.samples@) =~= all.drop_first());
        }
        assert(self.samples@.len() > 0 ==> entries(self.samples@)[0] == self.samples@[0].entry());
    }

    /// Forgets everything, as of `now`.
    pub fn clear(&mut self, now: u64)
        ensures
            final(self)@ == empty_history::<R>(now),
    {
        self.samples.clear();
        self.reset_at = now;
        self.pending = None;
        assert(self@.samples =~= Seq::empty());
    }

    /// Forgets everything the moment the phase changes.
    pub fn enter_phase(&mut self, last: Option<DiskPhase>, phase: Option<DiskPhase>, now: u64)
        ensures
            final(self)@ == after_phase(old(self)@, last, phase, now),
    {
        let same = match (last, phase) {
            (None, None) => true,
            (Some(last), Some(phase)) => last == phase,
            _ => false,
        };
        if !same {
            self.clear(now);
        }
    }

    /// The entries, oldest first.
    pub fn samples(&self) -> (samples: &VecDeque<SpeedSample<R>>)
        ensures
            entries(samples@) == self@.samples,
    {
        &self.samples
    }

    /// The entries no newer than `now`, with their ages. Newer ones are left
    /// out rather than counted as of now, so that a chart whose time stands
    /// still shows an exact snapshot.
    pub fn shown(&self, now: u64) -> (shown: Vec<ShownSample>)
        ensures
            shown@ == shown_at(self@.samples, now),
    {
        let mut shown: Vec<ShownSample> = Vec::new();
        let ghost all = entries(self.samples@);
        let mut i: usize = 0;
        while i < self.samples.len()
            invariant
                i <= self.samples.len(),
                all == entries(self.samples@),
                shown@ == shown_at(all.take(i as int), now),
            decreases self.samples@.len() - i,
        {
            assert(all.take(i + 1).drop_last() =~= all.take(i as int));
            assert(all.take(i + 1).last() == self.samples@[i as int].entry());
            let at = self.samples[i].at;
            if at <= now {
                shown.push(ShownSample { index: i, age: elapsed(now, at) });
            }
            i = i + 1;
        }
        assert(all.take(i as int) =~= all);
        shown
    }
}

/// The times of entries never go back and end no later than `now`.
pub open spec fn in_time_order<R>(samples: Seq<(u64, Seq<R>)>, now: u64) -> bool {
    &&& forall|i: int, j: int|
        0 <= i <= j < samples.len() ==> (#[trigger] samples[i]).0 <= (#[trigger] samples[j]).0
    &&& forall|i: int| 0 <= i < samples.len() ==> (#[trigger] samples[i]).0 <= now
}

/// Right after a reset nothing is taken.
pub proof fn startup_is_trimmed<R>(history: HistoryView<R>, reading: R, now: u64)
    requires
        age(now, history.reset_at) < STARTUP_TRIM,
    ensures
        after_reading(history, reading, now) == history,
{
}

/// Taken in order, the entries that a new one leaves are in order, and none of
/// them is older than what is kept.
pub proof fn history_stays_in_its_span<R>(history: HistoryView<R>, reading: R, now: u64)
    requires
        in_time_order(history.samples, now),
        after_reading(history, reading, now).samples != history.samples,
    ensures
        ({
            let kept = after_reading(history, reading, now).samples;
            &&& in_time_order(kept, now)
            &&& forall|i: int|
                0 <= i < kept.len() ==> age(now, (#[trigger] kept[i]).0) <= SPEED_HISTORY_SPAN
                    + HISTORY_PADDING
        }),
{
    let readings = match history.pending {
        Some((_, readings)) => readings.push(reading),
        None => seq![reading],
    };
    let all = history.samples.push((now, readings));
    assert(in_time_order(all, now)) by {
        assert forall|i: int, j: int| 0 <= i <= j < all.len() implies (#[trigger] all[i]).0 <= (
        #[trigger] all[j]).0 by {
            if j < history.samples.len() {
                assert(history.samples[i].0 <= history.samples[j].0);
            }
        }
    }
    retained_is_in_the_span(all, now);
}

/// What is retained of entries in order is in order and in the span.
proof fn retained_is_in_the_span<R>(samples: Seq<(u64, Seq<R>)>, now: u64)
    requires
        in_time_order(samples, now),
    ensures
        in_time_order(retained(samples, now), now),
        forall|i: int|
            0 <= i < retained(samples, now).len() ==> age(
                now,
                (#[trigger] retained(samples, now)[i]).0,
            ) <= SPEED_HISTORY_SPAN + HISTORY_PADDING,
    decreases samples.len(),
{
    if samples.len() > 0 {
        if age(now, samples[0].0) > SPEED_HISTORY_SPAN + HISTORY_PADDING {
            let rest = samples.drop_first();
            assert forall|i: int, j: int| 0 <= i <= j < rest.len() implies (#[trigger] rest[i]).0
                <= (#[trigger] rest[j]).0 by {
                assert(samples[i + 1].0 <= samples[j + 1].0);
            }
            assert(forall|i: int| 0 <= i < rest.len() ==> rest[i] == samples[i + 1]);
            retained_is_in_the_span(rest, now);
        } else {
            assert forall|i: int| 0 <= i < samples.len() implies age(now, (#[trigger] samples[i]).0)
                <= SPEED_HISTORY_SPAN + HISTORY_PADDING by {
                assert(samples[0].0 <= samples[i].0);
            }
        }
    }
}

/// No reading is lost or invented on the way into an entry: it is the last of
/// the current second's readings, or of the newest entry's.
pub proof fn reading_ends_up_somewhere<R>(history: HistoryView<R>, reading: R, now: u64)
    requires
        age(now, history.reset_at) >= STARTUP_TRIM,
    ensures
        ({
            let after = after_reading(history, reading, now);
            ||| after.pending is Some && after.pending.unwrap().1.last() == reading
            ||| after.pending is None && after.samples.len() > 0 && after.samples.last().0 == now
                && after.samples.last().1.last() == reading
        }),
{
    let after = after_reading(history, reading, now);
    if after.pending is None {
        let readings = match history.pending {
            Some((_, readings)) => readings.push(reading),
            None => seq![reading],
        };
        retained_keeps_the_newest(history.samples.push((now, readings)), now);
    }
}

/// The newest entry is kept.
proof fn retained_keeps_the_newest<R>(samples: Seq<(u64, Seq<R>)>, now: u64)
    requires
        samples.len() > 0,
        samples.last().0 == now,
    ensures
        retained(samples, now).len() > 0,
        retained(samples, now).last() == samples.last(),
    decreases samples.len(),
{
    if age(now, samples[0].0) > SPEED_HISTORY_SPAN + HISTORY_PADDING {
        assert(samples.len() > 1) by {
            if samples.len() == 1 {
                assert(samples[0] == samples.last());
            }
        }
        assert(samples.drop_first().last() == samples.last());
        retained_keeps_the_newest(samples.drop_first(), now);
    }
}

} // verus!
