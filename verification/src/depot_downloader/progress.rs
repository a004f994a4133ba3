//! What a download's events and disk samples say about its progress.

use vstd::prelude::*;

use std::collections::VecDeque;

use super::parser::{DownloadEvent, DownloadEventView};
use super::percent::{is_less, percent_hundredths_text, share, Percent};
use crate::decimal::{decimal, push_decimal};

verus! {

/// How much history is kept for smoothing speeds and the remaining time, in
/// nanoseconds: six seconds.
pub const SAMPLE_WINDOW: u64 = 6_000_000_000;

/// What Steam asks for before a login goes on.
#[derive(Debug, Clone, PartialEq, Eq)]
pub enum AuthPrompt {
    Code,
    EmailCode { email: String },
    Confirmation,
}

/// A login prompt with its text as a sequence of characters.
pub enum AuthPromptView {
    Code,
    EmailCode { email: Seq<char> },
    Confirmation,
}

impl View for AuthPrompt {
    type V = AuthPromptView;

    open spec fn view(&self) -> AuthPromptView {
        match *self {
            AuthPrompt::Code => AuthPromptView::Code,
            AuthPrompt::EmailCode { email } => AuthPromptView::EmailCode { email: email@ },
            AuthPrompt::Confirmation => AuthPromptView::Confirmation,
        }
    }
}

/// A speed: `bytes` in `nanos` nanoseconds.
#[derive(Debug, Clone, Copy, PartialEq, Eq, Structural)]
pub struct Speed {
    pub bytes: u64,
    pub nanos: u64,
}

/// A speed scaled by the ratio of compressed to uncompressed bytes; by one
/// where no uncompressed bytes are known.
#[derive(Debug, Clone, Copy, PartialEq, Eq, Structural)]
pub struct ScaledSpeed {
    pub speed: Speed,
    pub compressed: u64,
    pub uncompressed: u64,
}

/// A remaining time: none, or that of the percentage still missing at the
/// pace from `first` to `last` in `elapsed_nanos` nanoseconds.
#[derive(Debug, Clone, Copy, PartialEq, Eq, Structural)]
pub enum Eta {
    Zero,
    Projected { elapsed_nanos: u64, first: Percent, last: Percent },
}

/// A snapshot of a download.
#[derive(Debug, Clone)]
pub struct DownloadStats {
    pub status_message: String,
    pub depots_seen: u32,
    pub current_depot_id: Option<u64>,
    /// The current depot's own completion percentage. DepotDownloader resets
    /// this per depot, so it is not the whole run's percentage when an app has
    /// more than one depot to fetch.
    pub current_depot_percent: Percent,
    /// Estimated bytes downloaded so far for the current depot: the allocated
    /// total combined with the depot's completion percentage.
    pub downloaded_bytes: u64,
    /// Bytes allocated on disk for the current download, net of whatever was
    /// in the destination directory before.
    pub total_size_estimate_bytes: u64,
    pub disk_speed: Speed,
    /// Estimated network throughput: measured disk speed scaled by the
    /// compressed/uncompressed ratio observed on depots finished so far.
    pub download_speed: ScaledSpeed,
    pub eta: Option<Eta>,
    pub auth_prompt: Option<AuthPrompt>,
    pub qr_code_ascii_art: Option<String>,
    pub qr_resolved_username: Option<String>,
    pub error_message: Option<String>,
    pub is_finished: bool,
    pub final_compressed_bytes: Option<u64>,
    pub final_uncompressed_bytes: Option<u64>,
}

/// A snapshot with its texts as sequences of characters.
#[verifier::ext_equal]
pub struct StatsView {
    pub status_message: Seq<char>,
    pub depots_seen: u32,
    pub current_depot_id: Option<u64>,
    pub current_depot_percent: Percent,
    pub downloaded_bytes: u64,
    pub total_size_estimate_bytes: u64,
    pub disk_speed: Speed,
    pub download_speed: ScaledSpeed,
    pub eta: Option<Eta>,
    pub auth_prompt: Option<AuthPromptView>,
    pub qr_code_ascii_art: Option<Seq<char>>,
    pub qr_resolved_username: Option<Seq<char>>,
    pub error_message: Option<Seq<char>>,
    pub is_finished: bool,
    pub final_compressed_bytes: Option<u64>,
    pub final_uncompressed_bytes: Option<u64>,
}

/// The view of an optional text.
pub open spec fn optional_text(text: Option<String>) -> Option<Seq<char>> {
    match text {
        Some(text) => Some(text@),
        None => None,
    }
}

/// The view of an optional login prompt.
pub open spec fn optional_prompt(prompt: Option<AuthPrompt>) -> Option<AuthPromptView> {
    match prompt {
        Some(prompt) => Some(prompt@),
        None => None,
    }
}

impl View for DownloadStats {
    type V = StatsView;

    open spec fn view(&self) -> StatsView {
        StatsView {
            status_message: self.status_message@,
            depots_seen: self.depots_seen,
            current_depot_id: self.current_depot_id,
            current_depot_percent: self.current_depot_percent,
            downloaded_bytes: self.downloaded_bytes,
            total_size_estimate_bytes: self.total_size_estimate_bytes,
            disk_speed: self.disk_speed,
            download_speed: self.download_speed,
            eta: self.eta,
            auth_prompt: optional_prompt(self.auth_prompt),
            qr_code_ascii_art: optional_text(self.qr_code_ascii_art),
            qr_resolved_username: optional_text(self.qr_resolved_username),
            error_message: optional_text(self.error_message),
            is_finished: self.is_finished,
            final_compressed_bytes: self.final_compressed_bytes,
            final_uncompressed_bytes: self.final_uncompressed_bytes,
        }
    }
}

/// The speed of nothing at all.
pub open spec fn no_speed() -> Speed {
    Speed { bytes: 0, nanos: 1 }
}

/// The snapshot before anything has happened.
pub open spec fn initial_stats() -> StatsView {
    StatsView {
        status_message: Seq::empty(),
        depots_seen: 0,
        current_depot_id: None,
        current_depot_percent: Percent::Hundredths(0),
        downloaded_bytes: 0,
        total_size_estimate_bytes: 0,
        disk_speed: no_speed(),
        download_speed: ScaledSpeed { speed: no_speed(), compressed: 0, uncompressed: 0 },
        eta: None,
        auth_prompt: None,
        qr_code_ascii_art: None,
        qr_resolved_username: None,
        error_message: None,
        is_finished: false,
        final_compressed_bytes: None,
        final_uncompressed_bytes: None,
    }
}

impl Default for DownloadStats {
    fn default() -> (stats: DownloadStats)
        ensures
            stats@ == initial_stats(),
    {
        let speed = Speed { bytes: 0, nanos: 1 };
        DownloadStats {
            status_message: String::new(),
            depots_seen: 0,
            current_depot_id: None,
            current_depot_percent: Percent::Hundredths(0),
            downloaded_bytes: 0,
            total_size_estimate_bytes: 0,
            disk_speed: speed,
            download_speed: ScaledSpeed { speed, compressed: 0, uncompressed: 0 },
            eta: None,
            auth_prompt: None,
            qr_code_ascii_art: None,
            qr_resolved_username: None,
            error_message: None,
            is_finished: false,
            final_compressed_bytes: None,
            final_uncompressed_bytes: None,
        }
    }
}

/// What a tracker knows.
#[verifier::ext_equal]
pub struct TrackerView {
    pub stats: StatsView,
    /// Percentages with the time they were seen at, oldest first.
    pub percent_samples: Seq<(u64, Percent)>,
    /// Byte counts with the time they were seen at, oldest first.
    pub disk_samples: Seq<(u64, u64)>,
    /// Bytes on disk when sampling started.
    pub baseline_disk_bytes: Option<u64>,
    pub compressed_from_finished_depots: u64,
    pub uncompressed_from_finished_depots: u64,
}

/// How long before `now` something happened at `at`; nothing lies ahead.
pub open spec fn age(now: u64, at: u64) -> u64 {
    if now >= at {
        (now - at) as u64
    } else {
        0
    }
}

/// The samples from the first one on that is no older than the window.
pub open spec fn recent<T>(samples: Seq<(u64, T)>, now: u64) -> Seq<(u64, T)>
    decreases samples.len(),
{
    if samples.len() > 0 && age(now, samples[0].0) > SAMPLE_WINDOW {
        recent(samples.drop_first(), now)
    } else {
        samples
    }
}

/// The snapshot without login prompts.
pub open spec fn without_prompts(stats: StatsView) -> StatsView {
    StatsView { auth_prompt: None, qr_code_ascii_art: None, ..stats }
}

/// The remaining time that percentage samples project: where the percentage
/// has grown from the oldest to the newest over some time.
pub open spec fn projected_eta(samples: Seq<(u64, Percent)>) -> Option<Eta> {
    if samples.len() == 0 {
        None
    } else {
        let elapsed = age(samples.last().0, samples[0].0);
        let first = samples[0].1;
        let last = samples.last().1;
        if elapsed > 0 && is_less(first, last) {
            Some(Eta::Projected { elapsed_nanos: elapsed, first, last })
        } else {
            None
        }
    }
}

/// The tracker with the remaining time that its samples project, if any.
pub open spec fn with_eta(tracker: TrackerView) -> TrackerView {
    match projected_eta(tracker.percent_samples) {
        Some(eta) => TrackerView {
            stats: StatsView { eta: Some(eta), ..tracker.stats },
            ..tracker
        },
        None => tracker,
    }
}

/// The tracker with its download speed brought up to date.
pub open spec fn with_download_speed(tracker: TrackerView) -> TrackerView {
    TrackerView {
        stats: StatsView {
            download_speed: ScaledSpeed {
                speed: tracker.stats.disk_speed,
                compressed: tracker.compressed_from_finished_depots,
                uncompressed: tracker.uncompressed_from_finished_depots,
            },
            ..tracker.stats
        },
        ..tracker
    }
}

/// The tracker after a percentage was seen at `now`.
pub open spec fn with_percent_sample(tracker: TrackerView, percent: Percent, now: u64) -> TrackerView {
    with_eta(
        TrackerView {
            percent_samples: recent(tracker.percent_samples.push((now, percent)), now),
            ..tracker
        },
    )
}

/// The tracker after an event at `now`.
pub open spec fn after_event(tracker: TrackerView, event: DownloadEventView, now: u64) -> TrackerView {
    let stats = tracker.stats;
    match event {
        DownloadEventView::UsingBranch { branch } => TrackerView {
            stats: without_prompts(
                StatsView { status_message: "Using branch '"@ + branch + "'"@, ..stats },
            ),
            ..tracker
        },
        DownloadEventView::ProcessingDepot { depot_id } => TrackerView {
            stats: without_prompts(
                StatsView {
                    depots_seen: (stats.depots_seen + 1) as u32,
                    current_depot_id: Some(depot_id),
                    current_depot_percent: Percent::Hundredths(0),
                    status_message: "Processing depot "@ + decimal(depot_id as nat),
                    ..stats
                },
            ),
            percent_samples: Seq::empty(),
            ..tracker
        },
        DownloadEventView::DownloadingDepotManifest { depot_id } => TrackerView {
            stats: without_prompts(
                StatsView {
                    status_message: "Downloading manifest for depot "@ + decimal(depot_id as nat),
                    ..stats
                },
            ),
            ..tracker
        },
        DownloadEventView::DownloadingDepot { depot_id } => TrackerView {
            stats: without_prompts(
                StatsView {
                    current_depot_id: Some(depot_id),
                    status_message: "Downloading depot "@ + decimal(depot_id as nat),
                    ..stats
                },
            ),
            ..tracker
        },
        DownloadEventView::FileProgress { percent, path } => {
            let sampled = with_percent_sample(
                TrackerView {
                    stats: StatsView {
                        current_depot_percent: percent,
                        status_message: percent_hundredths_text(percent) + "% - "@
                            + path,
                        ..stats
                    },
                    ..tracker
                },
                percent,
                now,
            );
            TrackerView { stats: without_prompts(sampled.stats), ..sampled }
        },
        DownloadEventView::OverallProgress { percent } => {
            let percent = Percent::Hundredths((percent * 100) as u64);
            let sampled = with_percent_sample(
                TrackerView {
                    stats: StatsView { current_depot_percent: percent, ..stats },
                    ..tracker
                },
                percent,
                now,
            );
            TrackerView { stats: without_prompts(sampled.stats), ..sampled }
        },
        DownloadEventView::DepotFinished { depot_id, compressed_bytes, uncompressed_bytes } =>
            with_download_speed(
            TrackerView {
                stats: without_prompts(
                    StatsView {
                        status_message: "Finished depot "@ + decimal(depot_id as nat),
                        ..stats
                    },
                ),
                compressed_from_finished_depots: (tracker.compressed_from_finished_depots
                    + compressed_bytes) as u64,
                uncompressed_from_finished_depots: (tracker.uncompressed_from_finished_depots
                    + uncompressed_bytes) as u64,
                ..tracker
            },
        ),
        DownloadEventView::TotalDownloaded { compressed_bytes, uncompressed_bytes, depot_count } =>
            TrackerView {
            stats: without_prompts(
                StatsView {
                    is_finished: true,
                    final_compressed_bytes: Some(compressed_bytes),
                    final_uncompressed_bytes: Some(uncompressed_bytes),
                    eta: Some(Eta::Zero),
                    status_message: "Done - "@ + decimal(depot_count as nat)
                        + " depot(s) downloaded"@,
                    ..stats
                },
            ),
            ..tracker
        },
        DownloadEventView::SteamGuardCodeRequested => TrackerView {
            stats: StatsView { auth_prompt: Some(AuthPromptView::Code), ..stats },
            ..tracker
        },
        DownloadEventView::SteamGuardEmailCodeRequested { email } => TrackerView {
            stats: StatsView { auth_prompt: Some(AuthPromptView::EmailCode { email }), ..stats },
            ..tracker
        },
        DownloadEventView::SteamGuardConfirmationRequested => TrackerView {
            stats: StatsView { auth_prompt: Some(AuthPromptView::Confirmation), ..stats },
            ..tracker
        },
        DownloadEventView::QrCodeReady { ascii_art } => TrackerView {
            stats: StatsView { qr_code_ascii_art: Some(ascii_art), ..stats },
            ..tracker
        },
        DownloadEventView::ErrorLine { message } => TrackerView {
            stats: without_prompts(StatsView { error_message: Some(message), ..stats }),
            ..tracker
        },
        DownloadEventView::OtherOutput => TrackerView { stats: without_prompts(stats), ..tracker },
    }
}

/// The disk speed that byte samples measure, or `known` where they show no
/// growth over some time.
pub open spec fn measured_speed(samples: Seq<(u64, u64)>, known: Speed) -> Speed {
    if samples.len() == 0 {
        known
    } else {
        let elapsed = age(samples.last().0, samples[0].0);
        let first = samples[0].1;
        let last = samples.last().1;
        if elapsed > 0 && last > first {
            Speed { bytes: (last - first) as u64, nanos: elapsed }
        } else {
            known
        }
    }
}

/// The tracker after the download directory was found to hold `bytes_on_disk`
/// at `at`.
pub open spec fn after_disk_sample(tracker: TrackerView, bytes_on_disk: u64, at: u64) -> TrackerView {
    let baseline = match tracker.baseline_disk_bytes {
        Some(baseline) => baseline,
        None => bytes_on_disk,
    };
    let total = age(bytes_on_disk, baseline);
    let downloaded = share(tracker.stats.current_depot_percent, total as nat) as u64;
    let samples = recent(tracker.disk_samples.push((at, downloaded)), at);
    with_eta(
        with_download_speed(
            TrackerView {
                stats: StatsView {
                    total_size_estimate_bytes: total,
                    downloaded_bytes: downloaded,
                    disk_speed: measured_speed(samples, tracker.stats.disk_speed),
                    ..tracker.stats
                },
                baseline_disk_bytes: Some(baseline),
                disk_samples: samples,
                ..tracker
            },
        ),
    )
}

/// The event's numbers can be added to the tracker's counters.
pub open spec fn fits(tracker: TrackerView, event: DownloadEventView) -> bool {
    match event {
        DownloadEventView::ProcessingDepot { .. } => tracker.stats.depots_seen < u32::MAX,
        DownloadEventView::DepotFinished { compressed_bytes, uncompressed_bytes, .. } => {
            &&& tracker.compressed_from_finished_depots + compressed_bytes <= u64::MAX
            &&& tracker.uncompressed_from_finished_depots + uncompressed_bytes <= u64::MAX
        },
        _ => true,
    }
}

/// Follows a download by its events and by the size of its directory. Times
/// are counted in nanoseconds from any fixed moment.
pub struct ProgressTracker {
    stats: DownloadStats,
    percent_samples: VecDeque<(u64, Percent)>,
    disk_samples: VecDeque<(u64, u64)>,
    baseline_disk_bytes: Option<u64>,
    compressed_bytes_from_finished_depots: u64,
    uncompressed_bytes_from_finished_depots: u64,
}

impl View for ProgressTracker {
    type V = TrackerView;

    closed spec fn view(&self) -> TrackerView {
        TrackerView {
            stats: self.stats@,
            percent_samples: self.percent_samples@,
            disk_samples: self.disk_samples@,
            baseline_disk_bytes: self.baseline_disk_bytes,
            compressed_from_finished_depots: self.compressed_bytes_from_finished_depots,
            uncompressed_from_finished_depots: self.uncompressed_bytes_from_finished_depots,
        }
    }
}

/// A tracker that has seen nothing.
pub open spec fn initial_tracker() -> TrackerView {
    TrackerView {
        stats: initial_stats(),
        percent_samples: Seq::empty(),
        disk_samples: Seq::empty(),
        baseline_disk_bytes: None,
        compressed_from_finished_depots: 0,
        uncompressed_from_finished_depots: 0,
    }
}

/// How long before `now` something happened at `at`.
fn age_of(now: u64, at: u64) -> (elapsed: u64)
    ensures
        elapsed == age(now, at),
{
    if now >= at {
        now - at
    } else {
        0
    }
}

/// Drops the samples at the front that are older than the window.
fn drop_old<T>(samples: &mut VecDeque<(u64, T)>, now: u64)
    ensures
        final(samples)@ == recent(old(samples)@, now),
{
    while samples.len() > 0 && age_of(now, samples[0].0) > SAMPLE_WINDOW
        invariant
            recent(samples@, now) == recent(old(samples)@, now),
        decreases samples@.len(),
    {
        let ghost before = samples@;
        samples.pop_front();
        assert(samples@ =~= before.drop_first());
    }
}

/// A text and a number after it.
fn with_number(text: &str, n: u64) -> (result: String)
    ensures
        result@ == text@ + decimal(n as nat),
{
    let mut result = text.to_owned();
    push_decimal(&mut result, n);
    result
}

impl ProgressTracker {
    /// A tracker that has seen nothing.
    pub fn new() -> (tracker: Self)
        ensures
            tracker@ == initial_tracker(),
    {
        Self {
            stats: DownloadStats::default(),
            percent_samples: VecDeque::new(),
            disk_samples: VecDeque::new(),
            baseline_disk_bytes: None,
            compressed_bytes_from_finished_depots: 0,
            uncompressed_bytes_from_finished_depots: 0,
        }
    }

    /// The current snapshot.
    pub fn stats(&self) -> (stats: &DownloadStats)
        ensures
            stats@ == self@.stats,
    {
        &self.stats
    }

    /// Whether the event's numbers can be added to this tracker's counters.
    pub fn can_apply(&self, event: &DownloadEvent) -> (yes: bool)
        ensures
            yes == fits(self@, event@),
    {
        match event {
            DownloadEvent::ProcessingDepot { .. } => self.stats.depots_seen < u32::MAX,
            DownloadEvent::DepotFinished { compressed_bytes, uncompressed_bytes, .. } => {
                *compressed_bytes <= u64::MAX - self.compressed_bytes_from_finished_depots
                    && *uncompressed_bytes <= u64::MAX
                    - self.uncompressed_bytes_from_finished_depots
            },
            _ => true,
        }
    }

    /// A Steam Guard prompt or QR code only matters until login finishes:
    /// DepotDownloader stays silent while one is pending, so any further line
    /// at all means that it is done with it.
    fn clear_login_prompts(&mut self)
        ensures
            final(self)@ == (TrackerView {
                stats: without_prompts(old(self)@.stats),
                ..old(self)@
            }),
    {
        self.stats.auth_prompt = None;
        self.stats.qr_code_ascii_art = None;
    }

    /// Projects the remaining time from the oldest and the newest percentage.
    fn recompute_eta(&mut self)
        ensures
            final(self)@ == with_eta(old(self)@),
    {
        let count = self.percent_samples.len();
        if count == 0 {
            return;
        }
        let (t0, p0) = self.percent_samples[0];
        let (t1, p1) = self.percent_samples[count - 1];
        let elapsed_nanos = age_of(t1, t0);
        if elapsed_nanos == 0 || !p0.less_than(p1) {
            return;
        }
        self.stats.eta = Some(Eta::Projected { elapsed_nanos, first: p0, last: p1 });
    }

    /// Brings the download speed up to date with the disk speed and the
    /// depots finished so far.
    fn recompute_download_speed(&mut self)
        ensures
            final(self)@ == with_download_speed(old(self)@),
    {
        self.stats.download_speed = ScaledSpeed {
            speed: self.stats.disk_speed,
            compressed: self.compressed_bytes_from_finished_depots,
            uncompressed: self.uncompressed_bytes_from_finished_depots,
        };
    }

    /// Notes a percentage seen at `now`.
    fn record_percent_sample(&mut self, percent: Percent, now: u64)
        ensures
            final(self)@ == with_percent_sample(old(self)@, percent, now),
    {
        self.percent_samples.push_back((now, percent));
        drop_old(&mut self.percent_samples, now);
        self.recompute_eta();
    }

    /// Takes one event, seen at `now`.
    pub fn apply_event(&mut self, event: DownloadEvent, now: u64)
        requires
            fits(old(self)@, event@),
        ensures
            final(self)@ == after_event(old(self)@, event@, now),
    {
        match event {
            DownloadEvent::UsingBranch { branch } => {
                let mut message = "Using branch '".to_owned();
                message.append(branch.as_str());
                message.append("'");
                self.stats.status_message = message;
                self.clear_login_prompts();
            },
            DownloadEvent::ProcessingDepot { depot_id } => {
                self.stats.depots_seen = self.stats.depots_seen + 1;
                self.stats.current_depot_id = Some(depot_id);
                self.stats.current_depot_percent = Percent::Hundredths(0);
                self.percent_samples.clear();
                self.stats.status_message = with_number("Processing depot ", depot_id);
                self.clear_login_prompts();
            },
            DownloadEvent::DownloadingDepotManifest { depot_id } => {
                self.stats.status_message = with_number(
                    "Downloading manifest for depot ",
                    depot_id,
                );
                self.clear_login_prompts();
            },
            DownloadEvent::DownloadingDepot { depot_id } => {
                self.stats.current_depot_id = Some(depot_id);
                self.stats.status_message = with_number("Downloading depot ", depot_id);
                self.clear_login_prompts();
            },
            DownloadEvent::FileProgress { percent, path } => {
                self.stats.current_depot_percent = percent;
                let mut message = String::new();
                percent.push_hundredths(&mut message);
                message.append("% - ");
                message.append(path.as_str());
                assert(message@ =~= percent_hundredths_text(percent) + "% - "@
                    + path@);
                self.stats.status_message = message;
                self.record_percent_sample(percent, now);
                self.clear_login_prompts();
            },
            DownloadEvent::OverallProgress { percent } => {
                let percent = Percent::whole(percent);
                self.stats.current_depot_percent = percent;
                self.record_percent_sample(percent, now);
                self.clear_login_prompts();
            },
            DownloadEvent::DepotFinished { depot_id, compressed_bytes, uncompressed_bytes } => {
                self.compressed_bytes_from_finished_depots =
                    self.compressed_bytes_from_finished_depots + compressed_bytes;
                self.uncompressed_bytes_from_finished_depots =
                    self.uncompressed_bytes_from_finished_depots + uncompressed_bytes;
                self.stats.status_message = with_number("Finished depot ", depot_id);
                self.clear_login_prompts();
                self.recompute_download_speed();
            },
            DownloadEvent::TotalDownloaded { compressed_bytes, uncompressed_bytes, depot_count } => {
                self.stats.is_finished = true;
                self.stats.final_compressed_bytes = Some(compressed_bytes);
                self.stats.final_uncompressed_bytes = Some(uncompressed_bytes);
                self.stats.eta = Some(Eta::Zero);
                let mut message = with_number("Done - ", depot_count as u64);
                message.append(" depot(s) downloaded");
                self.stats.status_message = message;
                self.clear_login_prompts();
            },
            DownloadEvent::SteamGuardCodeRequested => {
                self.stats.auth_prompt = Some(AuthPrompt::Code);
            },
            DownloadEvent::SteamGuardEmailCodeRequested { email } => {
                self.stats.auth_prompt = Some(AuthPrompt::EmailCode { email });
            },
            DownloadEvent::SteamGuardConfirmationRequested => {
                self.stats.auth_prompt = Some(AuthPrompt::Confirmation);
            },
            DownloadEvent::QrCodeReady { ascii_art } => {
                self.stats.qr_code_ascii_art = Some(ascii_art);
            },
            DownloadEvent::ErrorLine { message } => {
                self.stats.error_message = Some(message);
                self.clear_login_prompts();
            },
            DownloadEvent::OtherOutput => {
                self.clear_login_prompts();
            },
        }
    }

    /// Takes the current size of everything in the download directory, found
    /// at `at`. DepotDownloader allocates each file at its full size when it
    /// creates it, so the size serves as the total, and the depot's own
    /// percentage says how much of it has arrived.
    pub fn apply_disk_sample(&mut self, bytes_on_disk: u64, at: u64)
        ensures
            final(self)@ == after_disk_sample(old(self)@, bytes_on_disk, at),
    {
        let baseline = match self.baseline_disk_bytes {
            Some(baseline) => baseline,
            None => bytes_on_disk,
        };
        self.baseline_disk_bytes = Some(baseline);
        let total_estimate = age_of(bytes_on_disk, baseline);
        self.stats.total_size_estimate_bytes = total_estimate;

        let downloaded = self.stats.current_depot_percent.share_of(total_estimate);
        self.stats.downloaded_bytes = downloaded;

        self.disk_samples.push_back((at, downloaded));
        drop_old(&mut self.disk_samples, at);

        let count = self.disk_samples.len();
        if count > 0 {
            let (t0, b0) = self.disk_samples[0];
            let (t1, b1) = self.disk_samples[count - 1];
            let elapsed = age_of(t1, t0);
            // Only genuine growth counts: a large file can take longer than
            // the window between two percentages, and the last known speed
            // then stays in place.
            if elapsed > 0 && b1 > b0 {
                self.stats.disk_speed = Speed { bytes: b1 - b0, nanos: elapsed };
            }
        }
        self.recompute_download_speed();
        self.recompute_eta();
    }
}

} // verus!
