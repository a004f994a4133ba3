//! What the status area shows.

use vstd::prelude::*;

use super::download::MAX_RETRIES;
use super::session::{Session, SessionView};
use super::state::{PendingControl, RunState, RunStateView, RunStats, RunStatsView};
use crate::decimal::{decimal, push_decimal};
use crate::text::views;
use crate::ui::format::{
    bytes_text, eta_text, format_bytes, format_eta, format_speed, push_tenths, tenths_text,
};

verus! {

/// What the status area shows.
#[derive(Debug)]
pub enum Status {
    /// Nothing.
    Blank,
    /// A line of text.
    Line(String),
    /// A QR code to scan, with a line above it: the address it holds, or its
    /// drawing.
    QrCode { heading: String, code: String },
    /// A question, with a field for the code and a button to submit it.
    GuardCode { label: String },
    /// The progress of a running download, with buttons to pause and cancel.
    Running,
    /// The progress of a paused download, with buttons to resume and cancel.
    Paused,
    /// The progress of a finished download, and what to do to see it in Steam.
    Finished { hint: Option<String> },
    /// What went wrong.
    Failed(String),
}

/// What the status area shows, with texts as sequences of characters.
pub enum StatusView {
    Blank,
    Line(Seq<char>),
    QrCode { heading: Seq<char>, code: Seq<char> },
    GuardCode { label: Seq<char> },
    Running,
    Paused,
    Finished { hint: Option<Seq<char>> },
    Failed(Seq<char>),
}

impl View for Status {
    type V = StatusView;

    open spec fn view(&self) -> StatusView {
        match *self {
            Status::Blank => StatusView::Blank,
            Status::Line(text) => StatusView::Line(text@),
            Status::QrCode { heading, code } => StatusView::QrCode {
                heading: heading@,
                code: code@,
            },
            Status::GuardCode { label } => StatusView::GuardCode { label: label@ },
            Status::Running => StatusView::Running,
            Status::Paused => StatusView::Paused,
            Status::Finished { hint } => StatusView::Finished {
                hint: match hint {
                    Some(hint) => Some(hint@),
                    None => None,
                },
            },
            Status::Failed(message) => StatusView::Failed(message@),
        }
    }
}

/// What the status area shows of a session.
pub open spec fn status_of(session: SessionView) -> StatusView {
    match session.run_state {
        RunStateView::PreparingDepotDownloader => StatusView::Line(
            "Setting up DepotDownloader…"@,
        ),
        RunStateView::LookingUpApp => StatusView::Line("Looking up app…"@),
        RunStateView::FetchingLibrary => StatusView::Blank,
        RunStateView::Idle => StatusView::Line("Download progress appears here."@),
        RunStateView::ShowingQrCode { url } => StatusView::QrCode {
            heading: "Scan this with the Steam Mobile app:"@,
            code: url,
        },
        RunStateView::AwaitingSteamGuardCode { message } => StatusView::GuardCode {
            label: message,
        },
        RunStateView::AwaitingSteamGuardConfirmation => StatusView::Line(
            "Confirm this sign-in in the Steam Mobile app…"@,
        ),
        RunStateView::Reconnecting { attempt } => StatusView::Line(
            "Lost connection to Steam. Reconnecting… (attempt "@ + decimal(attempt as nat)
                + " of "@ + decimal(MAX_RETRIES as nat) + ")"@,
        ),
        RunStateView::Running(_) => StatusView::Running,
        RunStateView::Paused(_) => StatusView::Paused,
        RunStateView::Finished(_) => StatusView::Finished {
            hint: if session.steam_library_manifest_written {
                Some("Restart Steam to see it added to your library."@)
            } else {
                None
            },
        },
        RunStateView::Failed(message) => StatusView::Failed(message),
    }
}

/// What stands on the buttons beside a running or paused download, and whether
/// they are disabled, by what the user has asked for already.
pub open spec fn controls_of(control: Option<PendingControl>) -> (Seq<char>, Seq<char>, bool) {
    match control {
        Some(PendingControl::Pausing) => ("Pausing…"@, "Cancel"@, true),
        Some(PendingControl::Cancelling) => ("Pause"@, "Cancelling…"@, true),
        None => ("Pause"@, "Cancel"@, false),
    }
}

/// The buttons beside a running or paused download.
pub struct Controls {
    pub pause_label: &'static str,
    pub cancel_label: &'static str,
    /// Nothing can be asked for while something that was asked for is pending.
    pub disabled: bool,
}

/// The figures of a download's progress that are measured in real numbers: the
/// percentage in rounded tenths, whole bytes per second and whole seconds.
#[derive(Debug, Clone, Copy)]
pub struct Measured {
    pub percent_tenths: u64,
    pub eta_seconds: Option<u64>,
    pub download_speed: u64,
    pub disk_speed: u64,
}

/// `a of b`, after a label.
pub open spec fn of_line(label: Seq<char>, a: Seq<char>, b: Seq<char>) -> Seq<char> {
    label + a + " of "@ + b
}

/// The lines about a download's progress. While files on disk are verified,
/// nothing is downloaded and the figures about that are left out.
pub open spec fn progress_text(stats: RunStatsView, measured: Measured) -> Seq<Seq<char>> {
    let head = seq![
        "Progress: "@ + tenths_text(measured.percent_tenths as nat) + "%"@,
        "ETA: "@ + eta_text(measured.eta_seconds),
    ];
    let downloaded = of_line(
        "Downloaded: "@,
        bytes_text(stats.network_bytes as nat),
        bytes_text(stats.network_total_bytes as nat),
    );
    let completed = |label: Seq<char>|
        of_line(
            label,
            bytes_text(stats.completed_uncompressed_bytes as nat),
            bytes_text(stats.total_uncompressed_bytes as nat),
        );
    let files = of_line(
        "Files: "@,
        decimal(stats.files_done as nat),
        decimal(stats.total_files as nat),
    );
    let disk_speed = bytes_text(measured.disk_speed as nat) + "/s"@;
    if stats.is_verifying {
        head + seq![completed("Validated: "@), files, "Validate: "@ + disk_speed]
    } else {
        head + seq![
            downloaded,
            completed("Written to disk: "@),
            files,
            "Download: "@ + (bytes_text(measured.download_speed as nat) + "/s"@),
            "Disk: "@ + disk_speed,
        ]
    }
}

/// `a of b`, after a label.
fn of_text(label: &str, a: &str, b: &str) -> (text: String)
    ensures
        text@ == of_line(label@, a@, b@),
{
    let mut text = label.to_owned();
    text.append(a);
    text.append(" of ");
    text.append(b);
    text
}

/// A label and a text after it.
fn labelled(label: &str, rest: &str) -> (text: String)
    ensures
        text@ == label@ + rest@,
{
    let mut text = label.to_owned();
    text.append(rest);
    text
}

/// The lines about a download's progress.
pub fn progress_lines(stats: &RunStats, measured: Measured) -> (lines: Vec<String>)
    ensures
        views(lines@) == progress_text(stats@, measured),
{
    let mut lines: Vec<String> = Vec::new();
    let mut progress = "Progress: ".to_owned();
    push_tenths(&mut progress, measured.percent_tenths as u128);
    progress.append("%");
    lines.push(progress);
    let eta = format_eta(measured.eta_seconds);
    lines.push(labelled("ETA: ", eta.as_str()));
    let completed = format_bytes(stats.completed_uncompressed_bytes);
    let total = format_bytes(stats.total_uncompressed_bytes);
    let files_done = crate::decimal::to_decimal(stats.files_done);
    let total_files = crate::decimal::to_decimal(stats.total_files);
    let disk_speed = format_speed(measured.disk_speed);
    if stats.is_verifying {
        lines.push(of_text("Validated: ", completed.as_str(), total.as_str()));
        lines.push(of_text("Files: ", files_done.as_str(), total_files.as_str()));
        lines.push(labelled("Validate: ", disk_speed.as_str()));
    } else {
        let network = format_bytes(stats.network_bytes);
        let network_total = format_bytes(stats.network_total_bytes);
        let download_speed = format_speed(measured.download_speed);
        lines.push(of_text("Downloaded: ", network.as_str(), network_total.as_str()));
        lines.push(of_text("Written to disk: ", completed.as_str(), total.as_str()));
        lines.push(of_text("Files: ", files_done.as_str(), total_files.as_str()));
        lines.push(labelled("Download: ", download_speed.as_str()));
        lines.push(labelled("Disk: ", disk_speed.as_str()));
    }
    assert(views(lines@) =~= progress_text(stats@, measured));
    lines
}

impl Session {
    /// What the status area shows.
    pub fn status(&self) -> (status: Status)
        ensures
            status@ == status_of(self@),
    {
        match &self.run_state {
            RunState::PreparingDepotDownloader => Status::Line(
                "Setting up DepotDownloader…".to_owned(),
            ),
            RunState::LookingUpApp => Status::Line("Looking up app…".to_owned()),
            RunState::FetchingLibrary => Status::Blank,
            RunState::Idle => Status::Line("Download progress appears here.".to_owned()),
            RunState::ShowingQrCode { url } => Status::QrCode {
                heading: "Scan this with the Steam Mobile app:".to_owned(),
                code: url.clone(),
            },
            RunState::AwaitingSteamGuardCode { message } => Status::GuardCode {
                label: message.clone(),
            },
            RunState::AwaitingSteamGuardConfirmation => Status::Line(
                "Confirm this sign-in in the Steam Mobile app…".to_owned(),
            ),
            RunState::Reconnecting { attempt } => {
                let mut text =
                    "Lost connection to Steam. Reconnecting… (attempt ".to_owned();
                push_decimal(&mut text, *attempt as u64);
                text.append(" of ");
                push_decimal(&mut text, MAX_RETRIES as u64);
                text.append(")");
                Status::Line(text)
            },
            RunState::Running(_) => Status::Running,
            RunState::Paused(_) => Status::Paused,
            RunState::Finished(_) => {
                if self.steam_library_manifest_written {
                    Status::Finished {
                        hint: Some("Restart Steam to see it added to your library.".to_owned()),
                    }
                } else {
                    Status::Finished { hint: None }
                }
            },
            RunState::Failed(message) => Status::Failed(message.clone()),
        }
    }

    /// The buttons beside a running or paused download.
    pub fn controls(&self) -> (controls: Controls)
        ensures
            (controls.pause_label@, controls.cancel_label@, controls.disabled) == controls_of(
                self@.pending_control,
            ),
            controls.pause_label@ == if self@.pending_control == Some(PendingControl::Pausing) {
                "Pausing…"@
            } else {
                "Pause"@
            },
            controls.cancel_label@ == if self@.pending_control == Some(PendingControl::Cancelling) {
                "Cancelling…"@
            } else {
                "Cancel"@
            },
            controls.disabled == self@.pending_control is Some,
    {
        Controls {
            pause_label: match self.pending_control {
                Some(PendingControl::Pausing) => "Pausing…",
                _ => "Pause",
            },
            cancel_label: match self.pending_control {
                Some(PendingControl::Cancelling) => "Cancelling…",
                _ => "Cancel",
            },
            disabled: self.pending_control.is_some(),
        }
    }
}

} // verus!
