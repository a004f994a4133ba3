//! What a run in `-json` mode has reported so far.

use vstd::prelude::*;

use super::state::{optional_question, Prompt, PromptView, RunStats, RunStatsView};
use crate::depot_downloader::event::{AuthPromptKind, Event, EventView};
use crate::depot_downloader::process::copy_optional;
use crate::depot_downloader::progress::optional_text;

verus! {

/// The latest values that a run has reported, field by field.
pub struct Reported {
    status_message: String,
    logged_in_username: Option<String>,
    login_expired: bool,
    qr_url: Option<String>,
    auth_prompt: Option<Prompt>,
    error_message: Option<String>,
    is_finished: bool,
    depot_ids: Vec<u64>,
    network_bytes: u64,
    network_total_bytes: u64,
    written_bytes: u64,
    verified_bytes: u64,
    total_uncompressed_bytes: u64,
    files_done: u64,
    total_files: u64,
}

/// The latest values with their texts as sequences of characters.
#[verifier::ext_equal]
pub struct ReportedView {
    pub status_message: Seq<char>,
    pub logged_in_username: Option<Seq<char>>,
    pub login_expired: bool,
    pub qr_url: Option<Seq<char>>,
    pub auth_prompt: Option<PromptView>,
    pub error_message: Option<Seq<char>>,
    pub is_finished: bool,
    pub depot_ids: Seq<u64>,
    pub network_bytes: u64,
    pub network_total_bytes: u64,
    pub written_bytes: u64,
    pub verified_bytes: u64,
    pub total_uncompressed_bytes: u64,
    pub files_done: u64,
    pub total_files: u64,
}

impl View for Reported {
    type V = ReportedView;

    closed spec fn view(&self) -> ReportedView {
        ReportedView {
            status_message: self.status_message@,
            logged_in_username: optional_text(self.logged_in_username),
            login_expired: self.login_expired,
            qr_url: optional_text(self.qr_url),
            auth_prompt: optional_question(self.auth_prompt),
            error_message: optional_text(self.error_message),
            is_finished: self.is_finished,
            depot_ids: self.depot_ids@,
            network_bytes: self.network_bytes,
            network_total_bytes: self.network_total_bytes,
            written_bytes: self.written_bytes,
            verified_bytes: self.verified_bytes,
            total_uncompressed_bytes: self.total_uncompressed_bytes,
            files_done: self.files_done,
            total_files: self.total_files,
        }
    }
}

/// Nothing has been reported.
pub open spec fn nothing_reported() -> ReportedView {
    ReportedView {
        status_message: Seq::empty(),
        logged_in_username: None,
        login_expired: false,
        qr_url: None,
        auth_prompt: None,
        error_message: None,
        is_finished: false,
        depot_ids: Seq::empty(),
        network_bytes: 0,
        network_total_bytes: 0,
        written_bytes: 0,
        verified_bytes: 0,
        total_uncompressed_bytes: 0,
        files_done: 0,
        total_files: 0,
    }
}

/// What has been reported after one more event. A question for a password
/// means that a saved login has expired, and a login that succeeds ends every
/// question.
pub open spec fn with_report(reported: ReportedView, event: EventView) -> ReportedView {
    match event {
        EventView::Log { message, .. } => ReportedView { status_message: message, ..reported },
        EventView::AuthPrompt { kind, message } => ReportedView {
            login_expired: kind == AuthPromptKind::Password,
            auth_prompt: Some(PromptView { kind, message }),
            ..reported
        },
        EventView::Qr { url } => ReportedView { qr_url: Some(url), ..reported },
        EventView::LoginSuccess { username } => ReportedView {
            logged_in_username: username,
            qr_url: None,
            auth_prompt: None,
            ..reported
        },
        EventView::Plan { total_compressed_bytes, total_uncompressed_bytes, total_files } =>
            ReportedView {
            network_total_bytes: total_compressed_bytes,
            total_uncompressed_bytes,
            total_files,
            ..reported
        },
        EventView::DepotStart { depot_id } => ReportedView {
            depot_ids: reported.depot_ids.push(depot_id),
            ..reported
        },
        EventView::Progress {
            network_bytes,
            written_bytes,
            verified_bytes,
            files_done,
            current_file,
        } => ReportedView {
            network_bytes,
            written_bytes,
            verified_bytes,
            files_done,
            status_message: match current_file {
                Some(file) => file,
                None => reported.status_message,
            },
            ..reported
        },
        EventView::Done { network_bytes, written_bytes, verified_bytes } => ReportedView {
            network_bytes,
            written_bytes,
            verified_bytes,
            is_finished: true,
            ..reported
        },
        EventView::Error { message } => ReportedView { error_message: Some(message), ..reported },
        EventView::UserApps { .. } => reported,
        EventView::Branches { .. } => reported,
        EventView::Ignored => reported,
    }
}

/// The bytes that are in place on disk, written or found there, as far as
/// they can be counted.
pub open spec fn bytes_in_place(reported: ReportedView) -> u64 {
    if reported.written_bytes + reported.verified_bytes <= u64::MAX {
        (reported.written_bytes + reported.verified_bytes) as u64
    } else {
        u64::MAX
    }
}

/// The snapshot of what has been reported. A run that has found bytes on disk
/// and fetched none is verifying.
pub open spec fn reported_stats(reported: ReportedView) -> RunStatsView {
    RunStatsView {
        status_message: reported.status_message,
        logged_in_username: reported.logged_in_username,
        login_expired: reported.login_expired,
        qr_url: reported.qr_url,
        auth_prompt: reported.auth_prompt,
        error_message: reported.error_message,
        is_finished: reported.is_finished,
        is_verifying: reported.network_bytes == 0 && reported.verified_bytes > 0,
        depot_ids: reported.depot_ids,
        network_bytes: reported.network_bytes,
        network_total_bytes: reported.network_total_bytes,
        completed_uncompressed_bytes: bytes_in_place(reported),
        total_uncompressed_bytes: reported.total_uncompressed_bytes,
        files_done: reported.files_done,
        total_files: reported.total_files,
    }
}

impl Default for Reported {
    fn default() -> (reported: Reported)
        ensures
            reported@ == nothing_reported(),
    {
        Reported {
            status_message: String::new(),
            logged_in_username: None,
            login_expired: false,
            qr_url: None,
            auth_prompt: None,
            error_message: None,
            is_finished: false,
            depot_ids: Vec::new(),
            network_bytes: 0,
            network_total_bytes: 0,
            written_bytes: 0,
            verified_bytes: 0,
            total_uncompressed_bytes: 0,
            files_done: 0,
            total_files: 0,
        }
    }
}

impl Reported {
    /// Takes one event of the run.
    pub fn take(&mut self, event: Event)
        ensures
            final(self)@ == with_report(old(self)@, event@),
    {
        match event {
            Event::Log { message, .. } => {
                self.status_message = message;
            },
            Event::AuthPrompt { kind, message } => {
                self.login_expired = kind == AuthPromptKind::Password;
                self.auth_prompt = Some(Prompt { kind, message });
            },
            Event::Qr { url } => {
                self.qr_url = Some(url);
            },
            Event::LoginSuccess { username } => {
                self.logged_in_username = username;
                self.qr_url = None;
                self.auth_prompt = None;
            },
            Event::Plan { total_compressed_bytes, total_uncompressed_bytes, total_files } => {
                self.network_total_bytes = total_compressed_bytes;
                self.total_uncompressed_bytes = total_uncompressed_bytes;
                self.total_files = total_files;
            },
            Event::DepotStart { depot_id } => {
                self.depot_ids.push(depot_id);
            },
            Event::Progress {
                network_bytes,
                written_bytes,
                verified_bytes,
                files_done,
                current_file,
            } => {
                self.network_bytes = network_bytes;
                self.written_bytes = written_bytes;
                self.verified_bytes = verified_bytes;
                self.files_done = files_done;
                if let Some(file) = current_file {
                    self.status_message = file;
                }
            },
            Event::Done { network_bytes, written_bytes, verified_bytes } => {
                self.network_bytes = network_bytes;
                self.written_bytes = written_bytes;
                self.verified_bytes = verified_bytes;
                self.is_finished = true;
            },
            Event::Error { message } => {
                self.error_message = Some(message);
            },
            Event::UserApps { .. } => {},
            Event::Branches { .. } => {},
            Event::Ignored => {},
        }
    }

    /// Whether Steam asked for a password although a saved login was used.
    pub fn login_expired(&self) -> (yes: bool)
        ensures
            yes == self@.login_expired,
    {
        self.login_expired
    }

    /// The bytes that came over the network, and those in place on disk.
    pub fn counters(&self) -> (bytes: (u64, u64))
        ensures
            bytes == (self@.network_bytes, bytes_in_place(self@)),
    {
        let in_place: u64 = if self.written_bytes <= u64::MAX - self.verified_bytes {
            self.written_bytes + self.verified_bytes
        } else {
            u64::MAX
        };
        (self.network_bytes, in_place)
    }

    /// The snapshot of what has been reported.
    pub fn stats(&self) -> (stats: RunStats)
        ensures
            stats@ == reported_stats(self@),
    {
        let (network_bytes, in_place) = self.counters();
        RunStats {
            status_message: self.status_message.clone(),
            logged_in_username: copy_optional(&self.logged_in_username),
            login_expired: self.login_expired,
            qr_url: copy_optional(&self.qr_url),
            auth_prompt: match &self.auth_prompt {
                Some(prompt) => Some(
                    Prompt { kind: prompt.kind, message: prompt.message.clone() },
                ),
                None => None,
            },
            error_message: copy_optional(&self.error_message),
            is_finished: self.is_finished,
            is_verifying: network_bytes == 0 && self.verified_bytes > 0,
            depot_ids: self.depot_ids.clone(),
            network_bytes,
            network_total_bytes: self.network_total_bytes,
            completed_uncompressed_bytes: in_place,
            total_uncompressed_bytes: self.total_uncompressed_bytes,
            files_done: self.files_done,
            total_files: self.total_files,
        }
    }
}

/// What has been reported after a run of events, in order.
pub open spec fn with_reports(events: Seq<EventView>) -> ReportedView
    decreases events.len(),
{
    if events.len() == 0 {
        nothing_reported()
    } else {
        with_report(with_reports(events.drop_last()), events.last())
    }
}

/// A login that has succeeded leaves nothing asked.
pub proof fn login_ends_every_question(reported: ReportedView, username: Option<Seq<char>>)
    ensures
        with_report(reported, EventView::LoginSuccess { username }).qr_url is None,
        with_report(reported, EventView::LoginSuccess { username }).auth_prompt is None,
{
}

/// A run is finished exactly where it has said that it is done.
pub proof fn run_is_finished_where_it_says_so(events: Seq<EventView>)
    ensures
        with_reports(events).is_finished <==> exists|i: int|
            0 <= i < events.len() && (#[trigger] events[i]) is Done,
    decreases events.len(),
{
    if events.len() > 0 {
        let earlier = events.drop_last();
        run_is_finished_where_it_says_so(earlier);
        if events.last() is Done {
            assert(events[events.len() - 1] is Done);
        }
        if with_reports(earlier).is_finished {
            let i = choose|i: int| 0 <= i < earlier.len() && (#[trigger] earlier[i]) is Done;
            assert(events[i] is Done);
        }
        if (exists|i: int| 0 <= i < events.len() && (#[trigger] events[i]) is Done) && !(
        events.last() is Done) {
            let i = choose|i: int| 0 <= i < events.len() && (#[trigger] events[i]) is Done;
            assert(earlier[i] is Done);
        }
    }
}

} // verus!
