//! Starting, pausing, resuming and finishing downloads.

use vstd::prelude::*;

use super::session::{Session, SessionConfigView, SessionView};
use super::state::{
    no_stats, Launch, LaunchView, PendingAction, PendingControl, PendingLibraryManifest,
    PendingManifestView, QueueContext, QueueContextView, RunState, RunStateView, RunStats,
    RunStatsView,
};
use crate::decimal::{decimal, number_up_to, parse_u32, push_decimal, to_decimal};
use crate::depot_downloader::process::{
    copy_optional, DownloadRequest, LoginMethod, LoginView, RequestView,
};
use crate::depot_downloader::progress::optional_text;
use crate::paths::{adjoins, join_path};
use crate::steam::app_info::{app_info_of, fetch_app_info, looked_up, AppInfoView};
use crate::steam::app_manifest::{
    ends_in_library, is_steam_library_common_dir, manifest_file_name, manifest_text,
    render_manifest, steamapps_dir, steamapps_of,
};
use crate::text::{trim, trimmed};

verus! {

/// How many times an unexpected exit (a dropped Steam connection is the common
/// cause) is retried before giving up.
pub const MAX_RETRIES: u32 = 3;

/// How long to wait before a retry, in milliseconds: DepotDownloader's own
/// reconnect can still be unwinding right after the exit, and Steam itself may
/// need a moment.
pub const RETRY_DELAY_MS: u64 = 3000;

/// How long to wait after a run with an account before the next one with it
/// may start, in milliseconds: Steam's own session tracking can lag a moment
/// behind the end of the process.
pub const STEAM_SESSION_SETTLE_DELAY_MS: u64 = 1500;

/// How long arriving logos are collected before the dropdown is rebuilt, in
/// milliseconds.
pub const LOGO_STREAM_COALESCE_WINDOW_MS: u64 = 300;

/// What the download form holds.
#[derive(Debug)]
pub struct DownloadForm {
    pub download_dir: String,
    pub max_downloads: String,
    pub branch: Option<String>,
    pub dlc_ids: Vec<u64>,
}

/// The directory that a text names: none where it is blank.
pub open spec fn typed_dir(text: Seq<char>) -> Option<Seq<char>> {
    if trimmed(text).len() == 0 {
        None
    } else {
        Some(trimmed(text))
    }
}

/// The directory that a text names.
pub fn form_dir(text: &str) -> (dir: Option<String>)
    ensures
        optional_text(dir) == typed_dir(text@),
{
    let dir = trim(text);
    if dir.as_str().is_empty() {
        None
    } else {
        Some(dir)
    }
}

/// The number of concurrent downloads that a text allows: no bound where it is
/// blank, and nothing where it is no whole number greater than 0 of 32 bits.
pub open spec fn typed_max_downloads(text: Seq<char>) -> Option<Option<u32>> {
    if trimmed(text).len() == 0 {
        Some(None)
    } else {
        match number_up_to(trimmed(text), u32::MAX as nat) {
            Some(count) => if count > 0 {
                Some(Some(count as u32))
            } else {
                None
            },
            None => None,
        }
    }
}

/// The number of concurrent downloads that a text allows.
pub fn form_max_downloads(text: &str) -> (max_downloads: Option<Option<u32>>)
    ensures
        max_downloads == typed_max_downloads(text@),
{
    let typed = trim(text);
    if typed.as_str().is_empty() {
        return Some(None);
    }
    match parse_u32(typed.as_str()) {
        Some(count) => if count > 0 {
            Some(Some(count))
        } else {
            None
        },
        None => None,
    }
}

/// One leg of a download queue, about to be looked up: the base game or one of
/// the checked DLC.
pub struct Leg {
    pub app_id: String,
    pub login: LoginMethod,
    pub binary: String,
    pub context: QueueContext,
}

/// A leg with its texts as sequences of characters.
#[verifier::ext_equal]
pub struct LegView {
    pub app_id: Seq<char>,
    pub login: LoginView,
    pub binary: Seq<char>,
    pub context: QueueContextView,
}

impl View for Leg {
    type V = LegView;

    open spec fn view(&self) -> LegView {
        LegView {
            app_id: self.app_id@,
            login: self.login@,
            binary: self.binary@,
            context: self.context@,
        }
    }
}

/// The session with a download queue set up from the form's contents.
pub open spec fn with_queue(
    session: SessionView,
    app_id: u64,
    download_dir: Seq<char>,
    max_downloads: Seq<char>,
    count: Option<u32>,
    branch: Option<Seq<char>>,
    dlc_ids: Seq<u64>,
) -> SessionView {
    SessionView {
        config: SessionConfigView {
            last_app_id: Some(app_id),
            last_download_location: typed_dir(download_dir),
            last_max_downloads: trimmed(max_downloads),
            ..session.config
        },
        download_queue: dlc_ids,
        download_queue_total: (1 + dlc_ids.len()) as usize,
        queue_context: Some(
            QueueContextView {
                library_dir: typed_dir(download_dir),
                max_downloads: count,
                branch,
                add_to_steam_library: session.add_to_steam_library,
            },
        ),
        retry_count: 0,
        pending_action: PendingAction::Download,
        ..session
    }
}

/// The session after a download was asked for with the form's contents.
pub open spec fn after_start(
    session: SessionView,
    download_dir: Seq<char>,
    max_downloads: Seq<char>,
    branch: Option<Seq<char>>,
    dlc_ids: Seq<u64>,
) -> SessionView {
    if session.depot_downloader_binary is None {
        session
    } else if session.selected_app is None {
        SessionView { run_state: RunStateView::Failed("Choose a game first."@), ..session }
    } else {
        match typed_max_downloads(max_downloads) {
            None => SessionView {
                run_state: RunStateView::Failed(
                    "Max downloads must be a whole number greater than 0."@,
                ),
                ..session
            },
            Some(count) => SessionView {
                run_state: RunStateView::LookingUpApp,
                ..with_queue(
                    session,
                    session.selected_app.unwrap().app_id,
                    download_dir,
                    max_downloads,
                    count,
                    branch,
                    dlc_ids,
                )
            },
        }
    }
}

/// The base game's leg, as it is begun right after the start.
pub open spec fn first_leg(session: SessionView, started: SessionView) -> LegView {
    LegView {
        app_id: decimal(session.selected_app.unwrap().app_id as nat),
        login: session.current_login(),
        binary: session.depot_downloader_binary.unwrap(),
        context: started.queue_context.unwrap(),
    }
}

/// The session after a launch.
pub open spec fn after_launch(session: SessionView, launch: LaunchView) -> SessionView {
    SessionView {
        last_request: Some(launch),
        can_respond: true,
        can_cancel: true,
        pending_control: None,
        run_state: RunStateView::Running(no_stats()),
        ..session
    }
}

/// The launch of a leg, given the directory that it downloads to.
pub open spec fn leg_launch(leg: LegView, download_dir: Option<Seq<char>>) -> LaunchView {
    LaunchView {
        request: RequestView {
            depot_downloader_binary: leg.binary,
            app_id: leg.app_id,
            download_dir,
            max_downloads: leg.context.max_downloads,
            login: leg.login,
        },
        branch: leg.context.branch,
    }
}

/// What is to be told to Steam once a leg is finished, given what was looked
/// up of its app: nothing where that was not asked for, or its library folder
/// is not a real Steam library.
pub open spec fn leg_manifest(leg: LegView, app_info: AppInfoView) -> Option<PendingManifestView> {
    match leg.context.library_dir {
        Some(common_dir) => if leg.context.add_to_steam_library && ends_in_library(common_dir) {
            Some(
                PendingManifestView {
                    steamapps_dir: steamapps_of(common_dir),
                    app_id: leg.app_id,
                    app_info,
                },
            )
        } else {
            None
        },
        None => None,
    }
}

/// The session after the next leg was taken from its queue.
pub open spec fn after_next_leg(session: SessionView) -> SessionView {
    if has_next_leg(session) {
        SessionView {
            download_queue: session.download_queue.drop_first(),
            run_state: RunStateView::LookingUpApp,
            ..session
        }
    } else {
        session
    }
}

/// The queue holds another leg.
pub open spec fn has_next_leg(session: SessionView) -> bool {
    session.download_queue.len() > 0 && session.queue_context is Some
}

/// The next leg of the queue.
pub open spec fn next_leg_of(session: SessionView, binary: Seq<char>, login: LoginView) -> LegView {
    LegView {
        app_id: decimal(session.download_queue[0] as nat),
        login,
        binary,
        context: session.queue_context.unwrap(),
    }
}

/// What follows an unexpected failure.
#[derive(Debug, Clone, Copy, PartialEq, Eq, Structural)]
pub enum AfterFailure {
    GaveUp,
    /// The download is to be resumed after the retry delay.
    Retry,
}

/// The session can try again.
pub open spec fn can_retry(session: SessionView) -> bool {
    session.retry_count < MAX_RETRIES && session.last_request is Some
}

/// The session after an unexpected failure.
pub open spec fn after_failure(session: SessionView, reason: Seq<char>) -> SessionView {
    if can_retry(session) {
        let attempt = (session.retry_count + 1) as u32;
        SessionView {
            retry_count: attempt,
            run_state: RunStateView::Reconnecting { attempt },
            ..session
        }
    } else {
        SessionView {
            run_state: RunStateView::Failed(
                if session.retry_count > 0 {
                    reason + " (gave up after "@ + decimal(session.retry_count as nat)
                        + " retries.)"@
                } else {
                    reason
                },
            ),
            ..session
        }
    }
}

/// A file that tells Steam of an app.
#[derive(Debug)]
pub struct ManifestFile {
    pub steamapps_dir: String,
    pub file_name: String,
    pub contents: String,
}

impl ManifestFile {
    /// The file that a pending manifest becomes.
    pub open spec fn is_for(
        self,
        pending: PendingManifestView,
        stats: RunStatsView,
        last_updated: u64,
    ) -> bool {
        &&& self.steamapps_dir@ == pending.steamapps_dir
        &&& self.file_name@ == "appmanifest_"@ + pending.app_id + ".acf"@
        &&& self.contents@ == manifest_text(
            pending.app_id,
            pending.app_info,
            stats.total_uncompressed_bytes,
            stats.depot_ids,
            last_updated,
        )
    }
}

impl Session {
    /// Starts a download of the chosen game and the checked DLC.
    pub fn start_download(&mut self, form: DownloadForm) -> (leg: Option<Leg>)
        requires
            form.dlc_ids@.len() < usize::MAX,
        ensures
            final(self)@ == after_start(
                old(self)@,
                form.download_dir@,
                form.max_downloads@,
                optional_text(form.branch),
                form.dlc_ids@,
            ),
            leg is Some == (old(self)@.depot_downloader_binary is Some
                && old(self)@.selected_app is Some && typed_max_downloads(
                form.max_downloads@,
            ) is Some),
            leg is Some ==> leg.unwrap()@ == first_leg(old(self)@, final(self)@),
            leg is Some ==> leg.unwrap()@ == (LegView {
                app_id: decimal(old(self)@.selected_app.unwrap().app_id as nat),
                login: old(self)@.current_login(),
                binary: old(self)@.depot_downloader_binary.unwrap(),
                context: final(self)@.queue_context.unwrap(),
            }),
    {
        let binary = match &self.depot_downloader_binary {
            Some(binary) => binary.clone(),
            None => {
                return None;
            },
        };
        let app_id = match &self.selected_app {
            Some(app) => app.app_id,
            None => {
                self.run_state = RunState::Failed("Choose a game first.".to_owned());
                return None;
            },
        };
        let max_downloads = match form_max_downloads(form.max_downloads.as_str()) {
            Some(max_downloads) => max_downloads,
            None => {
                self.run_state = RunState::Failed(
                    "Max downloads must be a whole number greater than 0.".to_owned(),
                );
                return None;
            },
        };
        self.set_up_queue(app_id, form, max_downloads);
        let login = self.current_login_method();
        self.launch_queue_leg(to_decimal(app_id), login, binary)
    }

    /// Sets up a download queue from the form's contents.
    fn set_up_queue(&mut self, app_id: u64, form: DownloadForm, max_downloads: Option<u32>)
        requires
            form.dlc_ids@.len() < usize::MAX,
        ensures
            final(self)@ == with_queue(
                old(self)@,
                app_id,
                form.download_dir@,
                form.max_downloads@,
                max_downloads,
                optional_text(form.branch),
                form.dlc_ids@,
            ),
    {
        let library_dir = form_dir(form.download_dir.as_str());
        self.config.last_app_id = Some(app_id);
        self.config.last_download_location = copy_optional(&library_dir);
        self.config.last_max_downloads = trim(form.max_downloads.as_str());
        self.download_queue_total = 1 + form.dlc_ids.len();
        self.download_queue = form.dlc_ids;
        self.queue_context = Some(
            QueueContext {
                library_dir,
                max_downloads,
                branch: form.branch,
                add_to_steam_library: self.add_to_steam_library,
            },
        );
        self.retry_count = 0;
        self.pending_action = PendingAction::Download;
    }

    /// Begins one leg of the download queue: its app is to be looked up, so
    /// that it lands in its own subfolder under the chosen library.
    pub fn launch_queue_leg(&mut self, app_id: String, login: LoginMethod, binary: String) -> (leg:
        Option<Leg>)
        ensures
            leg is Some == old(self)@.queue_context is Some,
            match old(self)@.queue_context {
                Some(context) => {
                    &&& final(self)@ == (SessionView {
                        run_state: RunStateView::LookingUpApp,
                        ..old(self)@
                    })
                    &&& leg.unwrap()@ == (LegView {
                        app_id: app_id@,
                        login: login@,
                        binary: binary@,
                        context,
                    })
                },
                None => final(self)@ == old(self)@,
            },
    {
        let context = match &self.queue_context {
            Some(context) => QueueContext {
                library_dir: copy_optional(&context.library_dir),
                max_downloads: context.max_downloads,
                branch: copy_optional(&context.branch),
                add_to_steam_library: context.add_to_steam_library,
            },
            None => {
                return None;
            },
        };
        self.run_state = RunState::LookingUpApp;
        Some(Leg { app_id, login, binary, context })
    }

    /// Begins the next leg of the download queue: the first of the checked DLC
    /// that were not begun yet leaves the queue. Nothing where none is left.
    pub fn next_leg(&mut self, binary: String, login: LoginMethod) -> (leg: Option<Leg>)
        ensures
            final(self)@ == after_next_leg(old(self)@),
            leg is Some == has_next_leg(old(self)@),
            leg is Some ==> leg.unwrap()@ == next_leg_of(old(self)@, binary@, login@),
    {
        if self.download_queue.len() == 0 || self.queue_context.is_none() {
            return None;
        }
        let ghost queue = self.download_queue@;
        let app_id = self.download_queue.remove(0);
        assert(self.download_queue@ =~= queue.drop_first());
        self.launch_queue_leg(to_decimal(app_id), login, binary)
    }

    /// Goes on with the download queue after the process of a leg has exited:
    /// where the leg is finished, with the next one and whatever login is
    /// current by then.
    pub fn continue_queue(&mut self) -> (leg: Option<Leg>)
        ensures
            leg is Some == (old(self)@.run_state is Finished
                && old(self)@.depot_downloader_binary is Some && has_next_leg(old(self)@)),
            final(self)@ == if leg is Some {
                after_next_leg(old(self)@)
            } else {
                old(self)@
            },
            leg is Some ==> leg.unwrap()@ == next_leg_of(
                old(self)@,
                old(self)@.depot_downloader_binary.unwrap(),
                old(self)@.current_login(),
            ),
    {
        if let RunState::Finished(_) = &self.run_state {
        } else {
            return None;
        }
        let binary = match &self.depot_downloader_binary {
            Some(binary) => binary.clone(),
            None => {
                return None;
            },
        };
        let login = self.current_login_method();
        self.next_leg(binary, login)
    }

    /// Launches a leg once its app was looked up: `body` is that of the
    /// lookup's answer, if there was one. No lookup is needed where no library
    /// folder is set.
    pub fn leg_looked_up(&mut self, leg: Leg, body: Option<&str>) -> (launch: Launch)
        ensures
            ({
                let info = app_info_of(
                    leg@.app_id,
                    looked_up(
                        leg@.app_id,
                        match body {
                            Some(body) => Some(body@),
                            None => None,
                        },
                    ),
                );
                let dir = launch@.request.download_dir;
                &&& launch@ == leg_launch(leg@, dir)
                &&& dir is Some == leg@.context.library_dir is Some
                &&& dir is Some ==> adjoins(
                    leg@.context.library_dir.unwrap(),
                    info.install_dir_name,
                    dir.unwrap(),
                )
                &&& final(self)@ == after_launch(
                    SessionView { library_manifest: leg_manifest(leg@, info), ..old(self)@ },
                    launch@,
                )
            }),
    {
        let Leg { app_id, login, binary, context } = leg;
        let QueueContext { library_dir, max_downloads, branch, add_to_steam_library } = context;
        let mut download_dir: Option<String> = None;
        let mut library_manifest: Option<PendingLibraryManifest> = None;
        if let Some(common_dir) = &library_dir {
            let app_info = fetch_app_info(app_id.as_str(), body);
            download_dir = Some(
                join_path(common_dir.as_str(), app_info.install_dir_name.as_str()),
            );
            if add_to_steam_library && is_steam_library_common_dir(common_dir.as_str()) {
                library_manifest = Some(
                    PendingLibraryManifest {
                        steamapps_dir: steamapps_dir(common_dir.as_str()),
                        app_id: app_id.clone(),
                        app_info,
                    },
                );
            }
        }
        self.library_manifest = library_manifest;
        let request = DownloadRequest {
            depot_downloader_binary: binary,
            app_id,
            download_dir,
            max_downloads,
            login,
        };
        self.launch(Launch { request, branch })
    }

    /// Notes a launch: a process is about to run.
    pub fn launch(&mut self, launch: Launch) -> (launched: Launch)
        ensures
            launched@ == launch@,
            final(self)@ == after_launch(old(self)@, launch@),
    {
        self.last_request = Some(launch.clone());
        self.can_respond = true;
        self.can_cancel = true;
        self.pending_control = None;
        self.run_state = RunState::Running(RunStats::default());
        launch
    }

    /// Launches the paused download again, with everything about it but the
    /// login: DepotDownloader is asked to reconnect with whatever login is
    /// current, rather than repeating a QR scan or a password entry.
    pub fn resume_download(&mut self) -> (launch: Option<Launch>)
        ensures
            launch is Some == old(self)@.last_request is Some,
            match old(self)@.last_request {
                Some(last) => {
                    &&& launch.unwrap()@ == resumed(last, old(self)@.current_login())
                    &&& final(self)@ == after_launch(
                        old(self)@,
                        resumed(last, old(self)@.current_login()),
                    )
                },
                None => final(self)@ == old(self)@,
            },
    {
        let mut launch = match &self.last_request {
            Some(last) => last.clone(),
            None => {
                return None;
            },
        };
        launch.request.login = self.current_login_method();
        Some(self.launch(launch))
    }

    /// DepotDownloader exited on its own without finishing: retries a few
    /// times before settling on the failure.
    pub fn handle_unexpected_failure(&mut self, reason: String) -> (next: AfterFailure)
        ensures
            final(self)@ == after_failure(old(self)@, reason@),
            next == if can_retry(old(self)@) {
                AfterFailure::Retry
            } else {
                AfterFailure::GaveUp
            },
    {
        if self.retry_count < MAX_RETRIES && self.last_request.is_some() {
            self.retry_count = self.retry_count + 1;
            self.run_state = RunState::Reconnecting { attempt: self.retry_count };
            return AfterFailure::Retry;
        }
        let mut message = reason;
        if self.retry_count > 0 {
            message.append(" (gave up after ");
            push_decimal(&mut message, self.retry_count as u64);
            message.append(" retries.)");
        }
        self.run_state = RunState::Failed(message);
        AfterFailure::GaveUp
    }

    /// The user wants a pause. Says whether a process is to be told.
    pub fn request_pause(&mut self) -> (signal: bool)
        ensures
            signal == old(self)@.can_cancel,
            final(self)@ == after_pause_request(old(self)@),
            final(self)@ == (SessionView {
                pending_control: Some(PendingControl::Pausing),
                ..old(self)@
            }),
    {
        self.pending_control = Some(PendingControl::Pausing);
        self.can_cancel
    }

    /// The user wants to cancel. Says whether a process is to be told. A paused
    /// download has none: waiting for an exit that will never come would leave
    /// the session stuck.
    pub fn request_cancel(&mut self) -> (signal: bool)
        ensures
            signal == is_signalled(old(self)@),
            final(self)@ == after_cancel_request(old(self)@),
            match old(self)@.run_state {
                RunStateView::Paused(_) => {
                    &&& !signal
                    &&& final(self)@ == (SessionView { run_state: RunStateView::Idle, ..old(self)@ })
                },
                _ => {
                    &&& signal == old(self)@.can_cancel
                    &&& final(self)@ == (SessionView {
                        pending_control: Some(PendingControl::Cancelling),
                        ..old(self)@
                    })
                },
            },
    {
        if let RunState::Paused(_) = &self.run_state {
            self.run_state = RunState::Idle;
            return false;
        }
        self.pending_control = Some(PendingControl::Cancelling);
        self.can_cancel
    }

    /// Forgets the remembered login, and the owned apps that came from it. The
    /// result is the executable beside which DepotDownloader's own login token
    /// is to be deleted, if there is one.
    pub fn logout(&mut self) -> (binary: Option<String>)
        ensures
            optional_text(binary) == old(self)@.depot_downloader_binary,
            final(self)@ == after_logout(old(self)@),
            final(self)@ == (SessionView {
                config: SessionConfigView { logged_in_username: None, ..old(self)@.config },
                owned_apps: Seq::empty(),
                ..old(self)@
            }),
    {
        self.config.logged_in_username = None;
        self.owned_apps = Vec::new();
        assert(self@.owned_apps =~= Seq::empty());
        copy_optional(&self.depot_downloader_binary)
    }

    /// The file that tells Steam of the download that just finished, if that
    /// was asked for when it was launched. `last_updated` is the present in
    /// seconds since 1970.
    pub fn finish_library_manifest(&mut self, stats: &RunStats, last_updated: u64) -> (file: Option<
        ManifestFile,
    >)
        ensures
            final(self)@ == (SessionView {
                steam_library_manifest_written: false,
                library_manifest: None,
                ..old(self)@
            }),
            file is Some == old(self)@.library_manifest is Some,
            file is Some ==> file.unwrap().is_for(
                old(self)@.library_manifest.unwrap(),
                stats@,
                last_updated,
            ),
    {
        self.steam_library_manifest_written = false;
        match self.library_manifest.take() {
            Some(pending) => {
                let contents = render_manifest(
                    pending.app_id.as_str(),
                    &pending.app_info,
                    stats.total_uncompressed_bytes,
                    &stats.depot_ids,
                    last_updated,
                );
                Some(
                    ManifestFile {
                        steamapps_dir: pending.steamapps_dir,
                        file_name: manifest_file_name(pending.app_id.as_str()),
                        contents,
                    },
                )
            },
            None => None,
        }
    }

    /// The file that tells Steam of a download was written, or could not be.
    /// A failure leaves the completed download itself untouched.
    pub fn library_manifest_saved(&mut self, written: bool)
        ensures
            final(self)@ == after_manifest_saved(old(self)@, written),
            final(self)@ == (SessionView {
                steam_library_manifest_written: old(self)@.steam_library_manifest_written
                    || written,
                ..old(self)@
            }),
    {
        if written {
            self.steam_library_manifest_written = true;
        }
    }

    /// A Steam Guard code was typed. The result is the code to send, if there
    /// is one and a process to send it to.
    pub fn submit_guard_code(&mut self, typed: &str) -> (code: Option<String>)
        ensures
            optional_text(code) == code_to_send(old(self)@, typed@),
            final(self)@ == after_code(old(self)@, typed@),
            code is Some == (old(self)@.can_respond && trimmed(typed@).len() > 0),
            code is Some ==> code.unwrap()@ == trimmed(typed@),
            final(self)@ == if code is Some {
                SessionView {
                    run_state: match old(self)@.pending_action {
                        PendingAction::Download => RunStateView::Running(no_stats()),
                        PendingAction::FetchLibrary => RunStateView::FetchingLibrary,
                    },
                    ..old(self)@
                }
            } else {
                old(self)@
            },
    {
        let code = trim(typed);
        if !self.can_respond || code.as_str().is_empty() {
            return None;
        }
        self.run_state = match self.pending_action {
            PendingAction::Download => RunState::Running(RunStats::default()),
            PendingAction::FetchLibrary => RunState::FetchingLibrary,
        };
        Some(code)
    }
}

/// The session after the user asked for a pause.
pub open spec fn after_pause_request(session: SessionView) -> SessionView {
    SessionView { pending_control: Some(PendingControl::Pausing), ..session }
}

/// The session after the user asked to cancel: at once idle where the download
/// is paused, and otherwise once the process has exited.
pub open spec fn after_cancel_request(session: SessionView) -> SessionView {
    if session.run_state is Paused {
        SessionView { run_state: RunStateView::Idle, ..session }
    } else {
        SessionView { pending_control: Some(PendingControl::Cancelling), ..session }
    }
}

/// A process is to be told that the user wants to cancel.
pub open spec fn is_signalled(session: SessionView) -> bool {
    !(session.run_state is Paused) && session.can_cancel
}

/// The session after the user has logged out.
pub open spec fn after_logout(session: SessionView) -> SessionView {
    SessionView {
        config: SessionConfigView { logged_in_username: None, ..session.config },
        owned_apps: Seq::empty(),
        ..session
    }
}

/// The session after the file that tells Steam of a download was written, or
/// could not be.
pub open spec fn after_manifest_saved(session: SessionView, written: bool) -> SessionView {
    SessionView {
        steam_library_manifest_written: session.steam_library_manifest_written || written,
        ..session
    }
}

/// The code to send of what was typed, if there is one and a process to send it
/// to.
pub open spec fn code_to_send(session: SessionView, typed: Seq<char>) -> Option<Seq<char>> {
    if session.can_respond && trimmed(typed).len() > 0 {
        Some(trimmed(typed))
    } else {
        None
    }
}

/// The session after a code was typed.
pub open spec fn after_code(session: SessionView, typed: Seq<char>) -> SessionView {
    if code_to_send(session, typed) is Some {
        SessionView {
            run_state: match session.pending_action {
                PendingAction::Download => RunStateView::Running(no_stats()),
                PendingAction::FetchLibrary => RunStateView::FetchingLibrary,
            },
            ..session
        }
    } else {
        session
    }
}

/// A launch again, with another login.
pub open spec fn resumed(last: LaunchView, login: LoginView) -> LaunchView {
    LaunchView { request: RequestView { login, ..last.request }, ..last }
}

} // verus!
