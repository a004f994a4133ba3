//! The states a session is in.

use vstd::prelude::*;

use crate::depot_downloader::event::AuthPromptKind;
use crate::depot_downloader::process::{
    copy_optional, logged_args, request_args, DownloadRequest, RequestView,
};
use crate::depot_downloader::progress::optional_text;
use crate::steam::app_info::{AppInfo, AppInfoView};
use crate::text::views;

verus! {

/// Captured when a download starts, from the library folder and what was
/// looked up then, so that a finished download can be told to Steam without
/// deriving anything again.
pub struct PendingLibraryManifest {
    pub steamapps_dir: String,
    pub app_id: String,
    pub app_info: AppInfo,
}

/// A pending manifest with its texts as sequences of characters.
#[verifier::ext_equal]
pub struct PendingManifestView {
    pub steamapps_dir: Seq<char>,
    pub app_id: Seq<char>,
    pub app_info: AppInfoView,
}

impl View for PendingLibraryManifest {
    type V = PendingManifestView;

    open spec fn view(&self) -> PendingManifestView {
        PendingManifestView {
            steamapps_dir: self.steamapps_dir@,
            app_id: self.app_id@,
            app_info: self.app_info@,
        }
    }
}

/// The view of an optional pending manifest.
pub open spec fn optional_manifest(manifest: Option<PendingLibraryManifest>) -> Option<
    PendingManifestView,
> {
    match manifest {
        Some(manifest) => Some(manifest@),
        None => None,
    }
}

#[derive(Debug, Clone, Copy, PartialEq, Eq, Structural)]
pub enum LoginMode {
    UsernamePassword,
    Qr,
}

/// A question that Steam asks during a login.
#[derive(Debug)]
pub struct Prompt {
    pub kind: AuthPromptKind,
    pub message: String,
}

/// A question with its text as a sequence of characters.
pub struct PromptView {
    pub kind: AuthPromptKind,
    pub message: Seq<char>,
}

impl View for Prompt {
    type V = PromptView;

    open spec fn view(&self) -> PromptView {
        PromptView { kind: self.kind, message: self.message@ }
    }
}

/// The view of an optional question.
pub open spec fn optional_question(prompt: Option<Prompt>) -> Option<PromptView> {
    match prompt {
        Some(prompt) => Some(prompt@),
        None => None,
    }
}

/// A snapshot of a run in `-json` mode.
#[derive(Debug)]
pub struct RunStats {
    pub status_message: String,
    /// The account's name, once a login has succeeded and where it has one.
    pub logged_in_username: Option<String>,
    /// Steam asked for a password although a saved login was used.
    pub login_expired: bool,
    pub qr_url: Option<String>,
    pub auth_prompt: Option<Prompt>,
    pub error_message: Option<String>,
    pub is_finished: bool,
    /// Files already on disk are being checked; nothing is downloaded.
    pub is_verifying: bool,
    pub depot_ids: Vec<u64>,
    pub network_bytes: u64,
    pub network_total_bytes: u64,
    pub completed_uncompressed_bytes: u64,
    pub total_uncompressed_bytes: u64,
    pub files_done: u64,
    pub total_files: u64,
}

/// A snapshot with its texts as sequences of characters.
#[verifier::ext_equal]
pub struct RunStatsView {
    pub status_message: Seq<char>,
    pub logged_in_username: Option<Seq<char>>,
    pub login_expired: bool,
    pub qr_url: Option<Seq<char>>,
    pub auth_prompt: Option<PromptView>,
    pub error_message: Option<Seq<char>>,
    pub is_finished: bool,
    pub is_verifying: bool,
    pub depot_ids: Seq<u64>,
    pub network_bytes: u64,
    pub network_total_bytes: u64,
    pub completed_uncompressed_bytes: u64,
    pub total_uncompressed_bytes: u64,
    pub files_done: u64,
    pub total_files: u64,
}

impl View for RunStats {
    type V = RunStatsView;

    open spec fn view(&self) -> RunStatsView {
        RunStatsView {
            status_message: self.status_message@,
            logged_in_username: optional_text(self.logged_in_username),
            login_expired: self.login_expired,
            qr_url: optional_text(self.qr_url),
            auth_prompt: optional_question(self.auth_prompt),
            error_message: optional_text(self.error_message),
            is_finished: self.is_finished,
            is_verifying: self.is_verifying,
            depot_ids: self.depot_ids@,
            network_bytes: self.network_bytes,
            network_total_bytes: self.network_total_bytes,
            completed_uncompressed_bytes: self.completed_uncompressed_bytes,
            total_uncompressed_bytes: self.total_uncompressed_bytes,
            files_done: self.files_done,
            total_files: self.total_files,
        }
    }
}

/// What a run does with the files on disk.
#[derive(Debug, Clone, Copy, PartialEq, Eq, Structural)]
pub enum DiskPhase {
    /// Files already there are checked.
    Verifying,
    /// What is missing is fetched.
    Downloading,
}

impl RunStatsView {
    /// The phase that the run is in, once it has come to its files.
    pub open spec fn disk_phase(self) -> Option<DiskPhase> {
        if self.is_verifying {
            Some(DiskPhase::Verifying)
        } else if self.network_bytes > 0 {
            Some(DiskPhase::Downloading)
        } else {
            None
        }
    }
}

impl RunStats {
    /// The phase that the run is in, once it has come to its files.
    pub fn disk_phase(&self) -> (phase: Option<DiskPhase>)
        ensures
            phase == self@.disk_phase(),
    {
        if self.is_verifying {
            Some(DiskPhase::Verifying)
        } else if self.network_bytes > 0 {
            Some(DiskPhase::Downloading)
        } else {
            None
        }
    }
}

/// The snapshot before anything has happened.
pub open spec fn no_stats() -> RunStatsView {
    RunStatsView {
        status_message: Seq::empty(),
        logged_in_username: None,
        login_expired: false,
        qr_url: None,
        auth_prompt: None,
        error_message: None,
        is_finished: false,
        is_verifying: false,
        depot_ids: Seq::empty(),
        network_bytes: 0,
        network_total_bytes: 0,
        completed_uncompressed_bytes: 0,
        total_uncompressed_bytes: 0,
        files_done: 0,
        total_files: 0,
    }
}

impl Default for RunStats {
    fn default() -> (stats: RunStats)
        ensures
            stats@ == no_stats(),
    {
        RunStats {
            status_message: String::new(),
            logged_in_username: None,
            login_expired: false,
            qr_url: None,
            auth_prompt: None,
            error_message: None,
            is_finished: false,
            is_verifying: false,
            depot_ids: Vec::new(),
            network_bytes: 0,
            network_total_bytes: 0,
            completed_uncompressed_bytes: 0,
            total_uncompressed_bytes: 0,
            files_done: 0,
            total_files: 0,
        }
    }
}

pub enum RunState {
    PreparingDepotDownloader,
    /// Between clicking Download and launching DepotDownloader: the app's
    /// install folder and sizes are being looked up. No process exists yet, so
    /// there is nothing for Pause and Cancel to act on.
    LookingUpApp,
    /// The apps of the account are being listed, and no login prompt has come
    /// up yet. The prompts below are shared with the download: the pending
    /// action says what happens once they resolve.
    FetchingLibrary,
    Idle,
    Running(RunStats),
    ShowingQrCode { url: String },
    AwaitingSteamGuardCode { message: String },
    AwaitingSteamGuardConfirmation,
    /// DepotDownloader exited unexpectedly (a dropped Steam connection is the
    /// common cause) and a retry is queued; `attempt` counts from one.
    Reconnecting { attempt: u32 },
    /// The process was stopped by the user's own request; the stats are the
    /// last snapshot before it stopped. Resuming is a normal continuation:
    /// DepotDownloader verifies existing files against the manifest and only
    /// fetches what is missing or invalid.
    Paused(RunStats),
    Finished(RunStats),
    Failed(String),
}

/// A state with its texts as sequences of characters.
pub enum RunStateView {
    PreparingDepotDownloader,
    LookingUpApp,
    FetchingLibrary,
    Idle,
    Running(RunStatsView),
    ShowingQrCode { url: Seq<char> },
    AwaitingSteamGuardCode { message: Seq<char> },
    AwaitingSteamGuardConfirmation,
    Reconnecting { attempt: u32 },
    Paused(RunStatsView),
    Finished(RunStatsView),
    Failed(Seq<char>),
}

impl View for RunState {
    type V = RunStateView;

    open spec fn view(&self) -> RunStateView {
        match *self {
            RunState::PreparingDepotDownloader => RunStateView::PreparingDepotDownloader,
            RunState::LookingUpApp => RunStateView::LookingUpApp,
            RunState::FetchingLibrary => RunStateView::FetchingLibrary,
            RunState::Idle => RunStateView::Idle,
            RunState::Running(stats) => RunStateView::Running(stats@),
            RunState::ShowingQrCode { url } => RunStateView::ShowingQrCode { url: url@ },
            RunState::AwaitingSteamGuardCode { message } => RunStateView::AwaitingSteamGuardCode {
                message: message@,
            },
            RunState::AwaitingSteamGuardConfirmation => {
                RunStateView::AwaitingSteamGuardConfirmation
            },
            RunState::Reconnecting { attempt } => RunStateView::Reconnecting { attempt },
            RunState::Paused(stats) => RunStateView::Paused(stats@),
            RunState::Finished(stats) => RunStateView::Finished(stats@),
            RunState::Failed(message) => RunStateView::Failed(message@),
        }
    }
}

/// What an early process exit means, set right before the running process is
/// asked to stop, to tell a stop that the user asked for from DepotDownloader
/// exiting on its own.
#[derive(Debug, Clone, Copy, PartialEq, Eq, Structural)]
pub enum PendingControl {
    Pausing,
    Cancelling,
}

/// What the login prompts are presently for: whether they continue into a
/// download or into the list of owned games.
#[derive(Debug, Clone, Copy, PartialEq, Eq, Structural)]
pub enum PendingAction {
    Download,
    FetchLibrary,
}

/// The parts of a download queue (base game and checked DLC) that stay the
/// same for every leg of it.
#[derive(Debug)]
pub struct QueueContext {
    pub library_dir: Option<String>,
    pub max_downloads: Option<u32>,
    pub branch: Option<String>,
    pub add_to_steam_library: bool,
}

/// A queue's common parts with texts as sequences of characters.
#[verifier::ext_equal]
pub struct QueueContextView {
    pub library_dir: Option<Seq<char>>,
    pub max_downloads: Option<u32>,
    pub branch: Option<Seq<char>>,
    pub add_to_steam_library: bool,
}

impl View for QueueContext {
    type V = QueueContextView;

    open spec fn view(&self) -> QueueContextView {
        QueueContextView {
            library_dir: optional_text(self.library_dir),
            max_downloads: self.max_downloads,
            branch: optional_text(self.branch),
            add_to_steam_library: self.add_to_steam_library,
        }
    }
}

/// The view of an optional context.
pub open spec fn optional_context(context: Option<QueueContext>) -> Option<QueueContextView> {
    match context {
        Some(context) => Some(context@),
        None => None,
    }
}

/// A launch of DepotDownloader: a request and the branch it is for.
#[derive(Debug)]
pub struct Launch {
    pub request: DownloadRequest,
    pub branch: Option<String>,
}

/// A launch with its texts as sequences of characters.
#[verifier::ext_equal]
pub struct LaunchView {
    pub request: RequestView,
    pub branch: Option<Seq<char>>,
}

impl View for Launch {
    type V = LaunchView;

    open spec fn view(&self) -> LaunchView {
        LaunchView { request: self.request@, branch: optional_text(self.branch) }
    }
}

/// The view of an optional launch.
pub open spec fn optional_launch(launch: Option<Launch>) -> Option<LaunchView> {
    match launch {
        Some(launch) => Some(launch@),
        None => None,
    }
}

impl Clone for Launch {
    fn clone(&self) -> (copy: Launch)
        ensures
            copy@ == self@,
    {
        Launch { request: self.request.clone(), branch: copy_optional(&self.branch) }
    }
}

/// The arguments that choose a branch.
pub open spec fn branch_args(branch: Option<Seq<char>>) -> Seq<Seq<char>> {
    match branch {
        Some(branch) => seq!["-branch"@, branch],
        None => Seq::empty(),
    }
}

/// Appends the arguments that choose a branch.
fn push_branch_args(args: &mut Vec<String>, branch: &Option<String>)
    ensures
        views(final(args)@) == views(old(args)@) + branch_args(optional_text(*branch)),
{
    if let Some(branch) = branch {
        args.push("-branch".to_owned());
        args.push(branch.clone());
    }
    assert(views(args@) =~= views(old(args)@) + branch_args(optional_text(*branch)));
}

impl Launch {
    /// The arguments DepotDownloader is launched with: those of the request,
    /// and the branch after them.
    pub fn build_args(&self) -> (args: Vec<String>)
        ensures
            views(args@) == request_args(self@.request) + branch_args(self@.branch),
    {
        let mut args = self.request.build_args();
        push_branch_args(&mut args, &self.branch);
        args
    }

    /// The same arguments with the password blanked out, for logging.
    pub fn build_args_for_logging(&self) -> (args: Vec<String>)
        ensures
            views(args@) == logged_args(self@.request) + branch_args(self@.branch),
    {
        let mut args = self.request.build_args_for_logging();
        push_branch_args(&mut args, &self.branch);
        args
    }
}

} // verus!
