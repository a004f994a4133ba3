//! A session around a DepotDownloader that writes plain text: its prompts and
//! progress are read from its console output.

use vstd::prelude::*;

use crate::app::download::{form_dir, typed_dir};
use crate::app::session::{form_login, typed_login};
use crate::app::state::{LoginMode, PendingControl};
use crate::app::status::{of_line, Status, StatusView};
use crate::config::{Config, ConfigView};
use crate::depot_downloader::percent::percent_tenths_text;
use crate::depot_downloader::process::{
    copy_optional, describe_unexpected_exit, unexpected_exit_text, with_text, DownloadRequest,
    ExitOutcome, LoginMethod, LoginView, ProcessEvent, RequestView,
};
use crate::depot_downloader::progress::{
    initial_stats, optional_text, AuthPrompt, AuthPromptView, DownloadStats, StatsView,
};
use crate::text::{same_text, trim, trimmed, views};
use crate::ui::format::{bytes_text, eta_text, format_bytes, format_eta, format_speed};

verus! {

pub enum ConsoleState {
    PreparingDepotDownloader,
    Idle,
    Running(DownloadStats),
    ShowingQrCode { ascii_art: String },
    AwaitingSteamGuardCode,
    AwaitingSteamGuardEmailCode { email: String },
    AwaitingSteamGuardConfirmation,
    /// The process was stopped by the user's own request; the stats are the
    /// last snapshot before it stopped.
    Paused(DownloadStats),
    Finished(DownloadStats),
    Failed(String),
}

/// A state with its texts as sequences of characters.
pub enum ConsoleStateView {
    PreparingDepotDownloader,
    Idle,
    Running(StatsView),
    ShowingQrCode { ascii_art: Seq<char> },
    AwaitingSteamGuardCode,
    AwaitingSteamGuardEmailCode { email: Seq<char> },
    AwaitingSteamGuardConfirmation,
    Paused(StatsView),
    Finished(StatsView),
    Failed(Seq<char>),
}

impl View for ConsoleState {
    type V = ConsoleStateView;

    open spec fn view(&self) -> ConsoleStateView {
        match *self {
            ConsoleState::PreparingDepotDownloader => ConsoleStateView::PreparingDepotDownloader,
            ConsoleState::Idle => ConsoleStateView::Idle,
            ConsoleState::Running(stats) => ConsoleStateView::Running(stats@),
            ConsoleState::ShowingQrCode { ascii_art } => ConsoleStateView::ShowingQrCode {
                ascii_art: ascii_art@,
            },
            ConsoleState::AwaitingSteamGuardCode => ConsoleStateView::AwaitingSteamGuardCode,
            ConsoleState::AwaitingSteamGuardEmailCode { email } => {
                ConsoleStateView::AwaitingSteamGuardEmailCode { email: email@ }
            },
            ConsoleState::AwaitingSteamGuardConfirmation => {
                ConsoleStateView::AwaitingSteamGuardConfirmation
            },
            ConsoleState::Paused(stats) => ConsoleStateView::Paused(stats@),
            ConsoleState::Finished(stats) => ConsoleStateView::Finished(stats@),
            ConsoleState::Failed(message) => ConsoleStateView::Failed(message@),
        }
    }
}

/// A session over console output.
pub struct ConsoleSession {
    pub config: Config,
    pub login_mode: LoginMode,
    pub depot_downloader_binary: Option<String>,
    pub run_state: ConsoleState,
    /// Whether a process is there to take lines of input.
    pub can_respond: bool,
    /// Whether a process is there to be cancelled.
    pub can_cancel: bool,
    pub pending_control: Option<PendingControl>,
    /// The account that a login is credited to once it is confirmed; `None`
    /// where that is not known until DepotDownloader reports it.
    pub pending_login_username: Option<String>,
    /// The request behind the running or paused download.
    pub last_request: Option<DownloadRequest>,
}

/// A session with its texts as sequences of characters.
#[verifier::ext_equal]
pub struct ConsoleView {
    pub config: ConfigView,
    pub login_mode: LoginMode,
    pub depot_downloader_binary: Option<Seq<char>>,
    pub run_state: ConsoleStateView,
    pub can_respond: bool,
    pub can_cancel: bool,
    pub pending_control: Option<PendingControl>,
    pub pending_login_username: Option<Seq<char>>,
    pub last_request: Option<RequestView>,
}

/// The view of an optional request.
pub open spec fn optional_request(request: Option<DownloadRequest>) -> Option<RequestView> {
    match request {
        Some(request) => Some(request@),
        None => None,
    }
}

impl View for ConsoleSession {
    type V = ConsoleView;

    open spec fn view(&self) -> ConsoleView {
        ConsoleView {
            config: self.config@,
            login_mode: self.login_mode,
            depot_downloader_binary: optional_text(self.depot_downloader_binary),
            run_state: self.run_state@,
            can_respond: self.can_respond,
            can_cancel: self.can_cancel,
            pending_control: self.pending_control,
            pending_login_username: optional_text(self.pending_login_username),
            last_request: optional_request(self.last_request),
        }
    }
}

/// A session that has just begun.
pub open spec fn new_console(config: ConfigView) -> ConsoleView {
    ConsoleView {
        config,
        login_mode: LoginMode::UsernamePassword,
        depot_downloader_binary: None,
        run_state: ConsoleStateView::PreparingDepotDownloader,
        can_respond: false,
        can_cancel: false,
        pending_control: None,
        pending_login_username: None,
        last_request: None,
    }
}

/// The account that a login is credited to.
pub open spec fn account_of(login: LoginView) -> Option<Seq<char>> {
    match login {
        LoginView::UsernamePassword { username, .. } => Some(username),
        LoginView::RememberedUsername { username } => Some(username),
        LoginView::Qr => None,
        LoginView::Anonymous => None,
    }
}

/// The session after a launch.
pub open spec fn after_console_launch(session: ConsoleView, request: RequestView) -> ConsoleView {
    ConsoleView {
        pending_login_username: account_of(request.login),
        last_request: Some(request),
        can_respond: true,
        can_cancel: true,
        pending_control: None,
        run_state: ConsoleStateView::Running(initial_stats()),
        ..session
    }
}

/// The login to download with: the one remembered, or else that of the form.
pub open spec fn login_for(
    session: ConsoleView,
    username: Seq<char>,
    password: Seq<char>,
) -> LoginView {
    match session.config.logged_in_username {
        Some(username) => LoginView::RememberedUsername { username },
        None => typed_login(session.login_mode, username, password),
    }
}

/// What the form of a download holds.
pub struct ConsoleForm {
    pub app_id: String,
    pub download_dir: String,
    pub username: String,
    pub password: String,
}

/// The request that a form stands for.
pub open spec fn form_request(session: ConsoleView, form: ConsoleForm) -> RequestView {
    RequestView {
        depot_downloader_binary: session.depot_downloader_binary.unwrap(),
        app_id: trimmed(form.app_id@),
        download_dir: typed_dir(form.download_dir@),
        max_downloads: None,
        login: login_for(session, form.username@, form.password@),
    }
}

/// The session after a download was asked for.
pub open spec fn after_console_start(session: ConsoleView, form: ConsoleForm) -> ConsoleView {
    if session.depot_downloader_binary is None {
        session
    } else if trimmed(form.app_id@).len() == 0 {
        ConsoleView {
            run_state: ConsoleStateView::Failed("Enter a Steam app id first."@),
            ..session
        }
    } else {
        after_console_launch(
            ConsoleView {
                config: ConfigView {
                    last_app_id: trimmed(form.app_id@),
                    last_download_location: typed_dir(form.download_dir@),
                    ..session.config
                },
                ..session
            },
            form_request(session, form),
        )
    }
}

/// The state that a snapshot stands for: a QR code to scan, a question to
/// answer, an error, the end, or just progress.
pub open spec fn console_state_of(stats: StatsView) -> ConsoleStateView {
    match (stats.qr_code_ascii_art, stats.auth_prompt, stats.error_message) {
        (Some(ascii_art), _, _) => ConsoleStateView::ShowingQrCode { ascii_art },
        (None, Some(prompt), _) => match prompt {
            AuthPromptView::Code => ConsoleStateView::AwaitingSteamGuardCode,
            AuthPromptView::EmailCode { email } => ConsoleStateView::AwaitingSteamGuardEmailCode {
                email,
            },
            AuthPromptView::Confirmation => ConsoleStateView::AwaitingSteamGuardConfirmation,
        },
        (None, None, Some(message)) => ConsoleStateView::Failed(message),
        (None, None, None) => if stats.is_finished {
            ConsoleStateView::Finished(stats)
        } else {
            ConsoleStateView::Running(stats)
        },
    }
}

/// The account that a snapshot confirms: that of the pending login, or the one
/// it reports. A snapshot confirms a login where it shows real progress.
pub open spec fn confirmed_account(session: ConsoleView, stats: StatsView) -> Option<Seq<char>> {
    let state = console_state_of(stats);
    if state is Running || state is Finished {
        if session.pending_login_username is Some {
            session.pending_login_username
        } else {
            stats.qr_resolved_username
        }
    } else {
        None
    }
}

/// The session after an event.
pub open spec fn after_console_event(
    session: ConsoleView,
    event: ProcessEvent<DownloadStats>,
) -> ConsoleView {
    match event {
        ProcessEvent::FailedToStart(message) => ConsoleView {
            run_state: ConsoleStateView::Failed(message@),
            ..session
        },
        ProcessEvent::Exited(outcome) => ConsoleView {
            run_state: match session.pending_control {
                Some(PendingControl::Cancelling) => ConsoleStateView::Idle,
                Some(PendingControl::Pausing) => match session.run_state {
                    ConsoleStateView::Running(stats) => ConsoleStateView::Paused(stats),
                    _ => session.run_state,
                },
                None => match session.run_state {
                    ConsoleStateView::Running(stats) => if stats.is_finished {
                        ConsoleStateView::Finished(stats)
                    } else {
                        ConsoleStateView::Failed(unexpected_exit_text(outcome))
                    },
                    _ => session.run_state,
                },
            },
            pending_control: None,
            ..session
        },
        ProcessEvent::Stats(stats) => ConsoleView {
            run_state: console_state_of(stats@),
            config: ConfigView {
                logged_in_username: match confirmed_account(session, stats@) {
                    Some(username) => Some(username),
                    None => session.config.logged_in_username,
                },
                ..session.config
            },
            ..session
        },
    }
}

/// The session after DepotDownloader was set up, or could not be.
pub open spec fn after_console_provisioning(
    session: ConsoleView,
    outcome: Result<(Seq<char>, ConfigView), Seq<char>>,
) -> ConsoleView {
    match outcome {
        Ok((path, config)) => ConsoleView {
            config,
            depot_downloader_binary: Some(path),
            run_state: ConsoleStateView::Idle,
            ..session
        },
        Err(error) => ConsoleView {
            run_state: ConsoleStateView::Failed("Could not set up DepotDownloader: "@ + error),
            ..session
        },
    }
}

/// The session after the user asked to pause or to cancel.
pub open spec fn after_console_control(session: ConsoleView, control: PendingControl) -> ConsoleView {
    ConsoleView { pending_control: Some(control), ..session }
}

/// The session after the user has logged out.
pub open spec fn after_console_logout(session: ConsoleView) -> ConsoleView {
    ConsoleView {
        config: ConfigView { logged_in_username: None, ..session.config },
        ..session
    }
}

/// The code to send of what was typed, if there is one and a process to send it
/// to.
pub open spec fn console_code(session: ConsoleView, typed: Seq<char>) -> Option<Seq<char>> {
    if session.can_respond && trimmed(typed).len() > 0 {
        Some(trimmed(typed))
    } else {
        None
    }
}

/// The session after a code was typed.
pub open spec fn after_console_code(session: ConsoleView, typed: Seq<char>) -> ConsoleView {
    if console_code(session, typed) is Some {
        ConsoleView { run_state: ConsoleStateView::Running(initial_stats()), ..session }
    } else {
        session
    }
}

/// The request that a resumed download is launched with: the last one, with the
/// remembered login.
pub open spec fn console_resumption(session: ConsoleView) -> Option<RequestView> {
    match (session.last_request, session.config.logged_in_username) {
        (Some(request), Some(username)) => Some(
            RequestView { login: LoginView::RememberedUsername { username }, ..request },
        ),
        _ => None,
    }
}

/// A download is being prepared, running or paused.
pub open spec fn is_console_busy(state: ConsoleStateView) -> bool {
    state is PreparingDepotDownloader || state is Running || state is Paused
}

/// What stands on the download button.
pub open spec fn console_label(state: ConsoleStateView) -> Seq<char> {
    if state is Paused {
        "Paused"@
    } else if state is PreparingDepotDownloader || state is Running {
        "Working…"@
    } else {
        "Download"@
    }
}

/// The directory used last, or else the one for the app used last, where there
/// was one.
pub open spec fn console_first_dir(config: ConfigView, dir_for_app: Option<Seq<char>>) -> Option<
    Seq<char>,
> {
    match config.last_download_location {
        Some(dir) => Some(dir),
        None => if config.last_app_id.len() > 0 {
            dir_for_app
        } else {
            None
        },
    }
}

/// The download location to start with: the one used last, or else the one
/// for the app used last, where there was one.
pub fn initial_download_dir(config: &Config, dir_for_app: Option<String>) -> (dir: Option<String>)
    ensures
        optional_text(dir) == console_first_dir(config@, optional_text(dir_for_app)),
        optional_text(dir) == match config@.last_download_location {
            Some(dir) => Some(dir),
            None => if config@.last_app_id.len() > 0 {
                optional_text(dir_for_app)
            } else {
                None
            },
        },
{
    match &config.last_download_location {
        Some(dir) => Some(dir.clone()),
        None => {
            if config.last_app_id.as_str().is_empty() {
                None
            } else {
                dir_for_app
            }
        },
    }
}

impl ConsoleSession {
    /// A session that has just begun.
    pub fn new(config: Config) -> (session: ConsoleSession)
        ensures
            session@ == new_console(config@),
    {
        ConsoleSession {
            config,
            login_mode: LoginMode::UsernamePassword,
            depot_downloader_binary: None,
            run_state: ConsoleState::PreparingDepotDownloader,
            can_respond: false,
            can_cancel: false,
            pending_control: None,
            pending_login_username: None,
            last_request: None,
        }
    }

    /// Takes the outcome of provisioning DepotDownloader: where it is, with the
    /// settings that know it, or what went wrong.
    pub fn provisioned(&mut self, outcome: Result<(String, Config), String>)
        ensures
            final(self)@ == after_console_provisioning(
                old(self)@,
                match outcome {
                    Ok((path, config)) => Ok((path@, config@)),
                    Err(error) => Err(error@),
                },
            ),
            final(self)@ == match outcome {
                Ok((path, config)) => ConsoleView {
                    config: config@,
                    depot_downloader_binary: Some(path@),
                    run_state: ConsoleStateView::Idle,
                    ..old(self)@
                },
                Err(error) => ConsoleView {
                    run_state: ConsoleStateView::Failed(
                        "Could not set up DepotDownloader: "@ + error@,
                    ),
                    ..old(self)@
                },
            },
    {
        match outcome {
            Ok((path, config)) => {
                self.config = config;
                self.depot_downloader_binary = Some(path);
                self.run_state = ConsoleState::Idle;
            },
            Err(error) => {
                self.run_state = ConsoleState::Failed(
                    with_text("Could not set up DepotDownloader: ", error.as_str()),
                );
            },
        }
    }

    /// Starts the download that the form asks for.
    pub fn start_download(&mut self, form: ConsoleForm) -> (request: Option<DownloadRequest>)
        ensures
            final(self)@ == after_console_start(old(self)@, form),
            request is Some == (old(self)@.depot_downloader_binary is Some && trimmed(
                form.app_id@,
            ).len() > 0),
            request is Some ==> request.unwrap()@ == form_request(old(self)@, form),
    {
        let binary = match &self.depot_downloader_binary {
            Some(binary) => binary.clone(),
            None => {
                return None;
            },
        };
        let app_id = trim(form.app_id.as_str());
        if app_id.as_str().is_empty() {
            self.run_state = ConsoleState::Failed("Enter a Steam app id first.".to_owned());
            return None;
        }
        let download_dir = form_dir(form.download_dir.as_str());
        let login = match &self.config.logged_in_username {
            Some(username) => LoginMethod::RememberedUsername { username: username.clone() },
            None => form_login(self.login_mode, form.username.as_str(), form.password.as_str()),
        };
        self.config.last_app_id = app_id.clone();
        self.config.last_download_location = copy_optional(&download_dir);
        let request = DownloadRequest {
            depot_downloader_binary: binary,
            app_id,
            download_dir,
            max_downloads: None,
            login,
        };
        Some(self.launch(request))
    }

    /// Launches the paused download again, with everything about it but the
    /// login: DepotDownloader reconnects with the remembered one.
    pub fn resume_download(&mut self) -> (request: Option<DownloadRequest>)
        ensures
            optional_request(request) == console_resumption(old(self)@),
            request is Some == (old(self)@.last_request is Some
                && old(self)@.config.logged_in_username is Some),
            request is Some ==> {
                &&& request.unwrap()@ == (RequestView {
                    login: LoginView::RememberedUsername {
                        username: old(self)@.config.logged_in_username.unwrap(),
                    },
                    ..old(self)@.last_request.unwrap()
                })
                &&& final(self)@ == after_console_launch(old(self)@, request.unwrap()@)
            },
            request is None ==> final(self)@ == old(self)@,
    {
        let mut request = match &self.last_request {
            Some(request) => request.clone(),
            None => {
                return None;
            },
        };
        let username = match &self.config.logged_in_username {
            Some(username) => username.clone(),
            None => {
                return None;
            },
        };
        request.login = LoginMethod::RememberedUsername { username };
        Some(self.launch(request))
    }

    /// Notes a launch: a process is about to run.
    fn launch(&mut self, request: DownloadRequest) -> (launched: DownloadRequest)
        ensures
            launched@ == request@,
            final(self)@ == after_console_launch(old(self)@, request@),
    {
        self.pending_login_username = match &request.login {
            LoginMethod::UsernamePassword { username, password: _ } => Some(username.clone()),
            LoginMethod::RememberedUsername { username } => Some(username.clone()),
            LoginMethod::Qr => None,
            LoginMethod::Anonymous => None,
        };
        self.last_request = Some(request.clone());
        self.can_respond = true;
        self.can_cancel = true;
        self.pending_control = None;
        self.run_state = ConsoleState::Running(DownloadStats::default());
        request
    }

    /// The user wants a pause. Says whether a process is to be told.
    pub fn request_pause(&mut self) -> (signal: bool)
        ensures
            final(self)@ == after_console_control(old(self)@, PendingControl::Pausing),
            signal == old(self)@.can_cancel,
            final(self)@ == (ConsoleView {
                pending_control: Some(PendingControl::Pausing),
                ..old(self)@
            }),
    {
        self.pending_control = Some(PendingControl::Pausing);
        self.can_cancel
    }

    /// The user wants to cancel. Says whether a process is to be told.
    pub fn request_cancel(&mut self) -> (signal: bool)
        ensures
            final(self)@ == after_console_control(old(self)@, PendingControl::Cancelling),
            signal == old(self)@.can_cancel,
            final(self)@ == (ConsoleView {
                pending_control: Some(PendingControl::Cancelling),
                ..old(self)@
            }),
    {
        self.pending_control = Some(PendingControl::Cancelling);
        self.can_cancel
    }

    /// Forgets the remembered login. The result is the executable beside which
    /// DepotDownloader's own login token is to be deleted, if there is one.
    pub fn logout(&mut self) -> (binary: Option<String>)
        ensures
            final(self)@ == after_console_logout(old(self)@),
            optional_text(binary) == old(self)@.depot_downloader_binary,
            final(self)@ == (ConsoleView {
                config: ConfigView { logged_in_username: None, ..old(self)@.config },
                ..old(self)@
            }),
    {
        self.config.logged_in_username = None;
        copy_optional(&self.depot_downloader_binary)
    }

    /// The process has exited.
    fn apply_exit(&mut self, outcome: ExitOutcome)
        ensures
            final(self)@ == after_console_event(old(self)@, ProcessEvent::Exited(outcome)),
    {
        let mut state = ConsoleState::Idle;
        std::mem::swap(&mut state, &mut self.run_state);
        match self.pending_control.take() {
            Some(PendingControl::Cancelling) => {},
            Some(PendingControl::Pausing) => {
                self.run_state = match state {
                    ConsoleState::Running(stats) => ConsoleState::Paused(stats),
                    other => other,
                };
            },
            None => {
                self.run_state = match state {
                    ConsoleState::Running(stats) => {
                        if stats.is_finished {
                            ConsoleState::Finished(stats)
                        } else {
                            ConsoleState::Failed(describe_unexpected_exit(&outcome))
                        }
                    },
                    other => other,
                };
            },
        }
    }

    /// A snapshot has come. A login is behind it once it shows real progress,
    /// so a bad password or a rejected QR scan is never remembered.
    fn apply_stats(&mut self, stats: DownloadStats) -> (save_config: bool)
        ensures
            final(self)@ == after_console_event(old(self)@, ProcessEvent::Stats(stats)),
            save_config == (final(self)@.config != old(self)@.config),
    {
        let waits = stats.qr_code_ascii_art.is_some() || stats.auth_prompt.is_some()
            || stats.error_message.is_some();
        if waits {
            self.run_state = if let Some(ascii_art) = stats.qr_code_ascii_art {
                ConsoleState::ShowingQrCode { ascii_art }
            } else if let Some(prompt) = stats.auth_prompt {
                match prompt {
                    AuthPrompt::Code => ConsoleState::AwaitingSteamGuardCode,
                    AuthPrompt::EmailCode { email } => {
                        ConsoleState::AwaitingSteamGuardEmailCode { email }
                    },
                    AuthPrompt::Confirmation => ConsoleState::AwaitingSteamGuardConfirmation,
                }
            } else if let Some(message) = stats.error_message {
                ConsoleState::Failed(message)
            } else {
                ConsoleState::Idle
            };
            return false;
        }
        let account = if self.pending_login_username.is_some() {
            copy_optional(&self.pending_login_username)
        } else {
            copy_optional(&stats.qr_resolved_username)
        };
        self.run_state = if stats.is_finished {
            ConsoleState::Finished(stats)
        } else {
            ConsoleState::Running(stats)
        };
        match account {
            Some(username) => {
                let known = match &self.config.logged_in_username {
                    Some(known) => same_text(known.as_str(), username.as_str()),
                    None => false,
                };
                self.config.logged_in_username = Some(username);
                !known
            },
            None => false,
        }
    }

    /// Takes an event of the running download. Says whether the settings are to
    /// be stored.
    pub fn apply_process_event(&mut self, event: ProcessEvent<DownloadStats>) -> (save_config: bool)
        ensures
            final(self)@ == after_console_event(old(self)@, event),
            save_config == (final(self)@.config != old(self)@.config),
    {
        match event {
            ProcessEvent::FailedToStart(message) => {
                self.run_state = ConsoleState::Failed(message);
                false
            },
            ProcessEvent::Exited(outcome) => {
                self.apply_exit(outcome);
                false
            },
            ProcessEvent::Stats(stats) => self.apply_stats(stats),
        }
    }

    /// A Steam Guard code was typed. The result is the code to send, if there
    /// is one and a process to send it to.
    pub fn submit_guard_code(&mut self, typed: &str) -> (code: Option<String>)
        ensures
            optional_text(code) == console_code(old(self)@, typed@),
            final(self)@ == after_console_code(old(self)@, typed@),
            code is Some == (old(self)@.can_respond && trimmed(typed@).len() > 0),
            code is Some ==> code.unwrap()@ == trimmed(typed@),
            final(self)@ == if code is Some {
                ConsoleView { run_state: ConsoleStateView::Running(initial_stats()), ..old(self)@ }
            } else {
                old(self)@
            },
    {
        let code = trim(typed);
        if !self.can_respond || code.as_str().is_empty() {
            return None;
        }
        self.run_state = ConsoleState::Running(DownloadStats::default());
        Some(code)
    }

    /// Whether a download is being prepared, running or paused.
    pub fn is_busy(&self) -> (yes: bool)
        ensures
            yes == is_console_busy(self@.run_state),
            yes == (self@.run_state is PreparingDepotDownloader || self@.run_state is Running
                || self@.run_state is Paused),
    {
        match &self.run_state {
            ConsoleState::PreparingDepotDownloader
            | ConsoleState::Running(_)
            | ConsoleState::Paused(_) => true,
            _ => false,
        }
    }

    /// What stands on the download button.
    pub fn download_label(&self) -> (label: &'static str)
        ensures
            label@ == console_label(self@.run_state),
            label@ == match self@.run_state {
                ConsoleStateView::PreparingDepotDownloader => "Working…"@,
                ConsoleStateView::Running(_) => "Working…"@,
                ConsoleStateView::Paused(_) => "Paused"@,
                _ => "Download"@,
            },
    {
        match &self.run_state {
            ConsoleState::PreparingDepotDownloader | ConsoleState::Running(_) => "Working…",
            ConsoleState::Paused(_) => "Paused",
            _ => "Download",
        }
    }

    /// What the status area shows.
    pub fn status(&self) -> (status: Status)
        ensures
            status@ == console_status(self@.run_state),
    {
        match &self.run_state {
            ConsoleState::PreparingDepotDownloader => Status::Line(
                "Setting up DepotDownloader…".to_owned(),
            ),
            ConsoleState::Idle => Status::Blank,
            ConsoleState::ShowingQrCode { ascii_art } => Status::QrCode {
                heading: "Scan this with the Steam Mobile app:".to_owned(),
                code: ascii_art.clone(),
            },
            ConsoleState::AwaitingSteamGuardCode => Status::GuardCode {
                label: "Enter your Steam Guard code".to_owned(),
            },
            ConsoleState::AwaitingSteamGuardEmailCode { email } => Status::GuardCode {
                label: with_text("Enter the code emailed to ", email.as_str()),
            },
            ConsoleState::AwaitingSteamGuardConfirmation => Status::Line(
                "Confirm this sign-in in the Steam Mobile app…".to_owned(),
            ),
            ConsoleState::Running(_) => Status::Running,
            ConsoleState::Paused(_) => Status::Paused,
            ConsoleState::Finished(_) => Status::Finished { hint: None },
            ConsoleState::Failed(message) => Status::Failed(message.clone()),
        }
    }
}

/// What the status area shows of a state.
pub open spec fn console_status(state: ConsoleStateView) -> StatusView {
    match state {
        ConsoleStateView::PreparingDepotDownloader => StatusView::Line(
            "Setting up DepotDownloader…"@,
        ),
        ConsoleStateView::Idle => StatusView::Blank,
        ConsoleStateView::ShowingQrCode { ascii_art } => StatusView::QrCode {
            heading: "Scan this with the Steam Mobile app:"@,
            code: ascii_art,
        },
        ConsoleStateView::AwaitingSteamGuardCode => StatusView::GuardCode {
            label: "Enter your Steam Guard code"@,
        },
        ConsoleStateView::AwaitingSteamGuardEmailCode { email } => StatusView::GuardCode {
            label: "Enter the code emailed to "@ + email,
        },
        ConsoleStateView::AwaitingSteamGuardConfirmation => StatusView::Line(
            "Confirm this sign-in in the Steam Mobile app…"@,
        ),
        ConsoleStateView::Running(_) => StatusView::Running,
        ConsoleStateView::Paused(_) => StatusView::Paused,
        ConsoleStateView::Finished(_) => StatusView::Finished { hint: None },
        ConsoleStateView::Failed(message) => StatusView::Failed(message),
    }
}

/// The lines about a download's progress, given its speeds in whole bytes per
/// second and the remaining time in whole seconds.
pub open spec fn console_progress(
    stats: StatsView,
    download_speed: u64,
    disk_speed: u64,
    eta_seconds: Option<u64>,
) -> Seq<Seq<char>> {
    seq![
        stats.status_message,
        "Depot progress: "@ + percent_tenths_text(stats.current_depot_percent)
            + "%"@,
        of_line(
            "Downloaded: "@,
            bytes_text(stats.downloaded_bytes as nat),
            bytes_text(stats.total_size_estimate_bytes as nat),
        ),
        "Download speed: "@ + (bytes_text(download_speed as nat) + "/s"@),
        "Disk speed: "@ + (bytes_text(disk_speed as nat) + "/s"@),
        "ETA: "@ + eta_text(eta_seconds),
    ]
}

/// The lines about a download's progress.
pub fn console_progress_lines(
    stats: &DownloadStats,
    download_speed: u64,
    disk_speed: u64,
    eta_seconds: Option<u64>,
) -> (lines: Vec<String>)
    ensures
        views(lines@) == console_progress(stats@, download_speed, disk_speed, eta_seconds),
{
    let mut lines: Vec<String> = Vec::new();
    lines.push(stats.status_message.clone());
    let mut percent = "Depot progress: ".to_owned();
    stats.current_depot_percent.push_tenths(&mut percent);
    percent.append("%");
    lines.push(percent);
    let mut downloaded = "Downloaded: ".to_owned();
    let part = format_bytes(stats.downloaded_bytes);
    let total = format_bytes(stats.total_size_estimate_bytes);
    downloaded.append(part.as_str());
    downloaded.append(" of ");
    downloaded.append(total.as_str());
    lines.push(downloaded);
    let download = format_speed(download_speed);
    lines.push(with_text("Download speed: ", download.as_str()));
    let disk = format_speed(disk_speed);
    lines.push(with_text("Disk speed: ", disk.as_str()));
    let eta = format_eta(eta_seconds);
    lines.push(with_text("ETA: ", eta.as_str()));
    assert(views(lines@) =~= console_progress(stats@, download_speed, disk_speed, eta_seconds));
    lines
}

/// A login is only ever remembered from a snapshot that waits for nothing and
/// shows no error, and events never make a session forget one.
pub proof fn console_login_needs_progress(
    session: ConsoleView,
    event: ProcessEvent<DownloadStats>,
)
    ensures
        ({
            let after = after_console_event(session, event);
            &&& session.config.logged_in_username is Some
                ==> after.config.logged_in_username is Some
            &&& after.config != session.config ==> after.run_state is Running
                || after.run_state is Finished
        }),
{
}

/// Pausing a running download and resuming it launches the same request, on
/// behalf of the remembered login.
pub proof fn console_pause_keeps_the_request(
    session: ConsoleView,
    stats: StatsView,
    outcome: ExitOutcome,
)
    requires
        session.run_state == ConsoleStateView::Running(stats),
    ensures
        ({
            let asked = ConsoleView {
                pending_control: Some(PendingControl::Pausing),
                ..session
            };
            let paused = after_console_event(asked, ProcessEvent::<DownloadStats>::Exited(outcome));
            &&& paused.run_state == ConsoleStateView::Paused(stats)
            &&& paused.last_request == session.last_request
            &&& paused.config == session.config
            &&& paused.pending_control is None
        }),
{
}

} // verus!
