//! What a session over console output makes of a form and of a run.

use vstd::prelude::*;

use crate::app::state::{LoginMode, PendingControl};
use crate::app::status::StatusView;
use crate::config::{default_config, ConfigView};
use crate::console::{
    account_of, after_console_code, after_console_control, after_console_event,
    after_console_launch, after_console_logout, after_console_provisioning, after_console_start,
    confirmed_account, console_code, console_first_dir, console_label, console_progress,
    console_resumption, console_state_of, console_status, form_request, is_console_busy,
    login_for, new_console, ConsoleForm, ConsoleStateView,
    ConsoleView,
};
use crate::depot_downloader::percent::percent_tenths_text;
use crate::depot_downloader::process::{
    unexpected_exit_text, ExitOutcome, LoginView, ProcessEvent, RequestView,
};
use crate::depot_downloader::progress::{AuthPromptView, DownloadStats, StatsView};
use crate::text::{ends_with, trimmed};
use crate::ui::format::{bytes_text, eta_text};

verus! {

/// A snapshot's state: a QR code with its art before everything, then a
/// question, by what it asks for, then an error with its message, and only
/// then the end or progress, with the snapshot itself.
pub proof fn console_shows_what_is_asked_first(stats: StatsView)
    ensures
        ({
            let state = console_state_of(stats);
            &&& stats.qr_code_ascii_art matches Some(art) ==> state == (
            ConsoleStateView::ShowingQrCode { ascii_art: art })
            &&& stats.qr_code_ascii_art is None ==> {
                &&& stats.auth_prompt == Some(AuthPromptView::Code)
                    ==> state is AwaitingSteamGuardCode
                &&& stats.auth_prompt == Some(AuthPromptView::Confirmation)
                    ==> state is AwaitingSteamGuardConfirmation
                &&& stats.auth_prompt matches Some(AuthPromptView::EmailCode { email }) ==> state
                    == (ConsoleStateView::AwaitingSteamGuardEmailCode { email })
                &&& stats.auth_prompt is None ==> {
                    &&& stats.error_message matches Some(message) ==> state
                        == ConsoleStateView::Failed(message)
                    &&& stats.error_message is None && stats.is_finished ==> state
                        == ConsoleStateView::Finished(stats)
                    &&& stats.error_message is None && !stats.is_finished ==> state
                        == ConsoleStateView::Running(stats)
                }
            }
        }),
{
}

/// A request takes what was typed: the app and the folder without white space
/// around them, no folder where it is blank, no bound; and it takes the login
/// that is remembered before that of the form.
pub proof fn console_form_becomes_the_request(session: ConsoleView, form: ConsoleForm)
    requires
        session.depot_downloader_binary is Some,
    ensures
        ({
            let request = form_request(session, form);
            &&& Some(request.depot_downloader_binary) == session.depot_downloader_binary
            &&& request.app_id == trimmed(form.app_id@)
            &&& request.download_dir is None <==> trimmed(form.download_dir@).len() == 0
            &&& request.download_dir is Some ==> request.download_dir == Some(
                trimmed(form.download_dir@),
            )
            &&& request.max_downloads is None
            &&& session.config.logged_in_username matches Some(known) ==> request.login == (
            LoginView::RememberedUsername { username: known })
            &&& session.config.logged_in_username is None ==> {
                &&& session.login_mode == LoginMode::Qr ==> request.login is Qr
                &&& session.login_mode == LoginMode::UsernamePassword ==> request.login == (
                LoginView::UsernamePassword {
                    username: trimmed(form.username@),
                    password: form.password@,
                })
            }
            &&& request.login == login_for(session, form.username@, form.password@)
        }),
{
}

/// A download that starts remembers the app and the folder and nothing else
/// new, and is launched with the form's request; one without an app says so,
/// and without a program nothing happens.
pub proof fn console_start_remembers_the_form(session: ConsoleView, form: ConsoleForm)
    ensures
        ({
            let after = after_console_start(session, form);
            &&& session.depot_downloader_binary is None ==> after == session
            &&& session.depot_downloader_binary is Some && trimmed(form.app_id@).len() == 0 ==> {
                &&& after.run_state == ConsoleStateView::Failed("Enter a Steam app id first."@)
                &&& after.config == session.config
                &&& after.last_request == session.last_request
                &&& after.can_respond == session.can_respond
                &&& after.can_cancel == session.can_cancel
                &&& after.pending_control == session.pending_control
                &&& after.pending_login_username == session.pending_login_username
            }
            &&& session.depot_downloader_binary is Some && trimmed(form.app_id@).len() > 0 ==> {
                &&& after.config.last_app_id == trimmed(form.app_id@)
                &&& after.config.last_download_location == form_request(session, form).download_dir
                &&& after.config.logged_in_username == session.config.logged_in_username
                &&& after.last_request == Some(form_request(session, form))
                &&& after.run_state is Running
                &&& after.pending_control is None
                &&& after.can_respond
                &&& after.can_cancel
            }
            &&& after.login_mode == session.login_mode
            &&& after.depot_downloader_binary == session.depot_downloader_binary
        }),
{
}

/// A launch credits the login to the account that it names, if it names one,
/// and runs from nothing; what is remembered stays.
pub proof fn console_launch_is_noted(session: ConsoleView, request: RequestView)
    ensures
        ({
            let after = after_console_launch(session, request);
            &&& after.last_request == Some(request)
            &&& after.can_respond
            &&& after.can_cancel
            &&& after.pending_control is None
            &&& after.run_state is Running
            &&& !after.run_state->Running_0.is_finished
            &&& after.run_state->Running_0.downloaded_bytes == 0
            &&& after.config == session.config
            &&& after.login_mode == session.login_mode
            &&& after.depot_downloader_binary == session.depot_downloader_binary
            &&& match request.login {
                LoginView::UsernamePassword { username, .. } => after.pending_login_username
                    == Some(username),
                LoginView::RememberedUsername { username } => after.pending_login_username == Some(
                    username,
                ),
                LoginView::Qr => after.pending_login_username is None,
                LoginView::Anonymous => after.pending_login_username is None,
            }
            &&& after.pending_login_username == account_of(request.login)
        }),
{
}

/// A login is remembered once real progress or the end is shown: that of the
/// launch where it named an account, and otherwise the one reported. Nothing
/// else is remembered or forgotten by an event.
pub proof fn console_remembers_confirmed_logins(
    session: ConsoleView,
    event: ProcessEvent<DownloadStats>,
)
    ensures
        ({
            let after = after_console_event(session, event);
            &&& after.config.last_app_id == session.config.last_app_id
            &&& after.config.last_download_location == session.config.last_download_location
            &&& !(event is Stats) ==> after.config == session.config
            &&& event matches ProcessEvent::Stats(stats) ==> {
                let shows = stats@.qr_code_ascii_art is None && stats@.auth_prompt is None
                    && stats@.error_message is None;
                &&& shows && session.pending_login_username is Some
                    ==> after.config.logged_in_username == session.pending_login_username
                &&& shows && session.pending_login_username is None
                    && stats@.qr_resolved_username is Some ==> after.config.logged_in_username
                    == stats@.qr_resolved_username
                &&& !shows || (session.pending_login_username is None
                    && stats@.qr_resolved_username is None) ==> after.config.logged_in_username
                    == session.config.logged_in_username
                &&& !shows ==> confirmed_account(session, stats@) is None
                &&& after.run_state == console_state_of(stats@)
            }
            &&& after.login_mode == session.login_mode
            &&& after.depot_downloader_binary == session.depot_downloader_binary
            &&& after.can_respond == session.can_respond
            &&& after.can_cancel == session.can_cancel
            &&& after.pending_login_username == session.pending_login_username
            &&& after.last_request == session.last_request
            &&& event is Exited ==> after.pending_control is None
            &&& !(event is Exited) ==> after.pending_control == session.pending_control
        }),
{
}

/// What the user asked for decides what an exit means, and where nobody asked,
/// whether the run had finished.
pub proof fn console_exits_mean_what_was_asked_for(
    session: ConsoleView,
    stats: StatsView,
    outcome: ExitOutcome,
    message: String,
)
    ensures
        ({
            let state = after_console_event(
                session,
                ProcessEvent::<DownloadStats>::Exited(outcome),
            ).run_state;
            &&& session.pending_control == Some(PendingControl::Cancelling) ==> state is Idle
            &&& session.pending_control == Some(PendingControl::Pausing) && session.run_state
                == ConsoleStateView::Running(stats) ==> state == ConsoleStateView::Paused(stats)
            &&& session.pending_control is None && session.run_state == ConsoleStateView::Running(
                stats,
            ) && stats.is_finished ==> state == ConsoleStateView::Finished(stats)
            &&& session.pending_control is None && session.run_state == ConsoleStateView::Running(
                stats,
            ) && !stats.is_finished ==> state == ConsoleStateView::Failed(
                unexpected_exit_text(outcome),
            )
            &&& session.pending_control != Some(PendingControl::Cancelling) && !(
            session.run_state is Running) ==> state == session.run_state
        }),
        after_console_event(
            session,
            ProcessEvent::<DownloadStats>::FailedToStart(message),
        ).run_state == ConsoleStateView::Failed(message@),
{
}

/// What is shown says what is waited for: the art to scan, the address that a
/// code went to, the failure.
pub proof fn console_status_shows_the_state(state: ConsoleStateView)
    ensures
        ({
            let status = console_status(state);
            match state {
                ConsoleStateView::ShowingQrCode { ascii_art } => status is QrCode && status->code
                    == ascii_art,
                ConsoleStateView::AwaitingSteamGuardCode => status == StatusView::GuardCode {
                    label: "Enter your Steam Guard code"@,
                },
                ConsoleStateView::AwaitingSteamGuardEmailCode { email } => status
                    == StatusView::GuardCode { label: "Enter the code emailed to "@ + email },
                ConsoleStateView::AwaitingSteamGuardConfirmation => status == StatusView::Line(
                    "Confirm this sign-in in the Steam Mobile app…"@,
                ),
                ConsoleStateView::PreparingDepotDownloader => status == StatusView::Line(
                    "Setting up DepotDownloader…"@,
                ),
                ConsoleStateView::Idle => status is Blank,
                ConsoleStateView::Running(_) => status is Running,
                ConsoleStateView::Paused(_) => status is Paused,
                ConsoleStateView::Finished(_) => status is Finished && status->hint is None,
                ConsoleStateView::Failed(message) => status == StatusView::Failed(message),
            }
        }),
{
}

/// The lines of progress hold, each under its own label, the status, the
/// depot's percentage, what has arrived of the whole, the speed of the network
/// and that of the disk, and the time left.
pub proof fn console_lines_hold_the_progress(
    stats: StatsView,
    download_speed: u64,
    disk_speed: u64,
    eta_seconds: Option<u64>,
)
    ensures
        ({
            let lines = console_progress(stats, download_speed, disk_speed, eta_seconds);
            &&& lines.len() == 6
            &&& lines[0] == stats.status_message
            &&& lines[1] == "Depot progress: "@ + percent_tenths_text(stats.current_depot_percent)
                + "%"@
            &&& lines[2] == "Downloaded: "@ + bytes_text(stats.downloaded_bytes as nat) + " of "@
                + bytes_text(stats.total_size_estimate_bytes as nat)
            &&& lines[3] == "Download speed: "@ + bytes_text(download_speed as nat) + "/s"@
            &&& lines[4] == "Disk speed: "@ + bytes_text(disk_speed as nat) + "/s"@
            &&& lines[5] == "ETA: "@ + eta_text(eta_seconds)
        }),
{
    let lines = console_progress(stats, download_speed, disk_speed, eta_seconds);
    assert(lines[3] =~= "Download speed: "@ + bytes_text(download_speed as nat) + "/s"@);
    assert(lines[4] =~= "Disk speed: "@ + bytes_text(disk_speed as nat) + "/s"@);
}

/// What stays through everything but a launch and a snapshot.
pub open spec fn same_console_process(before: ConsoleView, after: ConsoleView) -> bool {
    &&& after.login_mode == before.login_mode
    &&& after.can_respond == before.can_respond
    &&& after.can_cancel == before.can_cancel
    &&& after.pending_login_username == before.pending_login_username
    &&& after.last_request == before.last_request
}

/// A pause or an end that is asked for waits for the exit; logging out forgets
/// the account and nothing else.
pub proof fn console_controls_wait_for_the_exit(session: ConsoleView, control: PendingControl)
    ensures
        ({
            let asked = after_console_control(session, control);
            &&& asked.pending_control == Some(control)
            &&& asked.run_state == session.run_state
            &&& asked.config == session.config
            &&& asked.depot_downloader_binary == session.depot_downloader_binary
            &&& same_console_process(session, asked)
        }),
        ({
            let out = after_console_logout(session);
            &&& out.config.logged_in_username is None
            &&& out.config.last_app_id == session.config.last_app_id
            &&& out.config.last_download_location == session.config.last_download_location
            &&& out.config.depot_downloader_binary == session.config.depot_downloader_binary
            &&& out.run_state == session.run_state
            &&& out.pending_control == session.pending_control
            &&& out.depot_downloader_binary == session.depot_downloader_binary
            &&& same_console_process(session, out)
        }),
{
}

/// A code is sent as typed but for white space around it, only where there is
/// one and a process waits; then the download goes on. Nothing changes
/// otherwise.
pub proof fn console_codes_are_sent_as_typed(session: ConsoleView, typed: Seq<char>)
    ensures
        console_code(session, typed) is Some <==> session.can_respond && trimmed(typed).len() > 0,
        console_code(session, typed) is Some ==> console_code(session, typed) == Some(
            trimmed(typed),
        ),
        console_code(session, typed) is None ==> after_console_code(session, typed) == session,
        console_code(session, typed) is Some ==> {
            let after = after_console_code(session, typed);
            &&& after.run_state is Running
            &&& !after.run_state->Running_0.is_finished
            &&& after.config == session.config
            &&& after.pending_control == session.pending_control
            &&& same_console_process(session, after)
        },
{
}

/// The program and the settings that were found are taken as they are, and a
/// failure to set it up is told with its reason.
pub proof fn console_provisioning_is_taken(
    session: ConsoleView,
    path: Seq<char>,
    config: ConfigView,
)
    ensures
        ({
            let ready = after_console_provisioning(session, Ok((path, config)));
            let failed = after_console_provisioning(session, Err(path));
            &&& ready.depot_downloader_binary == Some(path)
            &&& ready.config == config
            &&& ready.run_state is Idle
            &&& same_console_process(session, ready)
            &&& failed.run_state is Failed
            &&& ends_with(failed.run_state->Failed_0, path)
            &&& failed.config == session.config
            &&& failed.depot_downloader_binary == session.depot_downloader_binary
            &&& same_console_process(session, failed)
        }),
{
    let message = after_console_provisioning(session, Err(path)).run_state->Failed_0;
    let at = message.len() - path.len();
    assert(message.subrange(at, at + path.len()) =~= path);
}

/// A download is resumed exactly where there was one and a login is remembered,
/// with everything as it was but for the login.
pub proof fn console_resumes_with_the_remembered_login(session: ConsoleView)
    ensures
        ({
            let again = console_resumption(session);
            &&& again is Some <==> session.last_request is Some
                && session.config.logged_in_username is Some
            &&& again is Some ==> {
                let last = session.last_request.unwrap();
                &&& again.unwrap().app_id == last.app_id
                &&& again.unwrap().download_dir == last.download_dir
                &&& again.unwrap().max_downloads == last.max_downloads
                &&& again.unwrap().depot_downloader_binary == last.depot_downloader_binary
                &&& again.unwrap().login == (LoginView::RememberedUsername {
                    username: session.config.logged_in_username.unwrap(),
                })
            }
        }),
{
}

/// A session begins with what is remembered and without a program, a process or
/// anything asked for.
pub proof fn console_begins_with_what_is_remembered(config: ConfigView)
    ensures
        ({
            let session = new_console(config);
            &&& session.config == config
            &&& session.run_state is PreparingDepotDownloader
            &&& session.depot_downloader_binary is None
            &&& session.login_mode == LoginMode::UsernamePassword
            &&& !session.can_respond
            &&& !session.can_cancel
            &&& session.pending_control is None
            &&& session.pending_login_username is None
            &&& session.last_request is None
        }),
{
}

/// A session is busy exactly where it prepares, runs or is paused, and the
/// button says which; it offers a download wherever the session is not busy.
pub proof fn console_button_says_what_goes_on(state: ConsoleStateView)
    ensures
        is_console_busy(state) <==> state is PreparingDepotDownloader || state is Running
            || state is Paused,
        state is Paused ==> console_label(state) == "Paused"@,
        state is Running || state is PreparingDepotDownloader ==> console_label(state)
            == "Working…"@,
        !is_console_busy(state) ==> console_label(state) == "Download"@,
{
}

/// The directory used last comes before any other, and without one that of the
/// app used last, where there was one.
pub proof fn console_last_directory_comes_first(
    config: ConfigView,
    dir: Seq<char>,
    for_app: Option<Seq<char>>,
)
    ensures
        config.last_download_location == Some(dir) ==> console_first_dir(config, for_app) == Some(
            dir,
        ),
        config.last_download_location is None && config.last_app_id.len() > 0 ==> console_first_dir(
            config,
            for_app,
        ) == for_app,
        config.last_download_location is None && config.last_app_id.len() == 0
            ==> console_first_dir(config, for_app) is None,
{
}

/// Nothing is remembered before anything was.
pub proof fn nothing_is_remembered_at_first()
    ensures
        default_config().last_app_id.len() == 0,
        default_config().last_download_location is None,
        default_config().depot_downloader_binary is None,
        default_config().logged_in_username is None,
{
}

} // verus!
