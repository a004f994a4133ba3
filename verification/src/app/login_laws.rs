//! What Steam asks for and what a session shows of it.

use vstd::prelude::*;

use super::process_events::{
    after_following, after_process_event, finishes, leg_follows, remembered_after, retries_after,
    state_after_exit, state_of, to_be_stored, unexpected_exit,
};
use super::session::{typed_login, SessionView};
use super::state::{
    LoginMode, PendingControl, PromptView, RunStateView, RunStats, RunStatsView,
};
use super::status::{status_of, StatusView};
use super::user_apps::{after_user_apps_event, prompt_state};
use crate::decimal::decimal;
use crate::depot_downloader::event::{AuthPromptKind, SteamAppView};
use crate::depot_downloader::list::{ListPromptView, UserAppsEventView};
use crate::depot_downloader::process::{
    unexpected_exit_text, ExitOutcome, LoginView, ProcessEvent,
};
use crate::text::trimmed;

verus! {

/// A question waits for a confirmation exactly where it asks for one on the
/// device. Every other kind, a code from the authenticator or from an e-mail, a
/// password or anything else, waits for a code, under the question's own
/// message.
pub proof fn only_device_confirmations_wait_for_one(stats: RunStatsView, prompt: PromptView)
    requires
        stats.error_message is None,
        stats.qr_url is None,
        stats.auth_prompt == Some(prompt),
    ensures
        state_of(stats) is AwaitingSteamGuardConfirmation <==> prompt.kind
            == AuthPromptKind::DeviceConfirmation,
        prompt.kind == AuthPromptKind::SteamGuardCode || prompt.kind == AuthPromptKind::EmailCode
            || prompt.kind == AuthPromptKind::Password || prompt.kind == AuthPromptKind::Other
            ==> state_of(stats) == (RunStateView::AwaitingSteamGuardCode {
            message: prompt.message,
        }),
{
}

/// A question is answered the same way whether it comes up in a download or
/// while the account's apps are listed, and so is a QR code.
pub proof fn lists_ask_as_downloads_do(
    session: SessionView,
    stats: RunStatsView,
    prompt: PromptView,
    url: Seq<char>,
)
    requires
        stats.error_message is None,
        stats.qr_url is None,
        stats.auth_prompt == Some(prompt),
    ensures
        prompt_state(
            ListPromptView::AuthPrompt { kind: prompt.kind, message: prompt.message },
        ) == state_of(stats),
        prompt.kind == AuthPromptKind::DeviceConfirmation <==> prompt_state(
            ListPromptView::AuthPrompt { kind: prompt.kind, message: prompt.message },
        ) is AwaitingSteamGuardConfirmation,
        prompt.kind != AuthPromptKind::DeviceConfirmation ==> prompt_state(
            ListPromptView::AuthPrompt { kind: prompt.kind, message: prompt.message },
        ) == (RunStateView::AwaitingSteamGuardCode { message: prompt.message }),
        prompt_state(ListPromptView::Qr { url }) == (RunStateView::ShowingQrCode { url }),
        state_of(RunStatsView { qr_url: Some(url), ..stats }) == (RunStateView::ShowingQrCode {
            url,
        }),
{
}

/// A snapshot's state carries what the snapshot says: its error, its code's
/// address, or itself; and it is finished exactly where the snapshot says so
/// and asks nothing.
pub proof fn states_carry_their_snapshot(stats: RunStatsView)
    ensures
        stats.error_message matches Some(message) ==> state_of(stats) == RunStateView::Failed(
            message,
        ),
        stats.error_message is None && stats.qr_url is Some ==> state_of(stats) == (
        RunStateView::ShowingQrCode { url: stats.qr_url.unwrap() }),
        stats.error_message is None && stats.qr_url is None && stats.auth_prompt is None ==> {
            &&& stats.is_finished ==> state_of(stats) == RunStateView::Finished(stats)
            &&& !stats.is_finished ==> state_of(stats) == RunStateView::Running(stats)
        },
{
}

/// What the user asked for decides what an exit means: a run that was to be
/// paused is paused with its last snapshot, one that was to be cancelled is
/// gone. Where nobody asked, a finished run is finished, one that was still
/// running or waiting for a login has failed, and any other state stands.
pub proof fn exits_mean_what_was_asked_for(
    state: RunStateView,
    stats: RunStatsView,
    outcome: ExitOutcome,
)
    ensures
        state_after_exit(
            RunStateView::Running(stats),
            Some(PendingControl::Pausing),
            outcome,
        ) == RunStateView::Paused(stats),
        !(state is Running) ==> state_after_exit(state, Some(PendingControl::Pausing), outcome)
            == state,
        state_after_exit(state, Some(PendingControl::Cancelling), outcome) is Idle,
        stats.is_finished ==> state_after_exit(RunStateView::Running(stats), None, outcome)
            == RunStateView::Finished(stats),
        !stats.is_finished ==> state_after_exit(RunStateView::Running(stats), None, outcome)
            == RunStateView::Failed(unexpected_exit_text(outcome)),
        state is ShowingQrCode || state is AwaitingSteamGuardCode
            || state is AwaitingSteamGuardConfirmation ==> state_after_exit(state, None, outcome)
            == RunStateView::Failed(unexpected_exit_text(outcome)),
        state is Idle || state is Failed || state is Finished || state is Paused
            || state is Reconnecting || state is LookingUpApp || state is FetchingLibrary
            || state is PreparingDepotDownloader ==> state_after_exit(state, None, outcome)
            == state,
{
}

/// An exit is unexpected exactly where it turns a state that was not a failure
/// into one, and the reason is the failure shown.
pub proof fn unexpected_exits_are_failures(session: SessionView, event: ProcessEvent<RunStats>)
    ensures
        ({
            let after = after_process_event(session, event);
            &&& unexpected_exit(session, event) is Some <==> event is Exited
                && after.run_state is Failed && !(session.run_state is Failed)
            &&& unexpected_exit(session, event) is Some ==> after.run_state
                == RunStateView::Failed(unexpected_exit(session, event).unwrap())
            &&& event matches ProcessEvent::FailedToStart(message) ==> after.run_state
                == RunStateView::Failed(message@)
            &&& event matches ProcessEvent::Stats(stats) ==> after.run_state == state_of(stats@)
        }),
{
}

/// A run ends exactly where its state becomes finished through the event: by a
/// snapshot that says so, or by the exit of a run that had said so.
pub proof fn finishing_shows(session: SessionView, event: ProcessEvent<RunStats>)
    ensures
        finishes(session, event) ==> after_process_event(session, event).run_state is Finished,
        after_process_event(session, event).run_state is Finished && !(
        session.run_state is Finished) ==> finishes(session, event),
        finishes(session, event) && event is Exited ==> session.pending_control is None,
{
}

/// The next leg begins only after the exit of a run that is finished, and only
/// where the queue holds one.
pub proof fn legs_follow_finished_ones(session: SessionView, event: ProcessEvent<RunStats>)
    ensures
        leg_follows(session, event) <==> {
            &&& event is Exited
            &&& after_process_event(session, event).run_state is Finished
            &&& session.depot_downloader_binary is Some
            &&& session.download_queue.len() > 0
            &&& session.queue_context is Some
        },
        leg_follows(session, event) ==> {
            &&& after_following(session, event).run_state is LookingUpApp
            &&& after_following(session, event).download_queue
                == session.download_queue.drop_first()
        },
        !leg_follows(session, event) && unexpected_exit(session, event) is None
            ==> after_following(session, event) == after_process_event(session, event),
{
}

/// The account that is remembered is the one last reported, and an expired
/// login is forgotten; what is to be stored is exactly what differs, or has
/// expired. A login counts the retries anew, and nothing else does.
pub proof fn reported_accounts_are_remembered(
    known: Option<Seq<char>>,
    retries: u32,
    stats: RunStatsView,
    account: Seq<char>,
)
    ensures
        !stats.login_expired && stats.logged_in_username == Some(account) ==> remembered_after(
            known,
            stats,
        ) == Some(account),
        stats.login_expired ==> remembered_after(known, stats) is None,
        !stats.login_expired && stats.logged_in_username is None ==> remembered_after(known, stats)
            == known,
        !stats.login_expired ==> (to_be_stored(known, stats) <==> remembered_after(known, stats)
            != known),
        stats.login_expired ==> to_be_stored(known, stats),
        stats.logged_in_username is Some ==> retries_after(retries, stats) == 0,
        stats.logged_in_username is None ==> retries_after(retries, stats) == retries,
{
}

/// What a listing of the account's apps does: a login is remembered where its
/// account is told and never forgotten by one that tells none, an expired one
/// is forgotten, the apps take the place of those known, and an error is shown
/// with its message.
pub proof fn listings_are_taken(
    session: SessionView,
    username: Seq<char>,
    apps: Seq<SteamAppView>,
    message: Seq<char>,
)
    ensures
        ({
            let told = after_user_apps_event(
                session,
                UserAppsEventView::LoginSuccess { username: Some(username) },
            );
            let untold = after_user_apps_event(
                session,
                UserAppsEventView::LoginSuccess { username: None },
            );
            let expired = after_user_apps_event(session, UserAppsEventView::LoginExpired);
            let listed = after_user_apps_event(session, UserAppsEventView::Apps(apps));
            let error = after_user_apps_event(session, UserAppsEventView::Error(message));
            let failed = after_user_apps_event(session, UserAppsEventView::FailedToStart(message));
            let exited = after_user_apps_event(session, UserAppsEventView::Exited);
            &&& told.config.logged_in_username == Some(username)
            &&& told.run_state is FetchingLibrary
            &&& told.retry_count == 0
            &&& untold.config.logged_in_username == session.config.logged_in_username
            &&& untold.run_state is FetchingLibrary
            &&& untold.retry_count == 0
            &&& expired.config.logged_in_username is None
            &&& expired.run_state is Idle
            &&& listed.owned_apps == apps
            &&& listed.run_state is Idle
            &&& error.run_state == RunStateView::Failed(message)
            &&& failed.run_state == RunStateView::Failed(message)
            &&& exited.run_state is Idle
        }),
{
}

/// A listing changes the state, the login, the retries and the account's own
/// apps, each only through the event that tells of it, and nothing else.
pub proof fn listings_leave_the_rest(session: SessionView, event: UserAppsEventView)
    ensures
        ({
            let after = after_user_apps_event(session, event);
            &&& after.config.last_app_id == session.config.last_app_id
            &&& after.config.last_download_location == session.config.last_download_location
            &&& after.config.last_max_downloads == session.config.last_max_downloads
            &&& after.config.branch_cache == session.config.branch_cache
            &&& !(event is LoginSuccess) && !(event is LoginExpired)
                ==> after.config.logged_in_username == session.config.logged_in_username
            &&& !(event is LoginSuccess) ==> after.retry_count == session.retry_count
            &&& !(event is Apps) ==> after.owned_apps == session.owned_apps
            &&& after.free_apps == session.free_apps
            &&& after.login_mode == session.login_mode
            &&& after.add_to_steam_library == session.add_to_steam_library
            &&& after.depot_downloader_binary == session.depot_downloader_binary
            &&& after.pending_action == session.pending_action
            &&& after.selected_app == session.selected_app
            &&& after.dlc_available == session.dlc_available
            &&& after.dlc_loading == session.dlc_loading
            &&& after.branches_loading == session.branches_loading
            &&& after.download_queue == session.download_queue
            &&& after.download_queue_total == session.download_queue_total
            &&& after.queue_context == session.queue_context
            &&& after.can_respond == session.can_respond
            &&& after.can_cancel == session.can_cancel
            &&& after.pending_control == session.pending_control
            &&& after.last_request == session.last_request
            &&& after.library_manifest == session.library_manifest
            &&& after.steam_library_manifest_written == session.steam_library_manifest_written
        }),
{
}

/// The login in use is the remembered one, and anonymous without one: never
/// one that asks for a password.
pub proof fn current_login_is_the_remembered_one(session: SessionView, username: Seq<char>)
    ensures
        session.config.logged_in_username == Some(username) ==> session.current_login() == (
        LoginView::RememberedUsername { username }),
        session.config.logged_in_username is None ==> session.current_login() is Anonymous,
{
}

/// What is shown says what is waited for: the code to scan, the message of the
/// question, the failure, the attempt out of three. The hint about Steam comes
/// exactly where its file was written.
pub proof fn status_shows_the_state(session: SessionView)
    ensures
        ({
            let status = status_of(session);
            match session.run_state {
                RunStateView::ShowingQrCode { url } => status is QrCode && status->code == url,
                RunStateView::AwaitingSteamGuardCode { message } => status
                    == StatusView::GuardCode { label: message },
                RunStateView::Failed(message) => status == StatusView::Failed(message),
                RunStateView::Finished(_) => {
                    &&& status is Finished
                    &&& status->hint is Some <==> session.steam_library_manifest_written
                },
                RunStateView::Running(_) => status is Running,
                RunStateView::Paused(_) => status is Paused,
                RunStateView::FetchingLibrary => status is Blank,
                RunStateView::Reconnecting { attempt } => status == StatusView::Line(
                    "Lost connection to Steam. Reconnecting… (attempt "@ + decimal(attempt as nat)
                        + " of "@ + decimal(3) + ")"@,
                ),
                RunStateView::PreparingDepotDownloader => status == StatusView::Line(
                    "Setting up DepotDownloader…"@,
                ),
                RunStateView::LookingUpApp => status == StatusView::Line("Looking up app…"@),
                RunStateView::Idle => status == StatusView::Line(
                    "Download progress appears here."@,
                ),
                RunStateView::AwaitingSteamGuardConfirmation => status == StatusView::Line(
                    "Confirm this sign-in in the Steam Mobile app…"@,
                ),
            }
        }),
{
}

/// A login by name and password is with the name as typed but for white space
/// around it and with the password exactly as typed; one by QR code takes
/// neither.
pub proof fn typed_logins_are_as_typed(username: Seq<char>, password: Seq<char>)
    ensures
        ({
            let login = typed_login(LoginMode::UsernamePassword, username, password);
            &&& login is UsernamePassword
            &&& login->UsernamePassword_username == trimmed(username)
            &&& login->password == password
        }),
        typed_login(LoginMode::Qr, username, password) is Qr,
{
}

} // verus!
