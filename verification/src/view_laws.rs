//! What the values that callers see show of their fields.

use vstd::prelude::*;

use crate::app::catalog::{BranchItem, DlcItem};
use crate::app::download::Leg;
use crate::app::session::{Session, SessionConfig};
use crate::app::state::{
    Launch, PendingLibraryManifest, Prompt, QueueContext, RunState, RunStateView, RunStats,
};
use crate::app::status::{Status, StatusView};
use crate::config::Config;
use crate::console::{ConsoleSession, ConsoleState, ConsoleStateView};
use crate::depot_downloader::event::{BranchInfo, Event, EventView, SteamApp};
use crate::depot_downloader::list::{
    ListPrompt, ListPromptView, UserAppsEvent, UserAppsEventView,
};
use crate::depot_downloader::parser::{DownloadEvent, DownloadEventView};
use crate::depot_downloader::process::{DownloadRequest, LoginMethod, LoginView};
use crate::depot_downloader::progress::{AuthPrompt, AuthPromptView, DownloadStats};
use crate::json::{Json, JsonView};
use crate::steam::app_info::{AppInfo, DepotManifest};

verus! {

/// An optional text shows itself.
pub open spec fn shows(shown: Option<Seq<char>>, text: Option<String>) -> bool {
    &&& shown is Some <==> text is Some
    &&& text is Some ==> shown == Some(text.unwrap()@)
}

/// A run's snapshot shows its fields, each as itself.
pub proof fn run_stats_show_their_fields(stats: RunStats)
    ensures
        stats@.status_message == stats.status_message@,
        shows(stats@.logged_in_username, stats.logged_in_username),
        stats@.login_expired == stats.login_expired,
        shows(stats@.qr_url, stats.qr_url),
        stats@.auth_prompt is Some <==> stats.auth_prompt is Some,
        stats.auth_prompt is Some ==> stats@.auth_prompt.unwrap() == stats.auth_prompt.unwrap()@,
        shows(stats@.error_message, stats.error_message),
        stats@.is_finished == stats.is_finished,
        stats@.is_verifying == stats.is_verifying,
        stats@.depot_ids == stats.depot_ids@,
        stats@.network_bytes == stats.network_bytes,
        stats@.network_total_bytes == stats.network_total_bytes,
        stats@.completed_uncompressed_bytes == stats.completed_uncompressed_bytes,
        stats@.total_uncompressed_bytes == stats.total_uncompressed_bytes,
        stats@.files_done == stats.files_done,
        stats@.total_files == stats.total_files,
{
}

/// A download's snapshot shows its fields, each as itself.
pub proof fn download_stats_show_their_fields(stats: DownloadStats)
    ensures
        stats@.status_message == stats.status_message@,
        stats@.depots_seen == stats.depots_seen,
        stats@.current_depot_id == stats.current_depot_id,
        stats@.current_depot_percent == stats.current_depot_percent,
        stats@.downloaded_bytes == stats.downloaded_bytes,
        stats@.total_size_estimate_bytes == stats.total_size_estimate_bytes,
        stats@.disk_speed == stats.disk_speed,
        stats@.download_speed == stats.download_speed,
        stats@.eta == stats.eta,
        stats@.auth_prompt is Some <==> stats.auth_prompt is Some,
        stats.auth_prompt is Some ==> stats@.auth_prompt.unwrap() == stats.auth_prompt.unwrap()@,
        shows(stats@.qr_code_ascii_art, stats.qr_code_ascii_art),
        shows(stats@.qr_resolved_username, stats.qr_resolved_username),
        shows(stats@.error_message, stats.error_message),
        stats@.is_finished == stats.is_finished,
        stats@.final_compressed_bytes == stats.final_compressed_bytes,
        stats@.final_uncompressed_bytes == stats.final_uncompressed_bytes,
{
}

/// A session shows its fields, each as itself.
pub proof fn session_shows_its_fields(session: Session)
    ensures
        session@.config == session.config@,
        session@.login_mode == session.login_mode,
        session@.add_to_steam_library == session.add_to_steam_library,
        shows(session@.depot_downloader_binary, session.depot_downloader_binary),
        session@.run_state == session.run_state@,
        session@.pending_action == session.pending_action,
        session@.owned_apps.len() == session.owned_apps@.len(),
        forall|i: int| 0 <= i < session.owned_apps@.len() ==> (#[trigger] session@.owned_apps[i]) == session.owned_apps@[i]@,
        session@.free_apps.len() == session.free_apps@.len(),
        forall|i: int| 0 <= i < session.free_apps@.len() ==> (#[trigger] session@.free_apps[i]) == session.free_apps@[i]@,
        session@.selected_app is Some <==> session.selected_app is Some,
        session.selected_app is Some ==> session@.selected_app.unwrap() == session.selected_app.unwrap()@,
        session@.dlc_available == session.dlc_available,
        session@.dlc_loading == session.dlc_loading,
        session@.branches_loading == session.branches_loading,
        session@.download_queue == session.download_queue@,
        session@.download_queue_total == session.download_queue_total,
        session@.queue_context is Some <==> session.queue_context is Some,
        session.queue_context is Some ==> session@.queue_context.unwrap() == session.queue_context.unwrap()@,
        session@.can_respond == session.can_respond,
        session@.can_cancel == session.can_cancel,
        session@.pending_control == session.pending_control,
        session@.last_request is Some <==> session.last_request is Some,
        session.last_request is Some ==> session@.last_request.unwrap() == session.last_request.unwrap()@,
        session@.retry_count == session.retry_count,
        session@.library_manifest is Some <==> session.library_manifest is Some,
        session.library_manifest is Some ==> session@.library_manifest.unwrap() == session.library_manifest.unwrap()@,
        session@.steam_library_manifest_written == session.steam_library_manifest_written,
{
}

/// A session's settings show their fields, each as itself.
pub proof fn session_config_shows_its_fields(config: SessionConfig)
    ensures
        config@.last_app_id == config.last_app_id,
        shows(config@.last_download_location, config.last_download_location),
        config@.last_max_downloads == config.last_max_downloads@,
        shows(config@.logged_in_username, config.logged_in_username),
        forall|id: u64| #[trigger] config@.branch_cache.contains_key(id) <==> config.branch_cache@.contains_key(id),
        forall|id: u64, i: int|
            config.branch_cache@.contains_key(id) && 0 <= i < config.branch_cache@[id]@.len() ==> (#[trigger] config@.branch_cache[id][i])
                == config.branch_cache@[id]@[i]@,
        forall|id: u64|
            config.branch_cache@.contains_key(id) ==> (#[trigger] config@.branch_cache[id]).len() == config.branch_cache@[id]@.len(),
{
}

/// A session over console output shows its fields, each as itself.
pub proof fn console_session_shows_its_fields(session: ConsoleSession)
    ensures
        session@.config == session.config@,
        session@.login_mode == session.login_mode,
        shows(session@.depot_downloader_binary, session.depot_downloader_binary),
        session@.run_state == session.run_state@,
        session@.can_respond == session.can_respond,
        session@.can_cancel == session.can_cancel,
        session@.pending_control == session.pending_control,
        shows(session@.pending_login_username, session.pending_login_username),
        session@.last_request is Some <==> session.last_request is Some,
        session.last_request is Some ==> session@.last_request.unwrap() == session.last_request.unwrap()@,
{
}

/// The settings show their fields, each as itself.
pub proof fn config_shows_its_fields(config: Config)
    ensures
        config@.last_app_id == config.last_app_id@,
        shows(config@.last_download_location, config.last_download_location),
        shows(config@.depot_downloader_binary, config.depot_downloader_binary),
        shows(config@.logged_in_username, config.logged_in_username),
{
}

/// A request shows its fields, each as itself.
pub proof fn request_shows_its_fields(request: DownloadRequest)
    ensures
        request@.depot_downloader_binary == request.depot_downloader_binary@,
        request@.app_id == request.app_id@,
        shows(request@.download_dir, request.download_dir),
        request@.max_downloads == request.max_downloads,
        request@.login == request.login@,
{
}

/// A launch shows its fields, each as itself.
pub proof fn launch_shows_its_fields(launch: Launch)
    ensures
        launch@.request == launch.request@,
        shows(launch@.branch, launch.branch),
{
}

/// A queue's choices show their fields, each as itself.
pub proof fn context_shows_its_fields(context: QueueContext)
    ensures
        shows(context@.library_dir, context.library_dir),
        context@.max_downloads == context.max_downloads,
        shows(context@.branch, context.branch),
        context@.add_to_steam_library == context.add_to_steam_library,
{
}

/// A leg shows its fields, each as itself.
pub proof fn leg_shows_its_fields(leg: Leg)
    ensures
        leg@.app_id == leg.app_id@,
        leg@.login == leg.login@,
        leg@.binary == leg.binary@,
        leg@.context == leg.context@,
{
}

/// What is pending for Steam shows its fields, each as itself.
pub proof fn pending_manifest_shows_its_fields(pending: PendingLibraryManifest)
    ensures
        pending@.steamapps_dir == pending.steamapps_dir@,
        pending@.app_id == pending.app_id@,
        pending@.app_info == pending.app_info@,
{
}

/// What is known of an app shows its fields, each as itself.
pub proof fn app_info_shows_its_fields(info: AppInfo)
    ensures
        info@.install_dir_name == info.install_dir_name@,
        shows(info@.display_name, info.display_name),
        shows(info@.buildid, info.buildid),
        forall|id: u64| #[trigger] info@.depot_manifests.contains_key(id) <==> info.depot_manifests@.contains_key(id),
        forall|id: u64|
            info.depot_manifests@.contains_key(id) ==> (#[trigger] info@.depot_manifests[id]) == info.depot_manifests@[id]@,
{
}

/// A depot's manifest shows its fields, each as itself.
pub proof fn manifest_shows_its_fields(manifest: DepotManifest)
    ensures
        manifest@.gid == manifest.gid@,
        manifest@.size == manifest.size,
{
}

/// An app shows its fields, each as itself.
pub proof fn app_shows_its_fields(app: SteamApp)
    ensures
        app@.app_id == app.app_id,
        app@.name == app.name@,
        app@.app_type == app.app_type@,
{
}

/// A branch shows its fields, each as itself.
pub proof fn branch_shows_its_fields(branch: BranchInfo)
    ensures
        branch@.name == branch.name@,
        branch@.build_id == branch.build_id,
        branch@.time_updated == branch.time_updated,
        branch@.password_required == branch.password_required,
{
}

/// A row of the DLC list shows its fields, each as itself.
pub proof fn dlc_item_shows_its_fields(item: DlcItem)
    ensures
        item@.app_id == item.app_id,
        item@.name == item.name@,
{
}

/// A row of the branch dropdown shows its fields, each as itself.
pub proof fn branch_item_shows_its_fields(item: BranchItem)
    ensures
        item@.name == item.name@,
        item@.password_required == item.password_required,
{
}

/// A question shows its fields, each as itself.
pub proof fn prompt_shows_its_fields(prompt: Prompt)
    ensures
        prompt@.kind == prompt.kind,
        prompt@.message == prompt.message@,
{
}

/// A state shows itself, with what it carries.
pub proof fn run_state_shows_itself(state: RunState)
    ensures
        match state {
            RunState::PreparingDepotDownloader => state@ is PreparingDepotDownloader,
            RunState::LookingUpApp => state@ is LookingUpApp,
            RunState::FetchingLibrary => state@ is FetchingLibrary,
            RunState::Idle => state@ is Idle,
            RunState::Running(stats) => state@ == RunStateView::Running(stats@),
            RunState::ShowingQrCode { url } => state@ == (RunStateView::ShowingQrCode { url: url@ }),
            RunState::AwaitingSteamGuardCode { message } => state@ == (
            RunStateView::AwaitingSteamGuardCode { message: message@ }),
            RunState::AwaitingSteamGuardConfirmation => state@ is AwaitingSteamGuardConfirmation,
            RunState::Reconnecting { attempt } => state@ == (RunStateView::Reconnecting {
                attempt,
            }),
            RunState::Paused(stats) => state@ == RunStateView::Paused(stats@),
            RunState::Finished(stats) => state@ == RunStateView::Finished(stats@),
            RunState::Failed(message) => state@ == RunStateView::Failed(message@),
        },
{
}

/// A state over console output shows itself, with what it carries.
pub proof fn console_state_shows_itself(state: ConsoleState)
    ensures
        match state {
            ConsoleState::PreparingDepotDownloader => state@ is PreparingDepotDownloader,
            ConsoleState::Idle => state@ is Idle,
            ConsoleState::Running(stats) => state@ == ConsoleStateView::Running(stats@),
            ConsoleState::ShowingQrCode { ascii_art } => state@ == (
            ConsoleStateView::ShowingQrCode { ascii_art: ascii_art@ }),
            ConsoleState::AwaitingSteamGuardCode => state@ is AwaitingSteamGuardCode,
            ConsoleState::AwaitingSteamGuardEmailCode { email } => state@ == (
            ConsoleStateView::AwaitingSteamGuardEmailCode { email: email@ }),
            ConsoleState::AwaitingSteamGuardConfirmation => {
                state@ is AwaitingSteamGuardConfirmation
            },
            ConsoleState::Paused(stats) => state@ == ConsoleStateView::Paused(stats@),
            ConsoleState::Finished(stats) => state@ == ConsoleStateView::Finished(stats@),
            ConsoleState::Failed(message) => state@ == ConsoleStateView::Failed(message@),
        },
{
}

/// What is shown shows itself, with its texts.
pub proof fn status_shows_itself(status: Status)
    ensures
        match status {
            Status::Blank => status@ is Blank,
            Status::Line(text) => status@ == StatusView::Line(text@),
            Status::QrCode { heading, code } => status@ == (StatusView::QrCode {
                heading: heading@,
                code: code@,
            }),
            Status::GuardCode { label } => status@ == (StatusView::GuardCode { label: label@ }),
            Status::Running => status@ is Running,
            Status::Paused => status@ is Paused,
            Status::Finished { hint } => status@ is Finished && shows(status@->hint, hint),
            Status::Failed(message) => status@ == StatusView::Failed(message@),
        },
{
}

/// A login shows itself, with its account and its password.
pub proof fn login_shows_itself(login: LoginMethod)
    ensures
        match login {
            LoginMethod::UsernamePassword { username, password } => login@ == (
            LoginView::UsernamePassword { username: username@, password: password@ }),
            LoginMethod::Qr => login@ is Qr,
            LoginMethod::RememberedUsername { username } => login@ == (
            LoginView::RememberedUsername { username: username@ }),
            LoginMethod::Anonymous => login@ is Anonymous,
        },
{
}

/// An event of a run shows itself, each number and text as itself.
pub proof fn event_shows_itself(event: Event)
    ensures
        match event {
            Event::Log { level, message } => event@ == (EventView::Log {
                level,
                message: message@,
            }),
            Event::AuthPrompt { kind, message } => event@ == (EventView::AuthPrompt {
                kind,
                message: message@,
            }),
            Event::Qr { url } => event@ == (EventView::Qr { url: url@ }),
            Event::LoginSuccess { username } => event@ is LoginSuccess && shows(
                event@->username,
                username,
            ),
            Event::Plan { total_compressed_bytes, total_uncompressed_bytes, total_files } => event@
                == (EventView::Plan {
                total_compressed_bytes,
                total_uncompressed_bytes,
                total_files,
            }),
            Event::DepotStart { depot_id } => event@ == (EventView::DepotStart { depot_id }),
            Event::Progress {
                network_bytes,
                written_bytes,
                verified_bytes,
                files_done,
                current_file,
            } => {
                &&& event@ is Progress
                &&& event@->Progress_network_bytes == network_bytes
                &&& event@->Progress_written_bytes == written_bytes
                &&& event@->Progress_verified_bytes == verified_bytes
                &&& event@->files_done == files_done
                &&& shows(event@->current_file, current_file)
            },
            Event::Done { network_bytes, written_bytes, verified_bytes } => event@ == (
            EventView::Done { network_bytes, written_bytes, verified_bytes }),
            Event::Error { message } => event@ == (EventView::Error { message: message@ }),
            Event::UserApps { apps, count } => {
                &&& event@ is UserApps
                &&& event@->count == count
                &&& event@->apps.len() == apps@.len()
                &&& forall|i: int|
                    0 <= i < apps@.len() ==> (#[trigger] event@->apps[i]) == apps@[i]@
            },
            Event::Branches { app_id, branches } => {
                &&& event@ is Branches
                &&& event@->app_id == app_id
                &&& event@->branches.len() == branches@.len()
                &&& forall|i: int|
                    0 <= i < branches@.len() ==> (#[trigger] event@->branches[i]) == branches@[i]@
            },
            Event::Ignored => event@ is Ignored,
        },
{
}

/// An event of console output shows itself, each number and text as itself.
pub proof fn download_event_shows_itself(event: DownloadEvent)
    ensures
        match event {
            DownloadEvent::UsingBranch { branch } => event@ == (DownloadEventView::UsingBranch {
                branch: branch@,
            }),
            DownloadEvent::ProcessingDepot { depot_id } => event@ == (
            DownloadEventView::ProcessingDepot { depot_id }),
            DownloadEvent::DownloadingDepotManifest { depot_id } => event@ == (
            DownloadEventView::DownloadingDepotManifest { depot_id }),
            DownloadEvent::DownloadingDepot { depot_id } => event@ == (
            DownloadEventView::DownloadingDepot { depot_id }),
            DownloadEvent::FileProgress { percent, path } => event@ == (
            DownloadEventView::FileProgress { percent, path: path@ }),
            DownloadEvent::OverallProgress { percent } => event@ == (
            DownloadEventView::OverallProgress { percent }),
            DownloadEvent::DepotFinished { depot_id, compressed_bytes, uncompressed_bytes } =>
                event@ == (DownloadEventView::DepotFinished {
                depot_id,
                compressed_bytes,
                uncompressed_bytes,
            }),
            DownloadEvent::TotalDownloaded { compressed_bytes, uncompressed_bytes, depot_count } =>
                event@ == (DownloadEventView::TotalDownloaded {
                compressed_bytes,
                uncompressed_bytes,
                depot_count,
            }),
            DownloadEvent::SteamGuardCodeRequested => event@ is SteamGuardCodeRequested,
            DownloadEvent::SteamGuardEmailCodeRequested { email } => event@ == (
            DownloadEventView::SteamGuardEmailCodeRequested { email: email@ }),
            DownloadEvent::SteamGuardConfirmationRequested => {
                event@ is SteamGuardConfirmationRequested
            },
            DownloadEvent::QrCodeReady { ascii_art } => event@ == (DownloadEventView::QrCodeReady {
                ascii_art: ascii_art@,
            }),
            DownloadEvent::ErrorLine { message } => event@ == (DownloadEventView::ErrorLine {
                message: message@,
            }),
            DownloadEvent::OtherOutput => event@ is OtherOutput,
        },
{
}

/// What a listing reports shows itself, with what it carries.
pub proof fn listing_event_shows_itself(event: UserAppsEvent)
    ensures
        match event {
            UserAppsEvent::Prompt(prompt) => event@ == UserAppsEventView::Prompt(prompt@),
            UserAppsEvent::LoginSuccess { username } => event@ is LoginSuccess && shows(
                event@->username,
                username,
            ),
            UserAppsEvent::LoginExpired => event@ is LoginExpired,
            UserAppsEvent::Apps(apps) => {
                &&& event@ is Apps
                &&& event@->Apps_0.len() == apps@.len()
                &&& forall|i: int|
                    0 <= i < apps@.len() ==> (#[trigger] event@->Apps_0[i]) == apps@[i]@
            },
            UserAppsEvent::Error(message) => event@ == UserAppsEventView::Error(message@),
            UserAppsEvent::Exited => event@ is Exited,
            UserAppsEvent::FailedToStart(message) => event@ == UserAppsEventView::FailedToStart(
                message@,
            ),
        },
{
}

/// What Steam asks for shows itself, in a download and in a listing.
pub proof fn questions_show_themselves(prompt: AuthPrompt, listed: ListPrompt)
    ensures
        match prompt {
            AuthPrompt::Code => prompt@ is Code,
            AuthPrompt::EmailCode { email } => prompt@ == (AuthPromptView::EmailCode {
                email: email@,
            }),
            AuthPrompt::Confirmation => prompt@ is Confirmation,
        },
        match listed {
            ListPrompt::Qr { url } => listed@ == (ListPromptView::Qr { url: url@ }),
            ListPrompt::AuthPrompt { kind, message } => listed@ == (ListPromptView::AuthPrompt {
                kind,
                message: message@,
            }),
        },
{
}

/// A JSON value shows itself: its text, its numbers, its items and its entries,
/// each as itself and in order.
pub proof fn json_shows_itself(json: Json)
    ensures
        match json {
            Json::Null => json@ is Null,
            Json::Bool(value) => json@ == JsonView::Bool(value),
            Json::Number(value) => json@ == JsonView::Number(value),
            Json::Text(text) => json@ == JsonView::Text(text@),
            Json::Array(items) => {
                &&& json@ is Array
                &&& json@->Array_0.len() == items@.len()
                &&& forall|i: int|
                    0 <= i < items@.len() ==> (#[trigger] json@->Array_0[i]) == items@[i]@
            },
            Json::Object(entries) => {
                &&& json@ is Object
                &&& json@->Object_0.len() == entries@.len()
                &&& forall|i: int|
                    0 <= i < entries@.len() ==> (#[trigger] json@->Object_0[i]) == (
                        entries@[i].0@,
                        entries@[i].1@,
                    )
            },
        },
{
}

} // verus!
