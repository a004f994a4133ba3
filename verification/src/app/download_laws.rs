//! What becomes of the contents of the download form.

use vstd::prelude::*;

use super::download::{
    after_cancel_request, after_code, after_failure, after_launch, after_logout,
    after_manifest_saved, after_next_leg, after_pause_request, after_start, code_to_send,
    first_leg, has_next_leg, is_signalled, leg_launch, leg_manifest, next_leg_of, resumed,
    typed_max_downloads, LegView, ManifestFile,
};
use super::laws::{after_queue_steps, queue_is_worked_off_in_order, QueueStep};
use super::process_events::{after_following, after_process_event};
use super::session::{new_session, SessionConfigView, SessionView};
use super::state::{
    LaunchView, LoginMode, PendingAction, PendingControl, PendingManifestView, RunStateView,
    RunStats, RunStatsView,
};
use crate::decimal::{decimal, number};
use crate::depot_downloader::process::{LoginView, ProcessEvent};
use crate::steam::app_info::AppInfoView;
use crate::steam::app_manifest::{ends_in_library, manifest_text, steamapps_of};
use crate::steam::manifest_laws::{tokens_of, value_of, values_are_those_looked_up};
use crate::text::trimmed;

verus! {

/// The session can start a download with what was typed.
pub open spec fn can_start(session: SessionView, max_downloads: Seq<char>) -> bool {
    &&& session.depot_downloader_binary is Some
    &&& session.selected_app is Some
    &&& typed_max_downloads(max_downloads) is Some
}

/// A download that starts takes everything from the form as it stands: the
/// folder, the bound, the branch, and whether the library is to be told is
/// what the session says at that moment. The game is looked up at once and the
/// DLC wait in the order they were checked in. The folder, the bound and the
/// game are remembered, and the login and the known branches stay.
pub proof fn form_becomes_the_queue(
    session: SessionView,
    download_dir: Seq<char>,
    max_downloads: Seq<char>,
    branch: Option<Seq<char>>,
    dlc_ids: Seq<u64>,
)
    requires
        can_start(session, max_downloads),
        dlc_ids.len() < usize::MAX,
    ensures
        ({
            let started = after_start(session, download_dir, max_downloads, branch, dlc_ids);
            let context = started.queue_context.unwrap();
            let dir = trimmed(download_dir);
            &&& started.run_state is LookingUpApp
            &&& started.queue_context is Some
            &&& context.add_to_steam_library == session.add_to_steam_library
            &&& context.branch == branch
            &&& context.library_dir is None <==> dir.len() == 0
            &&& context.library_dir is Some ==> context.library_dir == Some(dir)
            &&& context.max_downloads is None <==> trimmed(max_downloads).len() == 0
            &&& context.max_downloads is Some ==> {
                &&& context.max_downloads.unwrap() > 0
                &&& number(trimmed(max_downloads)) == Some(context.max_downloads.unwrap() as nat)
            }
            &&& started.download_queue == dlc_ids
            &&& started.download_queue_total == dlc_ids.len() + 1
            &&& started.retry_count == 0
            &&& started.pending_action == PendingAction::Download
            &&& started.config.last_app_id == Some(session.selected_app.unwrap().app_id)
            &&& started.config.last_download_location == context.library_dir
            &&& started.config.last_max_downloads == trimmed(max_downloads)
            &&& started.config.logged_in_username == session.config.logged_in_username
            &&& started.config.branch_cache == session.config.branch_cache
        }),
{
}

/// Starting a download touches neither the lists of apps nor the choice of
/// game nor the process, and a form that cannot be started touches nothing but
/// what is shown.
pub proof fn starting_leaves_the_rest(
    session: SessionView,
    download_dir: Seq<char>,
    max_downloads: Seq<char>,
    branch: Option<Seq<char>>,
    dlc_ids: Seq<u64>,
)
    ensures
        ({
            let started = after_start(session, download_dir, max_downloads, branch, dlc_ids);
            &&& started.login_mode == session.login_mode
            &&& started.add_to_steam_library == session.add_to_steam_library
            &&& started.depot_downloader_binary == session.depot_downloader_binary
            &&& started.owned_apps == session.owned_apps
            &&& started.free_apps == session.free_apps
            &&& started.selected_app == session.selected_app
            &&& started.dlc_available == session.dlc_available
            &&& started.dlc_loading == session.dlc_loading
            &&& started.branches_loading == session.branches_loading
            &&& started.can_respond == session.can_respond
            &&& started.can_cancel == session.can_cancel
            &&& started.pending_control == session.pending_control
            &&& started.last_request == session.last_request
            &&& started.library_manifest == session.library_manifest
            &&& started.steam_library_manifest_written == session.steam_library_manifest_written
            &&& !can_start(session, max_downloads) ==> {
                &&& started.config == session.config
                &&& started.download_queue == session.download_queue
                &&& started.download_queue_total == session.download_queue_total
                &&& started.queue_context == session.queue_context
                &&& started.retry_count == session.retry_count
                &&& started.pending_action == session.pending_action
                &&& session.depot_downloader_binary is None ==> started.run_state
                    == session.run_state
                &&& session.depot_downloader_binary is Some && session.selected_app is None
                    ==> started.run_state == RunStateView::Failed("Choose a game first."@)
                &&& session.depot_downloader_binary is Some && session.selected_app is Some
                    ==> started.run_state == RunStateView::Failed(
                    "Max downloads must be a whole number greater than 0."@,
                )
            }
        }),
{
}

/// A bound on the downloads is taken exactly where what was typed is blank, or
/// a number greater than 0 that fits in 32 bits; and it is that number.
pub proof fn bounds_are_numbers(text: Seq<char>)
    ensures
        typed_max_downloads(text) is Some <==> {
            ||| trimmed(text).len() == 0
            ||| {
                &&& number(trimmed(text)) is Some
                &&& 0 < number(trimmed(text)).unwrap() <= 4_294_967_295
            }
        },
        typed_max_downloads(text) == Some(None::<u32>) <==> trimmed(text).len() == 0,
        trimmed(text).len() > 0 && typed_max_downloads(text) is Some ==> {
            &&& typed_max_downloads(text).unwrap() is Some
            &&& typed_max_downloads(text).unwrap().unwrap() == number(trimmed(text)).unwrap()
        },
{
}

/// The game itself is begun first, with its own id, the login in use, the
/// program, and the choices of the form.
pub proof fn game_is_begun_first(
    session: SessionView,
    download_dir: Seq<char>,
    max_downloads: Seq<char>,
    branch: Option<Seq<char>>,
    dlc_ids: Seq<u64>,
    dir: Option<Seq<char>>,
)
    requires
        can_start(session, max_downloads),
    ensures
        ({
            let started = after_start(session, download_dir, max_downloads, branch, dlc_ids);
            let launch = leg_launch(first_leg(session, started), dir);
            &&& launch.request.app_id == decimal(session.selected_app.unwrap().app_id as nat)
            &&& launch.request.login == session.current_login()
            &&& Some(launch.request.depot_downloader_binary) == session.depot_downloader_binary
            &&& launch.request.download_dir == dir
            &&& Some(launch.request.max_downloads) == typed_max_downloads(max_downloads)
            &&& launch.branch == branch
        }),
{
}

/// Where the library was not to be told when a download was started, no leg of
/// it leaves anything to tell, neither the game's nor any of the DLC's,
/// whatever happens in between. Where it was, every leg into a Steam library
/// does: the app's id and what was looked up of it, for the folder above.
pub proof fn library_is_told_as_chosen_at_the_start(
    session: SessionView,
    download_dir: Seq<char>,
    max_downloads: Seq<char>,
    branch: Option<Seq<char>>,
    dlc_ids: Seq<u64>,
    steps: Seq<QueueStep>,
    binary: Seq<char>,
    login: LoginView,
    info: AppInfoView,
)
    requires
        can_start(session, max_downloads),
    ensures
        ({
            let started = after_start(session, download_dir, max_downloads, branch, dlc_ids);
            let later = after_queue_steps(started, steps);
            let first = first_leg(session, started);
            let next = next_leg_of(later, binary, login);
            &&& !session.add_to_steam_library ==> {
                &&& leg_manifest(first, info) is None
                &&& leg_manifest(next, info) is None
            }
            &&& session.add_to_steam_library && trimmed(download_dir).len() > 0 && ends_in_library(
                trimmed(download_dir),
            ) ==> {
                &&& leg_manifest(first, info) == Some(
                    PendingManifestView {
                        steamapps_dir: steamapps_of(trimmed(download_dir)),
                        app_id: first.app_id,
                        app_info: info,
                    },
                )
                &&& leg_manifest(next, info) == Some(
                    PendingManifestView {
                        steamapps_dir: steamapps_of(trimmed(download_dir)),
                        app_id: next.app_id,
                        app_info: info,
                    },
                )
            }
        }),
{
    let started = after_start(session, download_dir, max_downloads, branch, dlc_ids);
    queue_is_worked_off_in_order(started, steps);
}

/// The session after a leg was looked up and launched.
pub open spec fn after_leg(
    session: SessionView,
    leg: LegView,
    info: AppInfoView,
    download_dir: Option<Seq<char>>,
) -> SessionView {
    after_launch(
        SessionView { library_manifest: leg_manifest(leg, info), ..session },
        leg_launch(leg, download_dir),
    )
}

/// A leg that the library is not to be told of ends without a file for it: it
/// is launched with nothing pending, no event adds anything, and an event that
/// ends it finds nothing.
pub proof fn untold_legs_stay_untold(
    session: SessionView,
    leg: LegView,
    info: AppInfoView,
    download_dir: Option<Seq<char>>,
    events: Seq<ProcessEvent<RunStats>>,
)
    requires
        !leg.context.add_to_steam_library,
    ensures
        after_leg(session, leg, info, download_dir).library_manifest is None,
        after_events(after_leg(session, leg, info, download_dir), events).library_manifest is None,
    decreases events.len(),
{
    if events.len() > 0 {
        untold_legs_stay_untold(session, leg, info, download_dir, events.drop_last());
    }
}

/// The session after a row of events.
pub open spec fn after_events(session: SessionView, events: Seq<ProcessEvent<RunStats>>) -> SessionView
    decreases events.len(),
{
    if events.len() == 0 {
        session
    } else {
        after_process_event(after_events(session, events.drop_last()), events.last())
    }
}

/// What is pending for the library stays until the download is finished, and
/// is then gone.
pub proof fn pending_manifest_waits_for_the_end(
    session: SessionView,
    event: ProcessEvent<RunStats>,
)
    ensures
        ({
            let after = after_process_event(session, event);
            &&& after.run_state is Finished && !(session.run_state is Finished)
                ==> after.library_manifest is None && !after.steam_library_manifest_written
            &&& !(after.run_state is Finished) ==> {
                &&& after.library_manifest == session.library_manifest
                &&& after.steam_library_manifest_written == session.steam_library_manifest_written
            }
        }),
{
}

/// Every leg is launched with its own app, login and executable, and with the
/// branch and the bound of its queue.
pub proof fn legs_are_launched_as_queued(
    session: SessionView,
    binary: Seq<char>,
    login: LoginView,
    download_dir: Option<Seq<char>>,
)
    requires
        has_next_leg(session),
    ensures
        ({
            let leg = next_leg_of(session, binary, login);
            let launch = leg_launch(leg, download_dir);
            let context = session.queue_context.unwrap();
            &&& launch.request.app_id == decimal(session.download_queue[0] as nat)
            &&& launch.request.login == login
            &&& launch.request.depot_downloader_binary == binary
            &&& launch.request.download_dir == download_dir
            &&& launch.request.max_downloads == context.max_downloads
            &&& launch.branch == context.branch
            &&& leg.context == context
            &&& after_next_leg(session).download_queue == session.download_queue.subrange(
                1,
                session.download_queue.len() as int,
            )
            &&& after_next_leg(session).run_state is LookingUpApp
        }),
{
}

/// A launch is noted as the last one, runs from nothing, can be answered and
/// cancelled, and waits for no control; it changes nothing about the queue or
/// what is remembered.
pub proof fn launches_are_noted(session: SessionView, launch: LaunchView)
    ensures
        ({
            let after = after_launch(session, launch);
            &&& after.last_request == Some(launch)
            &&& after.can_respond
            &&& after.can_cancel
            &&& after.pending_control is None
            &&& after.run_state is Running
            &&& !after.run_state->Running_0.is_finished
            &&& after.run_state->Running_0.network_bytes == 0
            &&& after.run_state->Running_0.error_message is None
            &&& same_but_for_the_run(session, after)
            &&& after.retry_count == session.retry_count
            &&& after.library_manifest == session.library_manifest
            &&& after.steam_library_manifest_written == session.steam_library_manifest_written
            &&& after.config == session.config
            &&& after.download_queue == session.download_queue
        }),
{
}

/// What only the user and the lists change is the same.
pub open spec fn same_but_for_the_run(before: SessionView, after: SessionView) -> bool {
    &&& after.login_mode == before.login_mode
    &&& after.add_to_steam_library == before.add_to_steam_library
    &&& after.depot_downloader_binary == before.depot_downloader_binary
    &&& after.pending_action == before.pending_action
    &&& after.owned_apps == before.owned_apps
    &&& after.free_apps == before.free_apps
    &&& after.selected_app == before.selected_app
    &&& after.dlc_available == before.dlc_available
    &&& after.dlc_loading == before.dlc_loading
    &&& after.branches_loading == before.branches_loading
    &&& after.download_queue_total == before.download_queue_total
    &&& after.queue_context == before.queue_context
}

/// Neither an event nor a failure nor the next leg changes what the user chose
/// or what was listed; and events change nothing that is remembered but the
/// login.
pub proof fn runs_leave_the_choices(
    session: SessionView,
    event: ProcessEvent<RunStats>,
    reason: Seq<char>,
)
    ensures
        same_but_for_the_run(session, after_process_event(session, event)),
        same_but_for_the_run(session, after_following(session, event)),
        same_but_for_the_run(session, after_failure(session, reason)),
        same_but_for_the_run(session, after_next_leg(session)),
        ({
            let after = after_process_event(session, event);
            &&& after.config.last_app_id == session.config.last_app_id
            &&& after.config.last_download_location == session.config.last_download_location
            &&& after.config.last_max_downloads == session.config.last_max_downloads
            &&& after.config.branch_cache == session.config.branch_cache
            &&& after.download_queue == session.download_queue
            &&& after.can_respond == session.can_respond
            &&& after.can_cancel == session.can_cancel
            &&& after.last_request == session.last_request
            &&& event is Exited ==> after.pending_control is None
            &&& !(event is Exited) ==> after.pending_control == session.pending_control
            &&& !(event is Stats) ==> after.retry_count == session.retry_count
        }),
        ({
            let after = after_failure(session, reason);
            &&& after.config == session.config
            &&& after.download_queue == session.download_queue
            &&& after.can_respond == session.can_respond
            &&& after.can_cancel == session.can_cancel
            &&& after.last_request == session.last_request
            &&& after.pending_control == session.pending_control
            &&& after.library_manifest == session.library_manifest
            &&& after.steam_library_manifest_written == session.steam_library_manifest_written
        }),
        ({
            let after = after_next_leg(session);
            &&& after.config == session.config
            &&& after.can_respond == session.can_respond
            &&& after.can_cancel == session.can_cancel
            &&& after.last_request == session.last_request
            &&& after.pending_control == session.pending_control
            &&& after.library_manifest == session.library_manifest
            &&& after.steam_library_manifest_written == session.steam_library_manifest_written
            &&& after.retry_count == session.retry_count
        }),
{
}

/// A run is resumed with everything as it was launched, but for the login.
pub proof fn resumed_runs_are_the_same(last: LaunchView, login: LoginView)
    ensures
        ({
            let again = resumed(last, login);
            &&& again.request.login == login
            &&& again.request.app_id == last.request.app_id
            &&& again.request.download_dir == last.request.download_dir
            &&& again.request.max_downloads == last.request.max_downloads
            &&& again.request.depot_downloader_binary == last.request.depot_downloader_binary
            &&& again.branch == last.branch
        }),
{
}

/// Up to three times in a row a failure is retried, and each counts one up;
/// the fourth is shown with its reason and the retries made, and one that was
/// never retried with its reason alone.
pub proof fn failures_are_retried_three_times(session: SessionView, reason: Seq<char>)
    ensures
        ({
            let after = after_failure(session, reason);
            &&& session.last_request is Some && session.retry_count < 3 ==> {
                &&& after.retry_count == session.retry_count + 1
                &&& after.run_state == RunStateView::Reconnecting {
                    attempt: (session.retry_count + 1) as u32,
                }
            }
            &&& session.last_request is None || session.retry_count >= 3 ==> {
                &&& after.retry_count == session.retry_count
                &&& after.run_state is Failed
                &&& session.retry_count == 0 ==> after.run_state->Failed_0 == reason
                &&& session.retry_count > 0 ==> after.run_state->Failed_0 == reason
                    + " (gave up after "@ + decimal(session.retry_count as nat) + " retries.)"@
            }
        }),
{
}

/// A pause that is asked for waits for the exit and changes nothing else; a
/// paused download that is cancelled is idle at once and waits for nothing, any
/// other waits for the exit of its process, which is told if there is one.
pub proof fn controls_wait_for_the_exit(session: SessionView)
    ensures
        ({
            let pausing = after_pause_request(session);
            &&& pausing.pending_control == Some(PendingControl::Pausing)
            &&& pausing.run_state == session.run_state
            &&& same_but_for_the_run(session, pausing)
            &&& same_process(session, pausing)
        }),
        ({
            let cancelling = after_cancel_request(session);
            &&& session.run_state is Paused ==> {
                &&& cancelling.run_state is Idle
                &&& cancelling.pending_control == session.pending_control
                &&& !is_signalled(session)
            }
            &&& !(session.run_state is Paused) ==> {
                &&& cancelling.run_state == session.run_state
                &&& cancelling.pending_control == Some(PendingControl::Cancelling)
                &&& is_signalled(session) == session.can_cancel
            }
            &&& same_but_for_the_run(session, cancelling)
            &&& same_process(session, cancelling)
        }),
{
}

/// What is known of the process, the queue and the library is the same.
pub open spec fn same_process(before: SessionView, after: SessionView) -> bool {
    &&& after.config == before.config
    &&& after.download_queue == before.download_queue
    &&& after.can_respond == before.can_respond
    &&& after.can_cancel == before.can_cancel
    &&& after.last_request == before.last_request
    &&& after.retry_count == before.retry_count
    &&& after.library_manifest == before.library_manifest
    &&& after.steam_library_manifest_written == before.steam_library_manifest_written
}

/// Logging out forgets the account and its apps, and nothing else: neither the
/// free apps nor what was used last nor the known branches. Afterwards the
/// login is anonymous.
pub proof fn logging_out_forgets_the_account(session: SessionView)
    ensures
        ({
            let after = after_logout(session);
            &&& after.config.logged_in_username is None
            &&& after.current_login() is Anonymous
            &&& after.owned_apps.len() == 0
            &&& after.free_apps == session.free_apps
            &&& after.config.last_app_id == session.config.last_app_id
            &&& after.config.last_download_location == session.config.last_download_location
            &&& after.config.last_max_downloads == session.config.last_max_downloads
            &&& after.config.branch_cache == session.config.branch_cache
            &&& after.run_state == session.run_state
            &&& after.depot_downloader_binary == session.depot_downloader_binary
            &&& after.selected_app == session.selected_app
            &&& after.download_queue == session.download_queue
            &&& after.queue_context == session.queue_context
            &&& after.last_request == session.last_request
            &&& after.pending_control == session.pending_control
        }),
{
}

/// The hint about Steam is owed once a file was written, and a later failure
/// does not take it back.
pub proof fn written_files_are_noted(session: SessionView, written: bool)
    ensures
        ({
            let after = after_manifest_saved(session, written);
            &&& written ==> after.steam_library_manifest_written
            &&& !written ==> after == session
            &&& after.run_state == session.run_state
            &&& after.library_manifest == session.library_manifest
        }),
{
}

/// A code is sent as typed but for white space around it, only where there is
/// one and a process waits; then the download or the listing goes on, whichever
/// asked. Nothing is sent and nothing changes otherwise.
pub proof fn codes_are_sent_as_typed(session: SessionView, typed: Seq<char>)
    ensures
        code_to_send(session, typed) is Some <==> session.can_respond && trimmed(typed).len() > 0,
        code_to_send(session, typed) is Some ==> code_to_send(session, typed) == Some(
            trimmed(typed),
        ),
        code_to_send(session, typed) is None ==> after_code(session, typed) == session,
        code_to_send(session, typed) is Some ==> {
            let after = after_code(session, typed);
            &&& session.pending_action == PendingAction::Download ==> after.run_state is Running
                && !after.run_state->Running_0.is_finished
            &&& session.pending_action == PendingAction::FetchLibrary
                ==> after.run_state is FetchingLibrary
            &&& same_but_for_the_run(session, after)
            &&& same_process(session, after)
            &&& after.pending_control == session.pending_control
        },
{
}

/// The file that tells Steam of a finished download, read back, says what was
/// pending for it: the app, its name and build as they were looked up, its
/// folder, its size as the run told it, and the manifests of the depots that the
/// run told of. It is named after the app and goes where it was to go.
pub proof fn told_files_are_read_back(
    file: ManifestFile,
    pending: PendingManifestView,
    stats: RunStatsView,
    last_updated: u64,
)
    requires
        file.is_for(pending, stats, last_updated),
    ensures
        ({
            let values = tokens_of(file.contents@).skip(2);
            let info = pending.app_info;
            &&& file.steamapps_dir@ == pending.steamapps_dir
            &&& file.file_name@ == "appmanifest_"@ + pending.app_id + ".acf"@
            &&& value_of(values, "appid"@) == Some(pending.app_id)
            &&& value_of(values, "name"@) == match info.display_name {
                Some(name) => Some(name),
                None => Some(pending.app_id),
            }
            &&& value_of(values, "buildid"@) == match info.buildid {
                Some(buildid) => Some(buildid),
                None => Some("0"@),
            }
            &&& value_of(values, "installdir"@) == Some(info.install_dir_name)
            &&& value_of(values, "SizeOnDisk"@) == Some(
                decimal(stats.total_uncompressed_bytes as nat),
            )
            &&& value_of(values, "LastUpdated"@) == Some(decimal(last_updated as nat))
            &&& file.contents@ == manifest_text(
                pending.app_id,
                info,
                stats.total_uncompressed_bytes,
                stats.depot_ids,
                last_updated,
            )
        }),
{
    values_are_those_looked_up(
        pending.app_id,
        pending.app_info,
        stats.total_uncompressed_bytes,
        stats.depot_ids,
        last_updated,
    );
}

/// A session begins with what is remembered, with Steam to be told of
/// downloads, and without a program, a process, apps, a choice or a queue.
pub proof fn sessions_begin_with_what_is_remembered(config: SessionConfigView)
    ensures
        ({
            let session = new_session(config);
            &&& session.config == config
            &&& session.add_to_steam_library
            &&& session.login_mode == LoginMode::UsernamePassword
            &&& session.run_state is PreparingDepotDownloader
            &&& session.depot_downloader_binary is None
            &&& session.owned_apps.len() == 0
            &&& session.free_apps.len() == 0
            &&& session.selected_app is None
            &&& !session.dlc_available
            &&& !session.dlc_loading
            &&& !session.branches_loading
            &&& session.download_queue.len() == 0
            &&& session.queue_context is None
            &&& !session.can_respond
            &&& !session.can_cancel
            &&& session.pending_control is None
            &&& session.last_request is None
            &&& session.retry_count == 0
            &&& session.library_manifest is None
            &&& !session.steam_library_manifest_written
        }),
{
}

} // verus!
