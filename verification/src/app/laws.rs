//! What holds of every session.

use vstd::prelude::*;

use super::download::{
    after_failure, after_launch, after_next_leg, after_start, has_next_leg, leg_manifest, resumed,
    typed_max_downloads, LegView, MAX_RETRIES,
};
use super::process_events::{
    after_following, after_process_event, finishes, remembered_after, state_of, to_be_stored,
    unexpected_exit,
};
use super::selection::after_selection;
use super::session::{
    apps_not_in, combined, has_app_id, new_session, SessionConfigView, SessionView,
};
use super::state::{LaunchView, PendingControl, RunStateView, RunStats, RunStatsView};
use super::user_apps::after_user_apps_event;
use crate::decimal::{decimal, decimal_is_digits, number_of_decimal};
use crate::depot_downloader::event::SteamAppView;
use crate::depot_downloader::list::UserAppsEventView;
use crate::depot_downloader::process::{ExitOutcome, ProcessEvent};
use crate::json::JsonView;
use crate::paths::{
    is_plain_name, joined_name_lies_in_the_directory, joined_name_lies_in_the_windows_directory,
    joins, last_component, parent, under, windows_prefix, without_tail, Os, PathStyle,
};
use crate::steam::app_info::{app_info_of, install_dir_stays_in_the_library, looked_up};
use crate::steam::app_manifest::ends_in_library;
use crate::text::{begins_with, is_digit, trimmed};

verus! {

/// A login is only ever remembered from a snapshot that reports the account,
/// and only ever forgotten where it has expired: prompts, errors and progress
/// leave it alone.
pub proof fn login_is_remembered_on_success_alone(known: Option<Seq<char>>, stats: RunStatsView)
    ensures
        ({
            let after = remembered_after(known, stats);
            &&& after is Some ==> after == known || after == stats.logged_in_username
            &&& stats.logged_in_username is None && !stats.login_expired ==> after == known
            &&& !stats.login_expired && known is Some ==> after is Some
            &&& stats.login_expired ==> after is None
            &&& after != known ==> to_be_stored(known, stats)
        }),
{
}

/// Events of the process other than snapshots leave what is remembered alone.
pub proof fn exits_leave_the_login_alone(
    session: SessionView,
    outcome: ExitOutcome,
    message: String,
)
    ensures
        after_process_event(session, ProcessEvent::<RunStats>::Exited(outcome)).config
            == session.config,
        after_process_event(session, ProcessEvent::<RunStats>::FailedToStart(message)).config
            == session.config,
{
}

/// Pausing a running download and resuming it launches the same request on
/// behalf of the current login, and shows the same progress in between.
pub proof fn pausing_and_resuming_keeps_the_request(
    session: SessionView,
    stats: RunStatsView,
    last: LaunchView,
    outcome: ExitOutcome,
)
    requires
        session.run_state == RunStateView::Running(stats),
        session.last_request == Some(last),
    ensures
        ({
            let asked = SessionView {
                pending_control: Some(PendingControl::Pausing),
                ..session
            };
            let paused = after_process_event(asked, ProcessEvent::<RunStats>::Exited(outcome));
            let launch = resumed(last, paused.current_login());
            let running = after_launch(paused, launch);
            &&& paused.run_state == RunStateView::Paused(stats)
            &&& paused.pending_control is None
            &&& paused.last_request == Some(last)
            &&& launch.branch == last.branch
            &&& launch.request.depot_downloader_binary == last.request.depot_downloader_binary
            &&& launch.request.app_id == last.request.app_id
            &&& launch.request.download_dir == last.request.download_dir
            &&& launch.request.max_downloads == last.request.max_downloads
            &&& launch.request.login == session.current_login()
            &&& running.run_state is Running
            &&& running.library_manifest == session.library_manifest
        }),
{
}

/// Resuming never repeats a password or a QR scan.
pub proof fn resuming_never_repeats_a_password(session: SessionView, last: LaunchView)
    ensures
        !(resumed(last, session.current_login()).request.login is UsernamePassword),
        !(resumed(last, session.current_login()).request.login is Qr),
{
}

/// A cancelled download is over once its process has exited, however that
/// ended and whatever was going on.
pub proof fn cancelling_ends_the_download(session: SessionView, outcome: ExitOutcome)
    ensures
        ({
            let asked = SessionView {
                pending_control: Some(PendingControl::Cancelling),
                ..session
            };
            let over = after_process_event(asked, ProcessEvent::<RunStats>::Exited(outcome));
            &&& over.run_state == RunStateView::Idle
            &&& over.pending_control is None
            &&& over.awaits_start()
        }),
{
}

/// The number of retries never exceeds its bound, and where it has reached it
/// the next failure is final.
pub proof fn retries_are_bounded(session: SessionView, reason: Seq<char>)
    requires
        session.retry_count <= MAX_RETRIES,
    ensures
        after_failure(session, reason).retry_count <= MAX_RETRIES,
        session.retry_count == MAX_RETRIES ==> after_failure(session, reason).run_state is Failed,
        after_failure(session, reason).run_state matches RunStateView::Reconnecting { attempt }
            ==> 1 <= attempt <= MAX_RETRIES && attempt == session.retry_count + 1,
{
}

/// The session after failures, one after the other.
pub open spec fn after_failures(session: SessionView, reasons: Seq<Seq<char>>) -> SessionView
    decreases reasons.len(),
{
    if reasons.len() == 0 {
        session
    } else {
        after_failure(after_failures(session, reasons.drop_last()), reasons.last())
    }
}

/// A fresh download gives up at the failure after the last retry.
pub proof fn failures_end_in_giving_up(session: SessionView, reasons: Seq<Seq<char>>)
    requires
        session.retry_count == 0,
        reasons.len() == MAX_RETRIES + 1,
    ensures
        after_failures(session, reasons).run_state is Failed,
{
    failures_are_counted(session, reasons.drop_last());
}

/// Failures are counted as far as there are retries for them.
proof fn failures_are_counted(session: SessionView, reasons: Seq<Seq<char>>)
    requires
        session.retry_count == 0,
        reasons.len() <= MAX_RETRIES,
    ensures
        session.last_request is Some ==> after_failures(session, reasons).retry_count
            == reasons.len(),
        session.last_request is None ==> after_failures(session, reasons).retry_count == 0,
        after_failures(session, reasons).last_request == session.last_request,
    decreases reasons.len(),
{
    if reasons.len() > 0 {
        failures_are_counted(session, reasons.drop_last());
    }
}

/// At any time either something is going on or something can be started; both
/// only while DepotDownloader is being set up.
pub proof fn busy_or_ready(session: SessionView)
    ensures
        session.busy() || session.awaits_start(),
        session.busy() && session.awaits_start() ==> session.run_state is PreparingDepotDownloader,
{
}

/// What holds of every session: the retries are bounded, a reconnect is the
/// last retry counted and has something to launch again, and what is looked up
/// belongs to a queue.
pub open spec fn is_sound(session: SessionView) -> bool {
    &&& session.retry_count <= MAX_RETRIES
    &&& session.run_state matches RunStateView::Reconnecting { attempt } ==> {
        &&& 1 <= attempt
        &&& attempt == session.retry_count
        &&& session.last_request is Some
    }
    &&& session.run_state is LookingUpApp ==> session.queue_context is Some
}

/// A session is sound from the beginning.
pub proof fn new_sessions_are_sound(config: SessionConfigView)
    ensures
        is_sound(new_session(config)),
{
}

/// Whatever the user does leaves a session sound.
pub proof fn actions_keep_sessions_sound(
    session: SessionView,
    app_id: Option<u64>,
    download_dir: Seq<char>,
    max_downloads: Seq<char>,
    branch: Option<Seq<char>>,
    dlc_ids: Seq<u64>,
    launch: LaunchView,
)
    requires
        is_sound(session),
    ensures
        is_sound(session.fetching_library()),
        is_sound(after_selection(session, app_id)),
        is_sound(after_start(session, download_dir, max_downloads, branch, dlc_ids)),
        is_sound(after_launch(session, launch)),
        is_sound(after_next_leg(session)),
{
}

/// Whatever happens leaves a session sound.
pub proof fn events_keep_sessions_sound(
    session: SessionView,
    event: ProcessEvent<RunStats>,
    listed: UserAppsEventView,
    reason: Seq<char>,
)
    requires
        is_sound(session),
    ensures
        is_sound(after_process_event(session, event)),
        is_sound(after_following(session, event)),
        is_sound(after_user_apps_event(session, listed)),
        is_sound(after_failure(session, reason)),
{
}

/// A finished download is told to Steam at most once: what finishes it leaves
/// nothing pending.
pub proof fn finished_download_is_told_once(session: SessionView, event: ProcessEvent<RunStats>)
    requires
        finishes(session, event),
    ensures
        after_process_event(session, event).run_state is Finished,
        after_process_event(session, event).library_manifest is None,
{
}

/// An exit that nobody asked for is retried first: with retries left, it leads
/// to a reconnect that counts as the next one, and without, to a failure that
/// tells the reason.
pub proof fn unexpected_exits_are_retried(session: SessionView, event: ProcessEvent<RunStats>)
    requires
        unexpected_exit(session, event) is Some,
        session.last_request is Some,
    ensures
        ({
            let after = after_following(session, event);
            let reason = unexpected_exit(session, event).unwrap();
            if session.retry_count < MAX_RETRIES {
                let attempt = (session.retry_count + 1) as u32;
                &&& after.run_state == RunStateView::Reconnecting { attempt }
                &&& after.retry_count == attempt
                &&& after.last_request == session.last_request
            } else {
                &&& after.run_state == RunStateView::Failed(
                    reason + " (gave up after "@ + decimal(session.retry_count as nat)
                        + " retries.)"@,
                )
                &&& after.retry_count == session.retry_count
            }
        }),
{
}

/// What the user asked for is never retried: a pause and a cancellation end as
/// they do without retries.
pub proof fn requested_exits_are_not_retried(session: SessionView, outcome: ExitOutcome)
    requires
        session.pending_control is Some,
        session.run_state is Running,
    ensures
        ({
            let event = ProcessEvent::<RunStats>::Exited(outcome);
            &&& unexpected_exit(session, event) is None
            &&& after_following(session, event) == after_process_event(session, event)
        }),
{
}

/// A login that succeeds gives a later drop all retries again, be it the login
/// of a download or of a run that lists the account's apps.
pub proof fn logins_renew_the_retries(
    session: SessionView,
    stats: RunStats,
    username: Option<Seq<char>>,
)
    requires
        stats@.logged_in_username is Some,
    ensures
        after_process_event(session, ProcessEvent::Stats(stats)).retry_count == 0,
        after_user_apps_event(session, UserAppsEventView::LoginSuccess { username }).retry_count
            == 0,
{
}

/// Something that happens while a download queue is worked off.
pub enum QueueStep {
    /// The next leg is begun.
    NextLeg,
    Launch { launch: LaunchView },
    Event { event: ProcessEvent<RunStats> },
    Failure { reason: Seq<char> },
}

/// The session after something that happens to its queue.
pub open spec fn after_queue_step(session: SessionView, step: QueueStep) -> SessionView {
    match step {
        QueueStep::NextLeg => after_next_leg(session),
        QueueStep::Launch { launch } => after_launch(session, launch),
        QueueStep::Event { event } => after_process_event(session, event),
        QueueStep::Failure { reason } => after_failure(session, reason),
    }
}

/// The session after all that happens to its queue, in order.
pub open spec fn after_queue_steps(session: SessionView, steps: Seq<QueueStep>) -> SessionView
    decreases steps.len(),
{
    if steps.len() == 0 {
        session
    } else {
        after_queue_step(after_queue_steps(session, steps.drop_last()), steps.last())
    }
}

/// The apps whose legs were begun from the queue, in order.
pub open spec fn begun(session: SessionView, steps: Seq<QueueStep>) -> Seq<u64>
    decreases steps.len(),
{
    if steps.len() == 0 {
        Seq::empty()
    } else {
        let earlier = begun(session, steps.drop_last());
        let before = after_queue_steps(session, steps.drop_last());
        if steps.last() is NextLeg && has_next_leg(before) {
            earlier.push(before.download_queue[0])
        } else {
            earlier
        }
    }
}

/// How often the next leg was asked for.
pub open spec fn legs_asked_for(steps: Seq<QueueStep>) -> nat
    decreases steps.len(),
{
    if steps.len() == 0 {
        0
    } else {
        legs_asked_for(steps.drop_last()) + if steps.last() is NextLeg {
            1nat
        } else {
            0
        }
    }
}

/// Every app of a queue is begun once and in order, whatever happens between
/// the legs: those begun and those still queued are the queue as it was, and
/// each request for a leg begins one until none is left.
pub proof fn queue_is_worked_off_in_order(session: SessionView, steps: Seq<QueueStep>)
    requires
        session.queue_context is Some,
    ensures
        begun(session, steps) + after_queue_steps(session, steps).download_queue
            == session.download_queue,
        begun(session, steps).len() == if legs_asked_for(steps) <= session.download_queue.len() {
            legs_asked_for(steps)
        } else {
            session.download_queue.len()
        },
        after_queue_steps(session, steps).queue_context == session.queue_context,
    decreases steps.len(),
{
    if steps.len() == 0 {
        assert(begun(session, steps) + session.download_queue =~= session.download_queue);
    } else {
        let earlier = steps.drop_last();
        queue_is_worked_off_in_order(session, earlier);
        let before = after_queue_steps(session, earlier);
        if steps.last() is NextLeg && has_next_leg(before) {
            assert(begun(session, earlier).push(before.download_queue[0])
                + before.download_queue.drop_first() =~= begun(session, earlier)
                + before.download_queue);
        }
    }
}

/// Every checked DLC of a download is begun once and in the order they were
/// checked in.
pub proof fn checked_dlc_are_begun_in_order(
    session: SessionView,
    download_dir: Seq<char>,
    max_downloads: Seq<char>,
    branch: Option<Seq<char>>,
    dlc_ids: Seq<u64>,
    steps: Seq<QueueStep>,
)
    requires
        session.depot_downloader_binary is Some,
        session.selected_app is Some,
        typed_max_downloads(max_downloads) is Some,
        legs_asked_for(steps) >= dlc_ids.len(),
    ensures
        begun(after_start(session, download_dir, max_downloads, branch, dlc_ids), steps)
            == dlc_ids,
{
    let started = after_start(session, download_dir, max_downloads, branch, dlc_ids);
    queue_is_worked_off_in_order(started, steps);
    assert(begun(started, steps) =~= dlc_ids);
}

/// An error is shown before anything else, a QR code before a question, and
/// progress only where Steam waits for nothing.
pub proof fn errors_come_first(stats: RunStatsView)
    ensures
        stats.error_message is Some ==> state_of(stats) == RunStateView::Failed(
            stats.error_message.unwrap(),
        ),
        state_of(stats) is Running || state_of(stats) is Finished ==> {
            &&& stats.error_message is None
            &&& stats.qr_url is None
            &&& stats.auth_prompt is None
        },
        state_of(stats) is Finished <==> {
            &&& stats.is_finished
            &&& stats.error_message is None
            &&& stats.qr_url is None
            &&& stats.auth_prompt is None
        },
{
}

/// The combined list begins with the owned apps, and holds exactly the apps of
/// both lists; what follows the owned ones is free and not owned.
pub proof fn combined_list_is_complete(
    owned: Seq<SteamAppView>,
    free: Seq<SteamAppView>,
    app_id: u64,
)
    ensures
        combined(owned, free).take(owned.len() as int) == owned,
        has_app_id(combined(owned, free), app_id) <==> has_app_id(owned, app_id) || has_app_id(
            free,
            app_id,
        ),
        forall|i: int|
            owned.len() <= i < combined(owned, free).len() ==> !has_app_id(
                owned,
                (#[trigger] combined(owned, free)[i]).app_id,
            ),
{
    let all = combined(owned, free);
    let tail = apps_not_in(free, owned);
    assert(all.take(owned.len() as int) =~= owned);
    apps_not_in_are_not_in(free, owned, app_id);
    if has_app_id(all, app_id) {
        let i = choose|i: int| 0 <= i < all.len() && (#[trigger] all[i]).app_id == app_id;
        if i < owned.len() {
            assert(owned[i].app_id == app_id);
        } else {
            assert(tail[i - owned.len()].app_id == app_id);
        }
    }
    if has_app_id(owned, app_id) {
        let i = choose|i: int| 0 <= i < owned.len() && (#[trigger] owned[i]).app_id == app_id;
        assert(all[i].app_id == app_id);
    }
    if has_app_id(tail, app_id) {
        let i = choose|i: int| 0 <= i < tail.len() && (#[trigger] tail[i]).app_id == app_id;
        assert(all[owned.len() + i].app_id == app_id);
    }
    assert forall|i: int| owned.len() <= i < all.len() implies !has_app_id(
        owned,
        (#[trigger] all[i]).app_id,
    ) by {
        apps_not_in_are_not_in(free, owned, all[i].app_id);
        assert(tail[i - owned.len()].app_id == all[i].app_id);
    }
}

/// What is left of a list without the owned apps.
proof fn apps_not_in_are_not_in(apps: Seq<SteamAppView>, owned: Seq<SteamAppView>, app_id: u64)
    ensures
        has_app_id(apps_not_in(apps, owned), app_id) <==> has_app_id(apps, app_id) && !has_app_id(
            owned,
            app_id,
        ),
    decreases apps.len(),
{
    let left = apps_not_in(apps, owned);
    if apps.len() > 0 {
        let rest = apps.drop_last();
        let before = apps_not_in(rest, owned);
        apps_not_in_are_not_in(rest, owned, app_id);
        if has_app_id(apps, app_id) {
            let i = choose|i: int| 0 <= i < apps.len() && (#[trigger] apps[i]).app_id == app_id;
            if i < rest.len() {
                assert(rest[i].app_id == app_id);
            }
        }
        if has_app_id(rest, app_id) {
            let i = choose|i: int| 0 <= i < rest.len() && (#[trigger] rest[i]).app_id == app_id;
            assert(apps[i].app_id == app_id);
        }
        if !has_app_id(owned, apps.last().app_id) {
            assert(left[left.len() - 1] == apps.last());
            assert(apps[apps.len() - 1] == apps.last());
            if has_app_id(left, app_id) {
                let i = choose|i: int| 0 <= i < left.len() && (#[trigger] left[i]).app_id == app_id;
                if i < before.len() {
                    assert(before[i].app_id == app_id);
                }
            }
            if has_app_id(before, app_id) {
                let i = choose|i: int|
                    0 <= i < before.len() && (#[trigger] before[i]).app_id == app_id;
                assert(left[i].app_id == app_id);
            }
        }
    }
}

/// What a leg's app is called on disk is one component of a path, whatever the
/// lookup of it says.
proof fn leg_folder_is_plain(app_id: u64, body: Option<Seq<char>>)
    ensures
        ({
            let id = decimal(app_id as nat);
            is_plain_name(app_info_of(id, looked_up(id, body)).install_dir_name)
        }),
{
    let id = decimal(app_id as nat);
    decimal_is_digits(app_id as nat);
    reveal_strlit(".");
    reveal_strlit("..");
    assert(is_digit(id[0]));
    assert(is_plain_name(id)) by {
        assert forall|i: int| 0 <= i < id.len() implies {
            let c = #[trigger] id[i];
            c != '/' && c != '\\' && c != ':'
        } by {
            assert(is_digit(id[i]));
        }
    }
    install_dir_stays_in_the_library(id, looked_up(id, body));
}

/// Every leg of a download lands in a folder of its own right inside the
/// library folder, whatever the lookup of its app says: by slashes on any
/// system but Windows.
pub proof fn leg_lands_in_a_folder_of_its_own(
    app_id: u64,
    body: Option<Seq<char>>,
    library_dir: Seq<char>,
    download_dir: Seq<char>,
)
    requires
        ({
            let id = decimal(app_id as nat);
            download_dir == under(
                Os::Linux,
                library_dir,
                app_info_of(id, looked_up(id, body)).install_dir_name,
            )
        }),
    ensures
        is_plain_name(last_component(download_dir, PathStyle::Unix)),
        parent(download_dir, PathStyle::Unix) == without_tail(library_dir, PathStyle::Unix),
{
    let id = decimal(app_id as nat);
    leg_folder_is_plain(app_id, body);
    joined_name_lies_in_the_directory(
        library_dir,
        app_info_of(id, looked_up(id, body)).install_dir_name,
        download_dir,
    );
}

/// Every leg of a download lands in a folder of its own right inside the
/// library folder on Windows, where that is more than the beginning of a prefix
/// that the folder's name would become part of.
pub proof fn leg_lands_in_a_folder_of_its_own_on_windows(
    app_id: u64,
    body: Option<Seq<char>>,
    library_dir: Seq<char>,
    download_dir: Seq<char>,
)
    requires
        ({
            let id = decimal(app_id as nat);
            joins(library_dir, app_info_of(id, looked_up(id, body)).install_dir_name, download_dir)
        }),
        !begins_with(library_dir, "\\\\?\\"@),
        windows_prefix(download_dir) == windows_prefix(library_dir),
    ensures
        is_plain_name(last_component(download_dir, PathStyle::Windows)),
        parent(download_dir, PathStyle::Windows) == without_tail(library_dir, PathStyle::Windows),
{
    let id = decimal(app_id as nat);
    leg_folder_is_plain(app_id, body);
    joined_name_lies_in_the_windows_directory(
        library_dir,
        app_info_of(id, looked_up(id, body)).install_dir_name,
        download_dir,
    );
}

/// Steam is told only of downloads into a real Steam library, and only where
/// that was asked for.
pub proof fn only_steam_libraries_are_told(leg: LegView, app: JsonView)
    ensures
        leg_manifest(leg, app_info_of(leg.app_id, app)) is Some <==> {
            &&& leg.context.add_to_steam_library
            &&& leg.context.library_dir is Some
            &&& ends_in_library(leg.context.library_dir.unwrap())
        },
{
}

/// Any number greater than 0 that fits is a valid bound on concurrent
/// downloads, as its decimal digits.
pub proof fn positive_numbers_bound_downloads(count: u32)
    ensures
        count > 0 ==> typed_max_downloads(decimal(count as nat)) == Some(Some(count)),
        count == 0 ==> typed_max_downloads(decimal(count as nat)) is None,
{
    let digits = decimal(count as nat);
    decimal_is_digits(count as nat);
    number_of_decimal(count as nat);
    assert(is_digit(digits[0]));
    assert(is_digit(digits[digits.len() - 1]));
    assert(trimmed(digits) == digits);
}

} // verus!
