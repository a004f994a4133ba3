//! What the events of a running download do to a session.

use vstd::prelude::*;

use super::download::{
    after_failure, after_next_leg, can_retry, has_next_leg, next_leg_of, AfterFailure, Leg,
    ManifestFile,
};
use super::session::{Session, SessionConfigView, SessionView};
use super::state::{PendingControl, RunState, RunStateView, RunStats, RunStatsView};
use crate::depot_downloader::event::AuthPromptKind;
use crate::depot_downloader::process::{
    describe_unexpected_exit, unexpected_exit_text, ExitOutcome, ProcessEvent,
};
use crate::depot_downloader::progress::optional_text;
use crate::text::same_text;

verus! {

/// The state that a snapshot stands for: an error, a QR code to scan, a
/// question to answer, the end, or just progress.
pub open spec fn state_of(stats: RunStatsView) -> RunStateView {
    match (stats.error_message, stats.qr_url, stats.auth_prompt) {
        (Some(message), _, _) => RunStateView::Failed(message),
        (None, Some(url), _) => RunStateView::ShowingQrCode { url },
        (None, None, Some(prompt)) => if prompt.kind == AuthPromptKind::DeviceConfirmation {
            RunStateView::AwaitingSteamGuardConfirmation
        } else {
            RunStateView::AwaitingSteamGuardCode { message: prompt.message }
        },
        (None, None, None) => if stats.is_finished {
            RunStateView::Finished(stats)
        } else {
            RunStateView::Running(stats)
        },
    }
}

/// The remembered login after a snapshot: the one it reports, unless a login
/// turned out to have expired.
pub open spec fn remembered_after(known: Option<Seq<char>>, stats: RunStatsView) -> Option<
    Seq<char>,
> {
    if stats.login_expired {
        None
    } else if stats.logged_in_username is Some {
        stats.logged_in_username
    } else {
        known
    }
}

/// The retries that count after a snapshot: none once a login has succeeded,
/// so that a later drop has all of them again.
pub open spec fn retries_after(retries: u32, stats: RunStatsView) -> u32 {
    if stats.logged_in_username is Some {
        0
    } else {
        retries
    }
}

/// What is remembered is to be stored: a snapshot reports another account than
/// the one known, or that its login has expired.
pub open spec fn to_be_stored(known: Option<Seq<char>>, stats: RunStatsView) -> bool {
    stats.login_expired || (stats.logged_in_username is Some && stats.logged_in_username != known)
}

/// The state after the process has exited, given what the user asked for.
pub open spec fn state_after_exit(
    state: RunStateView,
    control: Option<PendingControl>,
    outcome: ExitOutcome,
) -> RunStateView {
    match control {
        Some(PendingControl::Pausing) => match state {
            RunStateView::Running(stats) => RunStateView::Paused(stats),
            _ => state,
        },
        Some(PendingControl::Cancelling) => RunStateView::Idle,
        None => match state {
            RunStateView::Running(stats) => if stats.is_finished {
                RunStateView::Finished(stats)
            } else {
                RunStateView::Failed(unexpected_exit_text(outcome))
            },
            RunStateView::ShowingQrCode { .. } => RunStateView::Failed(
                unexpected_exit_text(outcome),
            ),
            RunStateView::AwaitingSteamGuardCode { .. } => RunStateView::Failed(
                unexpected_exit_text(outcome),
            ),
            RunStateView::AwaitingSteamGuardConfirmation => RunStateView::Failed(
                unexpected_exit_text(outcome),
            ),
            _ => state,
        },
    }
}

/// The session after an event, but for what finishing a download adds.
pub open spec fn with_event(session: SessionView, event: ProcessEvent<RunStats>) -> SessionView {
    match event {
        ProcessEvent::FailedToStart(message) => SessionView {
            run_state: RunStateView::Failed(message@),
            ..session
        },
        ProcessEvent::Exited(outcome) => SessionView {
            run_state: state_after_exit(session.run_state, session.pending_control, outcome),
            pending_control: None,
            ..session
        },
        ProcessEvent::Stats(stats) => SessionView {
            run_state: state_of(stats@),
            config: SessionConfigView {
                logged_in_username: remembered_after(session.config.logged_in_username, stats@),
                ..session.config
            },
            retry_count: retries_after(session.retry_count, stats@),
            ..session
        },
    }
}

/// The event finishes the download.
pub open spec fn finishes(session: SessionView, event: ProcessEvent<RunStats>) -> bool {
    match event {
        ProcessEvent::FailedToStart(_) => false,
        ProcessEvent::Exited(_) => {
            &&& session.pending_control is None
            &&& session.run_state is Running
            &&& session.run_state->Running_0.is_finished
        },
        ProcessEvent::Stats(stats) => state_of(stats@) is Finished,
    }
}

/// The session after an event. A finished download takes the pending manifest
/// with it.
pub open spec fn after_process_event(
    session: SessionView,
    event: ProcessEvent<RunStats>,
) -> SessionView {
    let moved = with_event(session, event);
    if finishes(session, event) {
        SessionView { library_manifest: None, steam_library_manifest_written: false, ..moved }
    } else {
        moved
    }
}

/// The reason of an exit that nobody asked for and that left the download
/// unfinished, if the event is one.
pub open spec fn unexpected_exit(session: SessionView, event: ProcessEvent<RunStats>) -> Option<
    Seq<char>,
> {
    match event {
        ProcessEvent::Exited(outcome) => if session.pending_control is None && (
        match session.run_state {
            RunStateView::Running(stats) => !stats.is_finished,
            RunStateView::ShowingQrCode { .. } => true,
            RunStateView::AwaitingSteamGuardCode { .. } => true,
            RunStateView::AwaitingSteamGuardConfirmation => true,
            _ => false,
        }) {
            Some(unexpected_exit_text(outcome))
        } else {
            None
        },
        _ => None,
    }
}

/// The process of a finished leg has exited, and the queue holds another.
pub open spec fn leg_follows(session: SessionView, event: ProcessEvent<RunStats>) -> bool {
    let moved = after_process_event(session, event);
    &&& event is Exited
    &&& moved.run_state is Finished
    &&& moved.depot_downloader_binary is Some
    &&& has_next_leg(moved)
}

/// The session after an event and what follows from it: an exit that nobody
/// asked for is retried a few times before it counts as a failure, and a
/// finished leg is followed by the next one of the queue.
pub open spec fn after_following(session: SessionView, event: ProcessEvent<RunStats>) -> SessionView {
    let moved = after_process_event(session, event);
    match unexpected_exit(session, event) {
        Some(reason) => after_failure(moved, reason),
        None => if leg_follows(session, event) {
            after_next_leg(moved)
        } else {
            moved
        },
    }
}

/// What follows from an event.
pub enum FollowUp {
    Nothing,
    /// The download is to be resumed after the retry delay.
    Retry,
    /// The next leg of the queue is to be looked up.
    NextLeg(Leg),
}

/// What is to be done after an event.
pub struct Reaction {
    /// What is remembered is to be stored.
    pub save_config: bool,
    /// The file that tells Steam of the finished download.
    pub manifest: Option<ManifestFile>,
}

/// Whether the known account is the one reported.
fn is_known(known: &Option<String>, username: &String) -> (yes: bool)
    ensures
        yes == match *known {
            Some(known) => known@ == username@,
            None => false,
        },
{
    match known {
        Some(known) => same_text(known.as_str(), username.as_str()),
        None => false,
    }
}

impl Session {
    /// Remembers the account that a snapshot reports, and starts counting
    /// retries anew. Only a successful login
    /// reports one, so a bad password or a rejected QR scan can never poison
    /// the remembered account.
    fn remember_login(&mut self, stats: &RunStats) -> (store: bool)
        ensures
            store == to_be_stored(old(self)@.config.logged_in_username, stats@),
            final(self)@ == (SessionView {
                config: SessionConfigView {
                    logged_in_username: remembered_after(
                        old(self)@.config.logged_in_username,
                        stats@,
                    ),
                    ..old(self)@.config
                },
                retry_count: retries_after(old(self)@.retry_count, stats@),
                ..old(self)@
            }),
    {
        let mut store = false;
        if let Some(username) = &stats.logged_in_username {
            self.retry_count = 0;
            if !is_known(&self.config.logged_in_username, username) {
                self.config.logged_in_username = Some(username.clone());
                store = true;
            }
        }
        if stats.login_expired {
            self.config.logged_in_username = None;
            store = true;
        }
        store
    }

    /// The process has exited.
    fn apply_exit(&mut self, outcome: ExitOutcome, last_updated: u64) -> (manifest: Option<
        ManifestFile,
    >)
        ensures
            final(self)@ == after_process_event(old(self)@, ProcessEvent::Exited(outcome)),
            manifest is Some == (finishes(old(self)@, ProcessEvent::Exited(outcome))
                && old(self)@.library_manifest is Some),
            manifest is Some ==> manifest.unwrap().is_for(
                old(self)@.library_manifest.unwrap(),
                old(self)@.run_state->Running_0,
                last_updated,
            ),
    {
        let mut state = RunState::Idle;
        std::mem::swap(&mut state, &mut self.run_state);
        match self.pending_control.take() {
            Some(PendingControl::Pausing) => {
                self.run_state = match state {
                    RunState::Running(stats) => RunState::Paused(stats),
                    other => other,
                };
                None
            },
            Some(PendingControl::Cancelling) => None,
            None => match state {
                RunState::Running(stats) => {
                    if stats.is_finished {
                        let manifest = self.finish_library_manifest(&stats, last_updated);
                        self.run_state = RunState::Finished(stats);
                        manifest
                    } else {
                        self.run_state = RunState::Failed(describe_unexpected_exit(&outcome));
                        None
                    }
                },
                RunState::ShowingQrCode { .. }
                | RunState::AwaitingSteamGuardCode { .. }
                | RunState::AwaitingSteamGuardConfirmation => {
                    self.run_state = RunState::Failed(describe_unexpected_exit(&outcome));
                    None
                },
                other => {
                    self.run_state = other;
                    None
                },
            },
        }
    }

    /// A snapshot has come.
    fn apply_stats(&mut self, stats: RunStats, last_updated: u64) -> (manifest: Option<
        ManifestFile,
    >)
        ensures
            final(self)@ == ({
                let moved = SessionView { run_state: state_of(stats@), ..old(self)@ };
                if state_of(stats@) is Finished {
                    SessionView {
                        library_manifest: None,
                        steam_library_manifest_written: false,
                        ..moved
                    }
                } else {
                    moved
                }
            }),
            manifest is Some == (state_of(stats@) is Finished
                && old(self)@.library_manifest is Some),
            manifest is Some ==> manifest.unwrap().is_for(
                old(self)@.library_manifest.unwrap(),
                stats@,
                last_updated,
            ),
    {
        if stats.error_message.is_none() && stats.qr_url.is_none() && stats.auth_prompt.is_none() {
            if stats.is_finished {
                let manifest = self.finish_library_manifest(&stats, last_updated);
                self.run_state = RunState::Finished(stats);
                return manifest;
            }
            self.run_state = RunState::Running(stats);
            return None;
        }
        self.run_state = if let Some(message) = stats.error_message {
            RunState::Failed(message)
        } else if let Some(url) = stats.qr_url {
            RunState::ShowingQrCode { url }
        } else {
            match stats.auth_prompt {
                Some(prompt) => {
                    if prompt.kind == AuthPromptKind::DeviceConfirmation {
                        RunState::AwaitingSteamGuardConfirmation
                    } else {
                        RunState::AwaitingSteamGuardCode { message: prompt.message }
                    }
                },
                None => RunState::Idle,
            }
        };
        None
    }

    /// Takes an event of the running download. `last_updated` is the present in
    /// seconds since 1970.
    pub fn apply_process_event(&mut self, event: ProcessEvent<RunStats>, last_updated: u64) -> (reaction:
        Reaction)
        ensures
            final(self)@ == after_process_event(old(self)@, event),
            reaction.save_config == match event {
                ProcessEvent::Stats(stats) => to_be_stored(
                    old(self)@.config.logged_in_username,
                    stats@,
                ),
                _ => false,
            },
            reaction.manifest is Some == (finishes(old(self)@, event)
                && old(self)@.library_manifest is Some),
            reaction.manifest is Some ==> reaction.manifest.unwrap().is_for(
                old(self)@.library_manifest.unwrap(),
                final(self)@.run_state->Finished_0,
                last_updated,
            ),
    {
        match event {
            ProcessEvent::FailedToStart(message) => {
                self.run_state = RunState::Failed(message);
                Reaction { save_config: false, manifest: None }
            },
            ProcessEvent::Exited(outcome) => {
                let manifest = self.apply_exit(outcome, last_updated);
                Reaction { save_config: false, manifest }
            },
            ProcessEvent::Stats(stats) => {
                let save_config = self.remember_login(&stats);
                let manifest = self.apply_stats(stats, last_updated);
                Reaction { save_config, manifest }
            },
        }
    }

    /// The reason of an exit that nobody asked for, if the event is one.
    fn unexpected_reason(&self, event: &ProcessEvent<RunStats>) -> (reason: Option<String>)
        ensures
            optional_text(reason) == unexpected_exit(self@, *event),
    {
        let outcome = match event {
            ProcessEvent::Exited(outcome) => outcome,
            _ => {
                return None;
            },
        };
        if self.pending_control.is_some() {
            return None;
        }
        let unfinished = match &self.run_state {
            RunState::Running(stats) => !stats.is_finished,
            RunState::ShowingQrCode { .. }
            | RunState::AwaitingSteamGuardCode { .. }
            | RunState::AwaitingSteamGuardConfirmation => true,
            _ => false,
        };
        if unfinished {
            Some(describe_unexpected_exit(outcome))
        } else {
            None
        }
    }

    /// Takes an event of the running download and says what follows from it: an
    /// exit that nobody asked for is retried before it counts as a failure, and
    /// a finished leg is followed by the next one. `last_updated` is the present
    /// in seconds since 1970.
    pub fn follow_process_event(&mut self, event: ProcessEvent<RunStats>, last_updated: u64) -> (
        followed: (Reaction, FollowUp))
        ensures
            final(self)@ == after_following(old(self)@, event),
            followed.0.save_config == match event {
                ProcessEvent::Stats(stats) => to_be_stored(
                    old(self)@.config.logged_in_username,
                    stats@,
                ),
                _ => false,
            },
            followed.0.manifest is Some == (finishes(old(self)@, event)
                && old(self)@.library_manifest is Some),
            followed.0.manifest is Some ==> followed.0.manifest.unwrap().is_for(
                old(self)@.library_manifest.unwrap(),
                after_process_event(old(self)@, event).run_state->Finished_0,
                last_updated,
            ),
            followed.1 is Retry == (unexpected_exit(old(self)@, event) is Some && can_retry(
                after_process_event(old(self)@, event),
            )),
            followed.1 is NextLeg == leg_follows(old(self)@, event),
            followed.1 matches FollowUp::NextLeg(leg) ==> {
                let moved = after_process_event(old(self)@, event);
                leg@ == next_leg_of(
                    moved,
                    moved.depot_downloader_binary.unwrap(),
                    moved.current_login(),
                )
            },
    {
        let reason = self.unexpected_reason(&event);
        let exited = match &event {
            ProcessEvent::Exited(_) => true,
            _ => false,
        };
        let reaction = self.apply_process_event(event, last_updated);
        if let Some(reason) = reason {
            let follow_up = match self.handle_unexpected_failure(reason) {
                AfterFailure::Retry => FollowUp::Retry,
                AfterFailure::GaveUp => FollowUp::Nothing,
            };
            return (reaction, follow_up);
        }
        if !exited {
            return (reaction, FollowUp::Nothing);
        }
        match self.continue_queue() {
            Some(leg) => (reaction, FollowUp::NextLeg(leg)),
            None => (reaction, FollowUp::Nothing),
        }
    }
}

} // verus!
