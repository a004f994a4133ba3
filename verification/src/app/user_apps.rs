//! What the events of a run that lists the account's apps do to a session.

use vstd::prelude::*;

use super::session::{Session, SessionConfigView, SessionView};
use super::state::{RunState, RunStateView};
use crate::depot_downloader::event::AuthPromptKind;
use crate::depot_downloader::list::{
    ListPrompt, ListPromptView, UserAppsEvent, UserAppsEventView,
};
use crate::text::same_text;

verus! {

/// The state that a login prompt stands for: the same as in a download.
pub open spec fn prompt_state(prompt: ListPromptView) -> RunStateView {
    match prompt {
        ListPromptView::Qr { url } => RunStateView::ShowingQrCode { url },
        ListPromptView::AuthPrompt { kind, message } => {
            if kind == AuthPromptKind::DeviceConfirmation {
                RunStateView::AwaitingSteamGuardConfirmation
            } else {
                RunStateView::AwaitingSteamGuardCode { message }
            }
        },
    }
}

/// The session with another remembered login.
pub open spec fn with_login(session: SessionView, username: Option<Seq<char>>) -> SessionView {
    SessionView {
        config: SessionConfigView { logged_in_username: username, ..session.config },
        ..session
    }
}

/// The session after an event: prompts come up like those of a download, a
/// successful login is remembered and has retries count anew, an expired one is
/// forgotten, and the apps are the account's own.
pub open spec fn after_user_apps_event(
    session: SessionView,
    event: UserAppsEventView,
) -> SessionView {
    match event {
        UserAppsEventView::Prompt(prompt) => SessionView {
            run_state: prompt_state(prompt),
            ..session
        },
        UserAppsEventView::LoginSuccess { username } => match username {
            Some(username) => with_login(
                SessionView {
                    run_state: RunStateView::FetchingLibrary,
                    retry_count: 0,
                    ..session
                },
                Some(username),
            ),
            None => SessionView {
                run_state: RunStateView::FetchingLibrary,
                retry_count: 0,
                ..session
            },
        },
        UserAppsEventView::LoginExpired => with_login(
            SessionView { run_state: RunStateView::Idle, ..session },
            None,
        ),
        UserAppsEventView::Apps(apps) => SessionView {
            owned_apps: apps,
            run_state: RunStateView::Idle,
            ..session
        },
        UserAppsEventView::Error(message) => SessionView {
            run_state: RunStateView::Failed(message),
            ..session
        },
        UserAppsEventView::FailedToStart(message) => SessionView {
            run_state: RunStateView::Failed(message),
            ..session
        },
        UserAppsEventView::Exited => SessionView { run_state: RunStateView::Idle, ..session },
    }
}

impl Session {
    /// Takes an event of a run that lists the account's apps. Says whether what
    /// is remembered is to be stored.
    pub fn apply_user_apps_event(&mut self, event: UserAppsEvent) -> (save_config: bool)
        ensures
            final(self)@ == after_user_apps_event(old(self)@, event@),
            save_config == (final(self)@.config.logged_in_username
                != old(self)@.config.logged_in_username),
    {
        match event {
            UserAppsEvent::Prompt(prompt) => {
                self.run_state = match prompt {
                    ListPrompt::Qr { url } => RunState::ShowingQrCode { url },
                    ListPrompt::AuthPrompt { kind, message } => {
                        if kind == AuthPromptKind::DeviceConfirmation {
                            RunState::AwaitingSteamGuardConfirmation
                        } else {
                            RunState::AwaitingSteamGuardCode { message }
                        }
                    },
                };
                false
            },
            UserAppsEvent::LoginSuccess { username } => {
                self.run_state = RunState::FetchingLibrary;
                self.retry_count = 0;
                match username {
                    Some(username) => {
                        let known = match &self.config.logged_in_username {
                            Some(known) => same_text(known.as_str(), username.as_str()),
                            None => false,
                        };
                        self.config.logged_in_username = Some(username);
                        !known
                    },
                    None => false,
                }
            },
            UserAppsEvent::LoginExpired => {
                let known = self.config.logged_in_username.is_some();
                self.config.logged_in_username = None;
                self.run_state = RunState::Idle;
                known
            },
            UserAppsEvent::Apps(apps) => {
                self.owned_apps = apps;
                self.run_state = RunState::Idle;
                false
            },
            UserAppsEvent::Error(message) => {
                self.run_state = RunState::Failed(message);
                false
            },
            UserAppsEvent::FailedToStart(message) => {
                self.run_state = RunState::Failed(message);
                false
            },
            UserAppsEvent::Exited => {
                self.run_state = RunState::Idle;
                false
            },
        }
    }
}

} // verus!
