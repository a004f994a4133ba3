//! What the download form and the login section show.

use vstd::prelude::*;

use super::session::{Session, SessionView};
use super::state::{LoginMode, RunState};
use crate::depot_downloader::process::with_text;

use crate::steam::app_manifest::{ends_in_library, is_steam_library_common_dir};
use crate::text::{trim, trimmed};

verus! {

/// The row about DLC.
#[derive(Debug, Clone, Copy, PartialEq, Eq, Structural)]
pub enum DlcRow {
    Hidden,
    /// The DLC are still being looked up.
    Loading,
    Choice,
}

/// The row about branches.
#[derive(Debug, Clone, Copy, PartialEq, Eq, Structural)]
pub enum BranchRow {
    Hidden,
    /// A choice, with a note beside it while the branches are being listed.
    Choice { loading: bool },
}

/// What the download form shows.
#[derive(Debug, Clone, Copy)]
pub struct Form {
    pub busy: bool,
    pub dlc: DlcRow,
    pub branch: BranchRow,
    /// Whether adding the download to the Steam library is offered.
    pub offers_steam_library: bool,
    pub download_label: &'static str,
    pub download_disabled: bool,
}

/// A download can be asked for: a game is chosen, and nothing is going on.
pub open spec fn can_download(session: SessionView) -> bool {
    session.selected_app is Some && !session.busy()
}

/// What stands on the download button.
pub open spec fn download_label(session: SessionView) -> Seq<char> {
    if session.run_state is Paused {
        "Paused"@
    } else if session.busy() {
        "Working…"@
    } else {
        "Download"@
    }
}

/// The row about DLC: shown once a game is chosen, while its DLC are looked up
/// and where it has any.
pub open spec fn dlc_row_of(session: SessionView) -> DlcRow {
    if session.selected_app is None {
        DlcRow::Hidden
    } else if session.dlc_loading {
        DlcRow::Loading
    } else if session.dlc_available {
        DlcRow::Choice
    } else {
        DlcRow::Hidden
    }
}

/// The row about branches: shown once a game is chosen.
pub open spec fn branch_row_of(session: SessionView) -> BranchRow {
    if session.selected_app is None {
        BranchRow::Hidden
    } else {
        BranchRow::Choice { loading: session.branches_loading }
    }
}

/// What the login section shows.
#[derive(Debug)]
pub enum LoginSection {
    /// A remembered login, with a button to log out.
    LoggedIn { text: String, disabled: bool },
    /// Fields or a hint for the chosen way to log in, with a button to do so.
    LoggedOut { mode: LoginMode, disabled: bool },
}

impl Session {
    /// What the download form shows, given the text of its folder field.
    pub fn form(&self, download_dir: &str) -> (form: Form)
        ensures
            form.busy == self@.busy(),
            form.dlc == dlc_row_of(self@),
            form.branch == branch_row_of(self@),
            form.offers_steam_library == ends_in_library(trimmed(download_dir@)),
            form.download_label@ == download_label(self@),
            form.download_disabled == !can_download(self@),
            form.download_disabled == (self@.busy() || self@.selected_app is None),
    {
        let busy = self.is_busy();
        let paused = match &self.run_state {
            RunState::Paused(_) => true,
            _ => false,
        };
        let chosen = self.selected_app.is_some();
        let dir = trim(download_dir);
        Form {
            busy,
            dlc: if !chosen {
                DlcRow::Hidden
            } else if self.dlc_loading {
                DlcRow::Loading
            } else if self.dlc_available {
                DlcRow::Choice
            } else {
                DlcRow::Hidden
            },
            branch: if chosen {
                BranchRow::Choice { loading: self.branches_loading }
            } else {
                BranchRow::Hidden
            },
            offers_steam_library: is_steam_library_common_dir(dir.as_str()),
            download_label: if paused {
                "Paused"
            } else if busy {
                "Working…"
            } else {
                "Download"
            },
            download_disabled: busy || !chosen,
        }
    }

    /// What the login section shows.
    pub fn login_section(&self) -> (section: LoginSection)
        ensures
            match (self@.config.logged_in_username, section) {
                (Some(username), LoginSection::LoggedIn { text, disabled }) => {
                    &&& text@ == "Logged in as "@ + username
                    &&& disabled == self@.busy()
                },
                (None, LoginSection::LoggedOut { mode, disabled }) => {
                    &&& mode == self@.login_mode
                    &&& disabled == self@.busy()
                },
                _ => false,
            },
    {
        let disabled = self.is_busy();
        match &self.config.logged_in_username {
            Some(username) => LoginSection::LoggedIn {
                text: with_text("Logged in as ", username.as_str()),
                disabled,
            },
            None => LoginSection::LoggedOut { mode: self.login_mode, disabled },
        }
    }
}

} // verus!
