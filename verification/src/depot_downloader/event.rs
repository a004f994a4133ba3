//! The events of DepotDownloader's `-json` output.

use vstd::prelude::*;

use super::progress::optional_text;
use crate::text::{eq_ignore_ascii_case, equal_ignoring_ascii_case};

verus! {

/// One line of `-json` output. `t_ms` is DepotDownloader's own monotonic
/// clock, so speeds stay correct even when queued lines are read late.
#[derive(Debug, Clone)]
pub struct EventLine {
    pub t_ms: u64,
    pub event: Event,
}

#[derive(Debug, Clone)]
pub enum Event {
    Log { level: LogLevel, message: String },
    AuthPrompt { kind: AuthPromptKind, message: String },
    Qr { url: String },
    LoginSuccess { username: Option<String> },
    Plan { total_compressed_bytes: u64, total_uncompressed_bytes: u64, total_files: u64 },
    DepotStart { depot_id: u64 },
    Progress {
        network_bytes: u64,
        written_bytes: u64,
        verified_bytes: u64,
        files_done: u64,
        current_file: Option<String>,
    },
    Done { network_bytes: u64, written_bytes: u64, verified_bytes: u64 },
    Error { message: String },
    UserApps { apps: Vec<SteamApp>, count: u64 },
    Branches { app_id: u64, branches: Vec<BranchInfo> },
    Ignored,
}

/// One entry of a `-list-user-apps` result: an app id, name, and Steam app
/// type (`Game`, `DLC`, `Tool`, `Demo`, `Application`, ...) the account's
/// licenses grant. The type is empty where DepotDownloader does not tell it.
#[derive(Debug)]
pub struct SteamApp {
    pub app_id: u64,
    pub name: String,
    pub app_type: String,
}

/// One entry of a `-list-branches` result.
#[derive(Debug)]
pub struct BranchInfo {
    pub name: String,
    pub build_id: u64,
    pub time_updated: u64,
    pub password_required: bool,
}

#[derive(Debug, Clone, Copy, PartialEq, Eq, Structural)]
pub enum LogLevel {
    Info,
    Warn,
    Error,
    Debug,
}

#[derive(Debug, Clone, Copy, PartialEq, Eq, Structural)]
pub enum AuthPromptKind {
    Password,
    SteamGuardCode,
    EmailCode,
    DeviceConfirmation,
    Other,
}

/// An app with its texts as sequences of characters.
pub struct SteamAppView {
    pub app_id: u64,
    pub name: Seq<char>,
    pub app_type: Seq<char>,
}

/// A branch with its name as a sequence of characters.
pub struct BranchView {
    pub name: Seq<char>,
    pub build_id: u64,
    pub time_updated: u64,
    pub password_required: bool,
}

/// The apps with their texts as sequences of characters.
pub open spec fn app_views(apps: Seq<SteamApp>) -> Seq<SteamAppView> {
    apps.map_values(|app: SteamApp| app@)
}

/// The branches with their names as sequences of characters.
pub open spec fn branch_views(branches: Seq<BranchInfo>) -> Seq<BranchView> {
    branches.map_values(|branch: BranchInfo| branch@)
}

impl View for SteamApp {
    type V = SteamAppView;

    open spec fn view(&self) -> SteamAppView {
        SteamAppView { app_id: self.app_id, name: self.name@, app_type: self.app_type@ }
    }
}

impl View for BranchInfo {
    type V = BranchView;

    open spec fn view(&self) -> BranchView {
        BranchView {
            name: self.name@,
            build_id: self.build_id,
            time_updated: self.time_updated,
            password_required: self.password_required,
        }
    }
}

/// An event with its texts as sequences of characters.
pub enum EventView {
    Log { level: LogLevel, message: Seq<char> },
    AuthPrompt { kind: AuthPromptKind, message: Seq<char> },
    Qr { url: Seq<char> },
    LoginSuccess { username: Option<Seq<char>> },
    Plan { total_compressed_bytes: u64, total_uncompressed_bytes: u64, total_files: u64 },
    DepotStart { depot_id: u64 },
    Progress {
        network_bytes: u64,
        written_bytes: u64,
        verified_bytes: u64,
        files_done: u64,
        current_file: Option<Seq<char>>,
    },
    Done { network_bytes: u64, written_bytes: u64, verified_bytes: u64 },
    Error { message: Seq<char> },
    UserApps { apps: Seq<SteamAppView>, count: u64 },
    Branches { app_id: u64, branches: Seq<BranchView> },
    Ignored,
}

impl View for Event {
    type V = EventView;

    open spec fn view(&self) -> EventView {
        match *self {
            Event::Log { level, message } => EventView::Log { level, message: message@ },
            Event::AuthPrompt { kind, message } => EventView::AuthPrompt {
                kind,
                message: message@,
            },
            Event::Qr { url } => EventView::Qr { url: url@ },
            Event::LoginSuccess { username } => EventView::LoginSuccess {
                username: optional_text(username),
            },
            Event::Plan { total_compressed_bytes, total_uncompressed_bytes, total_files } =>
                EventView::Plan { total_compressed_bytes, total_uncompressed_bytes, total_files },
            Event::DepotStart { depot_id } => EventView::DepotStart { depot_id },
            Event::Progress {
                network_bytes,
                written_bytes,
                verified_bytes,
                files_done,
                current_file,
            } => EventView::Progress {
                network_bytes,
                written_bytes,
                verified_bytes,
                files_done,
                current_file: optional_text(current_file),
            },
            Event::Done { network_bytes, written_bytes, verified_bytes } => EventView::Done {
                network_bytes,
                written_bytes,
                verified_bytes,
            },
            Event::Error { message } => EventView::Error { message: message@ },
            Event::UserApps { apps, count } => EventView::UserApps {
                apps: app_views(apps@),
                count,
            },
            Event::Branches { app_id, branches } => EventView::Branches {
                app_id,
                branches: branch_views(branches@),
            },
            Event::Ignored => EventView::Ignored,
        }
    }
}

impl SteamAppView {
    /// The app is of the given type, whatever the case of its letters.
    pub open spec fn has_type(self, app_type: Seq<char>) -> bool {
        equal_ignoring_ascii_case(self.app_type, app_type)
    }
}

impl SteamApp {
    /// Whether the app is of the given type, whatever the case of its letters.
    pub fn is_type(&self, app_type: &str) -> (yes: bool)
        ensures
            yes == self@.has_type(app_type@),
    {
        eq_ignore_ascii_case(self.app_type.as_str(), app_type)
    }
}

impl Clone for SteamApp {
    fn clone(&self) -> (copy: SteamApp)
        ensures
            copy@ == self@,
    {
        SteamApp {
            app_id: self.app_id,
            name: self.name.clone(),
            app_type: self.app_type.clone(),
        }
    }
}

impl Clone for BranchInfo {
    fn clone(&self) -> (copy: BranchInfo)
        ensures
            copy@ == self@,
    {
        BranchInfo {
            name: self.name.clone(),
            build_id: self.build_id,
            time_updated: self.time_updated,
            password_required: self.password_required,
        }
    }
}

/// The same apps again.
pub fn copy_apps(apps: &Vec<SteamApp>) -> (copy: Vec<SteamApp>)
    ensures
        app_views(copy@) == app_views(apps@),
{
    let mut copy: Vec<SteamApp> = Vec::new();
    let mut i: usize = 0;
    while i < apps.len()
        invariant
            i <= apps@.len(),
            app_views(copy@) == app_views(apps@).take(i as int),
        decreases apps@.len() - i,
    {
        let ghost before = copy@;
        copy.push(apps[i].clone());
        i = i + 1;
        assert(app_views(copy@) =~= app_views(before).push(apps@[i - 1]@));
        assert(app_views(copy@) =~= app_views(apps@).take(i as int));
    }
    assert(app_views(apps@).take(i as int) =~= app_views(apps@));
    copy
}

/// The same branches again.
pub fn copy_branches(branches: &Vec<BranchInfo>) -> (copy: Vec<BranchInfo>)
    ensures
        branch_views(copy@) == branch_views(branches@),
{
    let mut copy: Vec<BranchInfo> = Vec::new();
    let mut i: usize = 0;
    while i < branches.len()
        invariant
            i <= branches@.len(),
            branch_views(copy@) == branch_views(branches@).take(i as int),
        decreases branches@.len() - i,
    {
        let ghost before = copy@;
        copy.push(branches[i].clone());
        i = i + 1;
        assert(branch_views(copy@) =~= branch_views(before).push(branches@[i - 1]@));
        assert(branch_views(copy@) =~= branch_views(branches@).take(i as int));
    }
    assert(branch_views(branches@).take(i as int) =~= branch_views(branches@));
    copy
}

} // verus!
