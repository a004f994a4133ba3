//! A session: the account, the lists of apps, and the chosen game.

use vstd::prelude::*;

use std::collections::HashMap;
use std::collections::HashSet;

use super::state::{
    optional_context, optional_launch, optional_manifest, Launch, LaunchView, LoginMode,
    PendingAction, PendingControl, PendingLibraryManifest, PendingManifestView, QueueContext,
    QueueContextView, RunState, RunStateView,
};
use crate::depot_downloader::event::{
    app_views, branch_views, copy_apps, BranchInfo, BranchView, SteamApp, SteamAppView,
};
use crate::depot_downloader::process::{
    copy_optional, with_text, LoginMethod, LoginView,
};
use crate::depot_downloader::progress::optional_text;
use crate::text::{trim, trimmed};

verus! {

/// What a session keeps between launches.
#[derive(Debug)]
pub struct SessionConfig {
    pub last_app_id: Option<u64>,
    pub last_download_location: Option<String>,
    pub last_max_downloads: String,
    /// The account name of a remembered login, or `None` if the user has not
    /// logged in yet or has logged out.
    pub logged_in_username: Option<String>,
    /// The branches listed before, by app.
    pub branch_cache: HashMap<u64, Vec<BranchInfo>>,
}

/// What a session keeps, with texts as sequences of characters.
#[verifier::ext_equal]
pub struct SessionConfigView {
    pub last_app_id: Option<u64>,
    pub last_download_location: Option<Seq<char>>,
    pub last_max_downloads: Seq<char>,
    pub logged_in_username: Option<Seq<char>>,
    pub branch_cache: Map<u64, Seq<BranchView>>,
}

/// The cached branches with their texts as sequences of characters.
pub open spec fn cache_view(cache: Map<u64, Vec<BranchInfo>>) -> Map<u64, Seq<BranchView>> {
    cache.map_values(|branches: Vec<BranchInfo>| branch_views(branches@))
}

impl View for SessionConfig {
    type V = SessionConfigView;

    open spec fn view(&self) -> SessionConfigView {
        SessionConfigView {
            last_app_id: self.last_app_id,
            last_download_location: optional_text(self.last_download_location),
            last_max_downloads: self.last_max_downloads@,
            logged_in_username: optional_text(self.logged_in_username),
            branch_cache: cache_view(self.branch_cache@),
        }
    }
}

/// The directory used last, or else another one.
pub open spec fn first_dir(last: Option<Seq<char>>, other: Option<Seq<char>>) -> Option<Seq<char>> {
    match last {
        Some(dir) => Some(dir),
        None => other,
    }
}

/// The download location to start with: the one used last, or else the
/// detected Steam library.
pub fn default_download_dir(config: &SessionConfig, steam_common_dir: Option<String>) -> (dir: Option<
    String,
>)
    ensures
        optional_text(dir) == first_dir(
            config@.last_download_location,
            optional_text(steam_common_dir),
        ),
        optional_text(dir) == match config@.last_download_location {
            Some(dir) => Some(dir),
            None => optional_text(steam_common_dir),
        },
{
    match &config.last_download_location {
        Some(dir) => Some(dir.clone()),
        None => steam_common_dir,
    }
}

/// A session.
pub struct Session {
    pub config: SessionConfig,
    pub login_mode: LoginMode,
    /// Whether to tell Steam of a finished download; only acted on when the
    /// chosen library folder is a real `steamapps/common`.
    pub add_to_steam_library: bool,
    pub depot_downloader_binary: Option<String>,
    pub run_state: RunState,
    /// What a login prompt that is shown is for.
    pub pending_action: PendingAction,
    /// The account's own licensed apps, shown first.
    pub owned_apps: Vec<SteamApp>,
    /// The anonymous account's apps (mostly free ones and tools).
    pub free_apps: Vec<SteamApp>,
    pub selected_app: Option<SteamApp>,
    /// Whether the selected game has any DLC to offer.
    pub dlc_available: bool,
    pub dlc_loading: bool,
    pub branches_loading: bool,
    /// The app ids still to download after the leg that is running.
    pub download_queue: Vec<u64>,
    /// How many legs the current download started with; 0 outside of one.
    pub download_queue_total: usize,
    pub queue_context: Option<QueueContext>,
    /// Whether a process is there to take lines of input.
    pub can_respond: bool,
    /// Whether a process is there to be cancelled.
    pub can_cancel: bool,
    pub pending_control: Option<PendingControl>,
    /// The launch behind the running or paused download.
    pub last_request: Option<Launch>,
    /// How many automatic reconnects were made since the last download began.
    pub retry_count: u32,
    pub library_manifest: Option<PendingLibraryManifest>,
    /// Whether the run that just finished was told to Steam.
    pub steam_library_manifest_written: bool,
}

/// A session with its texts as sequences of characters.
#[verifier::ext_equal]
pub struct SessionView {
    pub config: SessionConfigView,
    pub login_mode: LoginMode,
    pub add_to_steam_library: bool,
    pub depot_downloader_binary: Option<Seq<char>>,
    pub run_state: RunStateView,
    pub pending_action: PendingAction,
    pub owned_apps: Seq<SteamAppView>,
    pub free_apps: Seq<SteamAppView>,
    pub selected_app: Option<SteamAppView>,
    pub dlc_available: bool,
    pub dlc_loading: bool,
    pub branches_loading: bool,
    pub download_queue: Seq<u64>,
    pub download_queue_total: usize,
    pub queue_context: Option<QueueContextView>,
    pub can_respond: bool,
    pub can_cancel: bool,
    pub pending_control: Option<PendingControl>,
    pub last_request: Option<LaunchView>,
    pub retry_count: u32,
    pub library_manifest: Option<PendingManifestView>,
    pub steam_library_manifest_written: bool,
}

/// The view of an optional app.
pub open spec fn optional_app(app: Option<SteamApp>) -> Option<SteamAppView> {
    match app {
        Some(app) => Some(app@),
        None => None,
    }
}

impl View for Session {
    type V = SessionView;

    open spec fn view(&self) -> SessionView {
        SessionView {
            config: self.config@,
            login_mode: self.login_mode,
            add_to_steam_library: self.add_to_steam_library,
            depot_downloader_binary: optional_text(self.depot_downloader_binary),
            run_state: self.run_state@,
            pending_action: self.pending_action,
            owned_apps: app_views(self.owned_apps@),
            free_apps: app_views(self.free_apps@),
            selected_app: optional_app(self.selected_app),
            dlc_available: self.dlc_available,
            dlc_loading: self.dlc_loading,
            branches_loading: self.branches_loading,
            download_queue: self.download_queue@,
            download_queue_total: self.download_queue_total,
            queue_context: optional_context(self.queue_context),
            can_respond: self.can_respond,
            can_cancel: self.can_cancel,
            pending_control: self.pending_control,
            last_request: optional_launch(self.last_request),
            retry_count: self.retry_count,
            library_manifest: optional_manifest(self.library_manifest),
            steam_library_manifest_written: self.steam_library_manifest_written,
        }
    }
}

/// A session that has just begun.
pub open spec fn new_session(config: SessionConfigView) -> SessionView {
    SessionView {
        config,
        login_mode: LoginMode::UsernamePassword,
        add_to_steam_library: true,
        depot_downloader_binary: None,
        run_state: RunStateView::PreparingDepotDownloader,
        pending_action: PendingAction::FetchLibrary,
        owned_apps: Seq::empty(),
        free_apps: Seq::empty(),
        selected_app: None,
        dlc_available: false,
        dlc_loading: false,
        branches_loading: false,
        download_queue: Seq::empty(),
        download_queue_total: 0,
        queue_context: None,
        can_respond: false,
        can_cancel: false,
        pending_control: None,
        last_request: None,
        retry_count: 0,
        library_manifest: None,
        steam_library_manifest_written: false,
    }
}

impl SessionView {
    /// The login to use right now: the one remembered, or else none.
    pub open spec fn current_login(self) -> LoginView {
        match self.config.logged_in_username {
            Some(username) => LoginView::RememberedUsername { username },
            None => LoginView::Anonymous,
        }
    }

    /// The session with a run that lists the account's apps.
    pub open spec fn fetching_library(self) -> SessionView {
        SessionView {
            can_respond: true,
            can_cancel: false,
            pending_control: None,
            pending_action: PendingAction::FetchLibrary,
            run_state: RunStateView::FetchingLibrary,
            ..self
        }
    }

    /// Nothing was launched yet, or what was is over.
    pub open spec fn awaits_start(self) -> bool {
        let state = self.run_state;
        ||| state is PreparingDepotDownloader
        ||| state is Idle
        ||| state is Finished
        ||| state is Failed
    }

    /// A run, or the preparation of one, is going on.
    pub open spec fn busy(self) -> bool {
        let state = self.run_state;
        ||| state is PreparingDepotDownloader
        ||| state is LookingUpApp
        ||| state is FetchingLibrary
        ||| state is Running
        ||| state is Paused
        ||| state is ShowingQrCode
        ||| state is AwaitingSteamGuardCode
        ||| state is AwaitingSteamGuardConfirmation
        ||| state is Reconnecting
    }
}

/// A run that lists the apps of an account.
pub struct UserAppsLaunch {
    pub binary: String,
    pub login: LoginMethod,
}

/// One of the apps has the id.
pub open spec fn has_app_id(apps: Seq<SteamAppView>, app_id: u64) -> bool {
    exists|i: int| 0 <= i < apps.len() && (#[trigger] apps[i]).app_id == app_id
}

/// The apps of the second list that are not in the first, in order.
pub open spec fn apps_not_in(apps: Seq<SteamAppView>, owned: Seq<SteamAppView>) -> Seq<SteamAppView>
    decreases apps.len(),
{
    if apps.len() == 0 {
        Seq::empty()
    } else if has_app_id(owned, apps.last().app_id) {
        apps_not_in(apps.drop_last(), owned)
    } else {
        apps_not_in(apps.drop_last(), owned).push(apps.last())
    }
}

/// The owned apps, and after them the free ones that are not owned.
pub open spec fn combined(owned: Seq<SteamAppView>, free: Seq<SteamAppView>) -> Seq<SteamAppView> {
    owned + apps_not_in(free, owned)
}

/// The apps of a type, in order.
pub open spec fn apps_of_type(apps: Seq<SteamAppView>, app_type: Seq<char>) -> Seq<SteamAppView>
    decreases apps.len(),
{
    if apps.len() == 0 {
        Seq::empty()
    } else if apps.last().has_type(app_type) {
        apps_of_type(apps.drop_last(), app_type).push(apps.last())
    } else {
        apps_of_type(apps.drop_last(), app_type)
    }
}

/// The ids of the apps.
pub open spec fn app_ids(apps: Seq<SteamAppView>) -> Seq<u64> {
    apps.map_values(|app: SteamAppView| app.app_id)
}

impl Session {
    /// A session that has just begun.
    pub fn new(config: SessionConfig) -> (session: Session)
        ensures
            session@ == new_session(config@),
    {
        let session = Session {
            config,
            login_mode: LoginMode::UsernamePassword,
            add_to_steam_library: true,
            depot_downloader_binary: None,
            run_state: RunState::PreparingDepotDownloader,
            pending_action: PendingAction::FetchLibrary,
            owned_apps: Vec::new(),
            free_apps: Vec::new(),
            selected_app: None,
            dlc_available: false,
            dlc_loading: false,
            branches_loading: false,
            download_queue: Vec::new(),
            download_queue_total: 0,
            queue_context: None,
            can_respond: false,
            can_cancel: false,
            pending_control: None,
            last_request: None,
            retry_count: 0,
            library_manifest: None,
            steam_library_manifest_written: false,
        };
        assert(session@ =~= new_session(config@));
        session
    }

    /// Whether nothing was launched yet, or what was is over.
    pub fn is_awaiting_download_start(&self) -> (yes: bool)
        ensures
            yes == self@.awaits_start(),
    {
        match &self.run_state {
            RunState::PreparingDepotDownloader
            | RunState::Idle
            | RunState::Finished(_)
            | RunState::Failed(_) => true,
            _ => false,
        }
    }

    /// Whether a run is presently going on, so that a second one cannot be
    /// launched on top of it.
    pub fn is_busy(&self) -> (yes: bool)
        ensures
            yes == self@.busy(),
    {
        match &self.run_state {
            RunState::PreparingDepotDownloader
            | RunState::LookingUpApp
            | RunState::FetchingLibrary
            | RunState::Running(_)
            | RunState::Paused(_)
            | RunState::ShowingQrCode { .. }
            | RunState::AwaitingSteamGuardCode { .. }
            | RunState::AwaitingSteamGuardConfirmation
            | RunState::Reconnecting { .. } => true,
            _ => false,
        }
    }

    /// The login DepotDownloader should use right now: whatever the account
    /// has remembered, or the anonymous account otherwise.
    pub fn current_login_method(&self) -> (login: LoginMethod)
        ensures
            login@ == self@.current_login(),
    {
        match &self.config.logged_in_username {
            Some(username) => LoginMethod::RememberedUsername { username: username.clone() },
            None => LoginMethod::Anonymous,
        }
    }

    /// Takes the outcome of provisioning DepotDownloader. Where it is there,
    /// and a login is remembered, the account's apps are to be listed; the
    /// free ones are in any case.
    pub fn provisioned(&mut self, outcome: Result<String, String>) -> (launch: Option<
        UserAppsLaunch,
    >)
        ensures
            final(self)@ == after_provisioning(
                old(self)@,
                match outcome {
                    Ok(binary) => Ok(binary@),
                    Err(error) => Err(error@),
                },
            ),
            match outcome {
                Ok(binary) => {
                    let ready = SessionView {
                        depot_downloader_binary: Some(binary@),
                        run_state: RunStateView::Idle,
                        ..old(self)@
                    };
                    match old(self)@.config.logged_in_username {
                        Some(username) => {
                            &&& final(self)@ == ready.fetching_library()
                            &&& launch is Some
                            &&& launch.unwrap().binary@ == binary@
                            &&& launch.unwrap().login@ == (LoginView::RememberedUsername {
                                username,
                            })
                        },
                        None => final(self)@ == ready && launch is None,
                    }
                },
                Err(error) => {
                    &&& final(self)@ == (SessionView {
                        run_state: RunStateView::Failed(
                            "Could not set up DepotDownloader: "@ + error@,
                        ),
                        ..old(self)@
                    })
                    &&& launch is None
                },
            },
    {
        match outcome {
            Ok(binary) => {
                self.depot_downloader_binary = Some(binary);
                self.run_state = RunState::Idle;
                match copy_optional(&self.config.logged_in_username) {
                    Some(username) => {
                        self.launch_user_apps_fetch(LoginMethod::RememberedUsername { username })
                    },
                    None => None,
                }
            },
            Err(error) => {
                self.run_state = RunState::Failed(
                    with_text("Could not set up DepotDownloader: ", error.as_str()),
                );
                None
            },
        }
    }

    /// The run that lists the anonymous account's apps. It never prompts, so
    /// it changes nothing about the session.
    pub fn fetch_free_apps(&self) -> (launch: Option<UserAppsLaunch>)
        ensures
            match self@.depot_downloader_binary {
                Some(binary) => {
                    &&& launch is Some
                    &&& launch.unwrap().binary@ == binary
                    &&& launch.unwrap().login@ is Anonymous
                },
                None => launch is None,
            },
    {
        match &self.depot_downloader_binary {
            Some(binary) => Some(
                UserAppsLaunch { binary: binary.clone(), login: LoginMethod::Anonymous },
            ),
            None => None,
        }
    }

    /// Takes the anonymous account's apps.
    pub fn take_free_apps(&mut self, apps: Vec<SteamApp>)
        ensures
            final(self)@ == with_free_apps(old(self)@, app_views(apps@)),
            final(self)@ == (SessionView { free_apps: app_views(apps@), ..old(self)@ }),
    {
        self.free_apps = apps;
    }

    /// Lists the apps of an account, with login prompts coming up exactly like
    /// they do during a download.
    pub fn launch_user_apps_fetch(&mut self, login: LoginMethod) -> (launch: Option<
        UserAppsLaunch,
    >)
        ensures
            match old(self)@.depot_downloader_binary {
                Some(binary) => {
                    &&& final(self)@ == old(self)@.fetching_library()
                    &&& launch is Some
                    &&& launch.unwrap().binary@ == binary
                    &&& launch.unwrap().login@ == login@
                },
                None => final(self)@ == old(self)@ && launch is None,
            },
    {
        let binary = match &self.depot_downloader_binary {
            Some(binary) => binary.clone(),
            None => {
                return None;
            },
        };
        self.can_respond = true;
        self.can_cancel = false;
        self.pending_control = None;
        self.pending_action = PendingAction::FetchLibrary;
        self.run_state = RunState::FetchingLibrary;
        Some(UserAppsLaunch { binary, login })
    }

    /// Logs in with what was typed or chosen.
    pub fn log_in(&mut self, username: &str, password: &str) -> (launch: Option<UserAppsLaunch>)
        ensures
            match old(self)@.depot_downloader_binary {
                Some(binary) => {
                    &&& final(self)@ == old(self)@.fetching_library()
                    &&& launch is Some
                    &&& launch.unwrap().binary@ == binary
                    &&& launch.unwrap().login@ == typed_login(
                        old(self)@.login_mode,
                        username@,
                        password@,
                    )
                },
                None => final(self)@ == old(self)@ && launch is None,
            },
    {
        let login = form_login(self.login_mode, username, password);
        self.launch_user_apps_fetch(login)
    }

    /// Every app that the account's own licenses and the anonymous account
    /// grant, of every type: the account's own apps first, then the anonymous
    /// account's apps that are not among them.
    pub fn combined_apps(&self) -> (apps: Vec<SteamApp>)
        ensures
            app_views(apps@) == combined(self@.owned_apps, self@.free_apps),
    {
        broadcast use vstd::std_specs::hash::group_hash_axioms;

        let ghost owned = app_views(self.owned_apps@);
        let ghost free = app_views(self.free_apps@);
        let mut owned_ids: HashSet<u64> = HashSet::new();
        let mut i: usize = 0;
        while i < self.owned_apps.len()
            invariant
                i <= self.owned_apps@.len(),
                owned == app_views(self.owned_apps@),
                forall|id: u64| #[trigger]
                    owned_ids@.contains(id) <==> has_app_id(owned.take(i as int), id),
            decreases self.owned_apps@.len() - i,
        {
            let ghost before = owned_ids@;
            owned_ids.insert(self.owned_apps[i].app_id);
            i = i + 1;
            proof {
                let ghost now = owned.take(i as int);
                assert forall|id: u64| #[trigger]
                    owned_ids@.contains(id) <==> has_app_id(now, id) by {
                    let earlier = owned.take(i - 1);
                    assert(now[i - 1] == owned[i - 1]);
                    if has_app_id(now, id) {
                        let j = choose|j: int| 0 <= j < now.len() && (#[trigger] now[j]).app_id == id;
                        if j < i - 1 {
                            assert(earlier[j].app_id == id);
                        }
                    }
                    if before.contains(id) {
                        let j = choose|j: int|
                            0 <= j < earlier.len() && (#[trigger] earlier[j]).app_id == id;
                        assert(now[j].app_id == id);
                    }
                }
            }
        }
        assert(owned.take(i as int) =~= owned);
        let mut apps = copy_apps(&self.owned_apps);
        let mut k: usize = 0;
        assert(app_views(apps@) =~= owned + apps_not_in(free.take(0), owned));
        while k < self.free_apps.len()
            invariant
                k <= self.free_apps@.len(),
                owned == app_views(self.owned_apps@),
                free == app_views(self.free_apps@),
                forall|id: u64| #[trigger] owned_ids@.contains(id) <==> has_app_id(owned, id),
                app_views(apps@) == owned + apps_not_in(free.take(k as int), owned),
            decreases self.free_apps@.len() - k,
        {
            let ghost before = apps@;
            assert(free.take(k + 1).drop_last() =~= free.take(k as int));
            assert(free.take(k + 1).last() == self.free_apps@[k as int]@);
            if !owned_ids.contains(&self.free_apps[k].app_id) {
                apps.push(self.free_apps[k].clone());
                assert(app_views(apps@) =~= app_views(before).push(self.free_apps@[k as int]@));
            }
            k = k + 1;
            assert(app_views(apps@) =~= owned + apps_not_in(free.take(k as int), owned));
        }
        assert(free.take(k as int) =~= free);
        apps
    }

    /// The combined apps that are games: the dropdown has no use for the DLC,
    /// tools, demos and servers that a license list is full of.
    pub fn combined_games(&self) -> (games: Vec<SteamApp>)
        ensures
            app_views(games@) == apps_of_type(
                combined(self@.owned_apps, self@.free_apps),
                "game"@,
            ),
    {
        let apps = self.combined_apps();
        let mut games: Vec<SteamApp> = Vec::new();
        let ghost all = app_views(apps@);
        let mut i: usize = 0;
        assert(app_views(games@) =~= apps_of_type(all.take(0), "game"@));
        while i < apps.len()
            invariant
                i <= apps@.len(),
                all == app_views(apps@),
                app_views(games@) == apps_of_type(all.take(i as int), "game"@),
            decreases apps@.len() - i,
        {
            let ghost before = games@;
            assert(all.take(i + 1).drop_last() =~= all.take(i as int));
            assert(all.take(i + 1).last() == apps@[i as int]@);
            if apps[i].is_type("game") {
                games.push(apps[i].clone());
                assert(app_views(games@) =~= app_views(before).push(apps@[i as int]@));
            }
            i = i + 1;
        }
        assert(all.take(i as int) =~= all);
        games
    }

    /// The ids of every DLC that the account's own licenses or the anonymous
    /// account grant.
    pub fn owned_dlc_ids(&self) -> (ids: HashSet<u64>)
        ensures
            ids@ == app_ids(
                apps_of_type(combined(self@.owned_apps, self@.free_apps), "dlc"@),
            ).to_set(),
    {
        broadcast use vstd::std_specs::hash::group_hash_axioms;

        let apps = self.combined_apps();
        let mut ids: HashSet<u64> = HashSet::new();
        let ghost all = app_views(apps@);
        let mut i: usize = 0;
        assert(ids@ =~= app_ids(apps_of_type(all.take(0), "dlc"@)).to_set());
        while i < apps.len()
            invariant
                i <= apps@.len(),
                all == app_views(apps@),
                ids@ == app_ids(apps_of_type(all.take(i as int), "dlc"@)).to_set(),
            decreases apps@.len() - i,
        {
            let ghost before = apps_of_type(all.take(i as int), "dlc"@);
            assert(all.take(i + 1).drop_last() =~= all.take(i as int));
            assert(all.take(i + 1).last() == apps@[i as int]@);
            if apps[i].is_type("dlc") {
                ids.insert(apps[i].app_id);
                proof {
                    let app = apps@[i as int]@;
                    assert(app_ids(before.push(app)) =~= app_ids(before).push(app.app_id));
                    pushed_id_is_in_the_set(app_ids(before), app.app_id);
                }
            }
            i = i + 1;
        }
        assert(all.take(i as int) =~= all);
        ids
    }
}

/// One more id in a list is one more in the set of them.
proof fn pushed_id_is_in_the_set(ids: Seq<u64>, id: u64)
    ensures
        ids.push(id).to_set() == ids.to_set().insert(id),
{
    let more = ids.push(id);
    assert forall|x: u64| more.to_set().contains(x) <==> ids.to_set().insert(id).contains(x) by {
        if more.contains(x) {
            let at = choose|at: int| 0 <= at < more.len() && more[at] == x;
            if at < ids.len() {
                assert(ids[at] == x);
            }
        }
        if ids.contains(x) {
            let at = choose|at: int| 0 <= at < ids.len() && ids[at] == x;
            assert(more[at] == x);
        }
        assert(more[ids.len() as int] == id);
    }
    assert(more.to_set() =~= ids.to_set().insert(id));
}

/// The login that a form stands for: the account name without white space
/// around it and the password as it is, or a QR code.
pub open spec fn typed_login(mode: LoginMode, username: Seq<char>, password: Seq<char>) -> LoginView {
    match mode {
        LoginMode::UsernamePassword => LoginView::UsernamePassword {
            username: trimmed(username),
            password,
        },
        LoginMode::Qr => LoginView::Qr,
    }
}

/// The session after DepotDownloader was set up, or could not be: the apps of a
/// remembered account are listed at once.
pub open spec fn after_provisioning(
    session: SessionView,
    outcome: Result<Seq<char>, Seq<char>>,
) -> SessionView {
    match outcome {
        Ok(binary) => {
            let ready = SessionView {
                depot_downloader_binary: Some(binary),
                run_state: RunStateView::Idle,
                ..session
            };
            if session.config.logged_in_username is Some {
                ready.fetching_library()
            } else {
                ready
            }
        },
        Err(error) => SessionView {
            run_state: RunStateView::Failed("Could not set up DepotDownloader: "@ + error),
            ..session
        },
    }
}

/// The session with the anonymous account's apps.
pub open spec fn with_free_apps(session: SessionView, apps: Seq<SteamAppView>) -> SessionView {
    SessionView { free_apps: apps, ..session }
}

/// The login that a form stands for.
pub fn form_login(mode: LoginMode, username: &str, password: &str) -> (login: LoginMethod)
    ensures
        login@ == typed_login(mode, username@, password@),
{
    match mode {
        LoginMode::UsernamePassword => LoginMethod::UsernamePassword {
            username: trim(username),
            password: password.to_owned(),
        },
        LoginMode::Qr => LoginMethod::Qr,
    }
}

} // verus!
