//! Choosing a game, and what is looked up about it.

use vstd::prelude::*;

use std::collections::HashSet;

use super::catalog::{
    branch_item_views, branch_items, branch_rows, is_default_index, BranchChoice, DlcItem,
};
use super::session::{
    app_ids, apps_of_type, cache_view, combined, Session, SessionConfigView, SessionView,
};
use crate::depot_downloader::event::{
    app_views, branch_views, copy_branches, BranchInfo, BranchView, SteamApp, SteamAppView,
};
use crate::depot_downloader::process::LoginMethod;

verus! {

/// The first app with the id.
pub open spec fn find_app(apps: Seq<SteamAppView>, app_id: u64) -> Option<SteamAppView>
    decreases apps.len(),
{
    if apps.len() == 0 {
        None
    } else if apps[0].app_id == app_id {
        Some(apps[0])
    } else {
        find_app(apps.drop_first(), app_id)
    }
}

/// The games to choose from.
pub open spec fn games_of(session: SessionView) -> Seq<SteamAppView> {
    apps_of_type(combined(session.owned_apps, session.free_apps), "game"@)
}

/// The ids of the DLC that can be downloaded.
pub open spec fn dlc_ids_of(session: SessionView) -> Set<u64> {
    app_ids(apps_of_type(combined(session.owned_apps, session.free_apps), "dlc"@)).to_set()
}

/// The branches listed before for the app; none where they were not.
pub open spec fn cached_branches(session: SessionView, app_id: u64) -> Seq<BranchView> {
    if session.config.branch_cache.contains_key(app_id) {
        session.config.branch_cache[app_id]
    } else {
        Seq::empty()
    }
}

/// The session with nothing looked up about any game.
pub open spec fn without_lookups(session: SessionView) -> SessionView {
    SessionView { dlc_available: false, dlc_loading: false, branches_loading: false, ..session }
}

/// The session after a game was chosen, or the choice was cleared.
pub open spec fn after_selection(session: SessionView, app_id: Option<u64>) -> SessionView {
    let cleared = without_lookups(session);
    match app_id {
        None => SessionView { selected_app: None, ..cleared },
        Some(app_id) => match find_app(games_of(session), app_id) {
            None => cleared,
            Some(app) => {
                let selected = SessionView { selected_app: Some(app), ..cleared };
                if session.depot_downloader_binary is Some {
                    SessionView {
                        dlc_loading: true,
                        branches_loading: !session.config.branch_cache.contains_key(app_id),
                        ..selected
                    }
                } else {
                    selected
                }
            },
        },
    }
}

/// The branches to show for a choice.
pub open spec fn branches_shown(session: SessionView, app_id: Option<u64>) -> Seq<BranchView> {
    match app_id {
        Some(app_id) => if find_app(games_of(session), app_id) is Some {
            cached_branches(session, app_id)
        } else {
            Seq::empty()
        },
        None => Seq::empty(),
    }
}

/// The session after the DLC of the chosen game were looked up: how many there
/// are to choose from.
pub open spec fn after_dlc_lookup(session: SessionView, count: nat) -> SessionView {
    SessionView { dlc_available: count > 0, dlc_loading: false, ..session }
}

/// The session after the branches of an app were listed, or could not be.
pub open spec fn after_branch_lookup(
    session: SessionView,
    app_id: u64,
    listed: Option<Seq<BranchView>>,
) -> SessionView {
    SessionView {
        branches_loading: false,
        config: SessionConfigView {
            branch_cache: match listed {
                Some(branches) => session.config.branch_cache.insert(app_id, branches),
                None => session.config.branch_cache,
            },
            ..session.config
        },
        ..session
    }
}

/// What is to be looked up about a chosen game.
pub struct GameLookup {
    pub binary: String,
    pub login: LoginMethod,
    pub owned_dlc_ids: HashSet<u64>,
    /// Whether the branches are to be listed too: they are not where they were
    /// listed before.
    pub list_branches: bool,
}

/// What a choice shows and looks up.
pub struct Selection {
    pub branches: BranchChoice,
    pub lookup: Option<GameLookup>,
}

/// Finds the first app with the id.
fn find_game(games: &Vec<SteamApp>, app_id: u64) -> (found: Option<SteamApp>)
    ensures
        match found {
            Some(app) => find_app(app_views(games@), app_id) == Some(app@),
            None => find_app(app_views(games@), app_id) is None,
        },
{
    let mut i: usize = 0;
    let ghost all = app_views(games@);
    assert(all.skip(0) =~= all);
    while i < games.len()
        invariant
            i <= games@.len(),
            all == app_views(games@),
            find_app(all, app_id) == find_app(all.skip(i as int), app_id),
        decreases games@.len() - i,
    {
        assert(all.skip(i as int)[0] == games@[i as int]@);
        if games[i].app_id == app_id {
            return Some(games[i].clone());
        }
        assert(all.skip(i as int).drop_first() =~= all.skip(i + 1));
        i = i + 1;
    }
    None
}

impl Session {
    /// A game was picked in the dropdown, or the choice was cleared. Branches
    /// listed before show at once and are not listed again: every listing is
    /// its own fresh Steam login.
    pub fn on_game_selected(&mut self, app_id: Option<u64>) -> (selection: Selection)
        ensures
            final(self)@ == after_selection(old(self)@, app_id),
            branch_item_views(selection.branches.items@) == branch_rows(
                branches_shown(old(self)@, app_id),
            ),
            is_default_index(
                branch_rows(branches_shown(old(self)@, app_id)),
                selection.branches.selected as int,
            ),
            selection.lookup is Some == final(self)@.dlc_loading,
            selection.lookup is Some ==> {
                let lookup = selection.lookup.unwrap();
                &&& Some(lookup.binary@) == old(self)@.depot_downloader_binary
                &&& lookup.login@ == old(self)@.current_login()
                &&& lookup.owned_dlc_ids@ == dlc_ids_of(old(self)@)
                &&& lookup.list_branches == final(self)@.branches_loading
            },
    {
        broadcast use vstd::std_specs::hash::group_hash_axioms;

        self.dlc_available = false;
        self.dlc_loading = false;
        self.branches_loading = false;
        let app_id = match app_id {
            Some(app_id) => app_id,
            None => {
                self.selected_app = None;
                return Selection { branches: no_branches(), lookup: None };
            },
        };
        let games = self.combined_games();
        let app = match find_game(&games, app_id) {
            Some(app) => app,
            None => {
                return Selection { branches: no_branches(), lookup: None };
            },
        };
        self.selected_app = Some(app);
        let cached: Option<Vec<BranchInfo>> = match self.config.branch_cache.get(&app_id) {
            Some(branches) => Some(copy_branches(branches)),
            None => None,
        };
        let is_cached = cached.is_some();
        let branches = match cached {
            Some(branches) => branch_items(branches),
            None => no_branches(),
        };
        let binary = match &self.depot_downloader_binary {
            Some(binary) => binary.clone(),
            None => {
                return Selection { branches, lookup: None };
            },
        };
        let login = self.current_login_method();
        let owned_dlc_ids = self.owned_dlc_ids();
        self.dlc_loading = true;
        self.branches_loading = !is_cached;
        Selection {
            branches,
            lookup: Some(
                GameLookup { binary, login, owned_dlc_ids, list_branches: !is_cached },
            ),
        }
    }

    /// The DLC of the chosen game are here.
    pub fn dlc_found(&mut self, items: &Vec<DlcItem>)
        ensures
            final(self)@ == after_dlc_lookup(old(self)@, items@.len()),
            final(self)@ == (SessionView {
                dlc_available: items@.len() > 0,
                dlc_loading: false,
                ..old(self)@
            }),
    {
        self.dlc_available = items.len() > 0;
        self.dlc_loading = false;
    }

    /// The branches of an app were listed, or could not be. What was listed is
    /// kept for the next time; `choice` is what to show now.
    pub fn branches_listed(&mut self, app_id: u64, branches: Option<Vec<BranchInfo>>) -> (choice:
        BranchChoice)
        ensures
            ({
                let listed = match branches {
                    Some(branches) => branch_views(branches@),
                    None => Seq::empty(),
                };
                &&& branch_item_views(choice.items@) == branch_rows(listed)
                &&& is_default_index(branch_rows(listed), choice.selected as int)
                &&& final(self)@ == after_branch_lookup(
                    old(self)@,
                    app_id,
                    if branches is Some {
                        Some(listed)
                    } else {
                        None
                    },
                )
                &&& final(self)@ == (SessionView {
                    branches_loading: false,
                    config: SessionConfigView {
                        branch_cache: if branches is Some {
                            old(self)@.config.branch_cache.insert(app_id, listed)
                        } else {
                            old(self)@.config.branch_cache
                        },
                        ..old(self)@.config
                    },
                    ..old(self)@
                })
            }),
    {
        broadcast use vstd::std_specs::hash::group_hash_axioms;

        self.branches_loading = false;
        match branches {
            Some(branches) => {
                let ghost before = self.config.branch_cache@;
                let kept = copy_branches(&branches);
                self.config.branch_cache.insert(app_id, kept);
                assert(cache_view(self.config.branch_cache@) =~= cache_view(before).insert(
                    app_id,
                    branch_views(branches@),
                ));
                branch_items(branches)
            },
            None => no_branches(),
        }
    }

    /// The ids of the games whose logo is not here yet, in order.
    pub fn missing_logos(&self, known: &HashSet<u64>) -> (missing: Vec<u64>)
        ensures
            missing@ == ids_not_in(app_ids(games_of(self@)), known@),
    {
        broadcast use vstd::std_specs::hash::group_hash_axioms;

        let games = self.combined_games();
        let ghost ids = app_ids(games_of(self@));
        let mut missing: Vec<u64> = Vec::new();
        let mut i: usize = 0;
        while i < games.len()
            invariant
                i <= games@.len(),
                ids == app_ids(app_views(games@)),
                missing@ == ids_not_in(ids.take(i as int), known@),
            decreases games@.len() - i,
        {
            assert(ids.take(i + 1).drop_last() =~= ids.take(i as int));
            assert(ids.take(i + 1).last() == games@[i as int].app_id);
            let app_id = games[i].app_id;
            if !known.contains(&app_id) {
                missing.push(app_id);
            }
            i = i + 1;
        }
        assert(ids.take(i as int) =~= ids);
        missing
    }
}

/// The ids that are not known, in order.
pub open spec fn ids_not_in(ids: Seq<u64>, known: Set<u64>) -> Seq<u64>
    decreases ids.len(),
{
    if ids.len() == 0 {
        Seq::empty()
    } else if known.contains(ids.last()) {
        ids_not_in(ids.drop_last(), known)
    } else {
        ids_not_in(ids.drop_last(), known).push(ids.last())
    }
}

/// The branch dropdown where no branches are known.
fn no_branches() -> (choice: BranchChoice)
    ensures
        branch_item_views(choice.items@) == branch_rows(Seq::empty()),
        is_default_index(branch_rows(Seq::empty()), choice.selected as int),
{
    let none: Vec<BranchInfo> = Vec::new();
    assert(branch_views(none@) =~= Seq::empty());
    branch_items(none)
}

/// Choosing a game again, once its branches were listed, lists them no more
/// and shows at once what was listed.
pub proof fn listed_branches_are_not_listed_again(
    session: SessionView,
    app_id: u64,
    listed: Seq<BranchView>,
)
    ensures
        ({
            let kept = SessionView {
                config: SessionConfigView {
                    branch_cache: session.config.branch_cache.insert(app_id, listed),
                    ..session.config
                },
                ..session
            };
            &&& !after_selection(kept, Some(app_id)).branches_loading
            &&& find_app(games_of(kept), app_id) is Some ==> branches_shown(kept, Some(app_id))
                == listed
        }),
{
}

/// A game that can be chosen is one of the games, and is remembered as such.
pub proof fn chosen_game_is_one_of_the_games(session: SessionView, app_id: u64)
    ensures
        find_app(games_of(session), app_id) is Some ==> after_selection(
            session,
            Some(app_id),
        ).selected_app is Some && after_selection(
            session,
            Some(app_id),
        ).selected_app.unwrap().app_id == app_id && games_of(session).contains(
            after_selection(session, Some(app_id)).selected_app.unwrap(),
        ),
{
    found_app_is_one_of_them(games_of(session), app_id);
}

/// An app that is found is one of the apps, and has the id.
proof fn found_app_is_one_of_them(apps: Seq<SteamAppView>, app_id: u64)
    ensures
        match find_app(apps, app_id) {
            Some(app) => app.app_id == app_id && apps.contains(app),
            None => true,
        },
    decreases apps.len(),
{
    if apps.len() > 0 {
        if apps[0].app_id == app_id {
            assert(apps.contains(apps[0]));
        } else {
            let rest = apps.drop_first();
            found_app_is_one_of_them(rest, app_id);
            if let Some(app) = find_app(rest, app_id) {
                let i = choose|i: int| 0 <= i < rest.len() && rest[i] == app;
                assert(apps[i + 1] == app);
            }
        }
    }
}

} // verus!
