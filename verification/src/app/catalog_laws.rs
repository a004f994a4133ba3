//! What is listed, found and chosen.

use vstd::prelude::*;

use super::catalog::{
    ascii_lowered, ascii_match, branch_rows, dlc_row, found_by, is_ascii_text, is_default_index,
    is_public, lower_case, owned_among, row_matches, worker_share, BranchItemView,
};
use super::form::{branch_row_of, dlc_row_of, download_label, BranchRow, DlcRow};
use super::selection::{
    after_branch_lookup, after_dlc_lookup, after_selection, branches_shown, cached_branches,
    dlc_ids_of, find_app, games_of, ids_not_in,
};
use super::session::{
    after_provisioning, app_ids, apps_of_type, combined, has_app_id, with_free_apps, SessionView,
};
use super::state::PendingAction;
use crate::decimal::decimal;
use crate::depot_downloader::event::{BranchView, SteamAppView};
use crate::text::{
    ascii_lower, contains_text, ends_with, equal_ignoring_ascii_case, occurs_at, trimmed,
};
use crate::text_laws::parts_are_contained;

verus! {

/// The apps of a type are exactly those of the list that are of it, whatever
/// the case of its letters, and they stand in the order of the list: the apps
/// of two lists one after the other are those of the one and then those of the
/// other.
pub proof fn apps_of_a_type_are_those(
    first: Seq<SteamAppView>,
    second: Seq<SteamAppView>,
    app: SteamAppView,
    app_type: Seq<char>,
)
    ensures
        apps_of_type(first + second, app_type) == apps_of_type(first, app_type) + apps_of_type(
            second,
            app_type,
        ),
        equal_ignoring_ascii_case(app.app_type, app_type) ==> apps_of_type(seq![app], app_type)
            == seq![app],
        !equal_ignoring_ascii_case(app.app_type, app_type) ==> apps_of_type(seq![app], app_type)
            == Seq::<SteamAppView>::empty(),
        apps_of_type(Seq::empty(), app_type) == Seq::<SteamAppView>::empty(),
    decreases second.len(),
{
    reveal_with_fuel(apps_of_type, 2);
    assert(seq![app].drop_last() =~= Seq::empty());
    assert(apps_of_type(seq![app].drop_last(), app_type) =~= Seq::empty());
    if equal_ignoring_ascii_case(app.app_type, app_type) {
        assert(apps_of_type(seq![app], app_type) =~= seq![app]);
    }
    if second.len() == 0 {
        assert(first + second =~= first);
        assert(apps_of_type(first + second, app_type) =~= apps_of_type(first, app_type)
            + apps_of_type(second, app_type));
    } else {
        apps_of_a_type_are_those(first, second.drop_last(), app, app_type);
        assert((first + second).drop_last() =~= first + second.drop_last());
        assert(apps_of_type(first + second, app_type) =~= apps_of_type(first, app_type)
            + apps_of_type(second, app_type));
    }
}

/// An app is among those of a type exactly where it is in the list and of it.
pub proof fn membership_by_type(apps: Seq<SteamAppView>, app: SteamAppView, app_type: Seq<char>)
    ensures
        apps_of_type(apps, app_type).contains(app) <==> apps.contains(app)
            && equal_ignoring_ascii_case(app.app_type, app_type),
    decreases apps.len(),
{
    if apps.len() > 0 {
        let rest = apps.drop_last();
        let last = apps.last();
        membership_by_type(rest, app, app_type);
        let kept = apps_of_type(apps, app_type);
        let before = apps_of_type(rest, app_type);
        assert(apps =~= rest.push(last));
        assert(apps.contains(app) <==> rest.contains(app) || app == last) by {
            if rest.contains(app) {
                let i = choose|i: int| 0 <= i < rest.len() && rest[i] == app;
                assert(apps[i] == app);
            }
            if app == last {
                assert(apps[apps.len() - 1] == app);
            }
            if apps.contains(app) && app != last {
                let i = choose|i: int| 0 <= i < apps.len() && apps[i] == app;
                assert(rest[i] == app);
            }
        }
        if last.has_type(app_type) {
            assert(kept == before.push(last));
            assert(kept.contains(app) <==> before.contains(app) || app == last) by {
                if before.contains(app) {
                    let i = choose|i: int| 0 <= i < before.len() && before[i] == app;
                    assert(kept[i] == app);
                }
                if app == last {
                    assert(kept[kept.len() - 1] == app);
                }
                if kept.contains(app) && app != last {
                    let i = choose|i: int| 0 <= i < kept.len() && kept[i] == app;
                    assert(before[i] == app);
                }
            }
        }
    }
}

/// The combined list is the account's own apps as they are, and behind them,
/// in order, exactly the free ones whose id none of its own has.
pub proof fn free_apps_come_behind_the_own(
    owned: Seq<SteamAppView>,
    first: Seq<SteamAppView>,
    app: SteamAppView,
)
    ensures
        combined(owned, Seq::empty()) == owned,
        combined(owned, first + seq![app]) == if (exists|i: int|
            0 <= i < owned.len() && (#[trigger] owned[i]).app_id == app.app_id) {
            combined(owned, first)
        } else {
            combined(owned, first).push(app)
        },
{
    assert(combined(owned, Seq::empty()) =~= owned);
    assert((first + seq![app]).drop_last() =~= first);
    assert((first + seq![app]).last() == app);
    assert(has_app_id(owned, app.app_id) <==> exists|i: int|
        0 <= i < owned.len() && (#[trigger] owned[i]).app_id == app.app_id);
    if !has_app_id(owned, app.app_id) {
        assert(combined(owned, first + seq![app]) =~= combined(owned, first).push(app));
    }
}

/// The games to choose from and the DLC that count as owned are those among
/// the combined apps, by type.
pub proof fn games_and_dlc_are_told_apart(session: SessionView, app: SteamAppView, app_id: u64)
    ensures
        games_of(session).contains(app) <==> {
            &&& combined(session.owned_apps, session.free_apps).contains(app)
            &&& equal_ignoring_ascii_case(app.app_type, "game"@)
        },
        dlc_ids_of(session).contains(app_id) <==> exists|dlc: SteamAppView|
            {
                &&& #[trigger] combined(session.owned_apps, session.free_apps).contains(dlc)
                &&& equal_ignoring_ascii_case(dlc.app_type, "dlc"@)
                &&& dlc.app_id == app_id
            },
{
    let all = combined(session.owned_apps, session.free_apps);
    membership_by_type(all, app, "game"@);
    let dlc = apps_of_type(all, "dlc"@);
    let ids = app_ids(dlc);
    if dlc_ids_of(session).contains(app_id) {
        assert(ids.contains(app_id));
        let i = choose|i: int| 0 <= i < ids.len() && ids[i] == app_id;
        assert(dlc[i].app_id == app_id);
        assert(dlc.contains(dlc[i]));
        membership_by_type(all, dlc[i], "dlc"@);
        assert(all.contains(dlc[i]));
    }
    if exists|one: SteamAppView|
        {
            &&& #[trigger] all.contains(one)
            &&& equal_ignoring_ascii_case(one.app_type, "dlc"@)
            &&& one.app_id == app_id
        } {
        let one = choose|one: SteamAppView|
            {
                &&& #[trigger] all.contains(one)
                &&& equal_ignoring_ascii_case(one.app_type, "dlc"@)
                &&& one.app_id == app_id
            };
        membership_by_type(all, one, "dlc"@);
        let i = choose|i: int| 0 <= i < dlc.len() && dlc[i] == one;
        assert(ids[i] == app_id);
        assert(ids.contains(app_id));
    }
}

/// The app found for an id is the first one that has it, and none is found only
/// where none has it.
pub proof fn first_app_with_the_id_is_found(apps: Seq<SteamAppView>, app_id: u64)
    ensures
        find_app(apps, app_id) is None <==> forall|i: int|
            0 <= i < apps.len() ==> (#[trigger] apps[i]).app_id != app_id,
        find_app(apps, app_id) matches Some(app) ==> exists|at: int|
            {
                &&& 0 <= at < apps.len()
                &&& #[trigger] apps[at] == app
                &&& app.app_id == app_id
                &&& forall|i: int| 0 <= i < at ==> (#[trigger] apps[i]).app_id != app_id
            },
    decreases apps.len(),
{
    if apps.len() > 0 {
        let rest = apps.drop_first();
        assert(forall|i: int| 0 <= i < rest.len() ==> rest[i] == apps[i + 1]);
        first_app_with_the_id_is_found(rest, app_id);
        if apps[0].app_id == app_id {
            assert(apps[0] == find_app(apps, app_id).unwrap());
        } else {
            match find_app(rest, app_id) {
                None => {
                    assert forall|i: int| 0 <= i < apps.len() implies (#[trigger] apps[i]).app_id
                        != app_id by {
                        if i > 0 {
                            assert(rest[i - 1].app_id != app_id);
                        }
                    }
                },
                Some(app) => {
                    let at = choose|at: int|
                        {
                            &&& 0 <= at < rest.len()
                            &&& #[trigger] rest[at] == app
                            &&& app.app_id == app_id
                            &&& forall|i: int| 0 <= i < at ==> (#[trigger] rest[i]).app_id != app_id
                        };
                    assert(apps[at + 1] == app);
                    assert forall|i: int| 0 <= i < at + 1 implies (#[trigger] apps[i]).app_id
                        != app_id by {
                        if i > 0 {
                            assert(rest[i - 1].app_id != app_id);
                        }
                    }
                },
            }
        }
    }
}

/// Choosing a game looks up its DLC wherever there is a program to do it with,
/// and its branches only where they are not known yet; choosing none leaves no
/// game chosen; and an id that is no game's leaves the game that was chosen.
pub proof fn choosing_a_game(session: SessionView, app_id: u64)
    ensures
        ({
            let after = after_selection(session, Some(app_id));
            let found = find_app(games_of(session), app_id);
            &&& found is Some ==> {
                &&& after.selected_app == found
                &&& after.dlc_loading <==> session.depot_downloader_binary is Some
                &&& after.branches_loading <==> session.depot_downloader_binary is Some
                    && !session.config.branch_cache.contains_key(app_id)
            }
            &&& found is None ==> {
                &&& after.selected_app == session.selected_app
                &&& !after.dlc_loading
                &&& !after.branches_loading
            }
            &&& !after.dlc_available
        }),
        ({
            let none = after_selection(session, None);
            &&& none.selected_app is None
            &&& !none.dlc_available
            &&& !none.dlc_loading
            &&& !none.branches_loading
        }),
{
}

/// Choosing a game changes nothing but the choice and its lookups.
pub proof fn choosing_leaves_the_rest(session: SessionView, app_id: Option<u64>)
    ensures
        ({
            let after = after_selection(session, app_id);
            &&& after.config == session.config
            &&& after.login_mode == session.login_mode
            &&& after.add_to_steam_library == session.add_to_steam_library
            &&& after.depot_downloader_binary == session.depot_downloader_binary
            &&& after.run_state == session.run_state
            &&& after.pending_action == session.pending_action
            &&& after.owned_apps == session.owned_apps
            &&& after.free_apps == session.free_apps
            &&& after.download_queue == session.download_queue
            &&& after.download_queue_total == session.download_queue_total
            &&& after.queue_context == session.queue_context
            &&& after.can_respond == session.can_respond
            &&& after.can_cancel == session.can_cancel
            &&& after.pending_control == session.pending_control
            &&& after.last_request == session.last_request
            &&& after.retry_count == session.retry_count
            &&& after.library_manifest == session.library_manifest
            &&& after.steam_library_manifest_written == session.steam_library_manifest_written
        }),
{
}

/// The branches shown for a game are those known of it, and none for anything
/// else.
pub proof fn known_branches_are_shown(
    session: SessionView,
    app_id: u64,
    branches: Seq<BranchView>,
)
    ensures
        session.config.branch_cache.contains_key(app_id) && session.config.branch_cache[app_id]
            == branches ==> cached_branches(session, app_id) == branches,
        !session.config.branch_cache.contains_key(app_id) ==> cached_branches(session, app_id)
            == Seq::<BranchView>::empty(),
        find_app(games_of(session), app_id) is Some ==> branches_shown(session, Some(app_id))
            == cached_branches(session, app_id),
        find_app(games_of(session), app_id) is None ==> branches_shown(session, Some(app_id))
            == Seq::<BranchView>::empty(),
        branches_shown(session, None) == Seq::<BranchView>::empty(),
{
}

/// The dropdown has a row for each branch, in order, under the branch's name
/// and closed where it needs a password; and without branches the one row
/// `public`, open.
pub proof fn every_branch_has_its_row(branches: Seq<BranchView>, i: int)
    ensures
        branches.len() > 0 ==> branch_rows(branches).len() == branches.len(),
        0 <= i < branches.len() ==> {
            &&& branch_rows(branches)[i].name == branches[i].name
            &&& branch_rows(branches)[i].password_required == branches[i].password_required
        },
        branches.len() == 0 ==> {
            &&& branch_rows(branches).len() == 1
            &&& branch_rows(branches)[0].name == "public"@
            &&& !branch_rows(branches)[0].password_required
        },
{
}

/// The row selected is the first one named `public`, whatever the case of its
/// letters, and the first of all where none is.
pub proof fn public_is_selected(items: Seq<BranchItemView>, selected: int, i: int)
    requires
        is_default_index(items, selected),
        0 <= i < items.len(),
    ensures
        equal_ignoring_ascii_case(items[i].name, "public"@) ==> {
            &&& selected <= i
            &&& equal_ignoring_ascii_case(items[selected].name, "public"@)
        },
        !equal_ignoring_ascii_case(items[selected].name, "public"@) ==> selected == 0,
{
    if is_public(items[i]) && selected > i {
        assert(!is_public(items[i]));
    }
}

/// A DLC is listed under its own id, and under its own name wherever that is
/// known; otherwise under its id.
pub proof fn dlc_are_named(app_id: u64, names: Map<u64, String>)
    ensures
        dlc_row(app_id, names).app_id == app_id,
        names.contains_key(app_id) ==> dlc_row(app_id, names).name == names[app_id]@,
        !names.contains_key(app_id) ==> dlc_row(app_id, names).name == "DLC "@ + decimal(
            app_id as nat,
        ),
{
}

/// The DLC offered stand in the order of the store's list: those of two lists
/// one after the other are those of the one and then those of the other.
pub proof fn offered_dlc_keep_their_order(first: Seq<u64>, second: Seq<u64>, owned: Set<u64>)
    ensures
        owned_among(first + second, owned) == owned_among(first, owned) + owned_among(
            second,
            owned,
        ),
    decreases second.len(),
{
    if second.len() == 0 {
        assert(first + second =~= first);
    } else {
        offered_dlc_keep_their_order(first, second.drop_last(), owned);
        assert((first + second).drop_last() =~= first + second.drop_last());
    }
    assert(owned_among(first + second, owned) =~= owned_among(first, owned) + owned_among(
        second,
        owned,
    ));
}

/// The logos still missing are those of the ids that are not known, in order.
pub proof fn missing_ids_are_the_unknown_ones(
    first: Seq<u64>,
    second: Seq<u64>,
    id: u64,
    known: Set<u64>,
)
    ensures
        ids_not_in(first + second, known) == ids_not_in(first, known) + ids_not_in(second, known),
        known.contains(id) ==> ids_not_in(seq![id], known) == Seq::<u64>::empty(),
        !known.contains(id) ==> ids_not_in(seq![id], known) == seq![id],
    decreases second.len(),
{
    reveal_with_fuel(ids_not_in, 2);
    assert(seq![id].drop_last() =~= Seq::empty());
    assert(ids_not_in(seq![id].drop_last(), known) =~= Seq::empty());
    if !known.contains(id) {
        assert(ids_not_in(seq![id], known) =~= seq![id]);
    }
    if second.len() == 0 {
        assert(first + second =~= first);
    } else {
        missing_ids_are_the_unknown_ones(first, second.drop_last(), id, known);
        assert((first + second).drop_last() =~= first + second.drop_last());
    }
    assert(ids_not_in(first + second, known) =~= ids_not_in(first, known) + ids_not_in(
        second,
        known,
    ));
}

/// The place in the list of the `k`-th item of a worker's share: the worker's
/// own number and then every so many further on.
pub proof fn shares_are_dealt_in_turn(items: Seq<u64>, worker: int, workers: int, k: int)
    requires
        0 <= worker < workers,
        0 <= k,
    ensures
        worker + k * workers < items.len() <==> k < worker_share(items, worker, workers).len(),
        k < worker_share(items, worker, workers).len() ==> worker_share(
            items,
            worker,
            workers,
        )[k] == items[worker + k * workers],
    decreases items.len(),
{
    let share = worker_share(items, worker, workers);
    assert(k * workers >= 0) by (nonlinear_arith)
        requires
            k >= 0,
            workers > 0,
    ;
    if items.len() > 0 {
        let rest = items.drop_last();
        let before = worker_share(rest, worker, workers);
        shares_are_dealt_in_turn(rest, worker, workers, k);
        let last = items.len() - 1;
        if last % workers == worker {
            let q = last / workers;
            vstd::arithmetic::div_mod::lemma_fundamental_div_mod(last, workers);
            assert(workers * q == q * workers) by (nonlinear_arith);
            assert(last == worker + q * workers);
            vstd::arithmetic::div_mod::lemma_div_pos_is_pos(last, workers);
            shares_are_dealt_in_turn(rest, worker, workers, q);
            assert(!(q < before.len()));
            if q > 0 {
                shares_are_dealt_in_turn(rest, worker, workers, q - 1);
                assert((q - 1) * workers == q * workers - workers) by (nonlinear_arith);
            }
            assert(before.len() == q);
            if k > q {
                assert(k * workers > q * workers) by (nonlinear_arith)
                    requires
                        k > q,
                        workers > 0,
                ;
            }
            if k < q {
                assert(share[k] == before[k]);
                assert(rest[worker + k * workers] == items[worker + k * workers]);
            }
        } else {
            if worker + k * workers == last {
                vstd::arithmetic::div_mod::lemma_mod_multiples_vanish(k, worker, workers);
                assert(workers * k + worker == last) by (nonlinear_arith)
                    requires
                        worker + k * workers == last,
                ;
                vstd::arithmetic::div_mod::lemma_small_mod(worker as nat, workers as nat);
            }
            if k < share.len() {
                assert(rest[worker + k * workers] == items[worker + k * workers]);
            }
        }
    }
}

/// A row is found by every part of its name and by every part of its id that
/// is something at all, and by nothing else.
pub proof fn rows_are_found_by_their_parts(
    lower_name: Seq<char>,
    app_id: u64,
    query: Seq<char>,
    lower_query: Seq<char>,
    from: int,
    to: int,
)
    ensures
        0 <= from <= to <= lower_name.len() && lower_query == lower_name.subrange(from, to)
            ==> found_by(lower_name, app_id, query, lower_query),
        0 <= from < to <= decimal(app_id as nat).len() && query == decimal(
            app_id as nat,
        ).subrange(from, to) ==> found_by(lower_name, app_id, query, lower_query),
        found_by(lower_name, app_id, query, lower_query) ==> {
            ||| exists|at: int|
                {
                    &&& 0 <= at <= lower_name.len() - lower_query.len()
                    &&& #[trigger] lower_name.subrange(at, at + lower_query.len()) == lower_query
                }
            ||| query.len() > 0 && exists|at: int|
                {
                    &&& 0 <= at <= decimal(app_id as nat).len() - query.len()
                    &&& #[trigger] decimal(app_id as nat).subrange(at, at + query.len()) == query
                }
        },
{
    if 0 <= from <= to <= lower_name.len() && lower_query == lower_name.subrange(from, to) {
        parts_are_contained(lower_name, from, to);
    }
    let id = decimal(app_id as nat);
    if 0 <= from < to <= id.len() && query == id.subrange(from, to) {
        parts_are_contained(id, from, to);
    }
    if contains_text(lower_name, lower_query) {
        let at = choose|at: int| occurs_at(lower_name, lower_query, at);
        assert(lower_name.subrange(at, at + lower_query.len()) == lower_query);
    }
    if contains_text(id, query) {
        let at = choose|at: int| occurs_at(id, query, at);
        assert(id.subrange(at, at + query.len()) == query);
    }
}

/// White space around what was typed does not matter.
pub proof fn white_space_does_not_matter_to_a_search(
    name: Seq<char>,
    app_id: u64,
    typed: Seq<char>,
    other: Seq<char>,
)
    requires
        trimmed(typed) == trimmed(other),
    ensures
        row_matches(name, app_id, typed) == row_matches(name, app_id, other),
{
}

/// The form shows a choice of DLC only for a chosen game whose DLC are there,
/// and that they are looked up only while they are; the branches of a chosen
/// game always; and the button says what the session is doing.
pub proof fn form_shows_the_choice(session: SessionView)
    ensures
        dlc_row_of(session) == DlcRow::Loading <==> session.selected_app is Some
            && session.dlc_loading,
        dlc_row_of(session) == DlcRow::Choice <==> session.selected_app is Some
            && !session.dlc_loading && session.dlc_available,
        branch_row_of(session) == BranchRow::Hidden <==> session.selected_app is None,
        session.selected_app is Some ==> branch_row_of(session) == (BranchRow::Choice {
            loading: session.branches_loading,
        }),
        session.run_state is Paused ==> download_label(session) == "Paused"@,
        session.run_state is Idle || session.run_state is Finished || session.run_state is Failed
            ==> download_label(session) == "Download"@,
        session.run_state is Running || session.run_state is LookingUpApp
            || session.run_state is Reconnecting || session.run_state is ShowingQrCode
            || session.run_state is AwaitingSteamGuardCode
            || session.run_state is AwaitingSteamGuardConfirmation
            || session.run_state is FetchingLibrary || session.run_state is PreparingDepotDownloader
            ==> download_label(session) == "Working…"@,
{
}

/// The DLC of a game can be chosen exactly where some were found, and the
/// branches found are known from then on for their own app alone; a listing
/// that failed leaves what was known. Neither changes anything else.
pub proof fn lookups_are_taken(
    session: SessionView,
    count: nat,
    app_id: u64,
    listed: Seq<BranchView>,
    other: u64,
)
    ensures
        ({
            let after = after_dlc_lookup(session, count);
            &&& after.dlc_available <==> count > 0
            &&& !after.dlc_loading
            &&& after.selected_app == session.selected_app
            &&& after.branches_loading == session.branches_loading
            &&& after.config == session.config
            &&& after.run_state == session.run_state
        }),
        ({
            let after = after_branch_lookup(session, app_id, Some(listed));
            let failed = after_branch_lookup(session, app_id, None);
            &&& !after.branches_loading
            &&& cached_branches(after, app_id) == listed
            &&& after.config.branch_cache.contains_key(app_id)
            &&& other != app_id ==> cached_branches(after, other) == cached_branches(session, other)
            &&& after.config.logged_in_username == session.config.logged_in_username
            &&& after.config.last_app_id == session.config.last_app_id
            &&& after.selected_app == session.selected_app
            &&& after.dlc_loading == session.dlc_loading
            &&& after.dlc_available == session.dlc_available
            &&& after.run_state == session.run_state
            &&& !failed.branches_loading
            &&& failed.config == session.config
            &&& failed.selected_app == session.selected_app
        }),
{
}

/// Once the program is there the apps of a remembered account are listed, and
/// without one the session waits; a program that could not be set up is told
/// with its reason. What is remembered and chosen stays.
pub proof fn provisioning_is_taken(session: SessionView, text: Seq<char>)
    ensures
        ({
            let ready = after_provisioning(session, Ok(text));
            let failed = after_provisioning(session, Err(text));
            &&& ready.depot_downloader_binary == Some(text)
            &&& session.config.logged_in_username is Some ==> {
                &&& ready.run_state is FetchingLibrary
                &&& ready.can_respond
                &&& !ready.can_cancel
                &&& ready.pending_control is None
                &&& ready.pending_action == PendingAction::FetchLibrary
            }
            &&& session.config.logged_in_username is None ==> {
                &&& ready.run_state is Idle
                &&& ready.can_respond == session.can_respond
                &&& ready.can_cancel == session.can_cancel
            }
            &&& ready.config == session.config
            &&& ready.owned_apps == session.owned_apps
            &&& ready.selected_app == session.selected_app
            &&& failed.run_state is Failed
            &&& ends_with(failed.run_state->Failed_0, text)
            &&& failed.depot_downloader_binary == session.depot_downloader_binary
            &&& failed.config == session.config
        }),
{
    let message = after_provisioning(session, Err(text)).run_state->Failed_0;
    let at = message.len() - text.len();
    assert(message.subrange(at, at + text.len()) =~= text);
}

/// Listing the apps of an account lets prompts be answered but nothing be
/// cancelled, and keeps what is known; the free apps take the place of those
/// known, and the account's own stay.
pub proof fn listing_keeps_what_is_known(session: SessionView, apps: Seq<SteamAppView>)
    ensures
        ({
            let fetching = session.fetching_library();
            &&& fetching.run_state is FetchingLibrary
            &&& fetching.pending_action == PendingAction::FetchLibrary
            &&& fetching.can_respond
            &&& !fetching.can_cancel
            &&& fetching.pending_control is None
            &&& fetching.config == session.config
            &&& fetching.owned_apps == session.owned_apps
            &&& fetching.free_apps == session.free_apps
            &&& fetching.selected_app == session.selected_app
            &&& fetching.download_queue == session.download_queue
            &&& fetching.queue_context == session.queue_context
            &&& fetching.depot_downloader_binary == session.depot_downloader_binary
            &&& fetching.last_request == session.last_request
            &&& fetching.retry_count == session.retry_count
        }),
        with_free_apps(session, apps).free_apps == apps,
        with_free_apps(session, apps).owned_apps == session.owned_apps,
        with_free_apps(session, apps).run_state == session.run_state,
        with_free_apps(session, apps).config == session.config,
        with_free_apps(session, apps).selected_app == session.selected_app,
{
}

/// A search goes by lower case: names that are the same in it are found alike,
/// and so are they by two queries without digits in common with the id that are
/// the same in it. A row is found by whatever is, in lower case, a part of its
/// name, and by any part of its id.
pub proof fn searches_go_by_lower_case(
    name: Seq<char>,
    other: Seq<char>,
    app_id: u64,
    typed: Seq<char>,
    from: int,
    to: int,
)
    ensures
        lower_case(name) == lower_case(other) ==> row_matches(name, app_id, typed) == row_matches(
            other,
            app_id,
            typed,
        ),
        0 <= from <= to <= lower_case(name).len() && lower_case(trimmed(typed)) == lower_case(
            name,
        ).subrange(from, to) ==> row_matches(name, app_id, typed),
        0 <= from < to <= decimal(app_id as nat).len() && trimmed(typed) == decimal(
            app_id as nat,
        ).subrange(from, to) ==> row_matches(name, app_id, typed),
        !contains_text(lower_case(name), lower_case(trimmed(typed))) && !contains_text(
            decimal(app_id as nat),
            trimmed(typed),
        ) ==> !row_matches(name, app_id, typed),
{
    rows_are_found_by_their_parts(
        lower_case(name),
        app_id,
        trimmed(typed),
        lower_case(trimmed(typed)),
        from,
        to,
    );
}

/// Of ASCII names and queries that means: a part of the name finds the row
/// whatever the case of its letters, and nothing typed finds every row.
pub proof fn ascii_searches_ignore_case(
    name: Seq<char>,
    app_id: u64,
    typed: Seq<char>,
    from: int,
    to: int,
    found: bool,
)
    requires
        ascii_match(name, app_id, typed, found),
    ensures
        trimmed(typed).len() == 0 ==> found,
        is_ascii_text(name) && is_ascii_text(trimmed(typed)) && 0 <= from <= to <= name.len()
            && equal_ignoring_ascii_case(trimmed(typed), name.subrange(from, to)) ==> found,
        is_ascii_text(name) && is_ascii_text(trimmed(typed)) && trimmed(typed).len() > name.len()
            && !contains_text(decimal(app_id as nat), trimmed(typed)) ==> !found,
{
    let query = trimmed(typed);
    if is_ascii_text(name) && is_ascii_text(query) {
        let lower = ascii_lowered(name);
        let wanted = ascii_lowered(query);
        if 0 <= from <= to <= name.len() && equal_ignoring_ascii_case(
            query,
            name.subrange(from, to),
        ) {
            assert(wanted =~= lower.subrange(from, to)) by {
                assert forall|i: int| 0 <= i < wanted.len() implies wanted[i] == lower.subrange(
                    from,
                    to,
                )[i] by {
                    assert(ascii_lower(query[i]) == ascii_lower(name.subrange(from, to)[i]));
                }
            }
            rows_are_found_by_their_parts(lower, app_id, query, wanted, from, to);
        }
        if query.len() > name.len() {
            assert(!contains_text(lower, wanted));
        }
    }
}

/// A download is awaited wherever none is going on or was paused: before the
/// program is there, at rest, after the end and after a failure.
pub proof fn downloads_are_awaited(session: SessionView)
    ensures
        session.awaits_start() <==> session.run_state is PreparingDepotDownloader
            || session.run_state is Idle || session.run_state is Finished
            || session.run_state is Failed,
        session.awaits_start() && session.busy() <==> session.run_state is PreparingDepotDownloader,
{
}

} // verus!
