//! The rows of the game, DLC and branch dropdowns.

use vstd::prelude::*;

use std::collections::HashMap;
use std::collections::HashSet;

use crate::decimal::{decimal, push_decimal, to_decimal};
use crate::depot_downloader::event::{branch_views, BranchInfo, BranchView, SteamApp};
use crate::text::{
    ascii_lower, contains, contains_text, eq_ignore_ascii_case, equal_ignoring_ascii_case, occurs_at,
    trim, trimmed,
};

verus! {

/// How many logos are fetched at a time.
pub const LOGO_WORKERS: usize = 16;

/// How many DLC names are resolved at a time.
pub const NAME_WORKERS: usize = 12;

/// A text in lower case, as `str::to_lowercase` writes it.
pub uninterp spec fn lower_case(text: Seq<char>) -> Seq<char>;

/// Every character is an ASCII character.
pub open spec fn is_ascii_text(text: Seq<char>) -> bool {
    forall|i: int| 0 <= i < text.len() ==> (#[trigger] text[i] as u32) < 128
}

/// `str::to_lowercase` writes a text in lower case by Unicode's rules; of an
/// ASCII text it lowers the letters `A` to `Z` and keeps the rest.
#[verifier::external_body]
fn to_lowercase(text: &str) -> (lower: String)
    ensures
        lower@ == lower_case(text@),
        is_ascii_text(text@) ==> lower@ == ascii_lowered(text@),
{
    text.to_lowercase()
}

/// A row with the given name and app id is found by a query, given name and
/// query in lower case: by a part of the name, or by a part of the app id.
pub open spec fn found_by(
    lower_name: Seq<char>,
    app_id: u64,
    query: Seq<char>,
    lower_query: Seq<char>,
) -> bool {
    contains_text(lower_name, lower_query) || (query.len() > 0 && contains_text(
        decimal(app_id as nat),
        query,
    ))
}

/// A row with the given name and app id is found by what was typed.
pub open spec fn row_matches(name: Seq<char>, app_id: u64, typed: Seq<char>) -> bool {
    let query = trimmed(typed);
    found_by(lower_case(name), app_id, query, lower_case(query))
}

/// An ASCII text in lower case.
pub open spec fn ascii_lowered(text: Seq<char>) -> Seq<char> {
    text.map_values(|c: char| ascii_lower(c))
}

/// What was typed finds a row by ASCII letters: whatever their case, and every
/// row where nothing was typed.
pub open spec fn ascii_match(name: Seq<char>, app_id: u64, typed: Seq<char>, yes: bool) -> bool {
    let query = trimmed(typed);
    &&& query.len() == 0 ==> yes
    &&& is_ascii_text(name) && is_ascii_text(query) ==> yes == found_by(
        ascii_lowered(name),
        app_id,
        query,
        ascii_lowered(query),
    )
}

/// Whether a query finds a row, given name and query in lower case.
pub fn lowered_matches(lower_name: &str, app_id: u64, query: &str, lower_query: &str) -> (yes: bool)
    ensures
        yes == found_by(lower_name@, app_id, query@, lower_query@),
{
    if contains(lower_name, lower_query) {
        return true;
    }
    if query.is_empty() {
        return false;
    }
    let id = to_decimal(app_id);
    contains(id.as_str(), query)
}

/// Whether what was typed finds a row with the given name and app id.
fn name_or_id_matches(name: &str, app_id: u64, typed: &str) -> (yes: bool)
    ensures
        yes == row_matches(name@, app_id, typed@),
        ascii_match(name@, app_id, typed@, yes),
{
    let query = trim(typed);
    let lower_name = to_lowercase(name);
    let lower_query = to_lowercase(query.as_str());
    proof {
        if query@.len() == 0 {
            assert(lower_query@ =~= Seq::empty());
            assert(lower_name@.subrange(0, 0) =~= lower_query@);
            assert(occurs_at(lower_name@, lower_query@, 0));
        }
    }
    lowered_matches(lower_name.as_str(), app_id, query.as_str(), lower_query.as_str())
}

/// One row of the game dropdown: an owned or free app, with its logo once it
/// is there.
#[derive(Debug)]
pub struct GameItem<L> {
    pub app: SteamApp,
    pub logo: Option<L>,
}

impl<L> GameItem<L> {
    /// The row's title is the app's name.
    pub fn title(&self) -> (title: &str)
        ensures
            title@ == self.app@.name,
    {
        self.app.name.as_str()
    }

    /// The row stands for the app's id.
    pub fn value(&self) -> (value: u64)
        ensures
            value == self.app@.app_id,
    {
        self.app.app_id
    }

    /// Whether what was typed finds the row, by its name or the raw app id.
    pub fn matches(&self, query: &str) -> (yes: bool)
        ensures
            yes == row_matches(self.app@.name, self.app@.app_id, query@),
            ascii_match(self.app@.name, self.app@.app_id, query@, yes),
    {
        name_or_id_matches(self.app.name.as_str(), self.app.app_id, query)
    }
}

/// One row of the DLC list: just a name and an id.
#[derive(Debug)]
pub struct DlcItem {
    pub app_id: u64,
    pub name: String,
}

/// A row of the DLC list with its text as a sequence of characters.
pub struct DlcView {
    pub app_id: u64,
    pub name: Seq<char>,
}

impl View for DlcItem {
    type V = DlcView;

    open spec fn view(&self) -> DlcView {
        DlcView { app_id: self.app_id, name: self.name@ }
    }
}

/// The rows with their texts as sequences of characters.
pub open spec fn dlc_views(items: Seq<DlcItem>) -> Seq<DlcView> {
    items.map_values(|item: DlcItem| item@)
}

impl DlcItem {
    /// The row's title is the DLC's name.
    pub fn title(&self) -> (title: &str)
        ensures
            title@ == self@.name,
    {
        self.name.as_str()
    }

    /// The row stands for the DLC's app id.
    pub fn value(&self) -> (value: u64)
        ensures
            value == self@.app_id,
    {
        self.app_id
    }

    /// Whether what was typed finds the row, by its name or the raw app id.
    pub fn matches(&self, query: &str) -> (yes: bool)
        ensures
            yes == row_matches(self@.name, self@.app_id, query@),
            ascii_match(self@.name, self@.app_id, query@, yes),
    {
        name_or_id_matches(self.name.as_str(), self.app_id, query)
    }
}

/// One row of the branch dropdown. Password-protected branches are shown
/// disabled: there is no field to enter a branch password in.
#[derive(Debug)]
pub struct BranchItem {
    pub name: String,
    pub password_required: bool,
}

/// A row of the branch dropdown with its text as a sequence of characters.
pub struct BranchItemView {
    pub name: Seq<char>,
    pub password_required: bool,
}

impl View for BranchItem {
    type V = BranchItemView;

    open spec fn view(&self) -> BranchItemView {
        BranchItemView { name: self.name@, password_required: self.password_required }
    }
}

/// The rows with their texts as sequences of characters.
pub open spec fn branch_item_views(items: Seq<BranchItem>) -> Seq<BranchItemView> {
    items.map_values(|item: BranchItem| item@)
}

impl BranchItem {
    /// The row of a branch.
    pub fn from_branch(branch: BranchInfo) -> (item: BranchItem)
        ensures
            item@ == row_of(branch@),
    {
        BranchItem { name: branch.name, password_required: branch.password_required }
    }

    /// The row's title is the branch's name.
    pub fn title(&self) -> (title: &str)
        ensures
            title@ == self@.name,
    {
        self.name.as_str()
    }

    /// A branch that needs a password cannot be chosen.
    pub fn disabled(&self) -> (yes: bool)
        ensures
            yes == self@.password_required,
    {
        self.password_required
    }
}

/// The row of a branch.
pub open spec fn row_of(branch: BranchView) -> BranchItemView {
    BranchItemView { name: branch.name, password_required: branch.password_required }
}

/// The row is that of the branch that DepotDownloader downloads by default.
pub open spec fn is_public(item: BranchItemView) -> bool {
    equal_ignoring_ascii_case(item.name, "public"@)
}

/// `index` is that of the first row named `public`, or 0 where there is none.
pub open spec fn is_default_index(items: Seq<BranchItemView>, index: int) -> bool {
    ||| {
        &&& 0 <= index < items.len()
        &&& is_public(items[index])
        &&& forall|i: int| 0 <= i < index ==> !is_public(#[trigger] items[i])
    }
    ||| {
        &&& index == 0
        &&& forall|i: int| 0 <= i < items.len() ==> !is_public(#[trigger] items[i])
    }
}

/// The index of the row named `public`, whatever the case of its letters, or 0
/// when there is no such row.
pub fn default_branch_index(branches: &Vec<BranchItem>) -> (index: usize)
    ensures
        is_default_index(branch_item_views(branches@), index as int),
{
    let mut i: usize = 0;
    let ghost items = branch_item_views(branches@);
    while i < branches.len()
        invariant
            i <= branches@.len(),
            items == branch_item_views(branches@),
            forall|j: int| 0 <= j < i ==> !is_public(#[trigger] items[j]),
        decreases branches@.len() - i,
    {
        assert(items[i as int] == branches@[i as int]@);
        if eq_ignore_ascii_case(branches[i].name.as_str(), "public") {
            return i;
        }
        i = i + 1;
    }
    0
}

/// The rows of the branch dropdown: those of the branches, or a single
/// `public` one where there are none.
pub open spec fn branch_rows(branches: Seq<BranchView>) -> Seq<BranchItemView> {
    if branches.len() == 0 {
        seq![BranchItemView { name: "public"@, password_required: false }]
    } else {
        branches.map_values(|branch: BranchView| row_of(branch))
    }
}

/// The rows of the branch dropdown and the one that is selected.
pub struct BranchChoice {
    pub items: Vec<BranchItem>,
    pub selected: usize,
}

/// The rows of the branch dropdown, with the one named `public` selected. No
/// branches (no game selected yet, or they could not be listed) give a single
/// `public` row rather than an empty dropdown.
pub fn branch_items(branches: Vec<BranchInfo>) -> (choice: BranchChoice)
    ensures
        branch_item_views(choice.items@) == branch_rows(branch_views(branches@)),
        is_default_index(branch_rows(branch_views(branches@)), choice.selected as int),
{
    let mut items: Vec<BranchItem> = Vec::new();
    let ghost listed = branch_views(branches@);
    let ghost rows = listed.map_values(|branch: BranchView| row_of(branch));
    let mut i: usize = 0;
    while i < branches.len()
        invariant
            i <= branches@.len(),
            listed == branch_views(branches@),
            rows == listed.map_values(|branch: BranchView| row_of(branch)),
            branch_item_views(items@) == rows.take(i as int),
        decreases branches@.len() - i,
    {
        let ghost before = items@;
        items.push(BranchItem::from_branch(branches[i].clone()));
        i = i + 1;
        assert(branch_item_views(items@) =~= branch_item_views(before).push(rows[i - 1]));
        assert(rows.take(i as int) =~= rows.take(i - 1).push(rows[i - 1]));
    }
    assert(rows.take(i as int) =~= rows);
    assert(branch_item_views(items@).len() == items@.len());
    if items.len() == 0 {
        items.push(BranchItem { name: "public".to_owned(), password_required: false });
    }
    assert(branch_item_views(items@) =~= branch_rows(listed));
    let selected = default_branch_index(&items);
    BranchChoice { items, selected }
}

/// The DLC among `dlc` that are owned, in order.
pub open spec fn owned_among(dlc: Seq<u64>, owned: Set<u64>) -> Seq<u64>
    decreases dlc.len(),
{
    if dlc.len() == 0 {
        Seq::empty()
    } else if owned.contains(dlc.last()) {
        owned_among(dlc.drop_last(), owned).push(dlc.last())
    } else {
        owned_among(dlc.drop_last(), owned)
    }
}

/// The DLC that can be downloaded: the store lists every DLC of a game,
/// purchased or not, and only the owned ones are kept.
pub fn downloadable_dlc(dlc: &Vec<u64>, owned: &HashSet<u64>) -> (kept: Vec<u64>)
    ensures
        kept@ == owned_among(dlc@, owned@),
{
    broadcast use vstd::std_specs::hash::group_hash_axioms;

    let mut kept: Vec<u64> = Vec::new();
    let mut i: usize = 0;
    while i < dlc.len()
        invariant
            i <= dlc@.len(),
            kept@ == owned_among(dlc@.take(i as int), owned@),
        decreases dlc@.len() - i,
    {
        assert(dlc@.take(i + 1).drop_last() =~= dlc@.take(i as int));
        let app_id = dlc[i];
        if owned.contains(&app_id) {
            kept.push(app_id);
        }
        i = i + 1;
    }
    assert(dlc@.take(i as int) =~= dlc@);
    kept
}

/// The row of a DLC: its resolved name, or `DLC` and its id.
pub open spec fn dlc_row(app_id: u64, names: Map<u64, String>) -> DlcView {
    DlcView {
        app_id,
        name: if names.contains_key(app_id) {
            names[app_id]@
        } else {
            "DLC "@ + decimal(app_id as nat)
        },
    }
}

/// The rows of the DLC list.
pub fn dlc_items(dlc: &Vec<u64>, names: &HashMap<u64, String>) -> (items: Vec<DlcItem>)
    ensures
        dlc_views(items@) == dlc@.map_values(|app_id: u64| dlc_row(app_id, names@)),
{
    broadcast use vstd::std_specs::hash::group_hash_axioms;

    let mut items: Vec<DlcItem> = Vec::new();
    let ghost rows = dlc@.map_values(|app_id: u64| dlc_row(app_id, names@));
    let mut i: usize = 0;
    while i < dlc.len()
        invariant
            i <= dlc@.len(),
            rows == dlc@.map_values(|app_id: u64| dlc_row(app_id, names@)),
            dlc_views(items@) == rows.take(i as int),
        decreases dlc@.len() - i,
    {
        let app_id = dlc[i];
        let name = match names.get(&app_id) {
            Some(name) => name.clone(),
            None => {
                let mut name = "DLC ".to_owned();
                push_decimal(&mut name, app_id);
                name
            },
        };
        let ghost before = items@;
        items.push(DlcItem { app_id, name });
        i = i + 1;
        assert(dlc_views(items@) =~= dlc_views(before).push(rows[i - 1]));
        assert(rows.take(i as int) =~= rows.take(i - 1).push(rows[i - 1]));
    }
    assert(rows.take(i as int) =~= rows);
    items
}

/// The items that a worker gets: every `workers`-th from its own number on.
pub open spec fn worker_share(items: Seq<u64>, worker: int, workers: int) -> Seq<u64>
    decreases items.len(),
{
    if items.len() == 0 {
        Seq::empty()
    } else if (items.len() - 1) % workers == worker {
        worker_share(items.drop_last(), worker, workers).push(items.last())
    } else {
        worker_share(items.drop_last(), worker, workers)
    }
}

/// The app ids that a worker fetches logos for. They are dealt out in turn, so
/// that the front of the list, which is shown first, is served by every worker
/// at once instead of waiting behind one worker's whole share.
pub fn share_of_worker(app_ids: &Vec<u64>, worker: usize) -> (share: Vec<u64>)
    requires
        worker < LOGO_WORKERS,
    ensures
        share@ == worker_share(app_ids@, worker as int, LOGO_WORKERS as int),
{
    let mut share: Vec<u64> = Vec::new();
    let mut i: usize = 0;
    while i < app_ids.len()
        invariant
            i <= app_ids@.len(),
            share@ == worker_share(app_ids@.take(i as int), worker as int, LOGO_WORKERS as int),
        decreases app_ids@.len() - i,
    {
        assert(app_ids@.take(i + 1).drop_last() =~= app_ids@.take(i as int));
        if i % LOGO_WORKERS == worker {
            share.push(app_ids[i]);
        }
        i = i + 1;
    }
    assert(app_ids@.take(i as int) =~= app_ids@);
    share
}

/// How many app ids one worker resolves the names of: the list is cut into
/// chunks of this size, one for each worker.
pub fn name_chunk_size(count: usize) -> (size: usize)
    ensures
        size >= 1,
        size * NAME_WORKERS >= count,
        size > 1 ==> (size - 1) * NAME_WORKERS < count,
{
    let whole = count / NAME_WORKERS;
    let size = if count % NAME_WORKERS > 0 {
        whole + 1
    } else {
        whole
    };
    if size == 0 {
        1
    } else {
        size
    }
}

/// Every app id is in the share of the worker whose turn it is, and the share
/// of a worker holds nothing but items of the list.
pub proof fn every_item_has_its_worker(items: Seq<u64>, at: int, workers: int)
    requires
        0 <= at < items.len(),
        workers > 0,
    ensures
        worker_share(items, at % workers, workers).contains(items[at]),
    decreases items.len(),
{
    let rest = items.drop_last();
    let share = worker_share(items, at % workers, workers);
    if at == items.len() - 1 {
        assert(share.last() == items[at]);
        assert(share[share.len() - 1] == items[at]);
    } else {
        every_item_has_its_worker(rest, at, workers);
        let before = worker_share(rest, at % workers, workers);
        let i = choose|i: int| 0 <= i < before.len() && before[i] == items[at];
        assert(share[i] == items[at]);
    }
}

/// The shares of all workers together are as long as the list: nothing is
/// fetched twice and nothing is left out.
pub proof fn shares_add_up(items: Seq<u64>, workers: int)
    requires
        workers > 0,
    ensures
        total_of_shares(items, workers, workers) == items.len(),
    decreases items.len(),
{
    if items.len() == 0 {
        assert(items =~= Seq::empty());
        empty_shares(workers, workers);
    } else {
        shares_add_up(items.drop_last(), workers);
        vstd::arithmetic::div_mod::lemma_mod_bound(items.len() - 1, workers);
        one_share_grows(items, workers, workers);
    }
}

/// How many items the first `count` workers get together.
pub open spec fn total_of_shares(items: Seq<u64>, workers: int, count: int) -> int
    decreases count,
{
    if count <= 0 {
        0
    } else {
        total_of_shares(items, workers, count - 1) + worker_share(items, count - 1, workers).len()
    }
}

/// Of no items nobody gets any.
proof fn empty_shares(workers: int, count: int)
    ensures
        total_of_shares(Seq::empty(), workers, count) == 0,
    decreases count,
{
    if count > 0 {
        empty_shares(workers, count - 1);
    }
}

/// One item more is one item more for the one worker whose turn it is.
proof fn one_share_grows(items: Seq<u64>, workers: int, count: int)
    requires
        workers > 0,
        items.len() > 0,
        0 <= (items.len() - 1) % workers,
    ensures
        total_of_shares(items, workers, count) == total_of_shares(
            items.drop_last(),
            workers,
            count,
        ) + if (items.len() - 1) % workers < count {
            1int
        } else {
            0
        },
    decreases count,
{
    if count > 0 {
        one_share_grows(items, workers, count - 1);
    }
}

/// The dropdown always has a row to select, and without a `public` row the
/// first one is selected.
pub proof fn a_branch_is_always_selected(branches: Seq<BranchView>, selected: int)
    requires
        is_default_index(branch_rows(branches), selected),
    ensures
        0 <= selected < branch_rows(branches).len(),
        is_public(branch_rows(branches)[selected]) || selected == 0,
        branches.len() == 0 ==> branch_rows(branches)[selected].name == "public"@,
{
    if branches.len() == 0 {
        assert(branch_rows(branches).len() == 1);
        assert(branch_rows(branches)[0].name == "public"@);
    }
}

/// A DLC is offered exactly where the store lists it and it is owned.
pub proof fn only_owned_dlc_are_offered(dlc: Seq<u64>, owned: Set<u64>, app_id: u64)
    ensures
        owned_among(dlc, owned).contains(app_id) <==> dlc.contains(app_id) && owned.contains(app_id),
    decreases dlc.len(),
{
    let kept = owned_among(dlc, owned);
    if dlc.len() > 0 {
        let rest = dlc.drop_last();
        only_owned_dlc_are_offered(rest, owned, app_id);
        let before = owned_among(rest, owned);
        if dlc.contains(app_id) {
            let at = choose|at: int| 0 <= at < dlc.len() && dlc[at] == app_id;
            if at < rest.len() {
                assert(rest[at] == app_id);
            }
        }
        if rest.contains(app_id) {
            let at = choose|at: int| 0 <= at < rest.len() && rest[at] == app_id;
            assert(dlc[at] == app_id);
        }
        if owned.contains(dlc.last()) {
            assert(kept[kept.len() - 1] == dlc.last());
            assert(dlc[dlc.len() - 1] == dlc.last());
            if before.contains(app_id) {
                let at = choose|at: int| 0 <= at < before.len() && before[at] == app_id;
                assert(kept[at] == app_id);
            }
            if kept.contains(app_id) {
                let at = choose|at: int| 0 <= at < kept.len() && kept[at] == app_id;
                if at < before.len() {
                    assert(before[at] == app_id);
                }
            }
        }
    }
}

} // verus!
