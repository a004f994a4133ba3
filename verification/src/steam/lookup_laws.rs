//! What is read out of what Steam's services answer.

use vstd::prelude::*;

use super::app_id::{app_id_in, digits_only, first_occurrence, is_first_occurrence};
use super::app_info::{
    app_info_of, info_address, looked_up, manifests_of, told_manifest, told_manifests,
    ManifestView,
};
use super::app_manifest::file_name_of;
use super::dlc::{details_address, integers, listed_dlc, listed_name};
use super::library_path::first_existing;
use super::logo::logo_address;
use crate::decimal::{decimal, decimal_is_injective, number};
use crate::json::{entry, parsed_json, JsonView};
use crate::paths::is_plain_name;
use crate::text::{all_digits, contains_text, ends_with, is_digit, occurs_at, trimmed};
use crate::text_laws::leading_digits_are_the_longest;

verus! {

/// The entry at `at` is the first one with its key.
pub open spec fn is_first_entry(entries: Seq<(Seq<char>, JsonView)>, key: Seq<char>, at: int) -> bool {
    &&& 0 <= at < entries.len()
    &&& entries[at].0 == key
    &&& forall|i: int| 0 <= i < at ==> (#[trigger] entries[i]).0 != key
}

/// A value holds `leaf` behind a row of keys: each key is that of an entry, the
/// first one with it, and the entry's value holds `leaf` behind the others.
pub open spec fn holds_behind(value: JsonView, keys: Seq<Seq<char>>, leaf: JsonView) -> bool
    decreases keys.len(),
{
    if keys.len() == 0 {
        value == leaf
    } else {
        value matches JsonView::Object(entries) && exists|at: int|
            #![trigger entries[at]]
            is_first_entry(entries, keys[0], at) && holds_behind(
                entries[at].1,
                keys.drop_first(),
                leaf,
            )
    }
}

/// A value asked for one key after the other.
spec fn followed(value: JsonView, keys: Seq<Seq<char>>) -> JsonView
    decreases keys.len(),
{
    if keys.len() == 0 {
        value
    } else {
        followed(value.at(keys[0]), keys.drop_first())
    }
}

/// The value of a key is that of the first entry with it, and null where there
/// is none.
pub proof fn first_entry_counts(entries: Seq<(Seq<char>, JsonView)>, key: Seq<char>)
    ensures
        forall|at: int| #[trigger]
            is_first_entry(entries, key, at) ==> entry(entries, key) == entries[at].1,
        (forall|i: int| 0 <= i < entries.len() ==> (#[trigger] entries[i]).0 != key) ==> entry(
            entries,
            key,
        ) is Null,
        (exists|i: int| 0 <= i < entries.len() && (#[trigger] entries[i]).0 == key) ==> exists|
            at: int,
        | #[trigger] is_first_entry(entries, key, at),
    decreases entries.len(),
{
    if entries.len() > 0 {
        let rest = entries.drop_first();
        assert(forall|i: int| 0 <= i < rest.len() ==> rest[i] == entries[i + 1]);
        first_entry_counts(rest, key);
        if entries[0].0 == key {
            assert(is_first_entry(entries, key, 0));
            assert forall|at: int| #[trigger] is_first_entry(entries, key, at) implies entry(
                entries,
                key,
            ) == entries[at].1 by {
                if at > 0 {
                    assert(entries[0].0 != key);
                }
            }
        } else {
            assert forall|at: int| #[trigger] is_first_entry(entries, key, at) implies entry(
                entries,
                key,
            ) == entries[at].1 by {
                assert(rest[at - 1] == entries[at]);
                assert forall|i: int| 0 <= i < at - 1 implies (#[trigger] rest[i]).0 != key by {
                    assert(entries[i + 1].0 != key);
                }
                assert(is_first_entry(rest, key, at - 1));
            }
            if forall|i: int| 0 <= i < entries.len() ==> (#[trigger] entries[i]).0 != key {
                assert forall|i: int| 0 <= i < rest.len() implies (#[trigger] rest[i]).0 != key by {
                    assert(entries[i + 1].0 != key);
                }
            }
            if exists|i: int| 0 <= i < entries.len() && (#[trigger] entries[i]).0 == key {
                let i = choose|i: int| 0 <= i < entries.len() && (#[trigger] entries[i]).0 == key;
                assert(rest[i - 1].0 == key);
                let at = choose|at: int| #[trigger] is_first_entry(rest, key, at);
                assert forall|j: int| 0 <= j < at + 1 implies (#[trigger] entries[j]).0 != key by {
                    if j > 0 {
                        assert(rest[j - 1].0 != key);
                    }
                }
                assert(entries[at + 1] == rest[at]);
                assert(is_first_entry(entries, key, at + 1));
            }
        }
    }
}

/// Following keys ends at a value that is not null exactly where the value is
/// held behind them.
proof fn followed_is_held(value: JsonView, keys: Seq<Seq<char>>, leaf: JsonView)
    requires
        !(leaf is Null),
    ensures
        followed(value, keys) == leaf <==> holds_behind(value, keys, leaf),
    decreases keys.len(),
{
    if keys.len() > 0 {
        let rest = keys.drop_first();
        followed_is_held(value.at(keys[0]), rest, leaf);
        match value {
            JsonView::Object(entries) => {
                first_entry_counts(entries, keys[0]);
                if exists|at: int| #[trigger] is_first_entry(entries, keys[0], at) {
                    let at = choose|at: int| #[trigger] is_first_entry(entries, keys[0], at);
                    assert(value.at(keys[0]) == entries[at].1);
                    if holds_behind(value, keys, leaf) {
                        let other = choose|other: int|
                            #![trigger entries[other]]
                            is_first_entry(entries, keys[0], other) && holds_behind(
                                entries[other].1,
                                rest,
                                leaf,
                            );
                        assert(entry(entries, keys[0]) == entries[other].1);
                    }
                    if followed(value, keys) == leaf {
                        assert(is_first_entry(entries, keys[0], at) && holds_behind(
                            entries[at].1,
                            rest,
                            leaf,
                        ));
                    }
                } else {
                    null_leads_nowhere(rest);
                    assert(value.at(keys[0]) is Null);
                }
            },
            _ => {
                null_leads_nowhere(rest);
                assert(value.at(keys[0]) is Null);
            },
        }
    }
}

/// Null asked for any keys is null.
proof fn null_leads_nowhere(keys: Seq<Seq<char>>)
    ensures
        followed(JsonView::Null, keys) is Null,
    decreases keys.len(),
{
    if keys.len() > 0 {
        null_leads_nowhere(keys.drop_first());
    }
}

/// Following one to four keys is asking for them in turn.
proof fn followed_by_hand(value: JsonView, a: Seq<char>, b: Seq<char>, c: Seq<char>, d: Seq<char>)
    ensures
        followed(value, seq![a]) == value.at(a),
        followed(value, seq![a, b]) == value.at(a).at(b),
        followed(value, seq![a, b, c]) == value.at(a).at(b).at(c),
        followed(value, seq![a, b, c, d]) == value.at(a).at(b).at(c).at(d),
{
    reveal_with_fuel(followed, 5);
    assert(seq![a].drop_first() =~= Seq::empty());
    assert(seq![b].drop_first() =~= Seq::empty());
    assert(seq![c].drop_first() =~= Seq::empty());
    assert(seq![d].drop_first() =~= Seq::empty());
    assert(seq![a, b].drop_first() =~= seq![b]);
    assert(seq![b, c].drop_first() =~= seq![c]);
    assert(seq![c, d].drop_first() =~= seq![d]);
    assert(seq![a, b, c].drop_first() =~= seq![b, c]);
    assert(seq![b, c, d].drop_first() =~= seq![c, d]);
    assert(seq![a, b, c, d].drop_first() =~= seq![b, c, d]);
}

/// The display name is the text behind `common` and `name`, and the build the
/// one behind `depots`, `branches`, `public` and `buildid`: each is known
/// exactly where there is such a text, and is that text.
pub proof fn name_and_build_are_those_told(app_id: Seq<char>, app: JsonView, text: Seq<char>)
    ensures
        app_info_of(app_id, app).display_name == Some(text) <==> holds_behind(
            app,
            seq!["common"@, "name"@],
            JsonView::Text(text),
        ),
        app_info_of(app_id, app).buildid == Some(text) <==> holds_behind(
            app,
            seq!["depots"@, "branches"@, "public"@, "buildid"@],
            JsonView::Text(text),
        ),
{
    followed_is_held(app, seq!["common"@, "name"@], JsonView::Text(text));
    followed_is_held(
        app,
        seq!["depots"@, "branches"@, "public"@, "buildid"@],
        JsonView::Text(text),
    );
    followed_by_hand(app, "common"@, "name"@, "name"@, "name"@);
    followed_by_hand(app, "depots"@, "branches"@, "public"@, "buildid"@);
}

/// A folder is told as a text.
pub open spec fn has_folder(app: JsonView, folder: Seq<char>) -> bool {
    holds_behind(app, seq!["config"@, "installdir"@], JsonView::Text(folder))
}

/// The folder is the text behind `config` and `installdir` without white space
/// around it, where that is a plain name; wherever there is no such text, or it
/// is none, the folder is the app's id.
pub proof fn folder_is_the_one_told(app_id: Seq<char>, app: JsonView, text: Seq<char>)
    ensures
        has_folder(app, text) ==> app_info_of(
            app_id,
            app,
        ).install_dir_name == if is_plain_name(trimmed(text)) {
            trimmed(text)
        } else {
            app_id
        },
        (forall|other: Seq<char>|
            !#[trigger] has_folder(app, other)) ==> app_info_of(app_id, app).install_dir_name == app_id,
{
    let keys = seq!["config"@, "installdir"@];
    followed_is_held(app, keys, JsonView::Text(text));
    followed_by_hand(app, "config"@, "installdir"@, "installdir"@, "installdir"@);
    if forall|other: Seq<char>| !#[trigger] has_folder(app, other) {
        let found = app.at("config"@).at("installdir"@);
        if let JsonView::Text(other) = found {
            followed_is_held(app, keys, JsonView::Text(other));
            assert(!has_folder(app, other));
        }
    }
}

/// A depot's size is told as a text.
pub open spec fn has_size(depot: JsonView, size: Seq<char>) -> bool {
    holds_behind(depot, seq!["manifests"@, "public"@, "size"@], JsonView::Text(size))
}

/// A depot's entry tells its manifest: its key is the depot's id in digits, and
/// behind `manifests` and `public` it has the manifest's id as a text and its
/// size as a text of digits.
#[verifier::opaque]
pub open spec fn tells_manifest(
    entry: (Seq<char>, JsonView),
    depot_id: u64,
    manifest: ManifestView,
) -> bool {
    &&& number(entry.0) == Some(depot_id as nat)
    &&& holds_behind(
        entry.1,
        seq!["manifests"@, "public"@, "gid"@],
        JsonView::Text(manifest.gid),
    )
    &&& exists|size: Seq<char>|
        {
            &&& #[trigger] has_size(entry.1, size)
            &&& number(size) == Some(manifest.size as nat)
        }
}

/// One entry is read as it tells.
proof fn one_manifest_is_read(entry: (Seq<char>, JsonView), depot_id: u64, manifest: ManifestView)
    ensures
        told_manifest(entry.0, entry.1) == Some((depot_id, manifest)) <==> tells_manifest(
            entry,
            depot_id,
            manifest,
        ),
{
    reveal(tells_manifest);
    let (key, value) = entry;
    followed_is_held(
        value,
        seq!["manifests"@, "public"@, "gid"@],
        JsonView::Text(manifest.gid),
    );
    followed_by_hand(value, "manifests"@, "public"@, "gid"@, "gid"@);
    followed_by_hand(value, "manifests"@, "public"@, "size"@, "size"@);
    let found = value.at("manifests"@).at("public"@).at("size"@);
    if told_manifest(key, value) == Some((depot_id, manifest)) {
        let size = found->Text_0;
        followed_is_held(value, seq!["manifests"@, "public"@, "size"@], JsonView::Text(size));
        assert(has_size(value, size));
    }
    if tells_manifest(entry, depot_id, manifest) {
        let size = choose|size: Seq<char>|
            {
                &&& #[trigger] has_size(value, size)
                &&& number(size) == Some(manifest.size as nat)
            };
        followed_is_held(value, seq!["manifests"@, "public"@, "size"@], JsonView::Text(size));
    }
}

/// No entry from `from` on tells a manifest of the depot.
pub open spec fn none_told_from(
    entries: Seq<(Seq<char>, JsonView)>,
    from: int,
    depot_id: u64,
) -> bool {
    forall|i: int, manifest: ManifestView|
        from <= i < entries.len() ==> !#[trigger] tells_manifest(entries[i], depot_id, manifest)
}

/// The manifests known are those told: a depot has one exactly where an entry
/// tells it, and it is the one that the last such entry tells.
pub proof fn manifests_are_those_told(
    app: JsonView,
    entries: Seq<(Seq<char>, JsonView)>,
    depot_id: u64,
    at: int,
    manifest: ManifestView,
)
    requires
        holds_behind(app, seq!["depots"@], JsonView::Object(entries)),
    ensures
        none_told_from(entries, 0, depot_id) <==> !manifests_of(app).contains_key(depot_id),
        0 <= at < entries.len() && tells_manifest(entries[at], depot_id, manifest)
            && none_told_from(entries, at + 1, depot_id) ==> manifests_of(app).contains_key(
            depot_id,
        ) && manifests_of(app)[depot_id] == manifest,
{
    followed_is_held(app, seq!["depots"@], JsonView::Object(entries));
    followed_by_hand(app, "depots"@, "depots"@, "depots"@, "depots"@);
    if 0 <= at < entries.len() && tells_manifest(entries[at], depot_id, manifest)
        && none_told_from(entries, at + 1, depot_id) {
        last_entry_counts(entries, depot_id, at, manifest);
    }
    if manifests_of(app).contains_key(depot_id) {
        let (i, told) = key_has_an_entry(entries, depot_id);
        assert(tells_manifest(entries[i], depot_id, told));
    } else {
        assert forall|i: int, told: ManifestView|
            0 <= i < entries.len() implies !#[trigger] tells_manifest(
            entries[i],
            depot_id,
            told,
        ) by {
            if tells_manifest(entries[i], depot_id, told) {
                entry_gives_a_key(entries, depot_id, i, told);
            }
        }
    }
}

/// An entry that tells a manifest makes it known.
proof fn entry_gives_a_key(
    entries: Seq<(Seq<char>, JsonView)>,
    depot_id: u64,
    at: int,
    manifest: ManifestView,
)
    requires
        0 <= at < entries.len(),
        tells_manifest(entries[at], depot_id, manifest),
    ensures
        told_manifests(entries).contains_key(depot_id),
    decreases entries.len(),
{
    let rest = entries.drop_last();
    if at == entries.len() - 1 {
        one_manifest_is_read(entries[at], depot_id, manifest);
    } else {
        assert(rest[at] == entries[at]);
        entry_gives_a_key(rest, depot_id, at, manifest);
    }
}

/// The last entry that tells a depot's manifest is the one that counts.
proof fn last_entry_counts(
    entries: Seq<(Seq<char>, JsonView)>,
    depot_id: u64,
    at: int,
    manifest: ManifestView,
)
    requires
        0 <= at < entries.len(),
        tells_manifest(entries[at], depot_id, manifest),
        none_told_from(entries, at + 1, depot_id),
    ensures
        told_manifests(entries).contains_key(depot_id),
        told_manifests(entries)[depot_id] == manifest,
    decreases entries.len(),
{
    let n = entries.len() - 1;
    let last = entries[n];
    if at == n {
        one_manifest_is_read(last, depot_id, manifest);
    } else {
        let rest = entries.drop_last();
        assert(rest[at] == entries[at]);
        assert forall|i: int, other: ManifestView|
            at + 1 <= i < rest.len() implies !#[trigger] tells_manifest(
            rest[i],
            depot_id,
            other,
        ) by {
            assert(rest[i] == entries[i]);
        }
        last_entry_counts(rest, depot_id, at, manifest);
        match told_manifest(last.0, last.1) {
            Some((id, told)) => {
                one_manifest_is_read(last, id, told);
                if id == depot_id {
                    assert(!tells_manifest(entries[n], depot_id, told));
                }
            },
            None => {},
        }
    }
}

/// A manifest that is known was told by some entry.
proof fn key_has_an_entry(entries: Seq<(Seq<char>, JsonView)>, depot_id: u64) -> (found: (
    int,
    ManifestView,
))
    requires
        told_manifests(entries).contains_key(depot_id),
    ensures
        0 <= found.0 < entries.len(),
        tells_manifest(entries[found.0], depot_id, found.1),
    decreases entries.len(),
{
    let n = entries.len() - 1;
    let last = entries.last();
    let rest = entries.drop_last();
    if told_manifests(rest).contains_key(depot_id) {
        let found = key_has_an_entry(rest, depot_id);
        assert(rest[found.0] == entries[found.0]);
        found
    } else {
        let told = told_manifest(last.0, last.1).unwrap().1;
        one_manifest_is_read(last, depot_id, told);
        assert(entries[n] == last);
        (n, told)
    }
}

/// What is looked up of an app is what the answer holds behind `data` and the
/// app's own id; an answer that cannot be read tells nothing.
pub proof fn answers_are_read_for_their_app(
    app_id: Seq<char>,
    body: Seq<char>,
    response: JsonView,
    app: JsonView,
)
    ensures
        parsed_json(body) == Some(response) && holds_behind(response, seq!["data"@, app_id], app)
            && !(app is Null) ==> looked_up(app_id, Some(body)) == app,
        parsed_json(body) is None ==> looked_up(app_id, Some(body)) is Null,
        looked_up(app_id, None) is Null,
{
    if !(app is Null) {
        followed_is_held(response, seq!["data"@, app_id], app);
        followed_by_hand(response, "data"@, app_id, app_id, app_id);
    }
}

/// The store's answer succeeded for an app.
pub open spec fn says_success(response: JsonView, app_id: u64) -> bool {
    holds_behind(response, seq![decimal(app_id as nat), "success"@], JsonView::Bool(true))
}

/// The DLC listed are the whole numbers of the list behind the app's own id,
/// `data` and `dlc`, and the name is the text behind `data` and `name`; both
/// only where the answer says that it succeeded.
pub proof fn store_answers_are_read(
    response: JsonView,
    app_id: u64,
    items: Seq<JsonView>,
    name: Seq<char>,
)
    ensures
        says_success(response, app_id) && holds_behind(
            response,
            seq![decimal(app_id as nat), "data"@, "dlc"@],
            JsonView::Array(items),
        ) ==> listed_dlc(response, app_id) == integers(items),
        listed_name(response, app_id) == Some(name) <==> says_success(response, app_id)
            && holds_behind(
            response,
            seq![decimal(app_id as nat), "data"@, "name"@],
            JsonView::Text(name),
        ),
        !says_success(response, app_id) ==> listed_dlc(response, app_id) == Seq::<u64>::empty(),
{
    let id = decimal(app_id as nat);
    followed_is_held(response, seq![id, "success"@], JsonView::Bool(true));
    followed_is_held(response, seq![id, "data"@, "dlc"@], JsonView::Array(items));
    followed_is_held(response, seq![id, "data"@, "name"@], JsonView::Text(name));
    followed_by_hand(response, id, "success"@, "success"@, "success"@);
    followed_by_hand(response, id, "data"@, "dlc"@, "dlc"@);
    followed_by_hand(response, id, "data"@, "name"@, "name"@);
}

/// The whole numbers of a list are taken in order, and anything else is passed
/// over.
pub proof fn whole_numbers_are_taken(
    first: Seq<JsonView>,
    second: Seq<JsonView>,
    value: u64,
    other: JsonView,
)
    ensures
        integers(first + second) == integers(first) + integers(second),
        integers(seq![JsonView::Number(Some(value))]) == seq![value],
        !(other is Number) || other->Number_0 is None ==> integers(seq![other])
            == Seq::<u64>::empty(),
        integers(Seq::empty()) == Seq::<u64>::empty(),
    decreases second.len(),
{
    reveal_with_fuel(integers, 2);
    let one = seq![JsonView::Number(Some(value))];
    assert(one.drop_last() =~= Seq::empty());
    assert(integers(one) =~= seq![value]);
    assert(seq![other].drop_last() =~= Seq::empty());
    if second.len() == 0 {
        assert(first + second =~= first);
    } else {
        whole_numbers_are_taken(first, second.drop_last(), value, other);
        assert((first + second).drop_last() =~= first + second.drop_last());
    }
    assert(integers(first + second) =~= integers(first) + integers(second));
}

/// A pasted address gives the digits right behind the first `/app/` in it, all
/// that follow one another and no more.
pub proof fn addresses_give_their_app_id(text: Seq<char>, at: int)
    requires
        occurs_at(text, "/app/"@, at),
        forall|j: int| 0 <= j < at ==> !occurs_at(text, "/app/"@, j),
    ensures
        ({
            let id = app_id_in(text);
            let behind = text.skip(at + 5);
            &&& id.len() <= behind.len()
            &&& id == behind.take(id.len() as int)
            &&& all_digits(id)
            &&& id.len() < behind.len() ==> !is_digit(behind[id.len() as int])
        }),
{
    reveal_strlit("/app/");
    assert("/app/"@.len() == 5);
    assert(is_first_occurrence(text, "/app/"@, at));
    let first = first_occurrence(text, "/app/"@);
    assert(is_first_occurrence(text, "/app/"@, first));
    assert(first == at) by {
        if first < at {
            assert(!occurs_at(text, "/app/"@, first));
        }
        if at < first {
            assert(!occurs_at(text, "/app/"@, at));
        }
    }
    assert(contains_text(text, "/app/"@));
    leading_digits_are_the_longest(text.skip(at + 5));
}

/// Any other text gives its digits, in order, and nothing else.
pub proof fn other_texts_give_their_digits(text: Seq<char>, first: Seq<char>, second: Seq<char>, c: char)
    ensures
        !contains_text(text, "/app/"@) ==> app_id_in(text) == digits_only(text),
        digits_only(first + second) == digits_only(first) + digits_only(second),
        is_digit(c) ==> digits_only(seq![c]) == seq![c],
        !is_digit(c) ==> digits_only(seq![c]) == Seq::<char>::empty(),
        digits_only(Seq::empty()) == Seq::<char>::empty(),
    decreases second.len(),
{
    reveal_with_fuel(digits_only, 2);
    assert(seq![c].drop_last() =~= Seq::empty());
    if is_digit(c) {
        assert(digits_only(seq![c]) =~= seq![c]);
    }
    if second.len() == 0 {
        assert(first + second =~= first);
    } else {
        other_texts_give_their_digits(text, first, second.drop_last(), c);
        assert((first + second).drop_last() =~= first + second.drop_last());
    }
    assert(digits_only(first + second) =~= digits_only(first) + digits_only(second));
}

/// Where none of the folders is there, none is taken.
pub proof fn missing_folders_are_not_taken(dirs: Seq<Seq<char>>, exists_on_disk: Seq<bool>)
    requires
        forall|i: int| 0 <= i < exists_on_disk.len() ==> !#[trigger] exists_on_disk[i],
    ensures
        first_existing(dirs, exists_on_disk) is None,
    decreases dirs.len(),
{
    if dirs.len() > 0 && exists_on_disk.len() > 0 {
        let rest = exists_on_disk.drop_first();
        assert forall|i: int| 0 <= i < rest.len() implies !#[trigger] rest[i] by {
            assert(!exists_on_disk[i + 1]);
        }
        missing_folders_are_not_taken(dirs.drop_first(), rest);
    }
}

/// What is asked for two apps is asked at two addresses, and what Steam is told
/// of two apps is told in two files: each holds its app's own id whole.
pub proof fn addresses_are_told_apart(a: u64, b: u64, id: Seq<char>, other: Seq<char>)
    ensures
        details_address(a) == details_address(b) ==> a == b,
        logo_address(a) == logo_address(b) ==> a == b,
        contains_text(details_address(a), decimal(a as nat)),
        contains_text(logo_address(a), decimal(a as nat)),
        info_address(id) == info_address(other) ==> id == other,
        ends_with(info_address(id), id),
        file_name_of(id) == file_name_of(other) ==> id == other,
        contains_text(file_name_of(id), id),
{
    let x = decimal(a as nat);
    let y = decimal(b as nat);
    stands_between("https://store.steampowered.com/api/appdetails?appids="@, x, y, "&filters=basic"@);
    stands_between(
        "https://cdn.akamai.steamstatic.com/steam/apps/"@,
        x,
        y,
        "/capsule_184x69.jpg"@,
    );
    stands_between("appmanifest_"@, id, other, ".acf"@);
    let none = Seq::<char>::empty();
    stands_between("https://api.steamcmd.net/v1/info/"@, id, other, none);
    assert("https://api.steamcmd.net/v1/info/"@ + id + none =~= info_address(id));
    assert("https://api.steamcmd.net/v1/info/"@ + other + none =~= info_address(other));
    let url = info_address(id);
    assert(url.subrange(url.len() - id.len(), url.len() - id.len() + id.len()) =~= id);
    if x == y {
        decimal_is_injective(a as nat, b as nat);
    }
}

/// A text between two others can be told by the whole.
proof fn stands_between(before: Seq<char>, x: Seq<char>, y: Seq<char>, behind: Seq<char>)
    ensures
        before + x + behind == before + y + behind ==> x == y,
        contains_text(before + x + behind, x),
{
    let whole = before + x + behind;
    let from = before.len() as int;
    assert(whole.subrange(from, from + x.len()) =~= x);
    assert(occurs_at(whole, x, from));
    if whole == before + y + behind {
        assert(x.len() == y.len());
        assert((before + y + behind).subrange(from, from + y.len()) =~= y);
    }
}

} // verus!
