//! What api.steamcmd.net says of an app.

use vstd::prelude::*;

use std::collections::HashMap;

use crate::decimal::{number_up_to, parse_u64};
use crate::depot_downloader::progress::optional_text;
use crate::json::{parse_json, parsed_json, Json, JsonView};
use crate::paths::is_plain_name;
use crate::text::{chars_of, same_text, trim, trimmed};

verus! {

/// How long the lookup may take, in seconds. It only chooses a folder name, so
/// a slow answer must not hold the download hostage.
pub const REQUEST_TIMEOUT_SECS: u64 = 10;

/// A depot's currently published manifest, from the `public` branch.
#[derive(Debug, Clone)]
pub struct DepotManifest {
    pub gid: String,
    pub size: u64,
}

/// A manifest with its text as a sequence of characters.
pub struct ManifestView {
    pub gid: Seq<char>,
    pub size: u64,
}

impl View for DepotManifest {
    type V = ManifestView;

    open spec fn view(&self) -> ManifestView {
        ManifestView { gid: self.gid@, size: self.size }
    }
}

/// Everything api.steamcmd.net can tell about an app: the folder name Steam
/// itself would install it under, plus what an `appmanifest_*.acf` that Steam
/// recognizes needs (display name, current build id, each depot's published
/// manifest). Fields stay `None` or empty when the lookup fails or the app is
/// missing them, since none of it is required to run DepotDownloader itself.
#[derive(Debug, Clone)]
pub struct AppInfo {
    pub install_dir_name: String,
    pub display_name: Option<String>,
    pub buildid: Option<String>,
    pub depot_manifests: HashMap<u64, DepotManifest>,
}

/// What is known of an app, with its texts as sequences of characters.
#[verifier::ext_equal]
pub struct AppInfoView {
    pub install_dir_name: Seq<char>,
    pub display_name: Option<Seq<char>>,
    pub buildid: Option<Seq<char>>,
    pub depot_manifests: Map<u64, ManifestView>,
}

/// The manifests with their texts as sequences of characters.
pub open spec fn manifest_views(manifests: Map<u64, DepotManifest>) -> Map<u64, ManifestView> {
    manifests.map_values(|manifest: DepotManifest| manifest@)
}

impl View for AppInfo {
    type V = AppInfoView;

    open spec fn view(&self) -> AppInfoView {
        AppInfoView {
            install_dir_name: self.install_dir_name@,
            display_name: optional_text(self.display_name),
            buildid: optional_text(self.buildid),
            depot_manifests: manifest_views(self.depot_manifests@),
        }
    }
}

/// The name of the folder that the app is installed in, where it is told and
/// is a single component of a path.
pub open spec fn told_install_dir(app: JsonView) -> Option<Seq<char>> {
    match app.at("config"@).at("installdir"@).as_text() {
        Some(text) => if is_plain_name(trimmed(text)) {
            Some(trimmed(text))
        } else {
            None
        },
        None => None,
    }
}

/// The depot that an entry is about and its manifest, where the entry's key is
/// a depot id and it tells a published manifest.
pub open spec fn told_manifest(key: Seq<char>, value: JsonView) -> Option<(u64, ManifestView)> {
    let public = value.at("manifests"@).at("public"@);
    match (number_up_to(key, u64::MAX as nat), public.at("gid"@).as_text(), public.at("size"@).as_text()) {
        (Some(depot_id), Some(gid), Some(size)) => match number_up_to(size, u64::MAX as nat) {
            Some(size) => Some((depot_id as u64, ManifestView { gid, size: size as u64 })),
            None => None,
        },
        _ => None,
    }
}

/// The manifests that entries tell. Where two keys are the same number, the
/// later one holds.
pub open spec fn told_manifests(entries: Seq<(Seq<char>, JsonView)>) -> Map<u64, ManifestView>
    decreases entries.len(),
{
    if entries.len() == 0 {
        Map::empty()
    } else {
        let before = told_manifests(entries.drop_last());
        match told_manifest(entries.last().0, entries.last().1) {
            Some((depot_id, manifest)) => before.insert(depot_id, manifest),
            None => before,
        }
    }
}

/// The manifests of an app's depots.
pub open spec fn manifests_of(app: JsonView) -> Map<u64, ManifestView> {
    match app.at("depots"@) {
        JsonView::Object(entries) => told_manifests(entries),
        _ => Map::empty(),
    }
}

/// What is known of an app from what the lookup says of it.
pub open spec fn app_info_of(app_id: Seq<char>, app: JsonView) -> AppInfoView {
    AppInfoView {
        install_dir_name: match told_install_dir(app) {
            Some(name) => name,
            None => app_id,
        },
        display_name: app.at("common"@).at("name"@).as_text(),
        buildid: app.at("depots"@).at("branches"@).at("public"@).at("buildid"@).as_text(),
        depot_manifests: manifests_of(app),
    }
}

/// Whether the name is one component of a path on every system.
fn plain_name(name: &str) -> (yes: bool)
    ensures
        yes == is_plain_name(name@),
{
    let chars = chars_of(name);
    if chars.len() == 0 || same_text(name, ".") || same_text(name, "..") {
        return false;
    }
    let mut i: usize = 0;
    while i < chars.len()
        invariant
            i <= chars@.len(),
            chars@ == name@,
            forall|j: int|
                0 <= j < i ==> {
                    let c = #[trigger] chars@[j];
                    c != '/' && c != '\\' && c != ':'
                },
        decreases chars@.len() - i,
    {
        if chars[i] == '/' || chars[i] == '\\' || chars[i] == ':' {
            assert(name@[i as int] == chars@[i as int]);
            return false;
        }
        i = i + 1;
    }
    true
}

/// The name of the folder that the app is installed in. Rejects names that
/// could escape the library folder.
pub fn extract_install_dir_name(app: &Json) -> (name: Option<String>)
    ensures
        optional_text(name) == told_install_dir(app@),
{
    match app.at("config").at("installdir").as_text() {
        Some(text) => {
            let name = trim(text);
            if plain_name(name.as_str()) {
                Some(name)
            } else {
                None
            }
        },
        None => None,
    }
}

/// The depot that an entry is about and its manifest, where it tells both.
fn extract_manifest(key: &str, value: &Json) -> (manifest: Option<(u64, DepotManifest)>)
    ensures
        match manifest {
            Some((depot_id, manifest)) => told_manifest(key@, value@) == Some(
                (depot_id, manifest@),
            ),
            None => told_manifest(key@, value@) is None,
        },
{
    let depot_id = match parse_u64(key) {
        Some(depot_id) => depot_id,
        None => {
            return None;
        },
    };
    let public = value.at("manifests").at("public");
    match (public.at("gid").as_text(), public.at("size").as_text()) {
        (Some(gid), Some(size)) => match parse_u64(size) {
            Some(size) => Some((depot_id, DepotManifest { gid: gid.to_owned(), size })),
            None => None,
        },
        _ => None,
    }
}

/// The manifests of an app's depots. Entries that are no depot or have no
/// published manifest are skipped.
pub fn extract_depot_manifests(app: &Json) -> (manifests: HashMap<u64, DepotManifest>)
    ensures
        manifest_views(manifests@) == manifests_of(app@),
{
    broadcast use vstd::std_specs::hash::group_hash_axioms;

    let mut manifests: HashMap<u64, DepotManifest> = HashMap::new();
    assert(manifest_views(manifests@) =~= Map::<u64, ManifestView>::empty());
    let depots = app.at("depots");
    if let Json::Object(entries) = depots {
        let ghost all = depots@->Object_0;
        let mut i: usize = 0;
        assert(all.take(0) =~= Seq::empty());
        while i < entries.len()
            invariant
                i <= entries@.len(),
                *depots == Json::Object(*entries),
                all == depots@->Object_0,
                manifest_views(manifests@) == told_manifests(all.take(i as int)),
            decreases entries@.len() - i,
        {
            assert(all.take(i + 1).drop_last() =~= all.take(i as int));
            assert(all.take(i + 1).last() == (entries@[i as int].0@, entries@[i as int].1@));
            let ghost before = manifests@;
            if let Some((depot_id, manifest)) = extract_manifest(
                entries[i].0.as_str(),
                &entries[i].1,
            ) {
                let ghost told = manifest@;
                manifests.insert(depot_id, manifest);
                assert(manifest_views(manifests@) =~= manifest_views(before).insert(
                    depot_id,
                    told,
                ));
            }
            i = i + 1;
        }
        assert(all.take(i as int) =~= all);
    }
    manifests
}

/// The address that tells about an app.
pub open spec fn info_address(app_id: Seq<char>) -> Seq<char> {
    "https://api.steamcmd.net/v1/info/"@ + app_id
}

/// The address that tells about an app.
pub fn app_info_url(app_id: &str) -> (url: String)
    ensures
        url@ == info_address(app_id@),
        url@ == "https://api.steamcmd.net/v1/info/"@ + app_id@,
{
    let mut url = "https://api.steamcmd.net/v1/info/".to_owned();
    url.append(app_id);
    url
}

/// A copy of an optional text.
fn owned(text: Option<&str>) -> (copy: Option<String>)
    ensures
        match (text, copy) {
            (Some(text), Some(copy)) => copy@ == text@,
            (None, None) => true,
            _ => false,
        },
{
    match text {
        Some(text) => Some(text.to_owned()),
        None => None,
    }
}

/// What is known of an app from what the lookup says of it.
pub fn app_info(app_id: &str, app: &Json) -> (info: AppInfo)
    ensures
        info@ == app_info_of(app_id@, app@),
{
    AppInfo {
        install_dir_name: match extract_install_dir_name(app) {
            Some(name) => name,
            None => app_id.to_owned(),
        },
        display_name: owned(app.at("common").at("name").as_text()),
        buildid: owned(app.at("depots").at("branches").at("public").at("buildid").as_text()),
        depot_manifests: extract_depot_manifests(app),
    }
}

/// The part of an answer's body that is about the app: null where there was no
/// answer or it cannot be read.
pub open spec fn looked_up(app_id: Seq<char>, body: Option<Seq<char>>) -> JsonView {
    match body {
        Some(body) => match parsed_json(body) {
            Some(response) => response.at("data"@).at(app_id),
            None => JsonView::Null,
        },
        None => JsonView::Null,
    }
}

/// What the body of the lookup's answer says of an app. Falls back to the app
/// id as the folder's name when the lookup or that one field fails.
pub fn fetch_app_info(app_id: &str, body: Option<&str>) -> (info: AppInfo)
    ensures
        info@ == app_info_of(
            app_id@,
            looked_up(
                app_id@,
                match body {
                    Some(body) => Some(body@),
                    None => None,
                },
            ),
        ),
{
    match body {
        Some(body) => match parse_json(body) {
            Some(response) => app_info(app_id, response.at("data").at(app_id)),
            None => app_info(app_id, &Json::Null),
        },
        None => app_info(app_id, &Json::Null),
    }
}

/// An app is always installed in a folder of its own right inside the library:
/// whatever the lookup says, the folder's name is one component of a path,
/// where the app id is.
pub proof fn install_dir_stays_in_the_library(app_id: Seq<char>, app: JsonView)
    requires
        is_plain_name(app_id),
    ensures
        is_plain_name(app_info_of(app_id, app).install_dir_name),
{
}

/// Without an answer nothing is known but the app id.
pub proof fn failed_lookup_knows_the_id_alone(app_id: Seq<char>)
    ensures
        ({
            let info = app_info_of(app_id, looked_up(app_id, None));
            &&& info.install_dir_name == app_id
            &&& info.display_name is None
            &&& info.buildid is None
            &&& info.depot_manifests == Map::<u64, ManifestView>::empty()
        }),
{
}

} // verus!
