//! The files that tell Steam which apps are installed.

use vstd::prelude::*;

use super::app_info::{AppInfo, AppInfoView, ManifestView};
use crate::decimal::{decimal, push_decimal, to_decimal};
use crate::paths::{last_component, parent, split_last, PathStyle};
use crate::text::{eq_ignore_ascii_case, equal_ignoring_ascii_case};

verus! {

/// The path ends in the components `steamapps` and `common`, whatever the case
/// of their letters.
pub open spec fn ends_in_common(path: Seq<char>, style: PathStyle) -> bool {
    &&& equal_ignoring_ascii_case(last_component(path, style), "common"@)
    &&& equal_ignoring_ascii_case(last_component(parent(path, style), style), "steamapps"@)
}

/// The path ends in `steamapps/common`, or read as one of Windows in
/// `steamapps\common`.
pub open spec fn ends_in_library(path: Seq<char>) -> bool {
    ends_in_common(path, PathStyle::Windows) || ends_in_common(path, PathStyle::Unix)
}

/// The folder that a library's `common` folder lies in.
pub open spec fn steamapps_of(common_dir: Seq<char>) -> Seq<char> {
    if ends_in_common(common_dir, PathStyle::Windows) {
        parent(common_dir, PathStyle::Windows)
    } else {
        parent(common_dir, PathStyle::Unix)
    }
}

/// Whether the path ends in the components `steamapps` and `common`.
fn is_common(path: &str, style: PathStyle) -> (yes: bool)
    ensures
        yes == ends_in_common(path@, style),
{
    let common = split_last(path, style);
    let steamapps = split_last(common.parent.as_str(), style);
    eq_ignore_ascii_case(common.name.as_str(), "common")
        && eq_ignore_ascii_case(steamapps.name.as_str(), "steamapps")
}

/// True when `path` ends in `steamapps/common` (or `steamapps\common`),
/// case-insensitively: a real Steam library, as opposed to an arbitrary
/// folder. Only then does Steam itself know to look here for an
/// `appmanifest_*.acf`.
pub fn is_steam_library_common_dir(path: &str) -> (yes: bool)
    ensures
        yes == ends_in_library(path@),
{
    is_common(path, PathStyle::Windows) || is_common(path, PathStyle::Unix)
}

/// The folder that a library's `common` folder lies in.
pub fn steamapps_dir(common_dir: &str) -> (dir: String)
    ensures
        dir@ == steamapps_of(common_dir@),
{
    if is_common(common_dir, PathStyle::Windows) {
        split_last(common_dir, PathStyle::Windows).parent
    } else {
        split_last(common_dir, PathStyle::Unix).parent
    }
}

/// The name of the file that tells Steam of an app.
pub open spec fn file_name_of(app_id: Seq<char>) -> Seq<char> {
    "appmanifest_"@ + app_id + ".acf"@
}

/// The name of the file that tells Steam of an app.
pub fn manifest_file_name(app_id: &str) -> (name: String)
    ensures
        name@ == file_name_of(app_id@),
        name@ == "appmanifest_"@ + app_id@ + ".acf"@,
{
    let mut name = "appmanifest_".to_owned();
    name.append(app_id);
    name.append(".acf");
    name
}

/// A character as it stands inside quotes.
pub open spec fn escaped_char(c: char) -> Seq<char> {
    if c == '\\' || c == '"' {
        seq!['\\', c]
    } else {
        seq![c]
    }
}

/// A text as it stands inside quotes: with a backslash before each backslash
/// and each quote.
pub open spec fn escaped(text: Seq<char>) -> Seq<char>
    decreases text.len(),
{
    if text.len() == 0 {
        Seq::empty()
    } else {
        escaped(text.drop_last()) + escaped_char(text.last())
    }
}

/// Tab characters.
pub open spec fn tabs(n: nat) -> Seq<char>
    decreases n,
{
    if n == 0 {
        Seq::empty()
    } else {
        tabs((n - 1) as nat).push('\t')
    }
}

/// A line with a key and its value.
pub open spec fn field(indent: nat, key: Seq<char>, value: Seq<char>) -> Seq<char> {
    tabs(indent) + "\""@ + key + "\"\t\t\""@ + escaped(value) + "\"\n"@
}

/// The lines about one installed depot.
pub open spec fn depot_lines(depot_id: u64, manifest: ManifestView) -> Seq<char> {
    "\t\t\""@ + decimal(depot_id as nat) + "\"\n\t\t{\n"@ + field(3, "manifest"@, manifest.gid)
        + field(3, "size"@, decimal(manifest.size as nat)) + "\t\t}\n"@
}

/// The lines about the depots whose manifest is known, in order.
pub open spec fn depots_lines(depot_ids: Seq<u64>, manifests: Map<u64, ManifestView>) -> Seq<char>
    decreases depot_ids.len(),
{
    if depot_ids.len() == 0 {
        Seq::empty()
    } else {
        let before = depots_lines(depot_ids.drop_last(), manifests);
        if manifests.contains_key(depot_ids.last()) {
            before + depot_lines(depot_ids.last(), manifests[depot_ids.last()])
        } else {
            before
        }
    }
}

/// The lines about the app.
pub open spec fn app_lines(
    app_id: Seq<char>,
    info: AppInfoView,
    total_uncompressed_bytes: u64,
    last_updated: u64,
) -> Seq<char> {
    let name = match info.display_name {
        Some(name) => name,
        None => app_id,
    };
    let buildid = match info.buildid {
        Some(buildid) => buildid,
        None => "0"@,
    };
    field(1, "appid"@, app_id) + field(1, "Universe"@, "1"@) + field(1, "name"@, name) + field(
        1,
        "StateFlags"@,
        "4"@,
    ) + field(1, "installdir"@, info.install_dir_name) + field(
        1,
        "LastUpdated"@,
        decimal(last_updated as nat),
    ) + field(1, "SizeOnDisk"@, decimal(total_uncompressed_bytes as nat)) + field(
        1,
        "StagingSize"@,
        "0"@,
    ) + field(1, "buildid"@, buildid) + field(1, "LastOwner"@, "0"@) + field(
        1,
        "BytesToDownload"@,
        "0"@,
    ) + field(1, "BytesDownloaded"@, "0"@) + field(1, "BytesStaged"@, "0"@) + field(
        1,
        "TargetBuildID"@,
        buildid,
    ) + field(1, "AutoUpdateBehavior"@, "0"@) + field(
        1,
        "AllowOtherDownloadsWhileRunning"@,
        "0"@,
    ) + field(1, "ScheduledAutoUpdate"@, "0"@)
}

/// The contents of the file that tells Steam of an app.
pub open spec fn manifest_text(
    app_id: Seq<char>,
    info: AppInfoView,
    total_uncompressed_bytes: u64,
    depot_ids: Seq<u64>,
    last_updated: u64,
) -> Seq<char> {
    "\"AppState\"\n{\n"@ + app_lines(app_id, info, total_uncompressed_bytes, last_updated)
        + "\t\"InstalledDepots\"\n\t{\n"@ + depots_lines(depot_ids, info.depot_manifests)
        + "\t}\n}\n"@
}

/// A text as it stands inside quotes.
pub fn escape(value: &str) -> (text: String)
    ensures
        text@ == escaped(value@),
{
    let mut text = String::new();
    for c in it: value.chars()
        invariant
            it.seq() == value@,
            text@ == escaped(value@.take(it.index() as int)),
    {
        assert(value@.take(it.index() + 1).drop_last() =~= value@.take(it.index() as int));
        let ghost before = text@;
        if c == '\\' || c == '"' {
            text.push('\\');
        }
        text.push(c);
        assert(text@ =~= before + escaped_char(c));
    }
    assert(value@.take(value@.len() as int) =~= value@);
    text
}

/// Appends a line with a key and its value.
pub fn write_field(out: &mut String, indent: usize, key: &str, value: &str)
    ensures
        final(out)@ == old(out)@ + field(indent as nat, key@, value@),
{
    let mut i: usize = 0;
    while i < indent
        invariant
            i <= indent,
            out@ == old(out)@ + tabs(i as nat),
        decreases indent - i,
    {
        out.push('\t');
        i = i + 1;
        assert(out@ =~= old(out)@ + tabs(i as nat));
    }
    out.append("\"");
    out.append(key);
    out.append("\"\t\t\"");
    let escaped_value = escape(value);
    out.append(escaped_value.as_str());
    out.append("\"\n");
    assert(out@ =~= old(out)@ + field(indent as nat, key@, value@));
}

/// The lines about the app.
fn render_app_lines(
    app_id: &str,
    app_info: &AppInfo,
    total_uncompressed_bytes: u64,
    last_updated: u64,
) -> (lines: String)
    ensures
        lines@ == app_lines(app_id@, app_info@, total_uncompressed_bytes, last_updated),
{
    let name = match &app_info.display_name {
        Some(name) => name.as_str(),
        None => app_id,
    };
    let buildid = match &app_info.buildid {
        Some(buildid) => buildid.as_str(),
        None => "0",
    };
    let updated = to_decimal(last_updated);
    let size = to_decimal(total_uncompressed_bytes);
    let mut lines = String::new();
    write_field(&mut lines, 1, "appid", app_id);
    assert(lines@ =~= field(1, "appid"@, app_id@));
    write_field(&mut lines, 1, "Universe", "1");
    write_field(&mut lines, 1, "name", name);
    write_field(&mut lines, 1, "StateFlags", "4");
    write_field(&mut lines, 1, "installdir", app_info.install_dir_name.as_str());
    write_field(&mut lines, 1, "LastUpdated", updated.as_str());
    write_field(&mut lines, 1, "SizeOnDisk", size.as_str());
    write_field(&mut lines, 1, "StagingSize", "0");
    write_field(&mut lines, 1, "buildid", buildid);
    write_field(&mut lines, 1, "LastOwner", "0");
    write_field(&mut lines, 1, "BytesToDownload", "0");
    write_field(&mut lines, 1, "BytesDownloaded", "0");
    write_field(&mut lines, 1, "BytesStaged", "0");
    write_field(&mut lines, 1, "TargetBuildID", buildid);
    write_field(&mut lines, 1, "AutoUpdateBehavior", "0");
    write_field(&mut lines, 1, "AllowOtherDownloadsWhileRunning", "0");
    write_field(&mut lines, 1, "ScheduledAutoUpdate", "0");
    lines
}

/// The contents of the file that tells Steam of an app. The build id and each
/// depot's manifest come from the lookup of the app: where it was not found,
/// this is still a manifest Steam recognizes, just one that shows an update
/// available at the next launch instead of an exact build match.
pub fn render_manifest(
    app_id: &str,
    app_info: &AppInfo,
    total_uncompressed_bytes: u64,
    depot_ids: &Vec<u64>,
    last_updated: u64,
) -> (out: String)
    ensures
        out@ == manifest_text(
            app_id@,
            app_info@,
            total_uncompressed_bytes,
            depot_ids@,
            last_updated,
        ),
{
    broadcast use vstd::std_specs::hash::group_hash_axioms;

    let mut out = "\"AppState\"\n{\n".to_owned();
    let lines = render_app_lines(app_id, app_info, total_uncompressed_bytes, last_updated);
    out.append(lines.as_str());
    out.append("\t\"InstalledDepots\"\n\t{\n");
    let ghost head = out@;
    let mut i: usize = 0;
    while i < depot_ids.len()
        invariant
            i <= depot_ids@.len(),
            out@ == head + depots_lines(
                depot_ids@.take(i as int),
                app_info@.depot_manifests,
            ),
        decreases depot_ids@.len() - i,
    {
        let ghost before = out@;
        let depot_id = depot_ids[i];
        assert(depot_ids@.take(i + 1).drop_last() =~= depot_ids@.take(i as int));
        if let Some(manifest) = app_info.depot_manifests.get(&depot_id) {
            assert(app_info@.depot_manifests[depot_id] == manifest@);
            let size = to_decimal(manifest.size);
            out.append("\t\t\"");
            push_decimal(&mut out, depot_id);
            out.append("\"\n\t\t{\n");
            write_field(&mut out, 3, "manifest", manifest.gid.as_str());
            write_field(&mut out, 3, "size", size.as_str());
            out.append("\t\t}\n");
            assert(out@ =~= before + depot_lines(depot_id, manifest@));
        }
        i = i + 1;
        assert(out@ =~= head + depots_lines(
            depot_ids@.take(i as int),
            app_info@.depot_manifests,
        ));
    }
    assert(depot_ids@.take(i as int) =~= depot_ids@);
    out.append("\t}\n}\n");
    out
}

/// A text without the backslashes that guard a character.
pub open spec fn unescaped(text: Seq<char>) -> Seq<char>
    decreases text.len(),
{
    if text.len() == 0 {
        Seq::empty()
    } else if text[0] == '\\' && text.len() > 1 {
        seq![text[1]] + unescaped(text.skip(2))
    } else {
        seq![text[0]] + unescaped(text.skip(1))
    }
}

/// A first character and what follows it are escaped one after the other.
pub proof fn escaped_from_the_front(c: char, rest: Seq<char>)
    ensures
        escaped(seq![c] + rest) == escaped_char(c) + escaped(rest),
    decreases rest.len(),
{
    let text = seq![c] + rest;
    if rest.len() == 0 {
        assert(text.drop_last() =~= Seq::empty());
        assert(text.last() == c);
        assert(escaped(text.drop_last()) =~= Seq::empty());
        assert(escaped(text) =~= escaped_char(c) + escaped(rest));
    } else {
        assert(text.drop_last() =~= seq![c] + rest.drop_last());
        escaped_from_the_front(c, rest.drop_last());
        assert(escaped(text) =~= escaped_char(c) + escaped(rest));
    }
}

/// Escaping loses nothing: a reader that drops the guarding backslashes gets
/// back the value that was written.
pub proof fn escaping_can_be_undone(value: Seq<char>)
    ensures
        unescaped(escaped(value)) == value,
    decreases value.len(),
{
    if value.len() > 0 {
        let c = value[0];
        let rest = value.drop_first();
        assert(value =~= seq![c] + rest);
        escaped_from_the_front(c, rest);
        escaping_can_be_undone(rest);
        let text = escaped(value);
        if c == '\\' || c == '"' {
            assert(text.skip(2) =~= escaped(rest));
        } else {
            assert(text.skip(1) =~= escaped(rest));
        }
        assert(unescaped(text) =~= value);
    }
}

/// The installed depots are those whose manifest is known, and no others: a
/// depot without a known manifest leaves no trace in the file.
pub proof fn unknown_depots_leave_no_trace(
    depot_ids: Seq<u64>,
    manifests: Map<u64, ManifestView>,
    depot_id: u64,
    after: Seq<u64>,
)
    requires
        !manifests.contains_key(depot_id),
    ensures
        depots_lines(depot_ids.push(depot_id) + after, manifests) == depots_lines(
            depot_ids + after,
            manifests,
        ),
    decreases after.len(),
{
    if after.len() == 0 {
        assert((depot_ids.push(depot_id) + after).drop_last() =~= depot_ids);
        assert(depot_ids + after =~= depot_ids);
    } else {
        unknown_depots_leave_no_trace(depot_ids, manifests, depot_id, after.drop_last());
        assert((depot_ids.push(depot_id) + after).drop_last() =~= depot_ids.push(depot_id)
            + after.drop_last());
        assert((depot_ids + after).drop_last() =~= depot_ids + after.drop_last());
    }
}

/// The lines of the depots follow one another in the order of the depots.
pub proof fn depot_lines_follow_one_another(
    first: Seq<u64>,
    second: Seq<u64>,
    manifests: Map<u64, ManifestView>,
)
    ensures
        depots_lines(first + second, manifests) == depots_lines(first, manifests) + depots_lines(
            second,
            manifests,
        ),
    decreases second.len(),
{
    if second.len() == 0 {
        assert(first + second =~= first);
        assert(depots_lines(first, manifests) =~= depots_lines(first, manifests) + depots_lines(
            second,
            manifests,
        ));
    } else {
        depot_lines_follow_one_another(first, second.drop_last(), manifests);
        assert((first + second).drop_last() =~= first + second.drop_last());
        assert(depots_lines(first + second, manifests) =~= depots_lines(first, manifests)
            + depots_lines(second, manifests));
    }
}

} // verus!
