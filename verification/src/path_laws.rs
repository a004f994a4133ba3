//! How paths are taken apart, and what is recognised by them.

use vstd::prelude::*;

use crate::depot_downloader::provisioning::{
    arch_name, asset_name, asset_url, binary_name, error_text, is_binary, os_name,
    step_for, ProvisioningError, ProvisioningStep,
};
use crate::paths::{
    component_end, is_mark, is_plain_name, joined_name_lies_in_the_directory,
    joined_name_lies_in_the_windows_directory, joins, last_component, last_start, marks_of, parent,
    prefix_len, under, windows_prefix, without_marks, without_tail, Arch, Marks, Os, PathStyle,
};
use crate::steam::app_manifest::{ends_in_common, ends_in_library, steamapps_of};
use crate::steam::library_path::well_known_dirs;
use crate::text::{begins_with, ends_with, equal_ignoring_ascii_case};

verus! {

/// What is left out behind the last component are separators and dots alone,
/// and it stands at the end.
proof fn only_marks_go(path: Seq<char>, marks: Marks, prefix: nat)
    ensures
        ({
            let whole = without_marks(path, marks, prefix);
            &&& whole.len() <= path.len()
            &&& whole == path.take(whole.len() as int)
            &&& forall|i: int|
                whole.len() <= i < path.len() ==> is_mark(#[trigger] path[i], marks) || path[i]
                    == '.'
            &&& whole.len() > prefix ==> !is_mark(whole[whole.len() - 1], marks)
        }),
    decreases path.len(),
{
    let n = path.len() as int;
    if n > prefix && (is_mark(path[n - 1], marks) || (marks.dots && n > prefix + 1 && path[n - 1]
        == '.' && is_mark(path[n - 2], marks))) {
        let rest = path.drop_last();
        only_marks_go(rest, marks, prefix);
        let whole = without_marks(rest, marks, prefix);
        assert(whole =~= path.take(whole.len() as int));
        assert forall|i: int| whole.len() <= i < path.len() implies is_mark(
            #[trigger] path[i],
            marks,
        ) || path[i] == '.' by {
            if i < rest.len() {
                assert(rest[i] == path[i]);
            }
        }
    } else {
        assert(path =~= path.take(n));
    }
}

/// The last component starts right behind a separator or at the end of the
/// prefix, and holds no separator.
proof fn last_component_is_whole(path: Seq<char>, marks: Marks, prefix: nat)
    ensures
        ({
            let start = last_start(path, marks, prefix) as int;
            &&& start <= path.len()
            &&& prefix <= path.len() ==> start >= prefix
            &&& start > prefix && prefix <= path.len() ==> is_mark(path[start - 1], marks)
            &&& forall|i: int| start <= i < path.len() ==> !is_mark(#[trigger] path[i], marks)
        }),
    decreases path.len(),
{
    if !(path.len() <= prefix || is_mark(path.last(), marks)) {
        let rest = path.drop_last();
        last_component_is_whole(rest, marks, prefix);
        let start = last_start(path, marks, prefix) as int;
        assert forall|i: int| start <= i < path.len() implies !is_mark(
            #[trigger] path[i],
            marks,
        ) by {
            if i < rest.len() {
                assert(rest[i] == path[i]);
            }
        }
        if start > prefix {
            assert(rest[start - 1] == path[start - 1]);
        }
    }
}

/// A path is taken apart into what its last component lies in, the component,
/// and separators or dots: the component stands in the path as it is and holds
/// no separator, everything behind it is separators and dots, and its parent is
/// the beginning of the path.
pub proof fn paths_are_taken_apart(path: Seq<char>, style: PathStyle)
    ensures
        ({
            let marks = marks_of(path, style);
            let whole = without_tail(path, style);
            let name = last_component(path, style);
            let above = parent(path, style);
            &&& begins_with(path, whole)
            &&& forall|i: int|
                whole.len() <= i < path.len() ==> is_mark(#[trigger] path[i], marks) || path[i]
                    == '.'
            &&& name.len() <= whole.len()
            &&& name == whole.skip(whole.len() - name.len())
            &&& forall|i: int| 0 <= i < name.len() ==> !is_mark(#[trigger] name[i], marks)
            &&& above.len() + name.len() <= whole.len()
            &&& above == path.take(above.len() as int)
            &&& forall|i: int|
                above.len() <= i < whole.len() - name.len() ==> is_mark(#[trigger] path[i], marks)
                    || path[i] == '.'
        }),
{
    let marks = marks_of(path, style);
    let prefix = prefix_len(path, style);
    let whole = without_tail(path, style);
    only_marks_go(path, marks, prefix);
    assert(path.subrange(0, whole.len() as int) =~= whole);
    last_component_is_whole(whole, marks, prefix);
    let start = last_start(whole, marks, prefix) as int;
    let name = last_component(path, style);
    assert(name =~= whole.skip(whole.len() - name.len()));
    assert forall|i: int| 0 <= i < name.len() implies !is_mark(#[trigger] name[i], marks) by {
        assert(name[i] == whole[start + i]);
    }
    let front = whole.take(start);
    only_marks_go(front, marks, prefix);
    let above = parent(path, style);
    assert(above =~= path.take(above.len() as int));
    assert forall|i: int| above.len() <= i < whole.len() - name.len() implies is_mark(
        #[trigger] path[i],
        marks,
    ) || path[i] == '.' by {
        assert(front[i] == path[i]);
    }
}

/// A path that ends in a plain name has nothing behind it.
proof fn plain_end_stays(dir: Seq<char>, name: Seq<char>, path: Seq<char>)
    requires
        is_plain_name(name),
        path == under(Os::Linux, dir, name),
    ensures
        without_tail(path, PathStyle::Unix) == path,
{
    reveal_strlit("/");
    reveal_strlit(".");
    let n = path.len() as int;
    assert(path[n - 1] == name[name.len() - 1]);
    if path[n - 1] == '.' && n > 1 && path[n - 2] == '/' {
        if name.len() > 1 {
            assert(path[n - 2] == name[name.len() - 2]);
        }
        assert(name =~= "."@);
    }
}

/// A folder named `common` in one named `steamapps`, whatever the case of their
/// letters, is a Steam library, wherever it lies; and the folder that Steam is
/// told in is the one named `steamapps`, unless the path reads as one of
/// Windows too.
pub proof fn libraries_are_recognised(dir: Seq<char>, steamapps: Seq<char>, common: Seq<char>)
    requires
        is_plain_name(steamapps),
        is_plain_name(common),
    ensures
        ({
            let middle = under(Os::Linux, dir, steamapps);
            let path = under(Os::Linux, middle, common);
            &&& equal_ignoring_ascii_case(steamapps, "steamapps"@) && equal_ignoring_ascii_case(
                common,
                "common"@,
            ) ==> ends_in_library(path)
            &&& ends_in_common(path, PathStyle::Unix) <==> equal_ignoring_ascii_case(
                steamapps,
                "steamapps"@,
            ) && equal_ignoring_ascii_case(common, "common"@)
            &&& !ends_in_common(path, PathStyle::Windows) ==> steamapps_of(path) == middle
        }),
{
    let middle = under(Os::Linux, dir, steamapps);
    let path = under(Os::Linux, middle, common);
    joined_name_lies_in_the_directory(dir, steamapps, middle);
    joined_name_lies_in_the_directory(middle, common, path);
    plain_end_stays(dir, steamapps, middle);
}

/// The same of paths of Windows that are more than the beginning of a prefix.
pub proof fn windows_libraries_are_recognised(
    dir: Seq<char>,
    steamapps: Seq<char>,
    common: Seq<char>,
    middle: Seq<char>,
    path: Seq<char>,
)
    requires
        is_plain_name(steamapps),
        is_plain_name(common),
        joins(dir, steamapps, middle),
        joins(middle, common, path),
        !begins_with(dir, "\\\\?\\"@),
        !begins_with(middle, "\\\\?\\"@),
        windows_prefix(middle) == windows_prefix(dir),
        windows_prefix(path) == windows_prefix(middle),
        without_tail(middle, PathStyle::Windows) == middle,
    ensures
        ends_in_common(path, PathStyle::Windows) <==> equal_ignoring_ascii_case(
            steamapps,
            "steamapps"@,
        ) && equal_ignoring_ascii_case(common, "common"@),
        ends_in_common(path, PathStyle::Windows) ==> ends_in_library(path) && steamapps_of(path)
            == middle,
{
    joined_name_lies_in_the_windows_directory(dir, steamapps, middle);
    joined_name_lies_in_the_windows_directory(middle, common, path);
}

/// A path goes under a directory with one separator between them, the system's
/// own, unless the directory is empty or has one at its end already.
pub proof fn paths_go_under_directories(dir: Seq<char>, relative: Seq<char>)
    ensures
        begins_with(under(Os::Linux, dir, relative), dir),
        ends_with(under(Os::Linux, dir, relative), relative),
        begins_with(under(Os::Windows, dir, relative), dir),
        ends_with(under(Os::Windows, dir, relative), relative),
        begins_with(under(Os::MacOs, dir, relative), dir),
        ends_with(under(Os::MacOs, dir, relative), relative),
        dir.len() > 0 && dir.last() != '/' ==> under(Os::Linux, dir, relative) == dir + seq!['/']
            + relative && under(Os::MacOs, dir, relative) == dir + seq!['/'] + relative,
        dir.len() > 2 && dir.last() != '/' && dir.last() != '\\' ==> under(
            Os::Windows,
            dir,
            relative,
        ) == dir + seq!['\\'] + relative,
        dir.len() == 0 || dir.last() == '/' ==> under(Os::Linux, dir, relative) == dir + relative
            && under(Os::MacOs, dir, relative) == dir + relative && under(
            Os::Windows,
            dir,
            relative,
        ) == dir + relative,
{
    reveal_strlit("/");
    reveal_strlit("\\");
    assert("/"@ =~= seq!['/']);
    assert("\\"@ =~= seq!['\\']);
    goes_under(Os::Linux, dir, relative);
    goes_under(Os::Windows, dir, relative);
    goes_under(Os::MacOs, dir, relative);
}

/// A path under a directory begins with the directory and ends with the rest.
proof fn goes_under(os: Os, dir: Seq<char>, relative: Seq<char>)
    ensures
        begins_with(under(os, dir, relative), dir),
        ends_with(under(os, dir, relative), relative),
{
    let path = under(os, dir, relative);
    let at = path.len() - relative.len();
    assert(path.subrange(0, dir.len() as int) =~= dir);
    assert(path.subrange(at, at + relative.len()) =~= relative);
}

/// The places where Steam keeps its games: on Windows one under the folder of
/// programs, and elsewhere in the home directory, one or three of them and none
/// where there is none. Each begins with that folder and ends in `common`.
pub proof fn well_known_places(
    os: Os,
    home: Option<Seq<char>>,
    programs: Option<Seq<char>>,
    i: int,
)
    ensures
        ({
            let dirs = well_known_dirs(os, home, programs);
            &&& dirs.len() == match os {
                Os::Windows => 1nat,
                Os::MacOs => if home is Some {
                    1
                } else {
                    0
                },
                Os::Linux => if home is Some {
                    3
                } else {
                    0
                },
            }
            &&& 0 <= i < dirs.len() && os != Os::Windows ==> begins_with(dirs[i], home.unwrap())
            &&& 0 <= i < dirs.len() && os == Os::Windows && programs is Some ==> begins_with(
                dirs[i],
                programs.unwrap(),
            )
            &&& 0 <= i < dirs.len() ==> ends_with(dirs[i], "common"@)
        }),
{
    let dirs = well_known_dirs(os, home, programs);
    reveal_strlit("common");
    reveal_strlit("Steam\\steamapps\\common");
    reveal_strlit("Library/Application Support/Steam/steamapps/common");
    reveal_strlit(".local/share/Steam/steamapps/common");
    reveal_strlit(".steam/steam/steamapps/common");
    reveal_strlit(".var/app/com.valvesoftware.Steam/data/Steam/steamapps/common");
    if 0 <= i < dirs.len() {
        let base = if os == Os::Windows {
            match programs {
                Some(programs) => programs,
                None => "C:\\Program Files (x86)"@,
            }
        } else {
            home.unwrap()
        };
        let relative = if os == Os::Windows {
            "Steam\\steamapps\\common"@
        } else if os == Os::MacOs {
            "Library/Application Support/Steam/steamapps/common"@
        } else if i == 0 {
            ".local/share/Steam/steamapps/common"@
        } else if i == 1 {
            ".steam/steam/steamapps/common"@
        } else {
            ".var/app/com.valvesoftware.Steam/data/Steam/steamapps/common"@
        };
        assert(dirs[i] == under(os, base, relative));
        goes_under(os, base, relative);
        assert(relative.skip(relative.len() - 6) =~= "common"@);
        let path = dirs[i];
        let at = path.len() - relative.len();
        assert(path.subrange(at, at + relative.len()) =~= relative);
        assert forall|k: int| 0 <= k < 6 implies path[path.len() - 6 + k] == "common"@[k] by {
            assert(path.subrange(at, at + relative.len())[relative.len() - 6 + k]
                == relative[relative.len() - 6 + k]);
            assert(relative.skip(relative.len() - 6)[k] == "common"@[k]);
        }
        assert(path.subrange(path.len() - 6, path.len() - 6 + 6) =~= "common"@);
    }
}

/// The executable is found wherever in the archive it lies, by its name alone:
/// a file of any other name is none, and neither is a path that leads out.
pub proof fn executables_are_found_by_name(dir: Seq<char>, name: Seq<char>, os: Os)
    requires
        is_plain_name(name),
    ensures
        os != Os::Windows ==> (is_binary(Some(under(Os::Linux, dir, name)), os) <==> name
            == binary_name(os)),
        !is_binary(None, os),
{
    joined_name_lies_in_the_directory(dir, name, under(Os::Linux, dir, name));
}

/// Each system and each processor has its own archive, the address ends in its
/// name, and the executable has an extension exactly on Windows.
pub proof fn archives_are_told_apart(os: Os, arch: Arch, other_os: Os, other_arch: Arch)
    ensures
        os_name(os) == os_name(other_os) ==> os == other_os,
        arch_name(arch) == arch_name(other_arch) ==> arch == other_arch,
        asset_name(os, arch) == "DepotDownloader-"@ + os_name(os) + "-"@ + arch_name(arch)
            + ".zip"@,
        ends_with(asset_url(os, arch), asset_name(os, arch)),
        ends_with(binary_name(os), ".exe"@) <==> os == Os::Windows,
{
    reveal_strlit("windows");
    reveal_strlit("macos");
    reveal_strlit("linux");
    reveal_strlit("arm64");
    reveal_strlit("arm");
    reveal_strlit("x64");
    reveal_strlit("DepotDownloader.exe");
    reveal_strlit("DepotDownloader");
    reveal_strlit(".exe");
    assert("windows"@.len() == 7);
    assert("macos"@[0] == 'm');
    assert("linux"@[0] == 'l');
    assert("arm64"@.len() == 5);
    assert("arm"@[0] == 'a');
    assert("x64"@[0] == 'x');
    let url = asset_url(os, arch);
    let name = asset_name(os, arch);
    assert(url.subrange(url.len() - name.len(), url.len() - name.len() + name.len()) =~= name);
    assert("DepotDownloader.exe"@.subrange(15, 19) =~= ".exe"@);
    assert("DepotDownloader"@.subrange(11, 15)[0] == 'a');
}

/// The archive is fetched exactly where the executable is missing.
pub proof fn archives_are_fetched_once(binary_is_file: bool)
    ensures
        step_for(binary_is_file) == ProvisioningStep::DownloadArchive <==> !binary_is_file,
{
}

/// An error about the executable names it.
pub proof fn missing_executables_are_named(binary_name: String)
    ensures
        begins_with(error_text(ProvisioningError::BinaryNotFound { binary_name }), binary_name@),
{
    let text = error_text(ProvisioningError::BinaryNotFound { binary_name });
    assert(text.subrange(0, binary_name@.len() as int) =~= binary_name@);
}

/// The same of an archive read on Windows, under any directory that is more than
/// the beginning of a prefix.
pub proof fn windows_executables_are_found_by_name(
    dir: Seq<char>,
    name: Seq<char>,
    path: Seq<char>,
)
    requires
        is_plain_name(name),
        joins(dir, name, path),
        !begins_with(dir, "\\\\?\\"@),
        windows_prefix(path) == windows_prefix(dir),
    ensures
        is_binary(Some(path), Os::Windows) <==> name == "DepotDownloader.exe"@,
{
    joined_name_lies_in_the_windows_directory(dir, name, path);
}

/// The name that a path ends in holds no slash; read as one of Windows that is
/// not to be taken literally it holds no backslash either, and in a literal one
/// only no backslash.
pub proof fn names_hold_no_separator(path: Seq<char>, i: int)
    ensures
        0 <= i < last_component(path, PathStyle::Unix).len() ==> last_component(
            path,
            PathStyle::Unix,
        )[i] != '/',
        0 <= i < last_component(path, PathStyle::Windows).len() ==> last_component(
            path,
            PathStyle::Windows,
        )[i] != '\\',
        0 <= i < last_component(path, PathStyle::Windows).len() && !begins_with(
            path,
            "\\\\?\\"@,
        ) ==> last_component(path, PathStyle::Windows)[i] != '/',
{
    paths_are_taken_apart(path, PathStyle::Unix);
    paths_are_taken_apart(path, PathStyle::Windows);
    let unix = last_component(path, PathStyle::Unix);
    let windows = last_component(path, PathStyle::Windows);
    if 0 <= i < unix.len() {
        assert(!is_mark(unix[i], marks_of(path, PathStyle::Unix)));
    }
    if 0 <= i < windows.len() {
        assert(!is_mark(windows[i], marks_of(path, PathStyle::Windows)));
    }
}

/// A component ends at the first separator from its start on, or with the path.
pub proof fn components_end_at_separators(path: Seq<char>, from: nat, marks: Marks)
    requires
        from <= path.len(),
    ensures
        ({
            let end = component_end(path, from, marks) as int;
            &&& from <= end <= path.len()
            &&& forall|i: int| from <= i < end ==> !is_mark(#[trigger] path[i], marks)
            &&& end < path.len() ==> is_mark(path[end], marks)
        }),
    decreases path.len() - from,
{
    if from < path.len() && !is_mark(path[from as int], marks) {
        components_end_at_separators(path, from + 1, marks);
    }
}

/// A drive letter and its colon are the prefix of a path of Windows, whatever
/// follows; a path that begins with one separator or with a name has none; and
/// a share is one with its server: two separators, and two names apart by one.
pub proof fn windows_prefixes(
    letter: char,
    rest: Seq<char>,
    server: Seq<char>,
    share: Seq<char>,
)
    requires
        is_plain_name(server),
        is_plain_name(share),
        server != "?"@,
    ensures
        ('a' <= letter <= 'z') || ('A' <= letter <= 'Z') ==> windows_prefix(
            seq![letter, ':'] + rest,
        ) == 2,
        rest.len() > 1 && rest[0] != '\\' && rest[0] != '/' && rest[1] != ':' ==> windows_prefix(
            rest,
        ) == 0,
        windows_prefix(seq!['\\', '\\'] + server + seq!['\\'] + share) == server.len()
            + share.len() + 3,
{
    reveal_strlit("\\\\?\\");
    reveal_strlit("\\\\?\\UNC\\");
    reveal_strlit("?");
    reveal_strlit(".");
    let drive = seq![letter, ':'] + rest;
    if begins_with(drive, "\\\\?\\"@) {
        assert(drive.subrange(0, 4)[1] == ':');
    }
    assert(drive.take(2) =~= seq![letter, ':']);
    if begins_with(rest, "\\\\?\\"@) {
        assert(rest.subrange(0, 4)[0] == rest[0]);
    }
    let path = seq!['\\', '\\'] + server + seq!['\\'] + share;
    let marks = marks_of(path, PathStyle::Windows);
    if begins_with(path, "\\\\?\\"@) {
        assert(path.subrange(0, 4)[2] == path[2]);
        assert(path.subrange(0, 4)[3] == path[3]);
        assert(server[0] == '?');
        assert(server.len() == 1) by {
            if server.len() > 1 {
                assert(path[3] == server[1]);
            }
        }
        assert(server =~= "?"@);
    }
    if path[2] == '.' && is_mark(path[3], marks) {
        assert(server[0] == '.');
        if server.len() > 1 {
            assert(path[3] == server[1]);
        }
        assert(server =~= "."@);
    }
    let first = 2 + server.len();
    components_end_at_separators(path, 2, marks);
    let end = component_end(path, 2, marks) as int;
    assert(end == first) by {
        assert(path[first as int] == '\\');
        if end < first {
            assert(path[end] == server[end - 2]);
        }
        if end > first {
            assert(!is_mark(path[first as int], marks));
        }
    }
    components_end_at_separators(path, first + 1, marks);
    let last = component_end(path, first + 1, marks) as int;
    assert(last == path.len()) by {
        if last < path.len() {
            assert(path[last] == share[last - first - 1]);
        }
    }
}

} // verus!
