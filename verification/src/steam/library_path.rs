//! Where Steam keeps its games.

use vstd::prelude::*;

use crate::depot_downloader::progress::optional_text;
use crate::paths::{adjoins, is_plain_name, join_path, path_under, under, Os};
use crate::text::{begins_with, ends_with, starts_with, views};

verus! {

/// `directories::BaseDirs` knows the user's home directory from the
/// environment. Nothing is promised of what it is, or that there is one.
#[verifier::external_body]
fn home_dir() -> (home: Option<String>)
{
    directories::BaseDirs::new().map(|dirs| dirs.home_dir().to_string_lossy().into_owned())
}

/// The well-known places of `steamapps/common`, given the home directory and
/// where a Windows system keeps its 32 bit programs.
pub open spec fn well_known_dirs(
    os: Os,
    home: Option<Seq<char>>,
    program_files_x86: Option<Seq<char>>,
) -> Seq<Seq<char>> {
    match os {
        Os::Windows => {
            let programs = match program_files_x86 {
                Some(programs) => programs,
                None => "C:\\Program Files (x86)"@,
            };
            seq![under(os, programs, "Steam\\steamapps\\common"@)]
        },
        Os::MacOs => match home {
            Some(home) => seq![
                under(os, home, "Library/Application Support/Steam/steamapps/common"@),
            ],
            None => Seq::empty(),
        },
        Os::Linux => match home {
            Some(home) => seq![
                under(os, home, ".local/share/Steam/steamapps/common"@),
                under(os, home, ".steam/steam/steamapps/common"@),
                under(
                    os,
                    home,
                    ".var/app/com.valvesoftware.Steam/data/Steam/steamapps/common"@,
                ),
            ],
            None => Seq::empty(),
        },
    }
}

/// A Windows system writes the place of its programs anew where it joins to it.
pub open spec fn is_written_anew(os: Os, program_files_x86: Option<Seq<char>>) -> bool {
    &&& os == Os::Windows
    &&& program_files_x86 is Some
    &&& begins_with(program_files_x86.unwrap(), "\\\\?\\"@)
}

/// `dirs` are the well-known places of `steamapps/common`. Of one under a place
/// of programs that starts with `\\?\` and is written anew, it is known that it
/// starts so too and ends in `common`.
pub open spec fn are_well_known(
    os: Os,
    home: Option<Seq<char>>,
    program_files_x86: Option<Seq<char>>,
    dirs: Seq<Seq<char>>,
) -> bool {
    if is_written_anew(os, program_files_x86) {
        &&& dirs.len() == 1
        &&& begins_with(dirs[0], "\\\\?\\"@)
        &&& ends_with(dirs[0], "common"@)
    } else {
        dirs == well_known_dirs(os, home, program_files_x86)
    }
}

/// The names of a library's folders are one component of a path each.
proof fn folder_names_are_plain()
    ensures
        is_plain_name("Steam"@),
        is_plain_name("steamapps"@),
        is_plain_name("common"@),
{
    reveal_strlit("Steam");
    reveal_strlit("steamapps");
    reveal_strlit("common");
    reveal_strlit(".");
    reveal_strlit("..");
    assert("Steam"@.len() == 5);
    assert("steamapps"@.len() == 9);
    assert("common"@.len() == 6);
}

/// The library's folder under a place of programs.
fn library_under(programs: &str) -> (dir: String)
    ensures
        begins_with(programs@, "\\\\?\\"@) ==> begins_with(dir@, "\\\\?\\"@) && ends_with(dir@, "common"@),
        !begins_with(programs@, "\\\\?\\"@) ==> dir@ == under(
            Os::Windows,
            programs@,
            "Steam\\steamapps\\common"@,
        ),
{
    if starts_with(programs, "\\\\?\\") {
        proof {
            folder_names_are_plain();
        }
        let steam = join_path(programs, "Steam");
        let steamapps = join_path(steam.as_str(), "steamapps");
        join_path(steamapps.as_str(), "common")
    } else {
        path_under(Os::Windows, programs, "Steam\\steamapps\\common")
    }
}

/// The well-known places of `steamapps/common`, given the home directory and
/// where a Windows system keeps its 32 bit programs.
pub fn candidate_dirs_from(os: Os, home: &Option<String>, program_files_x86: &Option<String>) -> (dirs:
    Vec<String>)
    ensures
        are_well_known(
            os,
            optional_text(*home),
            optional_text(*program_files_x86),
            views(dirs@),
        ),
{
    let mut dirs: Vec<String> = Vec::new();
    proof {
        reveal_strlit("C:\\Program Files (x86)");
        reveal_strlit("\\\\?\\");
        assert("C:\\Program Files (x86)"@.subrange(0, 4)[0] == 'C');
    }
    match os {
        Os::Windows => {
            let programs = match program_files_x86 {
                Some(programs) => programs.as_str(),
                None => "C:\\Program Files (x86)",
            };
            dirs.push(library_under(programs));
        },
        Os::MacOs => {
            if let Some(home) = home {
                dirs.push(
                    path_under(
                        os,
                        home.as_str(),
                        "Library/Application Support/Steam/steamapps/common",
                    ),
                );
            }
        },
        Os::Linux => {
            if let Some(home) = home {
                let home = home.as_str();
                dirs.push(path_under(os, home, ".local/share/Steam/steamapps/common"));
                dirs.push(path_under(os, home, ".steam/steam/steamapps/common"));
                dirs.push(
                    path_under(
                        os,
                        home,
                        ".var/app/com.valvesoftware.Steam/data/Steam/steamapps/common",
                    ),
                );
            }
        },
    }
    assert(!is_written_anew(os, optional_text(*program_files_x86)) ==> views(dirs@)
        =~= well_known_dirs(os, optional_text(*home), optional_text(*program_files_x86)));
    dirs
}

/// The well-known places of `steamapps/common` for whatever home directory
/// the user has.
pub fn candidate_dirs(os: Os, program_files_x86: &Option<String>) -> (dirs: Vec<String>)
    ensures
        exists|home: Option<Seq<char>>| #[trigger]
            are_well_known(os, home, optional_text(*program_files_x86), views(dirs@)),
        os == Os::Windows ==> are_well_known(
            os,
            None,
            optional_text(*program_files_x86),
            views(dirs@),
        ),
{
    let home = home_dir();
    let dirs = candidate_dirs_from(os, &home, program_files_x86);
    assert(are_well_known(
        os,
        optional_text(home),
        optional_text(*program_files_x86),
        views(dirs@),
    ));
    dirs
}

/// The first of the places that exists.
pub open spec fn first_existing(dirs: Seq<Seq<char>>, exists_on_disk: Seq<bool>) -> Option<Seq<char>>
    decreases dirs.len(),
{
    if dirs.len() == 0 || exists_on_disk.len() == 0 {
        None
    } else if exists_on_disk[0] {
        Some(dirs[0])
    } else {
        first_existing(dirs.drop_first(), exists_on_disk.drop_first())
    }
}

/// The user's default Steam library's `steamapps/common` folder: the first of
/// the well-known places that is a directory, as `is_dir` says of each.
pub fn default_steam_common_dir(dirs: &Vec<String>, is_dir: &Vec<bool>) -> (common: Option<String>)
    ensures
        optional_text(common) == first_existing(views(dirs@), is_dir@),
{
    let mut i: usize = 0;
    let ghost all = views(dirs@);
    assert(all.skip(0) =~= all && is_dir@.skip(0) =~= is_dir@);
    while i < dirs.len() && i < is_dir.len()
        invariant
            i <= dirs@.len(),
            i <= is_dir@.len(),
            all == views(dirs@),
            first_existing(all, is_dir@) == first_existing(
                all.skip(i as int),
                is_dir@.skip(i as int),
            ),
        decreases dirs@.len() - i,
    {
        if is_dir[i] {
            return Some(dirs[i].clone());
        }
        assert(all.skip(i as int).drop_first() =~= all.skip(i + 1));
        assert(is_dir@.skip(i as int).drop_first() =~= is_dir@.skip(i + 1));
        i = i + 1;
    }
    None
}

/// Where a game should land by default: a subfolder named after its app id
/// inside the Steam library, as Steam itself keeps one folder per game.
/// DepotDownloader writes directly into whatever directory it is given, so
/// without this it would mix a game's files into the shared folder.
pub fn default_download_dir_for_app(app_id: &str, common: &Option<String>) -> (dir: Option<String>)
    ensures
        dir is Some == common is Some,
        dir is Some ==> adjoins(common.unwrap()@, app_id@, dir.unwrap()@),
{
    match common {
        Some(common) => Some(join_path(common.as_str(), app_id)),
        None => None,
    }
}

/// The first existing place is the first: it exists, and none before it does.
pub proof fn first_existing_is_the_first(dirs: Seq<Seq<char>>, exists_on_disk: Seq<bool>, at: int)
    requires
        0 <= at < dirs.len(),
        dirs.len() == exists_on_disk.len(),
        exists_on_disk[at],
        forall|i: int| 0 <= i < at ==> !exists_on_disk[i],
    ensures
        first_existing(dirs, exists_on_disk) == Some(dirs[at]),
    decreases at,
{
    if at > 0 {
        let rest = exists_on_disk.drop_first();
        assert(forall|i: int| 0 <= i < rest.len() ==> rest[i] == exists_on_disk[i + 1]);
        first_existing_is_the_first(dirs.drop_first(), rest, at - 1);
    }
}

} // verus!
