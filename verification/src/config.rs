//! Settings kept between launches.

use vstd::prelude::*;

use crate::depot_downloader::process::copy_optional;
use crate::depot_downloader::progress::optional_text;
use crate::paths::{join_path, lies_in};
use crate::text::{ascii_lower, begins_with, ends_with};

verus! {

/// Settings kept between launches: what the user typed last time, and where
/// the provisioned DepotDownloader binary ended up.
#[derive(Debug)]
pub struct Config {
    pub last_app_id: String,
    pub last_download_location: Option<String>,
    pub depot_downloader_binary: Option<String>,
    /// The Steam account name of a remembered login, or `None` if the user
    /// has not logged in yet or has logged out.
    pub logged_in_username: Option<String>,
}

/// Settings with their texts as sequences of characters.
#[verifier::ext_equal]
pub struct ConfigView {
    pub last_app_id: Seq<char>,
    pub last_download_location: Option<Seq<char>>,
    pub depot_downloader_binary: Option<Seq<char>>,
    pub logged_in_username: Option<Seq<char>>,
}

impl View for Config {
    type V = ConfigView;

    open spec fn view(&self) -> ConfigView {
        ConfigView {
            last_app_id: self.last_app_id@,
            last_download_location: optional_text(self.last_download_location),
            depot_downloader_binary: optional_text(self.depot_downloader_binary),
            logged_in_username: optional_text(self.logged_in_username),
        }
    }
}

/// The settings of a first launch.
pub open spec fn default_config() -> ConfigView {
    ConfigView {
        last_app_id: Seq::empty(),
        last_download_location: None,
        depot_downloader_binary: None,
        logged_in_username: None,
    }
}

impl Default for Config {
    fn default() -> (config: Config)
        ensures
            config@ == default_config(),
    {
        Config {
            last_app_id: String::new(),
            last_download_location: None,
            depot_downloader_binary: None,
            logged_in_username: None,
        }
    }
}

impl Clone for Config {
    fn clone(&self) -> (copy: Config)
        ensures
            copy@ == self@,
    {
        Config {
            last_app_id: self.last_app_id.clone(),
            last_download_location: copy_optional(&self.last_download_location),
            depot_downloader_binary: copy_optional(&self.depot_downloader_binary),
            logged_in_username: copy_optional(&self.logged_in_username),
        }
    }
}

impl Config {
    /// The settings to start with: those that were stored, or those of a first
    /// launch where none were or they cannot be read.
    pub fn load(stored: Option<Config>) -> (config: Config)
        ensures
            config@ == match stored {
                Some(stored) => stored@,
                None => default_config(),
            },
    {
        match stored {
            Some(stored) => stored,
            None => Config::default(),
        }
    }
}

/// The directories that belong to this program.
#[derive(Debug)]
pub struct ProjectPaths {
    pub config_dir: String,
    pub data_dir: String,
}

/// A name of letters, digits and spaces that does not start with a space.
pub open spec fn is_simple_name(name: Seq<char>) -> bool {
    &&& name.len() > 0
    &&& name[0] != ' '
    &&& forall|i: int|
        0 <= i < name.len() ==> {
            let c = #[trigger] name[i];
            ('a' <= c && c <= 'z') || ('A' <= c && c <= 'Z') || ('0' <= c && c <= '9') || c == ' '
        }
}

/// A name as it is written in a path on Linux: in small letters and without
/// spaces.
pub open spec fn in_small_letters(name: Seq<char>) -> Seq<char>
    decreases name.len(),
{
    if name.len() == 0 {
        Seq::empty()
    } else if name.last() == ' ' {
        in_small_letters(name.drop_last())
    } else {
        in_small_letters(name.drop_last()).push(ascii_lower(name.last()))
    }
}

/// A name as it is written in a path on macOS: with dashes for spaces.
pub open spec fn with_dashes(name: Seq<char>) -> Seq<char> {
    Seq::new(
        name.len(),
        |i: int|
            if name[i] == ' ' {
                '-'
            } else {
                name[i]
            },
    )
}

/// `dir` ends as a directory of the program with these names does: on Linux in
/// the application's name, on macOS in all three, and on Windows in `kind`,
/// within the directories of the organization and the application.
pub open spec fn ends_in_program(
    dir: Seq<char>,
    qualifier: Seq<char>,
    organization: Seq<char>,
    application: Seq<char>,
    kind: Seq<char>,
) -> bool {
    ||| ends_with(dir, "/"@ + in_small_letters(application))
    ||| ends_with(
        dir,
        "/"@ + qualifier + "."@ + with_dashes(organization) + "."@ + with_dashes(application),
    )
    ||| ends_with(dir, organization + "\\"@ + application + "\\"@ + kind)
}

/// `dir` is a configuration directory of this program's own.
pub open spec fn is_own_config_dir(dir: Seq<char>) -> bool {
    ||| ends_with(dir, "/depotdownloadergui"@)
    ||| ends_with(dir, "/dev.DepotDownloaderGpui.DepotDownloader-GUI"@)
    ||| ends_with(dir, "DepotDownloaderGpui\\DepotDownloader GUI\\config"@)
}

/// `dir` is a data directory of this program's own.
pub open spec fn is_own_data_dir(dir: Seq<char>) -> bool {
    ||| ends_with(dir, "/depotdownloadergui"@)
    ||| ends_with(dir, "/dev.DepotDownloaderGpui.DepotDownloader-GUI"@)
    ||| ends_with(dir, "DepotDownloaderGpui\\DepotDownloader GUI\\data"@)
}

/// `directories::ProjectDirs::from` knows the directories of a program from
/// the environment: none where it names no home directory, and else a
/// configuration and a data directory (`ProjectDirs::config_dir`, `data_dir`)
/// that end in what the system makes of the program's names. What stands before
/// that is not stated: it is up to the environment.
#[verifier::external_body]
fn program_dirs(qualifier: &str, organization: &str, application: &str) -> (dirs: Option<
    ProjectPaths,
>)
    requires
        is_simple_name(qualifier@),
        is_simple_name(organization@),
        is_simple_name(application@),
    ensures
        dirs is Some ==> ends_in_program(
            dirs.unwrap().config_dir@,
            qualifier@,
            organization@,
            application@,
            "config"@,
        ),
        dirs is Some ==> ends_in_program(
            dirs.unwrap().data_dir@,
            qualifier@,
            organization@,
            application@,
            "data"@,
        ),
{
    directories::ProjectDirs::from(qualifier, organization, application).map(
        |dirs|
            ProjectPaths {
                config_dir: dirs.config_dir().to_string_lossy().into_owned(),
                data_dir: dirs.data_dir().to_string_lossy().into_owned(),
            },
    )
}

/// The directories that belong to this program, if the environment gives it
/// any.
pub fn project_dirs() -> (dirs: Option<ProjectPaths>)
    ensures
        dirs is Some ==> is_own_config_dir(dirs.unwrap().config_dir@),
        dirs is Some ==> is_own_data_dir(dirs.unwrap().data_dir@),
{
    proof {
        names_of_this_program();
    }
    program_dirs("dev", "DepotDownloaderGpui", "DepotDownloader GUI")
}

/// Small letters of a name put together from two are those of the two.
proof fn small_letters_of_both(first: Seq<char>, second: Seq<char>)
    ensures
        in_small_letters(first + second) == in_small_letters(first) + in_small_letters(second),
    decreases second.len(),
{
    if second.len() == 0 {
        assert(first + second =~= first);
    } else {
        assert((first + second).drop_last() =~= first + second.drop_last());
        small_letters_of_both(first, second.drop_last());
        assert(in_small_letters(first + second) =~= in_small_letters(first) + in_small_letters(
            second,
        ));
    }
}

/// Small letters of a name without spaces.
proof fn small_letters_of_word(word: Seq<char>, small: Seq<char>)
    requires
        word.len() == small.len(),
        forall|i: int|
            0 <= i < word.len() ==> (#[trigger] word[i]) != ' ' && small[i] == ascii_lower(word[i]),
    ensures
        in_small_letters(word) == small,
    decreases word.len(),
{
    if word.len() > 0 {
        small_letters_of_word(word.drop_last(), small.drop_last());
        assert(small =~= small.drop_last().push(small.last()));
    } else {
        assert(in_small_letters(word) =~= small);
    }
}

/// What the systems make of this program's names.
proof fn names_of_this_program()
    ensures
        is_simple_name("dev"@),
        is_simple_name("DepotDownloaderGpui"@),
        is_simple_name("DepotDownloader GUI"@),
        "/"@ + in_small_letters("DepotDownloader GUI"@) == "/depotdownloadergui"@,
        "/"@ + "dev"@ + "."@ + with_dashes("DepotDownloaderGpui"@) + "."@ + with_dashes(
            "DepotDownloader GUI"@,
        ) == "/dev.DepotDownloaderGpui.DepotDownloader-GUI"@,
        "DepotDownloaderGpui"@ + "\\"@ + "DepotDownloader GUI"@ + "\\"@ + "config"@
            == "DepotDownloaderGpui\\DepotDownloader GUI\\config"@,
        "DepotDownloaderGpui"@ + "\\"@ + "DepotDownloader GUI"@ + "\\"@ + "data"@
            == "DepotDownloaderGpui\\DepotDownloader GUI\\data"@,
{
    reveal_strlit("dev");
    reveal_strlit("DepotDownloaderGpui");
    reveal_strlit("DepotDownloader GUI");
    reveal_strlit("DepotDownloader");
    reveal_strlit("GUI");
    reveal_strlit("depotdownloader");
    reveal_strlit("gui");
    reveal_strlit("/");
    reveal_strlit(".");
    reveal_strlit("\\");
    reveal_strlit("config");
    reveal_strlit("data");
    reveal_strlit("/depotdownloadergui");
    reveal_strlit("/dev.DepotDownloaderGpui.DepotDownloader-GUI");
    reveal_strlit("DepotDownloaderGpui\\DepotDownloader GUI\\config");
    reveal_strlit("DepotDownloaderGpui\\DepotDownloader GUI\\data");
    let space = seq![' '];
    assert("DepotDownloader GUI"@ =~= "DepotDownloader"@ + (space + "GUI"@));
    small_letters_of_both("DepotDownloader"@, space + "GUI"@);
    small_letters_of_both(space, "GUI"@);
    small_letters_of_word("DepotDownloader"@, "depotdownloader"@);
    small_letters_of_word("GUI"@, "gui"@);
    assert(in_small_letters(space) =~= Seq::empty()) by {
        reveal_with_fuel(in_small_letters, 2);
    }
    assert("/"@ + in_small_letters("DepotDownloader GUI"@) =~= "/depotdownloadergui"@);
    assert(with_dashes("DepotDownloaderGpui"@) =~= "DepotDownloaderGpui"@);
    assert("/"@ + "dev"@ + "."@ + with_dashes("DepotDownloaderGpui"@) + "."@ + with_dashes(
        "DepotDownloader GUI"@,
    ) =~= "/dev.DepotDownloaderGpui.DepotDownloader-GUI"@);
    assert("DepotDownloaderGpui"@ + "\\"@ + "DepotDownloader GUI"@ + "\\"@ + "config"@
        =~= "DepotDownloaderGpui\\DepotDownloader GUI\\config"@);
    assert("DepotDownloaderGpui"@ + "\\"@ + "DepotDownloader GUI"@ + "\\"@ + "data"@
        =~= "DepotDownloaderGpui\\DepotDownloader GUI\\data"@);
}

/// Where the settings are stored, given the program's directories.
pub fn config_file_path_in(dirs: &Option<ProjectPaths>) -> (path: Option<String>)
    ensures
        path is Some == dirs is Some,
        path is Some ==> lies_in(dirs.unwrap().config_dir@, "config.json"@, path.unwrap()@),
{
    proof {
        config_file_name_is_plain();
    }
    match dirs {
        Some(dirs) => Some(join_path(dirs.config_dir.as_str(), "config.json")),
        None => None,
    }
}

/// `path` is that of the settings file in a directory of this program's own.
pub open spec fn is_own_config_file(path: Seq<char>) -> bool {
    exists|dir: Seq<char>| #[trigger]
        is_own_config_dir(dir) && !begins_with(dir, "\\\\?\\"@) && lies_in(
            dir,
            "config.json"@,
            path,
        )
}

/// Where the settings are stored: in the program's own configuration
/// directory, if the environment gives it one. Of a path that starts with
/// `\\?\`, which Windows may write anew, only the end is known.
pub fn config_file_path() -> (path: Option<String>)
    ensures
        path is Some ==> ends_with(path.unwrap()@, "config.json"@),
        path is Some && !begins_with(path.unwrap()@, "\\\\?\\"@) ==> is_own_config_file(
            path.unwrap()@,
        ),
{
    let dirs = project_dirs();
    config_file_path_in(&dirs)
}

/// The name of the settings file is one component of a path.
proof fn config_file_name_is_plain()
    ensures
        crate::paths::is_plain_name("config.json"@),
{
    reveal_strlit("config.json");
    reveal_strlit(".");
    reveal_strlit("..");
    assert("config.json"@.len() == 11);
}

} // verus!
