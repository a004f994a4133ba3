//! Getting hold of a DepotDownloader executable.

use vstd::prelude::*;

use crate::config::{is_own_data_dir, project_dirs, ProjectPaths};
use crate::depot_downloader::progress::optional_text;
use crate::paths::{
    is_plain_name, join_path, last_component, lies_in, split_last, style_of, Arch, Os,
};
use crate::text::{begins_with, ends_with, same_text};

verus! {

/// Why DepotDownloader could not be provisioned.
#[derive(Debug)]
pub enum ProvisioningError {
    /// The environment gives the program no directory for its data.
    NoDataDirectory,
    /// The archive holds no file of the binary's name.
    BinaryNotFound { binary_name: String },
}

/// What an error says.
pub open spec fn error_text(error: ProvisioningError) -> Seq<char> {
    match error {
        ProvisioningError::NoDataDirectory => {
            "could not determine a data directory for this platform"@
        },
        ProvisioningError::BinaryNotFound { binary_name } => binary_name@
            + " was not found inside the downloaded DepotDownloader archive"@,
    }
}

impl ProvisioningError {
    /// What the error says.
    pub fn message(&self) -> (text: String)
        ensures
            text@ == error_text(*self),
    {
        match self {
            ProvisioningError::NoDataDirectory => {
                "could not determine a data directory for this platform".to_owned()
            },
            ProvisioningError::BinaryNotFound { binary_name } => {
                let mut text = binary_name.clone();
                text.append(" was not found inside the downloaded DepotDownloader archive");
                text
            },
        }
    }
}

/// The name of a system in a release.
pub open spec fn os_name(os: Os) -> Seq<char> {
    match os {
        Os::Windows => "windows"@,
        Os::MacOs => "macos"@,
        Os::Linux => "linux"@,
    }
}

/// The name of a processor in a release.
pub open spec fn arch_name(arch: Arch) -> Seq<char> {
    match arch {
        Arch::Arm64 => "arm64"@,
        Arch::Arm => "arm"@,
        Arch::X64 => "x64"@,
    }
}

/// The name of the executable.
pub open spec fn binary_name(os: Os) -> Seq<char> {
    if os == Os::Windows {
        "DepotDownloader.exe"@
    } else {
        "DepotDownloader"@
    }
}

/// The name of the archive in a release.
pub open spec fn asset_name(os: Os, arch: Arch) -> Seq<char> {
    "DepotDownloader-"@ + os_name(os) + "-"@ + arch_name(arch) + ".zip"@
}

/// The address of the archive.
pub open spec fn asset_url(os: Os, arch: Arch) -> Seq<char> {
    "https://github.com/deezhizyu/depot-downloader/releases/latest/download/"@ + asset_name(
        os,
        arch,
    )
}

/// The name of a system in a release.
pub fn target_os_name(os: Os) -> (name: &'static str)
    ensures
        name@ == os_name(os),
{
    match os {
        Os::Windows => "windows",
        Os::MacOs => "macos",
        Os::Linux => "linux",
    }
}

/// The name of a processor in a release.
pub fn target_arch_name(arch: Arch) -> (name: &'static str)
    ensures
        name@ == arch_name(arch),
{
    match arch {
        Arch::Arm64 => "arm64",
        Arch::Arm => "arm",
        Arch::X64 => "x64",
    }
}

/// The name of the executable.
pub fn binary_file_name(os: Os) -> (name: &'static str)
    ensures
        name@ == binary_name(os),
{
    if os == Os::Windows {
        "DepotDownloader.exe"
    } else {
        "DepotDownloader"
    }
}

/// The name of the archive in a release.
pub fn asset_file_name(os: Os, arch: Arch) -> (name: String)
    ensures
        name@ == asset_name(os, arch),
{
    let mut name = "DepotDownloader-".to_owned();
    name.append(target_os_name(os));
    name.append("-");
    name.append(target_arch_name(arch));
    name.append(".zip");
    name
}

/// The address of the archive: that of the current release of the fork of
/// DepotDownloader that adds the `-json` output mode.
pub fn release_asset_url(os: Os, arch: Arch) -> (url: String)
    ensures
        url@ == asset_url(os, arch),
{
    let mut url =
        "https://github.com/deezhizyu/depot-downloader/releases/latest/download/".to_owned();
    let name = asset_file_name(os, arch);
    url.append(name.as_str());
    url
}

/// Where DepotDownloader is installed, given the program's directories.
pub fn install_dir_in(dirs: &Option<ProjectPaths>) -> (dir: Result<String, ProvisioningError>)
    ensures
        dir is Ok == dirs is Some,
        dir is Err ==> dir->Err_0 == ProvisioningError::NoDataDirectory,
        dir is Ok ==> lies_in(
            dirs.unwrap().data_dir@,
            "depot-downloader-fork"@,
            dir->Ok_0@,
        ),
{
    proof {
        names_are_plain();
    }
    match dirs {
        Some(dirs) => Ok(join_path(dirs.data_dir.as_str(), "depot-downloader-fork")),
        None => Err(ProvisioningError::NoDataDirectory),
    }
}

/// `path` is that of DepotDownloader's directory in a data directory of this
/// program's own.
pub open spec fn is_own_install_dir(path: Seq<char>) -> bool {
    exists|dir: Seq<char>| #[trigger]
        is_own_data_dir(dir) && !begins_with(dir, "\\\\?\\"@) && lies_in(
            dir,
            "depot-downloader-fork"@,
            path,
        )
}

/// Where DepotDownloader is installed: in a directory of its own under the
/// program's own data directory, if the environment gives it one. Of a path that
/// starts with `\\?\`, which Windows may write anew, only the end is known.
pub fn install_dir() -> (dir: Result<String, ProvisioningError>)
    ensures
        match dir {
            Ok(dir) => {
                &&& ends_with(dir@, "depot-downloader-fork"@)
                &&& !begins_with(dir@, "\\\\?\\"@) ==> is_own_install_dir(dir@)
            },
            Err(error) => error == ProvisioningError::NoDataDirectory,
        },
{
    let dirs = project_dirs();
    install_dir_in(&dirs)
}

/// Where the executable and its archive go, and where the archive comes from.
#[derive(Debug)]
pub struct Provisioning {
    pub binary_path: String,
    pub archive_path: String,
    pub url: String,
}

/// What provisioning DepotDownloader takes, given where it is installed.
pub fn provisioning_plan(install_dir: &str, os: Os, arch: Arch) -> (plan: Provisioning)
    ensures
        lies_in(install_dir@, binary_name(os), plan.binary_path@),
        lies_in(install_dir@, asset_name(os, arch), plan.archive_path@),
        plan.url@ == asset_url(os, arch),
{
    proof {
        names_are_plain();
        asset_name_is_plain(os, arch);
    }
    let asset = asset_file_name(os, arch);
    Provisioning {
        binary_path: join_path(install_dir, binary_file_name(os)),
        archive_path: join_path(install_dir, asset.as_str()),
        url: release_asset_url(os, arch),
    }
}

/// What is left to do to get hold of DepotDownloader.
#[derive(Debug, Clone, Copy, PartialEq, Eq, Structural)]
pub enum ProvisioningStep {
    /// It is there already.
    UseBinary,
    /// The archive is to be downloaded and the executable taken out of it.
    DownloadArchive,
}

/// What is left to do, by whether the executable is there.
pub open spec fn step_for(binary_is_file: bool) -> ProvisioningStep {
    if binary_is_file {
        ProvisioningStep::UseBinary
    } else {
        ProvisioningStep::DownloadArchive
    }
}

/// The archive is downloaded the first time only.
pub fn provisioning_step(binary_is_file: bool) -> (step: ProvisioningStep)
    ensures
        step == step_for(binary_is_file),
        step == if binary_is_file {
            ProvisioningStep::UseBinary
        } else {
            ProvisioningStep::DownloadArchive
        },
{
    if binary_is_file {
        ProvisioningStep::UseBinary
    } else {
        ProvisioningStep::DownloadArchive
    }
}

/// The archive's entry is the executable: its path is safe to use, and ends in
/// the executable's name.
pub open spec fn is_binary(entry: Option<Seq<char>>, os: Os) -> bool {
    match entry {
        Some(path) => last_component(path, style_of(os)) == binary_name(os),
        None => false,
    }
}

/// Whether an entry of the archive is the executable. `entry` is its path, or
/// `None` where it would lead out of the directory it is extracted to.
pub fn entry_is_binary(entry: &Option<String>, os: Os) -> (yes: bool)
    ensures
        yes == is_binary(optional_text(*entry), os),
{
    match entry {
        Some(path) => {
            let split = split_last(path.as_str(), os.path_style());
            same_text(split.name.as_str(), binary_file_name(os))
        },
        None => false,
    }
}

/// Finds the first entry of the archive that is the executable.
pub fn find_binary_entry(entries: &Vec<Option<String>>, os: Os) -> (found: Result<
    usize,
    ProvisioningError,
>)
    ensures
        match found {
            Ok(index) => {
                &&& index < entries@.len()
                &&& is_binary(optional_text(entries@[index as int]), os)
                &&& forall|i: int|
                    0 <= i < index ==> !is_binary(optional_text(#[trigger] entries@[i]), os)
            },
            Err(error) => {
                &&& forall|i: int|
                    0 <= i < entries@.len() ==> !is_binary(
                        optional_text(#[trigger] entries@[i]),
                        os,
                    )
                &&& error_text(error) == binary_name(os)
                    + " was not found inside the downloaded DepotDownloader archive"@
            },
        },
{
    let mut index: usize = 0;
    while index < entries.len()
        invariant
            index <= entries@.len(),
            forall|i: int|
                0 <= i < index ==> !is_binary(optional_text(#[trigger] entries@[i]), os),
        decreases entries@.len() - index,
    {
        if entry_is_binary(&entries[index], os) {
            return Ok(index);
        }
        index = index + 1;
    }
    Err(ProvisioningError::BinaryNotFound { binary_name: binary_file_name(os).to_owned() })
}

/// The mode of a file with permission for everybody to execute it.
pub fn executable_mode(mode: u32) -> (executable: u32)
    ensures
        executable == mode | 0o111,
{
    mode | 0o111
}

/// A file made executable keeps every permission it had.
pub proof fn executable_mode_takes_nothing(mode: u32)
    ensures
        (mode | 0o111) & mode == mode,
        (mode | 0o111) & 0o111 == 0o111,
        (mode | 0o111) | 0o111 == mode | 0o111,
{
    assert((mode | 0o111) & mode == mode) by (bit_vector);
    assert((mode | 0o111) & 0o111 == 0o111) by (bit_vector);
    assert((mode | 0o111) | 0o111 == mode | 0o111) by (bit_vector);
}

/// The names of the directory and of the executable are one component of a
/// path each.
proof fn names_are_plain()
    ensures
        is_plain_name("depot-downloader-fork"@),
        is_plain_name("DepotDownloader.exe"@),
        is_plain_name("DepotDownloader"@),
{
    reveal_strlit("depot-downloader-fork");
    reveal_strlit("DepotDownloader.exe");
    reveal_strlit("DepotDownloader");
    reveal_strlit(".");
    reveal_strlit("..");
    assert("depot-downloader-fork"@.len() == 21);
    assert("DepotDownloader.exe"@.len() == 19);
    assert("DepotDownloader"@.len() == 15);
}

/// The name of the archive is one component of a path.
proof fn asset_name_is_plain(os: Os, arch: Arch)
    ensures
        is_plain_name(asset_name(os, arch)),
{
    reveal_strlit("DepotDownloader-");
    reveal_strlit("windows");
    reveal_strlit("macos");
    reveal_strlit("linux");
    reveal_strlit("-");
    reveal_strlit("arm64");
    reveal_strlit("arm");
    reveal_strlit("x64");
    reveal_strlit(".zip");
    reveal_strlit(".");
    reveal_strlit("..");
    let first = "DepotDownloader-"@;
    let second = os_name(os);
    let third = "-"@;
    let fourth = arch_name(arch);
    let last = ".zip"@;
    assert(first.len() == 16);
    assert forall|i: int| 0 <= i < second.len() implies no_path_mark(#[trigger] second[i]) by {}
    assert forall|i: int| 0 <= i < fourth.len() implies no_path_mark(#[trigger] fourth[i]) by {}
    assert forall|i: int| 0 <= i < first.len() implies no_path_mark(#[trigger] first[i]) by {}
    let name = asset_name(os, arch);
    assert forall|i: int| 0 <= i < name.len() implies {
        let c = #[trigger] name[i];
        c != '/' && c != '\\' && c != ':'
    } by {
        let after_second = first.len() + second.len();
        if i < first.len() {
            assert(no_path_mark(first[i]));
        } else if i < after_second {
            assert(no_path_mark(second[i - first.len()]));
        } else if after_second < i < after_second + 1 + fourth.len() {
            assert(no_path_mark(fourth[i - after_second - 1]));
        }
    }
}

/// The character means nothing in a path.
spec fn no_path_mark(c: char) -> bool {
    c != '/' && c != '\\' && c != ':'
}

} // verus!
