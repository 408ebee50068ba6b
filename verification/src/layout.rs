//! Where the toolchain and the game data live below the install root.
//!
//! A location is a list of path components, the install root first. It is
//! printed by joining the components with the platform's separator; the
//! printed path is what is handed to a tool, shown in a message and looked up
//! on disk.

use vstd::prelude::*;
use vstd::string::*;
use crate::config::CommonConfigData;
use crate::outcome::{enclosed, joined, texts, CommandError};

verus! {

/// The file name of an executable: `.exe` is added on Windows.
pub open spec fn bin_name(filename: Seq<char>, windows: bool) -> Seq<char> {
    if windows {
        filename + ".exe"@
    } else {
        filename
    }
}

/// `root/versions/{folder}/{version}`: the directory of the active toolchain.
pub open spec fn toolchain_path(config: CommonConfigData) -> Seq<Seq<char>> {
    seq![
        config.install_path@,
        "versions"@,
        config.active_version_folder@,
        config.active_version@,
    ]
}

/// `root/versions/{folder}/{version}/data`: the pristine data of the toolchain.
pub open spec fn versioned_data_path(config: CommonConfigData) -> Seq<Seq<char>> {
    toolchain_path(config).push("data"@)
}

/// `root/active/{game}/data`: the working data of a game.
pub open spec fn active_data_path(config: CommonConfigData, game_name: Seq<char>) -> Seq<
    Seq<char>,
> {
    seq![config.install_path@, "active"@, game_name, "data"@]
}

/// The error catalog that the toolchain ships inside a game's working data.
pub open spec fn catalog_path(config: CommonConfigData, game_name: Seq<char>) -> Seq<Seq<char>> {
    active_data_path(config, game_name).push("launcher"@).push("error-code-metadata.json"@)
}

/// `{data}/iso_data/{game}`: where a step finds its source if none is given.
pub open spec fn default_source_path(config: CommonConfigData, game_name: Seq<char>) -> Seq<
    Seq<char>,
> {
    active_data_path(config, game_name).push("iso_data"@).push(game_name)
}

/// The path of an executable inside the active toolchain directory.
pub open spec fn executable_path(
    config: CommonConfigData,
    name: Seq<char>,
    windows: bool,
) -> Seq<Seq<char>> {
    toolchain_path(config).push(bin_name(name, windows))
}

/// Whether a character separates path components on the platform.
pub open spec fn is_separator(c: char, windows: bool) -> bool {
    c == '/' || (windows && c == '\\')
}

/// The character that is put between path components on the platform.
pub open spec fn separator(windows: bool) -> char {
    if windows {
        '\\'
    } else {
        '/'
    }
}

/// A printed path with one more component: a separator goes between them
/// unless the path is empty or ends in one already.
pub open spec fn joined_path(left: Seq<char>, part: Seq<char>, windows: bool) -> Seq<char> {
    if left.len() == 0 || is_separator(left.last(), windows) {
        left + part
    } else {
        left.push(separator(windows)) + part
    }
}

/// A location as one printed path.
pub open spec fn printed_path(parts: Seq<Seq<char>>, windows: bool) -> Seq<char>
    decreases parts.len(),
{
    if parts.len() == 0 {
        Seq::empty()
    } else {
        joined_path(printed_path(parts.drop_last(), windows), parts.last(), windows)
    }
}

/// The printed path of a game's working data directory.
pub open spec fn data_dir_text(config: CommonConfigData, game_name: Seq<char>, windows: bool) -> Seq<
    char,
> {
    printed_path(active_data_path(config, game_name), windows)
}

/// The printed path of the default source of decompiling and compiling.
pub open spec fn default_source_text(
    config: CommonConfigData,
    game_name: Seq<char>,
    windows: bool,
) -> Seq<char> {
    printed_path(default_source_path(config, game_name), windows)
}

/// The printed path of an executable of the active toolchain.
pub open spec fn executable_text(config: CommonConfigData, name: Seq<char>, windows: bool) -> Seq<
    char,
> {
    printed_path(executable_path(config, name, windows), windows)
}

pub open spec fn missing_binary_text(shown_path: Seq<char>) -> Seq<char> {
    "Could not find the required binary '"@ + shown_path + "', can't perform operation"@
}

pub open spec fn missing_data_text(shown_path: Seq<char>) -> Seq<char> {
    "Could not locate relevant data directory '"@ + shown_path + "', can't perform operation"@
}

pub open spec fn copy_failure_text(cause: Seq<char>) -> Seq<char> {
    "Unable to copy data directory: '"@ + cause + "'"@
}

/// Adds a component to a printed path.
pub fn join_path(left: String, part: &str, windows: bool) -> (r: String)
    ensures
        r@ == joined_path(left@, part@, windows),
{
    let n: usize = left.as_str().unicode_len();
    if n == 0 {
        return left.concat(part);
    }
    let last = left.as_str().get_char(n - 1);
    if last == '/' || (windows && last == '\\') {
        return left.concat(part);
    }
    proof {
        reveal_strlit("\\");
        reveal_strlit("/");
    }
    let with_separator = if windows {
        left.concat("\\")
    } else {
        left.concat("/")
    };
    assert(with_separator@ =~= left@.push(separator(windows)));
    with_separator.concat(part)
}

/// Prints a location as one path.
pub fn print_path(parts: &Vec<String>, windows: bool) -> (r: String)
    ensures
        r@ == printed_path(texts(parts@), windows),
{
    let mut r = String::new();
    let mut i: usize = 0;
    assert(texts(parts@).take(0).len() == 0);
    while i < parts.len()
        invariant
            i <= parts.len(),
            r@ == printed_path(texts(parts@).take(i as int), windows),
        decreases parts.len() - i,
    {
        assert(texts(parts@).take(i + 1).drop_last() =~= texts(parts@).take(i as int));
        assert(texts(parts@).take(i + 1).last() == parts@[i as int]@);
        r = join_path(r, parts[i].as_str(), windows);
        i += 1;
    }
    assert(texts(parts@).take(parts.len() as int) =~= texts(parts@));
    r
}

/// The file name of an executable on this platform.
pub fn bin_ext(filename: &str, windows: bool) -> (r: String)
    ensures
        r@ == bin_name(filename@, windows),
{
    if windows {
        joined(filename, ".exe")
    } else {
        filename.to_owned()
    }
}

/// The directory of the active toolchain.
pub fn toolchain_dir(config: &CommonConfigData) -> (r: Vec<String>)
    ensures
        texts(r@) == toolchain_path(*config),
{
    let r = vec![
        config.install_path.clone(),
        "versions".to_owned(),
        config.active_version_folder.clone(),
        config.active_version.clone(),
    ];
    assert(texts(r@) =~= toolchain_path(*config));
    r
}

/// The pristine data directory of the active toolchain.
pub fn versioned_data_dir(config: &CommonConfigData) -> (r: Vec<String>)
    ensures
        texts(r@) == versioned_data_path(*config),
{
    let mut r = toolchain_dir(config);
    r.push("data".to_owned());
    assert(texts(r@) =~= versioned_data_path(*config));
    r
}

/// The working data directory of a game.
pub fn active_data_dir(config: &CommonConfigData, game_name: &str) -> (r: Vec<String>)
    ensures
        texts(r@) == active_data_path(*config, game_name@),
{
    let r = vec![
        config.install_path.clone(),
        "active".to_owned(),
        game_name.to_owned(),
        "data".to_owned(),
    ];
    assert(texts(r@) =~= active_data_path(*config, game_name@));
    r
}

/// The file that holds a game's error catalog.
pub fn error_catalog_file(config: &CommonConfigData, game_name: &str) -> (r: Vec<String>)
    ensures
        texts(r@) == catalog_path(*config, game_name@),
{
    let mut r = active_data_dir(config, game_name);
    r.push("launcher".to_owned());
    r.push("error-code-metadata.json".to_owned());
    assert(texts(r@) =~= catalog_path(*config, game_name@));
    r
}

/// The source directory that decompiling and compiling default to.
pub fn default_source_dir(config: &CommonConfigData, game_name: &str) -> (r: Vec<String>)
    ensures
        texts(r@) == default_source_path(*config, game_name@),
{
    let mut r = active_data_dir(config, game_name);
    r.push("iso_data".to_owned());
    r.push(game_name.to_owned());
    assert(texts(r@) =~= default_source_path(*config, game_name@));
    r
}

/// An executable of the toolchain and the directory it runs in.
#[derive(Debug, Clone)]
pub struct ExecutableLocation {
    pub executable_dir: Vec<String>,
    pub executable_path: Vec<String>,
}

impl ExecutableLocation {
    /// Whether this is where `name` lies in the active toolchain.
    pub open spec fn locates(
        &self,
        config: CommonConfigData,
        name: Seq<char>,
        windows: bool,
    ) -> bool {
        &&& texts(self.executable_dir@) == toolchain_path(config)
        &&& texts(self.executable_path@) == executable_path(config, name, windows)
    }
}

/// Where an executable of the active toolchain is expected.
pub fn exec_location(config_info: &CommonConfigData, executable_name: &str, windows: bool) -> (r:
    ExecutableLocation)
    ensures
        r.locates(*config_info, executable_name@, windows),
{
    let executable_dir = toolchain_dir(config_info);
    let mut file = toolchain_dir(config_info);
    file.push(bin_ext(executable_name, windows));
    assert(texts(file@) =~= executable_path(*config_info, executable_name@, windows));
    ExecutableLocation { executable_dir, executable_path: file }
}

/// Resolves an executable of the active toolchain. `exists` says whether the
/// caller found a file at the printed path of the executable. A missing file
/// is a failure that names that path.
pub fn get_exec_location(
    config_info: &CommonConfigData,
    executable_name: &str,
    windows: bool,
    exists: bool,
) -> (r: Result<ExecutableLocation, CommandError>)
    ensures
        exists <==> r.is_ok(),
        match r {
            Ok(location) => location.locates(*config_info, executable_name@, windows),
            Err(e) => e.is_binary_execution() && e.text() == missing_binary_text(
                executable_text(*config_info, executable_name@, windows),
            ),
        },
{
    let location = exec_location(config_info, executable_name, windows);
    if !exists {
        let shown = print_path(&location.executable_path, windows);
        return Err(
            CommandError::BinaryExecution(
                enclosed(
                    "Could not find the required binary '",
                    shown.as_str(),
                    "', can't perform operation",
                ),
            ),
        );
    }
    Ok(location)
}

/// A one-way mirror of a directory: `dst_dir` is to be replaced by a full
/// copy of `src_dir`, which is left untouched.
#[derive(Debug, Clone)]
pub struct MirrorJob {
    pub src_dir: Vec<String>,
    pub dst_dir: Vec<String>,
}

impl MirrorJob {
    /// Whether this job refreshes a game's working data from the pristine
    /// data of the active toolchain.
    pub open spec fn refreshes(&self, config: CommonConfigData, game_name: Seq<char>) -> bool {
        &&& texts(self.src_dir@) == versioned_data_path(config)
        &&& texts(self.dst_dir@) == active_data_path(config, game_name)
    }
}

/// The mirror that refreshes a game's working data.
pub fn copy_data_dir(config_info: &CommonConfigData, game_name: &str) -> (r: MirrorJob)
    ensures
        r.refreshes(*config_info, game_name@),
{
    MirrorJob {
        src_dir: versioned_data_dir(config_info),
        dst_dir: active_data_dir(config_info, game_name),
    }
}

/// The failure of an operation whose mirror failed for the given cause.
pub fn copy_failure(cause: &str) -> (e: CommandError)
    ensures
        e.is_installation(),
        e.text() == copy_failure_text(cause@),
{
    CommandError::Installation(enclosed("Unable to copy data directory: '", cause, "'"))
}

/// A game's working data directory, and the mirror to run before it is used.
#[derive(Debug, Clone)]
pub struct DataDirectory {
    pub path: Vec<String>,
    pub refresh: Option<MirrorJob>,
}

/// Resolves a game's working data directory. `exists` says whether the caller
/// found a directory at its printed path. Without `copy_directory` a missing
/// directory is a failure and nothing is to be changed on disk; with it the
/// directory is to be mirrored afresh from the toolchain's data, whether or
/// not it exists.
pub fn get_data_dir(
    config_info: &CommonConfigData,
    game_name: &str,
    copy_directory: bool,
    windows: bool,
    exists: bool,
) -> (r: Result<DataDirectory, CommandError>)
    ensures
        r.is_err() <==> (!exists && !copy_directory),
        match r {
            Ok(dir) => {
                &&& texts(dir.path@) == active_data_path(*config_info, game_name@)
                &&& dir.refresh.is_some() == copy_directory
                &&& copy_directory ==> dir.refresh.unwrap().refreshes(*config_info, game_name@)
            },
            Err(e) => e.is_binary_execution() && e.text() == missing_data_text(
                data_dir_text(*config_info, game_name@, windows),
            ),
        },
{
    let path = active_data_dir(config_info, game_name);
    if !exists && !copy_directory {
        let shown = print_path(&path, windows);
        return Err(
            CommandError::BinaryExecution(
                enclosed(
                    "Could not locate relevant data directory '",
                    shown.as_str(),
                    "', can't perform operation",
                ),
            ),
        );
    }
    let refresh = if copy_directory {
        Some(copy_data_dir(config_info, game_name))
    } else {
        None
    };
    Ok(DataDirectory { path, refresh })
}

} // verus!
