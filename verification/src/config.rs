//! Where the configuration lives, and which ignore file a run loads.
//!
//! The caller reads the environment and looks for files; the choice among
//! what it found is made here.

use crate::paths::{join_path, joined_path};
use vstd::prelude::*;

verus! {

/// Why no configuration root could be named.
#[derive(Clone, Copy, Debug, PartialEq, Eq, Structural)]
pub enum ConfigError {
    /// Neither `XDG_CONFIG_HOME` nor `HOME` is set.
    MissingEnvironment,
}

/// Where the chosen ignore file comes from, in the order of precedence.
#[derive(Clone, Copy, Debug, PartialEq, Eq, Structural)]
pub enum ConfigOrigin {
    /// Named on the command line; it may not exist.
    Explicit,
    /// Found under the configuration root.
    ConfigRoot,
    /// Found under the base directory.
    BaseDir,
    /// Found nowhere: the caller creates it under the configuration root,
    /// with the default contents.
    Created,
}

/// The ignore file to load, and where it comes from.
#[derive(Debug)]
pub struct ConfigFile {
    pub path: String,
    pub origin: ConfigOrigin,
}

/// The directory that holds the ignore file, under `dir`.
pub open spec fn config_directory_under(dir: Seq<char>) -> Seq<char> {
    joined_path(dir, "dotlinker"@)
}

/// The ignore file's path under `dir`.
pub open spec fn ignore_file_under(dir: Seq<char>) -> Seq<char> {
    joined_path(config_directory_under(dir), "dotlinkerignore"@)
}

/// The contents of a newly created ignore file.
pub open spec fn default_ignore_text() -> Seq<char> {
    "# This file is used to ignore files when symlinking\n.git*\nREADME.md\nLICENSE"@
}

/// The configuration root: `XDG_CONFIG_HOME` as it stands where it is set,
/// else `.config` under `HOME`.
pub fn get_config_path(xdg_config_home: Option<String>, home: Option<String>) -> (root: Result<
    String,
    ConfigError,
>)
    ensures
        match (xdg_config_home, home) {
            (Some(xdg), _) => root == Ok::<String, ConfigError>(xdg),
            (None, Some(home)) => root is Ok && root->Ok_0@ == joined_path(home@, ".config"@),
            (None, None) => root == Err::<String, ConfigError>(ConfigError::MissingEnvironment),
        },
{
    match xdg_config_home {
        Some(xdg) => Ok(xdg),
        None => match home {
            Some(home) => Ok(join_path(home.as_str(), ".config")),
            None => Err(ConfigError::MissingEnvironment),
        },
    }
}

/// The directory under `dir` in which the ignore file lies.
pub fn config_directory_path(dir: &str) -> (path: String)
    ensures
        path@ == config_directory_under(dir@),
{
    join_path(dir, "dotlinker")
}

/// The path of the ignore file under `dir`.
pub fn ignore_file_path(dir: &str) -> (path: String)
    ensures
        path@ == ignore_file_under(dir@),
{
    let directory = config_directory_path(dir);
    join_path(directory.as_str(), "dotlinkerignore")
}

/// What a newly created ignore file holds.
pub fn default_ignore_contents() -> (contents: &'static str)
    ensures
        contents@ == default_ignore_text(),
{
    "# This file is used to ignore files when symlinking\n.git*\nREADME.md\nLICENSE"
}

/// Chooses the ignore file of a run. `in_config_dir` and `in_base_dir` say
/// whether an ignore file was found under the configuration root and under
/// the base directory.
///
/// First comes a file named explicitly, resolved against the current
/// directory, whether it exists or not; then the file under the
/// configuration root; then the one under the base directory; and where
/// there is none, a new file under the configuration root.
pub fn determine_config_file(
    config: &Option<String>,
    curr_dir: &str,
    base_dir: &str,
    config_dir: &str,
    in_config_dir: bool,
    in_base_dir: bool,
) -> (chosen: ConfigFile)
    ensures
        match *config {
            Some(name) => {
                &&& chosen.origin == ConfigOrigin::Explicit
                &&& chosen.path@ == joined_path(curr_dir@, name@)
            },
            None => if in_config_dir {
                &&& chosen.origin == ConfigOrigin::ConfigRoot
                &&& chosen.path@ == ignore_file_under(config_dir@)
            } else if in_base_dir {
                &&& chosen.origin == ConfigOrigin::BaseDir
                &&& chosen.path@ == ignore_file_under(base_dir@)
            } else {
                &&& chosen.origin == ConfigOrigin::Created
                &&& chosen.path@ == ignore_file_under(config_dir@)
            },
        },
{
    match config {
        Some(name) => ConfigFile {
            path: join_path(curr_dir, name.as_str()),
            origin: ConfigOrigin::Explicit,
        },
        None => {
            if in_config_dir {
                ConfigFile { path: ignore_file_path(config_dir), origin: ConfigOrigin::ConfigRoot }
            } else if in_base_dir {
                ConfigFile { path: ignore_file_path(base_dir), origin: ConfigOrigin::BaseDir }
            } else {
                ConfigFile { path: ignore_file_path(config_dir), origin: ConfigOrigin::Created }
            }
        },
    }
}

} // verus!
