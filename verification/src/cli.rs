//! The options of a run, as plain values.

use vstd::prelude::*;

verus! {

/// What the command line says: every flag resolved once, then handed on.
#[derive(Debug)]
pub struct Args {
    /// The target directory to symlink to.
    pub target: Option<String>,
    /// The directory to symlink from.
    pub dir: Option<String>,
    /// The files to symlink; takes precedence over `dir`.
    pub files: Option<Vec<String>>,
    /// The files to ignore when symlinking from a directory.
    pub ignore: Option<Vec<String>>,
    /// Only show what would be done.
    pub no_symlink: bool,
    /// Ask before each action.
    pub visual: bool,
    /// Print verbose output.
    pub verbose: bool,
    /// Remove the links.
    pub unset: bool,
    /// Path to the ignore file.
    pub config: Option<String>,
}

} // verus!
