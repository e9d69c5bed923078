//! What a run works on: the target directory, the source directory and the
//! candidates, chosen from the options and from what the caller found on disk.

use crate::paths::{join_path, joined_path, texts_of};
use vstd::prelude::*;

verus! {

/// Why a run cannot start.
#[derive(Clone, Copy, Debug, PartialEq, Eq, Structural)]
pub enum RunError {
    /// A directory named on the command line does not exist.
    PathNotFound,
    /// The target named on the command line is not a directory.
    NotADirectory,
}

/// The paths that `files` name, each resolved against `curr_dir`.
pub open spec fn resolved_all(curr_dir: Seq<char>, files: Seq<Seq<char>>) -> Seq<Seq<char>> {
    Seq::new(files.len(), |i: int| joined_path(curr_dir, files[i]))
}

/// The directory that receives the links: the target named on the command
/// line, which must exist and be a directory, or else the configuration
/// root as it is. `found` and `is_dir` say what was found at the named
/// target.
pub fn resolve_target(target: &Option<String>, config_root: &str, found: bool, is_dir: bool) -> (dir:
    Result<String, RunError>)
    ensures
        match *target {
            Some(named) => if !found {
                dir == Err::<String, RunError>(RunError::PathNotFound)
            } else if !is_dir {
                dir == Err::<String, RunError>(RunError::NotADirectory)
            } else {
                dir == Ok::<String, RunError>(named)
            },
            None => dir is Ok && dir->Ok_0@ == config_root@,
        },
{
    match target {
        Some(named) => {
            if !found {
                Err(RunError::PathNotFound)
            } else if !is_dir {
                Err(RunError::NotADirectory)
            } else {
                Ok(named.clone())
            }
        },
        None => Ok(config_root.to_owned()),
    }
}

/// The directory whose files are linked: the one named on the command line,
/// which must exist, or else the current directory. `found` says whether
/// the named directory was found.
pub fn resolve_source(dir: &Option<String>, curr_dir: &str, found: bool) -> (source: Result<
    String,
    RunError,
>)
    ensures
        match *dir {
            Some(named) => if found {
                source == Ok::<String, RunError>(named)
            } else {
                source == Err::<String, RunError>(RunError::PathNotFound)
            },
            None => source is Ok && source->Ok_0@ == curr_dir@,
        },
{
    match dir {
        Some(named) => {
            if found {
                Ok(named.clone())
            } else {
                Err(RunError::PathNotFound)
            }
        },
        None => Ok(curr_dir.to_owned()),
    }
}

/// The candidates of a run that names its files: each file resolved against
/// the current directory, in the order given. Such a run scans no directory
/// and consults no ignore list.
pub fn explicit_candidates(files: &Vec<String>, curr_dir: &str) -> (paths: Vec<String>)
    ensures
        texts_of(paths@) == resolved_all(curr_dir@, texts_of(files@)),
{
    let mut paths: Vec<String> = Vec::new();
    let mut i: usize = 0;
    while i < files.len()
        invariant
            i <= files@.len(),
            paths@.len() == i,
            forall|j: int|
                0 <= j < i ==> (#[trigger] paths@[j])@ == joined_path(curr_dir@, files@[j]@),
        decreases files@.len() - i,
    {
        paths.push(join_path(curr_dir, files[i].as_str()));
        i += 1;
    }
    assert(texts_of(paths@) =~= resolved_all(curr_dir@, texts_of(files@)));
    paths
}

} // verus!
