//! The directory that holds the running executable.
//!
//! The operating system says where the executable is; this module says which
//! directory that makes, and which of the two steps failed when there is
//! none.

use std::path::PathBuf;
use vstd::pervasive::unreached;
use vstd::prelude::*;

verus! {

/// `std::path::PathBuf`, carried through as an opaque value.
#[verifier::external_type_specification]
#[verifier::external_body]
pub struct ExPathBuf(std::path::PathBuf);

/// Why no directory could be given for the executable.
#[derive(Debug, Clone, Copy, PartialEq, Eq, Structural)]
pub enum ExePathError {
    /// The operating system could not say where the executable is.
    Unresolved,
    /// The executable's path has no parent: it ends in a root or a prefix, or
    /// is empty.
    NoParent,
}

/// What `std::path::Path::parent` gives for a path: the path without its
/// final component, and `None` where there is no such component. The parent
/// is found in the text of the path alone; nothing is looked up or resolved.
pub uninterp spec fn path_parent(path: PathBuf) -> Option<PathBuf>;

/// Calls `std::path::Path::parent` and copies the borrowed parent into an
/// owned path. The contract is not proved: it says that the result is the
/// parent that the standard library finds for this path, which `path_parent`
/// names.
#[verifier::external_body]
fn parent_of(path: &PathBuf) -> (parent: Option<PathBuf>)
    ensures
        parent == path_parent(*path),
{
    path.parent().map(std::path::Path::to_path_buf)
}

/// What is returned for each outcome of taking the parent of the
/// executable's path: the parent itself, or `NoParent` where there is none.
pub open spec fn dir_of_parent(parent: Option<PathBuf>) -> Result<PathBuf, ExePathError> {
    match parent {
        Some(dir) => Ok(dir),
        None => Err(ExePathError::NoParent),
    }
}

/// The directory of the executable for each outcome of asking the operating
/// system where it is: `Unresolved` for an unknown path, else what the
/// parent of the path makes.
pub open spec fn exe_dir_result(exe: Option<PathBuf>) -> Result<PathBuf, ExePathError> {
    match exe {
        Some(path) => dir_of_parent(path_parent(path)),
        None => Err(ExePathError::Unresolved),
    }
}

/// A directory is given exactly when the executable's path is known and has
/// a parent, and the directory is then that parent.
pub proof fn lemma_dir_exactly_when_parent(exe: Option<PathBuf>)
    ensures
        exe_dir_result(exe) is Ok <==> exe is Some && path_parent(exe->0) is Some,
        exe_dir_result(exe) is Ok ==> Some(exe_dir_result(exe)->Ok_0) == path_parent(exe->0),
{
}

/// Turns the parent of the executable's path, as the standard library gave
/// it, into the directory or the error.
pub fn dir_or_no_parent(parent: Option<PathBuf>) -> (dir: Result<PathBuf, ExePathError>)
    ensures
        dir == dir_of_parent(parent),
{
    match parent {
        Some(dir) => Ok(dir),
        None => Err(ExePathError::NoParent),
    }
}

/// The directory that holds the executable at `path`: the parent of the
/// path. The path must have one.
pub fn exe_dir_of(path: &PathBuf) -> (dir: PathBuf)
    requires
        path_parent(*path) is Some,
    ensures
        Some(dir) == path_parent(*path),
{
    match dir_or_no_parent(parent_of(path)) {
        Ok(dir) => dir,
        Err(_) => unreached(),
    }
}

/// The directory that holds the executable, from the outcome of asking the
/// operating system for the executable's own path.
///
/// `Unresolved` comes exactly when the path is not known. With a known path
/// the result is its parent directory, and `NoParent` exactly when the
/// standard library finds none.
pub fn exe_dir(exe: Option<PathBuf>) -> (dir: Result<PathBuf, ExePathError>)
    ensures
        dir == exe_dir_result(exe),
        exe is None <==> dir == Err::<PathBuf, ExePathError>(ExePathError::Unresolved),
        exe is Some ==> dir == dir_of_parent(path_parent(exe->0)),
{
    match exe {
        Some(path) => {
            if parent_of(&path).is_some() {
                Ok(exe_dir_of(&path))
            } else {
                Err(ExePathError::NoParent)
            }
        },
        None => Err(ExePathError::Unresolved),
    }
}

} // verus!
