//! Whether a directory is under version control.
use vstd::prelude::*;
use std::path::{Path, PathBuf};

verus! {

/// The directory in which git keeps a repository's metadata.
pub const METADATA_DIR: &'static str = ".git";

#[verifier::external_type_specification]
#[verifier::external_body]
pub struct ExPath(Path);

#[verifier::external_type_specification]
#[verifier::external_body]
pub struct ExPathBuf(PathBuf);

/// Relies on `Path::join`: the path of `name` under `dir`.
#[verifier::external_body]
fn child_path(dir: &Path, name: &str) -> PathBuf {
    dir.join(name)
}

/// Relies on `Path::exists`: whether something is found at `p` on disk. The
/// answer depends on the file system, so nothing is promised of it.
#[verifier::external_body]
fn path_exists(p: &PathBuf) -> bool {
    p.exists()
}

/// Whether `path` holds a repository: true iff its metadata directory exists.
pub fn is_git_repo(path: &Path) -> bool {
    let metadata = child_path(path, METADATA_DIR);
    path_exists(&metadata)
}

} // verus!
