//! What to do at a temporary path when its handle goes out of use.

use vstd::prelude::*;

verus! {

/// The removal that a path calls for, from what stands there.
#[derive(Clone, Copy, Debug, PartialEq, Eq, Structural)]
pub enum Cleanup {
    /// Nothing to remove: the path is absent, or is neither a regular file nor
    /// a directory.
    Keep,
    /// Remove the single regular file.
    RemoveFile,
    /// Remove the directory with everything inside it.
    RemoveDirAll,
}

/// The removal owed to a path, given whether anything exists there, whether it
/// is a regular file and whether it is a directory.
pub open spec fn cleanup_for(exists: bool, is_file: bool, is_dir: bool) -> Cleanup {
    if !exists {
        Cleanup::Keep
    } else if is_file {
        Cleanup::RemoveFile
    } else if is_dir {
        Cleanup::RemoveDirAll
    } else {
        Cleanup::Keep
    }
}

/// Decides what to remove at a path from three probes of it: whether it
/// exists, whether it is a regular file, and whether it is a directory.
///
/// An absent path is left alone; a file is removed alone; a directory is
/// removed with its contents; anything else is left alone.
pub fn cleanup_action(exists: bool, is_file: bool, is_dir: bool) -> (r: Cleanup)
    ensures
        r == cleanup_for(exists, is_file, is_dir),
        !exists ==> r == Cleanup::Keep,
        exists && is_file ==> r == Cleanup::RemoveFile,
        exists && !is_file && is_dir ==> r == Cleanup::RemoveDirAll,
        exists && !is_file && !is_dir ==> r == Cleanup::Keep,
{
    if !exists {
        Cleanup::Keep
    } else if is_file {
        Cleanup::RemoveFile
    } else if is_dir {
        Cleanup::RemoveDirAll
    } else {
        Cleanup::Keep
    }
}

/// Whether a path still has something at it after the given removal was
/// carried out on it, for a path that had something at it exactly when
/// `exists` holds.
pub open spec fn present_after(exists: bool, action: Cleanup) -> bool {
    match action {
        Cleanup::Keep => exists,
        Cleanup::RemoveFile => false,
        Cleanup::RemoveDirAll => false,
    }
}

/// A path at which nothing exists is left alone: its cleanup removes nothing,
/// whatever the other probes say, and so cannot fail.
pub proof fn lemma_absent_path_is_kept(is_file: bool, is_dir: bool)
    ensures
        cleanup_for(false, is_file, is_dir) == Cleanup::Keep,
        !present_after(false, cleanup_for(false, is_file, is_dir)),
{
}

/// A regular file or a directory at a path is gone once its cleanup has been
/// carried out.
pub proof fn lemma_file_or_dir_is_removed(is_file: bool, is_dir: bool)
    requires
        is_file || is_dir,
    ensures
        !present_after(true, cleanup_for(true, is_file, is_dir)),
{
}

/// Cleaning up twice is as cleaning up once: once a cleanup has run, whatever
/// stood at the path before, a second cleanup of the now absent path removes
/// nothing.
pub proof fn lemma_cleanup_idempotent(
    exists: bool,
    is_file: bool,
    is_dir: bool,
    is_file_after: bool,
    is_dir_after: bool,
)
    requires
        !present_after(exists, cleanup_for(exists, is_file, is_dir)),
    ensures
        cleanup_for(false, is_file_after, is_dir_after) == Cleanup::Keep,
{
}

} // verus!
