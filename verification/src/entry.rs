//! Filesystem entries, paths, and the choice of the permission target.

use vstd::prelude::*;

verus! {

use crate::perm::PermissionPolicy;

/// The kind of a filesystem entry. Plain files and symbolic links share the
/// `File` kind: both are removed with the file-removal primitive, while a
/// directory needs the directory-removal primitive.
#[derive(Clone, Copy, PartialEq, Eq, Structural, Debug)]
pub enum EntryKind {
    File,
    Dir,
}

/// A filesystem path, as the sequence of its components. `absolute` says
/// whether the path starts at a filesystem root. A path has a parent exactly
/// when it has at least one component: the filesystem root and the empty
/// relative path have none.
#[derive(Debug)]
pub struct EntryPath {
    pub absolute: bool,
    pub components: Vec<String>,
}

impl EntryPath {
    /// Whether the path has a containing directory at all.
    pub open spec fn has_parent(&self) -> bool {
        self.components@.len() > 0
    }
}

/// One node of a tree walk: a path plus its kind, produced by the walker and
/// consumed exactly once by the remover.
#[derive(Debug)]
pub struct Entry {
    pub path: EntryPath,
    pub kind: EntryKind,
}

/// The kind of failure the filesystem reported for a single call, reduced to
/// what the remover's decisions depend on. Everything it does not inspect
/// (not-found after a race, a directory that is still not empty, I/O errors)
/// is carried through unchanged under `Other` or its own label.
#[derive(Clone, Copy, PartialEq, Eq, Structural, Debug)]
pub enum FsErrorKind {
    /// The call was denied for lack of permission; the only recoverable kind.
    PermissionDenied,
    /// The path does not exist (for instance it was already removed).
    NotFound,
    /// A directory could not be removed because it still has entries.
    DirectoryNotEmpty,
    /// Any other failure; never recovered from.
    Other,
}

/// Why the removal of one entry failed for good.
#[derive(Clone, Copy, PartialEq, Eq, Structural, Debug)]
pub enum RemoveError {
    /// Permission was denied although the gating path is already writable:
    /// something other than the write bit denies the operation, and retrying
    /// could loop forever, so the failure is terminal.
    AccessDenied,
    /// Permission was denied, and additionally reading the permission
    /// target's metadata failed.
    MetadataReadFailed,
    /// Permission was denied, and additionally applying the updated
    /// permission state to the target failed.
    PermissionChangeFailed,
    /// Permission was denied and the entry has no parent directory whose
    /// permissions could be adjusted: it is a root path, and the condition
    /// is terminal.
    NoParentDirectory,
    /// The filesystem reported a failure that is not recoverable by a
    /// permission change; it is passed through unchanged.
    Fs(FsErrorKind),
}

/// Determine which path's permission state gates the deletion of the entry
/// at `path`, and must therefore be made writable when deletion is denied.
///
/// Under a directory-gated policy this is the containing directory, so a
/// path without a parent is a terminal `NoParentDirectory` failure. Under an
/// entry-gated policy it is the entry itself. The entry's kind is part of
/// the question — which path blocks deleting this entry? — though on both
/// policy families the answer turns out the same for files and directories.
pub fn path_to_make_writable(path: EntryPath, kind: EntryKind, policy: PermissionPolicy) -> (r:
    Result<EntryPath, RemoveError>)
    ensures
        policy is EntryGated ==> (r matches Ok(t) && t.absolute == path.absolute
            && t.components@ == path.components@),
        policy is DirectoryGated && !path.has_parent() ==> (r matches Err(e) && e
            == RemoveError::NoParentDirectory),
        policy is DirectoryGated && path.has_parent() ==> (r matches Ok(t) && t.absolute
            == path.absolute && t.components@ == path.components@.subrange(
            0,
            path.components@.len() - 1,
        )),
{
    let _ = kind;
    match policy {
        PermissionPolicy::EntryGated => Ok(path),
        PermissionPolicy::DirectoryGated => {
            if path.components.len() == 0 {
                Err(RemoveError::NoParentDirectory)
            } else {
                let mut parent = path;
                let _last = parent.components.pop();
                Ok(parent)
            }
        }
    }
}

} // verus!
