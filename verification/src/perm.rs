//! Permission states and the writable-bit logic.

use vstd::prelude::*;

verus! {

/// Which path's permission state gates the deletion of an entry.
///
/// On POSIX-style filesystems, deleting an entry requires write permission on
/// its containing directory, not on the entry itself. Other filesystem
/// families carry a per-entry read-only attribute that blocks deletion of the
/// entry directly.
#[derive(Clone, Copy, PartialEq, Eq, Structural, Debug)]
pub enum PermissionPolicy {
    /// Deletion is gated by the writability of the entry's parent directory.
    DirectoryGated,
    /// Deletion is gated by a read-only attribute on the entry itself.
    EntryGated,
}

/// The permission state of one filesystem entry, as read from its metadata at
/// the moment a recovery is attempted. It is read fresh on every recovery and
/// discarded after use; nothing is cached.
#[derive(Clone, Copy, PartialEq, Eq, Structural, Debug)]
pub enum PermissionState {
    /// POSIX permission bits; bit `0o200` is the owner-write bit.
    Mode(u32),
    /// A per-entry read-only attribute: `true` means the entry is read-only.
    ReadOnly(bool),
}

/// Whether `p` counts as writable for the purpose of deletion.
///
/// For POSIX modes only the owner-write bit decides: group or other write
/// bits do not help, since deleting requires write permission held by the
/// owner doing the deletion.
pub open spec fn is_writable_spec(p: PermissionState) -> bool {
    match p {
        PermissionState::Mode(m) => m & 0o200u32 != 0,
        PermissionState::ReadOnly(ro) => !ro,
    }
}

/// The permission state after granting write permission: the owner-write bit
/// is set on a POSIX mode, and a read-only attribute is cleared. No other
/// part of the state changes; in particular group and other never gain write
/// permission.
pub open spec fn make_writable_spec(p: PermissionState) -> PermissionState {
    match p {
        PermissionState::Mode(m) => PermissionState::Mode(m | 0o200u32),
        PermissionState::ReadOnly(_) => PermissionState::ReadOnly(false),
    }
}

/// Report whether `p` permits deletion gated on it.
pub fn is_writable(p: &PermissionState) -> (r: bool)
    ensures
        r == is_writable_spec(*p),
{
    match p {
        PermissionState::Mode(m) => *m & 0o200u32 != 0,
        PermissionState::ReadOnly(ro) => !*ro,
    }
}

/// Grant write permission to the owner alone: set the owner-write bit of a
/// POSIX mode, or clear a read-only attribute.
pub fn make_writable(p: &PermissionState) -> (r: PermissionState)
    ensures
        r == make_writable_spec(*p),
{
    match p {
        PermissionState::Mode(m) => PermissionState::Mode(*m | 0o200u32),
        PermissionState::ReadOnly(_) => PermissionState::ReadOnly(false),
    }
}

/// Granting write permission always yields a writable state, so a removal
/// retried right after a grant is no longer gated.
pub proof fn lemma_make_writable_is_writable(p: PermissionState)
    ensures
        is_writable_spec(make_writable_spec(p)),
{
    match p {
        PermissionState::Mode(m) => {
            assert((m | 0o200u32) & 0o200u32 != 0) by (bit_vector);
        }
        PermissionState::ReadOnly(_) => {}
    }
}

/// Granting write permission touches only the owner-write bit of a POSIX
/// mode: every other bit keeps its value, and in particular the group- and
/// other-write bits (`0o022`) are never set by a grant. A failed retry after
/// a grant therefore leaves the target no more permissive than owner-writable.
pub proof fn lemma_make_writable_grants_owner_only(m: u32)
    ensures
        make_writable_spec(PermissionState::Mode(m)) == PermissionState::Mode(m | 0o200u32),
        (m | 0o200u32) & !0o200u32 == m & !0o200u32,
        (m | 0o200u32) & 0o022u32 == m & 0o022u32,
{
    assert((m | 0o200u32) & !0o200u32 == m & !0o200u32) by (bit_vector);
    assert((m | 0o200u32) & 0o022u32 == m & 0o022u32) by (bit_vector);
}

/// Granting write permission to an already writable state changes nothing,
/// so racing grants on a shared parent directory are harmless.
pub proof fn lemma_make_writable_idempotent_on_writable(p: PermissionState)
    ensures
        is_writable_spec(p) ==> make_writable_spec(p) == p,
{
    match p {
        PermissionState::Mode(m) => {
            assert(m & 0o200u32 != 0 ==> (m | 0o200u32) == m) by (bit_vector);
        }
        PermissionState::ReadOnly(_) => {}
    }
}

} // verus!
