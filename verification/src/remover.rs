//! The permission-recovering remover, as a state machine over filesystem
//! events.
//!
//! Removing one entry alternates filesystem calls with decisions: attempt the
//! removal, classify a failure, read the permission target's state, grant
//! write permission, retry exactly once. The decisions live here as a pure
//! step function from control state and filesystem event to the next control
//! state; the driver that owns the real filesystem performs the action each
//! state asks for and feeds the result back as an event. The control states
//! form a finite, non-looping path, so the single bounded retry is explicit
//! in the shape of the machine.

use vstd::prelude::*;

verus! {

use crate::entry::{FsErrorKind, RemoveError};
use crate::perm::{
    PermissionPolicy,
    PermissionState,
    is_writable,
    is_writable_spec,
    make_writable,
    make_writable_spec,
};

/// The remover's control state between two filesystem calls. Each
/// non-finished state has exactly one outstanding action, given by
/// [`action_of`].
#[derive(Clone, Copy, Debug)]
pub enum RemoverState {
    /// The first removal attempt is outstanding.
    FirstAttempt,
    /// The first attempt was denied for lack of permission; reading the
    /// permission target's metadata is outstanding.
    ReadingPermissions,
    /// The target was not writable; applying this permission state (the
    /// target's own state with write permission granted) is outstanding.
    GrantingWrite(PermissionState),
    /// Write permission was granted; the single retry of the removal is
    /// outstanding.
    Retrying,
    /// The removal is settled: the entry was removed, or failed for the
    /// given reason. No further action follows.
    Finished(Result<(), RemoveError>),
}

/// What the filesystem reported back for the action last issued.
#[derive(Clone, Copy, Debug)]
pub enum FsEvent {
    /// The removal primitive succeeded.
    Removed,
    /// The removal primitive failed with this kind of error.
    RemoveFailed(FsErrorKind),
    /// The permission target's metadata was read; this is its permission
    /// state.
    PermissionsRead(PermissionState),
    /// Reading the permission target's metadata failed.
    PermissionsReadFailed,
    /// The new permission state was applied to the permission target.
    WriteGranted,
    /// Applying the new permission state to the target failed.
    GrantWriteFailed,
}

/// The filesystem action a state asks its driver to perform.
#[derive(Clone, Copy, Debug)]
pub enum RemoverAction {
    /// Invoke the kind-appropriate removal primitive on the entry: remove
    /// file-or-symlink for a file, remove empty directory for a directory.
    Remove,
    /// Read the permission target's current permission state.
    ReadPermissions,
    /// Apply this permission state to the permission target.
    GrantWrite(PermissionState),
    /// Nothing: the outcome is settled.
    Stop,
}

/// The transition relation of the remover, as a function.
///
/// `policy` says which path gates deletion on this filesystem family and
/// `has_parent` whether the entry has a containing directory; both are fixed
/// for the lifetime of one removal. An event that does not answer the
/// outstanding action of `s` changes nothing.
pub open spec fn step_spec(
    s: RemoverState,
    ev: FsEvent,
    policy: PermissionPolicy,
    has_parent: bool,
) -> RemoverState {
    match (s, ev) {
        (RemoverState::FirstAttempt, FsEvent::Removed) => RemoverState::Finished(Ok(())),
        (RemoverState::FirstAttempt, FsEvent::RemoveFailed(k)) => {
            if k is PermissionDenied {
                if policy is DirectoryGated && !has_parent {
                    RemoverState::Finished(Err(RemoveError::NoParentDirectory))
                } else {
                    RemoverState::ReadingPermissions
                }
            } else {
                RemoverState::Finished(Err(RemoveError::Fs(k)))
            }
        },
        (RemoverState::ReadingPermissions, FsEvent::PermissionsRead(p)) => {
            if is_writable_spec(p) {
                RemoverState::Finished(Err(RemoveError::AccessDenied))
            } else {
                RemoverState::GrantingWrite(make_writable_spec(p))
            }
        },
        (RemoverState::ReadingPermissions, FsEvent::PermissionsReadFailed) => RemoverState::Finished(
            Err(RemoveError::MetadataReadFailed),
        ),
        (RemoverState::GrantingWrite(_), FsEvent::WriteGranted) => RemoverState::Retrying,
        (RemoverState::GrantingWrite(_), FsEvent::GrantWriteFailed) => RemoverState::Finished(
            Err(RemoveError::PermissionChangeFailed),
        ),
        (RemoverState::Retrying, FsEvent::Removed) => RemoverState::Finished(Ok(())),
        (RemoverState::Retrying, FsEvent::RemoveFailed(k)) => RemoverState::Finished(
            Err(RemoveError::Fs(k)),
        ),
        _ => s,
    }
}

/// Advance the remover by one filesystem event.
///
/// The first attempt's outcome settles everything but a permission denial;
/// a denial with no parent to fix (directory-gated policy) is terminal. A
/// target found already writable is a terminal `AccessDenied`: something
/// other than the write bit denies the operation, and the machine must not
/// loop against it. A write grant is followed by exactly one retry, whose
/// outcome is final verbatim.
pub fn step(s: RemoverState, ev: FsEvent, policy: PermissionPolicy, has_parent: bool) -> (r:
    RemoverState)
    ensures
        r == step_spec(s, ev, policy, has_parent),
{
    match (s, ev) {
        (RemoverState::FirstAttempt, FsEvent::Removed) => RemoverState::Finished(Ok(())),
        (RemoverState::FirstAttempt, FsEvent::RemoveFailed(k)) => {
            match k {
                FsErrorKind::PermissionDenied => {
                    match policy {
                        PermissionPolicy::DirectoryGated => {
                            if !has_parent {
                                RemoverState::Finished(Err(RemoveError::NoParentDirectory))
                            } else {
                                RemoverState::ReadingPermissions
                            }
                        },
                        PermissionPolicy::EntryGated => RemoverState::ReadingPermissions,
                    }
                },
                _ => RemoverState::Finished(Err(RemoveError::Fs(k))),
            }
        },
        (RemoverState::ReadingPermissions, FsEvent::PermissionsRead(p)) => {
            if is_writable(&p) {
                RemoverState::Finished(Err(RemoveError::AccessDenied))
            } else {
                RemoverState::GrantingWrite(make_writable(&p))
            }
        },
        (RemoverState::ReadingPermissions, FsEvent::PermissionsReadFailed) => RemoverState::Finished(
            Err(RemoveError::MetadataReadFailed),
        ),
        (RemoverState::GrantingWrite(_), FsEvent::WriteGranted) => RemoverState::Retrying,
        (RemoverState::GrantingWrite(_), FsEvent::GrantWriteFailed) => RemoverState::Finished(
            Err(RemoveError::PermissionChangeFailed),
        ),
        (RemoverState::Retrying, FsEvent::Removed) => RemoverState::Finished(Ok(())),
        (RemoverState::Retrying, FsEvent::RemoveFailed(k)) => RemoverState::Finished(
            Err(RemoveError::Fs(k)),
        ),
        _ => s,
    }
}

/// The outstanding action of a state.
pub open spec fn action_of_spec(s: RemoverState) -> RemoverAction {
    match s {
        RemoverState::FirstAttempt => RemoverAction::Remove,
        RemoverState::ReadingPermissions => RemoverAction::ReadPermissions,
        RemoverState::GrantingWrite(p) => RemoverAction::GrantWrite(p),
        RemoverState::Retrying => RemoverAction::Remove,
        RemoverState::Finished(_) => RemoverAction::Stop,
    }
}

/// Report which filesystem action the driver must perform next.
pub fn action_of(s: &RemoverState) -> (r: RemoverAction)
    ensures
        r == action_of_spec(*s),
{
    match s {
        RemoverState::FirstAttempt => RemoverAction::Remove,
        RemoverState::ReadingPermissions => RemoverAction::ReadPermissions,
        RemoverState::GrantingWrite(p) => RemoverAction::GrantWrite(*p),
        RemoverState::Retrying => RemoverAction::Remove,
        RemoverState::Finished(_) => RemoverAction::Stop,
    }
}

/// Whether `ev` answers the action outstanding in `s`.
pub open spec fn event_answers(s: RemoverState, ev: FsEvent) -> bool {
    match (s, ev) {
        (RemoverState::FirstAttempt, FsEvent::Removed) => true,
        (RemoverState::FirstAttempt, FsEvent::RemoveFailed(_)) => true,
        (RemoverState::ReadingPermissions, FsEvent::PermissionsRead(_)) => true,
        (RemoverState::ReadingPermissions, FsEvent::PermissionsReadFailed) => true,
        (RemoverState::GrantingWrite(_), FsEvent::WriteGranted) => true,
        (RemoverState::GrantingWrite(_), FsEvent::GrantWriteFailed) => true,
        (RemoverState::Retrying, FsEvent::Removed) => true,
        (RemoverState::Retrying, FsEvent::RemoveFailed(_)) => true,
        _ => false,
    }
}

/// How many answered filesystem events a state can still absorb before it is
/// finished.
pub open spec fn rank(s: RemoverState) -> nat {
    match s {
        RemoverState::FirstAttempt => 4,
        RemoverState::ReadingPermissions => 3,
        RemoverState::GrantingWrite(_) => 2,
        RemoverState::Retrying => 1,
        RemoverState::Finished(_) => 0,
    }
}

/// Progress: every answered event moves an unfinished remover strictly down
/// the finite rank, so one removal settles after at most four filesystem
/// responses and the machine can never loop.
pub proof fn lemma_step_progress(
    s: RemoverState,
    ev: FsEvent,
    policy: PermissionPolicy,
    has_parent: bool,
)
    requires
        event_answers(s, ev),
        !(s is Finished),
    ensures
        rank(step_spec(s, ev, policy, has_parent)) < rank(s),
{
}

/// How many invocations of the removal primitive the filesystem answers over
/// the course of `evs`, starting from `s`: one for each answered event whose
/// state was awaiting a removal.
pub open spec fn remove_attempts(
    s: RemoverState,
    evs: Seq<FsEvent>,
    policy: PermissionPolicy,
    has_parent: bool,
) -> nat
    decreases evs.len(),
{
    if evs.len() == 0 {
        0
    } else {
        (if action_of_spec(s) is Remove && event_answers(s, evs[0]) {
            1nat
        } else {
            0nat
        }) + remove_attempts(
            step_spec(s, evs[0], policy, has_parent),
            evs.subrange(1, evs.len() as int),
            policy,
            has_parent,
        )
    }
}

/// An upper bound on the removal attempts still possible from a state.
pub open spec fn attempt_budget(s: RemoverState) -> nat {
    match s {
        RemoverState::FirstAttempt => 2,
        RemoverState::ReadingPermissions => 1,
        RemoverState::GrantingWrite(_) => 1,
        RemoverState::Retrying => 1,
        RemoverState::Finished(_) => 0,
    }
}

/// From any state, the filesystem answers at most `attempt_budget(s)` more
/// removal attempts, whatever events arrive.
pub proof fn lemma_attempts_bounded(
    s: RemoverState,
    evs: Seq<FsEvent>,
    policy: PermissionPolicy,
    has_parent: bool,
)
    ensures
        remove_attempts(s, evs, policy, has_parent) <= attempt_budget(s),
    decreases evs.len(),
{
    if evs.len() > 0 {
        let s2 = step_spec(s, evs[0], policy, has_parent);
        lemma_attempts_bounded(s2, evs.subrange(1, evs.len() as int), policy, has_parent);
    }
}

/// The removal primitive is invoked at most twice for one entry — the first
/// attempt and the single retry — whatever sequence of events the filesystem
/// answers with. The retry bound is a property of the machine itself, not of
/// any particular driver.
pub proof fn lemma_retry_at_most_once(evs: Seq<FsEvent>, policy: PermissionPolicy, has_parent: bool)
    ensures
        remove_attempts(RemoverState::FirstAttempt, evs, policy, has_parent) <= 2,
{
    lemma_attempts_bounded(RemoverState::FirstAttempt, evs, policy, has_parent);
}

/// A path that no longer exists is reported as the not-found failure it is:
/// distinct from every permission failure, with no permission change and no
/// retry attempted for it. Invoking removal again after a fully successful
/// removal therefore settles cleanly on the first answer.
pub proof fn lemma_missing_path_is_not_conflated(policy: PermissionPolicy, has_parent: bool)
    ensures
        step_spec(
            RemoverState::FirstAttempt,
            FsEvent::RemoveFailed(FsErrorKind::NotFound),
            policy,
            has_parent,
        ) == RemoverState::Finished(Err(RemoveError::Fs(FsErrorKind::NotFound))),
        RemoveError::Fs(FsErrorKind::NotFound) != RemoveError::AccessDenied,
        RemoveError::Fs(FsErrorKind::NotFound) != RemoveError::NoParentDirectory,
        RemoveError::Fs(FsErrorKind::NotFound) != RemoveError::Fs(FsErrorKind::PermissionDenied),
{
}

/// A write grant is only ever asked for on a target that was read and found
/// not writable, and what is granted is exactly that target's state with
/// owner write added: the remover touches no permission state that already
/// permits deletion.
pub proof fn lemma_grant_only_for_read_only_targets(
    s: RemoverState,
    ev: FsEvent,
    policy: PermissionPolicy,
    has_parent: bool,
)
    requires
        !(s is GrantingWrite),
    ensures
        step_spec(s, ev, policy, has_parent) matches RemoverState::GrantingWrite(g) ==> (
        s is ReadingPermissions && (ev matches FsEvent::PermissionsRead(p) && !is_writable_spec(p)
            && g == make_writable_spec(p))),
{
}

/// A permission-denied entry with no parent directory is terminal under a
/// directory-gated policy: the remover reports `NoParentDirectory` at once,
/// and asks for no permission change and no retry anywhere out of bounds.
pub proof fn lemma_rootless_denial_is_terminal()
    ensures
        step_spec(
            RemoverState::FirstAttempt,
            FsEvent::RemoveFailed(FsErrorKind::PermissionDenied),
            PermissionPolicy::DirectoryGated,
            false,
        ) == RemoverState::Finished(Err(RemoveError::NoParentDirectory)),
        action_of_spec(
            step_spec(
                RemoverState::FirstAttempt,
                FsEvent::RemoveFailed(FsErrorKind::PermissionDenied),
                PermissionPolicy::DirectoryGated,
                false,
            ),
        ) is Stop,
{
}

} // verus!
