//! The remover's state machine, the permission-bit logic, and the choice of
//! the permission target, driven event by event.

use obliterate::entry::{
    path_to_make_writable, Entry, EntryKind, EntryPath, FsErrorKind, RemoveError,
};
use obliterate::perm::{is_writable, make_writable, PermissionPolicy, PermissionState};
use obliterate::remover::{action_of, step, FsEvent, RemoverAction, RemoverState};

const DIR_GATED: PermissionPolicy = PermissionPolicy::DirectoryGated;
const ENTRY_GATED: PermissionPolicy = PermissionPolicy::EntryGated;

fn path(absolute: bool, components: &[&str]) -> EntryPath {
    EntryPath {
        absolute,
        components: components.iter().map(|c| c.to_string()).collect(),
    }
}

#[test]
fn owner_write_bit_decides_writability() {
    assert!(is_writable(&PermissionState::Mode(0o200)));
    assert!(is_writable(&PermissionState::Mode(0o755)));
    // Group and other write bits are not enough to delete.
    assert!(!is_writable(&PermissionState::Mode(0o022)));
    assert!(!is_writable(&PermissionState::Mode(0o444)));
    assert!(is_writable(&PermissionState::ReadOnly(false)));
    assert!(!is_writable(&PermissionState::ReadOnly(true)));
}

#[test]
fn make_writable_sets_owner_bit_only() {
    assert_eq!(
        make_writable(&PermissionState::Mode(0o444)),
        PermissionState::Mode(0o644)
    );
    assert_eq!(
        make_writable(&PermissionState::Mode(0o555)),
        PermissionState::Mode(0o755)
    );
    assert_eq!(
        make_writable(&PermissionState::Mode(0o000)),
        PermissionState::Mode(0o200)
    );
    // Already-writable states are left exactly as they are.
    assert_eq!(
        make_writable(&PermissionState::Mode(0o644)),
        PermissionState::Mode(0o644)
    );
    assert_eq!(
        make_writable(&PermissionState::ReadOnly(true)),
        PermissionState::ReadOnly(false)
    );
}

#[test]
fn target_is_parent_when_directory_gated() {
    let entry = Entry { path: path(true, &["tmp", "dir1", "file1"]), kind: EntryKind::File };
    let r = path_to_make_writable(entry.path, entry.kind, DIR_GATED);
    let parent = r.expect("a nested path has a parent");
    assert!(parent.absolute);
    assert_eq!(parent.components, vec!["tmp".to_string(), "dir1".to_string()]);
}

#[test]
fn target_is_entry_itself_when_entry_gated() {
    let r = path_to_make_writable(path(true, &["tmp", "dir1"]), EntryKind::Dir, ENTRY_GATED);
    let target = r.expect("the entry itself is always available");
    assert!(target.absolute);
    assert_eq!(target.components, vec!["tmp".to_string(), "dir1".to_string()]);
}

#[test]
fn filesystem_root_has_no_target() {
    let r = path_to_make_writable(path(true, &[]), EntryKind::Dir, DIR_GATED);
    assert_eq!(r.unwrap_err(), RemoveError::NoParentDirectory);
}

#[test]
fn first_attempt_success_finishes() {
    let st = step(RemoverState::FirstAttempt, FsEvent::Removed, DIR_GATED, true);
    assert!(matches!(st, RemoverState::Finished(Ok(()))));
    assert!(matches!(action_of(&st), RemoverAction::Stop));
}

#[test]
fn full_recovery_walkthrough() {
    // Denied, parent read-only: read its state, grant owner write on it,
    // retry once, succeed.
    let st = RemoverState::FirstAttempt;
    assert!(matches!(action_of(&st), RemoverAction::Remove));
    let st = step(st, FsEvent::RemoveFailed(FsErrorKind::PermissionDenied), DIR_GATED, true);
    assert!(matches!(action_of(&st), RemoverAction::ReadPermissions));
    let st = step(st, FsEvent::PermissionsRead(PermissionState::Mode(0o555)), DIR_GATED, true);
    match action_of(&st) {
        RemoverAction::GrantWrite(p) => assert_eq!(p, PermissionState::Mode(0o755)),
        other => panic!("expected a write grant, got {:?}", other),
    }
    let st = step(st, FsEvent::WriteGranted, DIR_GATED, true);
    assert!(matches!(action_of(&st), RemoverAction::Remove));
    let st = step(st, FsEvent::Removed, DIR_GATED, true);
    assert!(matches!(st, RemoverState::Finished(Ok(()))));
}

#[test]
fn not_found_is_passed_through_not_conflated() {
    // A path that no longer exists: the outcome is the not-found error
    // verbatim, distinguishable from every permission failure, and neither a
    // permission change nor a retry is attempted.
    let st = step(RemoverState::FirstAttempt, FsEvent::RemoveFailed(FsErrorKind::NotFound), DIR_GATED, true);
    match st {
        RemoverState::Finished(Err(e)) => {
            assert_eq!(e, RemoveError::Fs(FsErrorKind::NotFound));
            assert_ne!(e, RemoveError::AccessDenied);
            assert_ne!(e, RemoveError::Fs(FsErrorKind::PermissionDenied));
        }
        other => panic!("expected a settled failure, got {:?}", other),
    }
    assert!(matches!(action_of(&st), RemoverAction::Stop));
}

#[test]
fn directory_not_empty_is_not_recovered() {
    let st = step(
        RemoverState::FirstAttempt,
        FsEvent::RemoveFailed(FsErrorKind::DirectoryNotEmpty),
        DIR_GATED,
        true,
    );
    assert!(matches!(
        st,
        RemoverState::Finished(Err(RemoveError::Fs(FsErrorKind::DirectoryNotEmpty)))
    ));
}

#[test]
fn rootless_denial_is_terminal() {
    // Permission denied on a path with no parent, directory-gated: a clearly
    // labeled unrecoverable failure, no out-of-bounds permission change.
    let st = step(
        RemoverState::FirstAttempt,
        FsEvent::RemoveFailed(FsErrorKind::PermissionDenied),
        DIR_GATED,
        false,
    );
    assert!(matches!(
        st,
        RemoverState::Finished(Err(RemoveError::NoParentDirectory))
    ));
    assert!(matches!(action_of(&st), RemoverAction::Stop));
}

#[test]
fn entry_gated_denial_needs_no_parent() {
    // Under an entry-gated policy the target is the entry itself, so a
    // missing parent does not end the recovery.
    let st = step(
        RemoverState::FirstAttempt,
        FsEvent::RemoveFailed(FsErrorKind::PermissionDenied),
        ENTRY_GATED,
        false,
    );
    assert!(matches!(st, RemoverState::ReadingPermissions));
}

#[test]
fn already_writable_target_is_terminal_access_denied() {
    // Permission denied although the gating state is writable: something else denies
    // the operation; no retry loop.
    let st = step(RemoverState::FirstAttempt, FsEvent::RemoveFailed(FsErrorKind::PermissionDenied), DIR_GATED, true);
    let st = step(st, FsEvent::PermissionsRead(PermissionState::Mode(0o755)), DIR_GATED, true);
    assert!(matches!(
        st,
        RemoverState::Finished(Err(RemoveError::AccessDenied))
    ));
}

#[test]
fn metadata_read_failure_is_terminal() {
    let st = step(RemoverState::FirstAttempt, FsEvent::RemoveFailed(FsErrorKind::PermissionDenied), DIR_GATED, true);
    let st = step(st, FsEvent::PermissionsReadFailed, DIR_GATED, true);
    assert!(matches!(
        st,
        RemoverState::Finished(Err(RemoveError::MetadataReadFailed))
    ));
}

#[test]
fn grant_failure_is_terminal() {
    let st = step(RemoverState::FirstAttempt, FsEvent::RemoveFailed(FsErrorKind::PermissionDenied), DIR_GATED, true);
    let st = step(st, FsEvent::PermissionsRead(PermissionState::Mode(0o555)), DIR_GATED, true);
    let st = step(st, FsEvent::GrantWriteFailed, DIR_GATED, true);
    assert!(matches!(
        st,
        RemoverState::Finished(Err(RemoveError::PermissionChangeFailed))
    ));
}

#[test]
fn failed_retry_is_final_verbatim() {
    // The retry's failure is returned as it came, even a second permission
    // denial; nothing follows the single retry.
    let st = step(RemoverState::FirstAttempt, FsEvent::RemoveFailed(FsErrorKind::PermissionDenied), DIR_GATED, true);
    let st = step(st, FsEvent::PermissionsRead(PermissionState::Mode(0o555)), DIR_GATED, true);
    let st = step(st, FsEvent::WriteGranted, DIR_GATED, true);
    let st = step(st, FsEvent::RemoveFailed(FsErrorKind::PermissionDenied), DIR_GATED, true);
    assert!(matches!(
        st,
        RemoverState::Finished(Err(RemoveError::Fs(FsErrorKind::PermissionDenied)))
    ));
    assert!(matches!(action_of(&st), RemoverAction::Stop));
}

#[test]
fn other_errors_are_passed_through() {
    let st = step(RemoverState::FirstAttempt, FsEvent::RemoveFailed(FsErrorKind::Other), DIR_GATED, true);
    assert!(matches!(
        st,
        RemoverState::Finished(Err(RemoveError::Fs(FsErrorKind::Other)))
    ));
}

#[test]
fn finished_state_absorbs_events() {
    let st = step(RemoverState::FirstAttempt, FsEvent::Removed, DIR_GATED, true);
    let st = step(st, FsEvent::RemoveFailed(FsErrorKind::PermissionDenied), DIR_GATED, true);
    assert!(matches!(st, RemoverState::Finished(Ok(()))));
}
