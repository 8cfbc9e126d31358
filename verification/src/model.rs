//! A model filesystem, and tree removal proved against it.
//!
//! A tree of the model holds exactly what the remover's decisions read of a
//! real one: each node's kind and permission state. Removal of a model entry
//! is denied exactly when the gating permission state — the parent
//! directory's under a directory-gated policy, the entry's own under an
//! entry-gated one — is not writable; the interpreter here drives the very
//! state machine of [`crate::remover`] against that model, children before
//! parents as the walker orders them. The contracts state that every tree is
//! removed entirely, read-only nodes included, and say exactly which
//! permission state the process leaves altered: the parent of the removed
//! tree, only under a directory-gated policy, and only if it was not already
//! writable.

use vstd::prelude::*;

verus! {

use crate::entry::{EntryKind, FsErrorKind, RemoveError};
use crate::perm::{
    PermissionPolicy,
    PermissionState,
    is_writable,
    is_writable_spec,
    lemma_make_writable_grants_owner_only,
    lemma_make_writable_is_writable,
    make_writable_spec,
};
use crate::remover::{FsEvent, RemoverState, step};

/// One node of a model tree: a file (or symbolic link) with its permission
/// state, or a directory with its permission state and contents.
pub enum FsNode {
    File { perm: PermissionState },
    Dir { perm: PermissionState, children: FsList },
}

/// The contents of a model directory, in traversal order.
pub enum FsList {
    Nil,
    Cons(Box<FsNode>, Box<FsList>),
}

/// The permission state a removal leaves on the removed entry's containing
/// directory. Under a directory-gated policy a read-only parent must be
/// granted write permission to let the removal through, and it stays
/// writable afterwards — reverting it would re-block entries still pending
/// inside the same traversal. In every other case the parent is untouched.
pub open spec fn parent_perm_after(
    parent: PermissionState,
    policy: PermissionPolicy,
) -> PermissionState {
    if policy is DirectoryGated && !is_writable_spec(parent) {
        make_writable_spec(parent)
    } else {
        parent
    }
}

/// The permission state removing a directory's contents leaves on the
/// directory itself: untouched when it has no contents, else as removing one
/// child leaves it.
pub open spec fn children_perm_after(
    list: FsList,
    dir_perm: PermissionState,
    policy: PermissionPolicy,
) -> PermissionState {
    if list is Nil {
        dir_perm
    } else {
        parent_perm_after(dir_perm, policy)
    }
}

/// Remove one childless entry of the model: drive the remover's state
/// machine, answering each of its actions from a model filesystem in which
/// the entry has permission state `entry_perm` and its containing directory
/// `parent_perm`, and a removal is denied exactly when the gating state is
/// not writable. Every such entry is removed, whether or not it (or its
/// parent) is read-only, and the parent's state afterwards is exactly
/// [`parent_perm_after`].
pub fn remove_model_entry(
    entry_perm: PermissionState,
    parent_perm: PermissionState,
    policy: PermissionPolicy,
) -> (r: (PermissionState, Result<(), RemoveError>))
    ensures
        r.0 == parent_perm_after(parent_perm, policy),
        r.1 is Ok,
{
    let mut parent = parent_perm;
    let mut entry = entry_perm;

    let st = RemoverState::FirstAttempt;
    let gate_ok = match policy {
        PermissionPolicy::DirectoryGated => is_writable(&parent),
        PermissionPolicy::EntryGated => is_writable(&entry),
    };
    let ev = if gate_ok {
        FsEvent::Removed
    } else {
        FsEvent::RemoveFailed(FsErrorKind::PermissionDenied)
    };
    let st = step(st, ev, policy, true);
    if gate_ok {
        match st {
            RemoverState::Finished(res) => {
                return (parent, res);
            },
            _ => {
                return unreached();
            },
        }
    }

    // The gating state was not writable: the machine asks for its metadata.
    let target = match policy {
        PermissionPolicy::DirectoryGated => parent,
        PermissionPolicy::EntryGated => entry,
    };
    let st = step(st, FsEvent::PermissionsRead(target), policy, true);

    // The target is read-only, so the machine asks to grant write on it.
    let granted = match st {
        RemoverState::GrantingWrite(p) => p,
        _ => unreached(),
    };
    match policy {
        PermissionPolicy::DirectoryGated => {
            parent = granted;
        },
        PermissionPolicy::EntryGated => {
            entry = granted;
        },
    }
    let st = step(st, FsEvent::WriteGranted, policy, true);

    // The single retry: the gating state is writable now, so the model
    // removes the entry.
    proof {
        lemma_make_writable_is_writable(target);
    }
    let gate_ok_retry = match policy {
        PermissionPolicy::DirectoryGated => is_writable(&parent),
        PermissionPolicy::EntryGated => is_writable(&entry),
    };
    let ev_retry = if gate_ok_retry {
        FsEvent::Removed
    } else {
        FsEvent::RemoveFailed(FsErrorKind::PermissionDenied)
    };
    let st = step(st, ev_retry, policy, true);
    match st {
        RemoverState::Finished(res) => (parent, res),
        _ => unreached(),
    }
}

/// Remove a root entry that has no containing directory — a filesystem
/// root — in the model: such an entry the platform refuses to unlink with a
/// permission denial, whatever its own state. Under a directory-gated policy
/// there is no parent whose permissions could be adjusted, so the remover
/// reports the clearly labeled unrecoverable `NoParentDirectory` failure at
/// once, attempting no out-of-bounds permission change. Under an entry-gated
/// policy the target is the root itself: a writable root is a terminal
/// `AccessDenied`, and a read-only one is granted write and retried exactly
/// once before the denial is passed through.
pub fn remove_model_rootless(entry_perm: PermissionState, policy: PermissionPolicy) -> (r: Result<
    (),
    RemoveError,
>)
    ensures
        policy is DirectoryGated ==> r == Err::<(), RemoveError>(RemoveError::NoParentDirectory),
        policy is EntryGated && is_writable_spec(entry_perm) ==> r == Err::<(), RemoveError>(
            RemoveError::AccessDenied,
        ),
        policy is EntryGated && !is_writable_spec(entry_perm) ==> r == Err::<(), RemoveError>(
            RemoveError::Fs(FsErrorKind::PermissionDenied),
        ),
{
    let st = RemoverState::FirstAttempt;
    let st = step(
        st,
        FsEvent::RemoveFailed(FsErrorKind::PermissionDenied),
        policy,
        false,
    );
    match st {
        RemoverState::Finished(res) => return res,
        RemoverState::ReadingPermissions => {},
        _ => {
            return unreached();
        },
    }

    // Entry-gated: the root itself is the permission target.
    let st = step(st, FsEvent::PermissionsRead(entry_perm), policy, false);
    let entry = match st {
        RemoverState::GrantingWrite(p) => p,
        RemoverState::Finished(res) => {
            return res;
        },
        _ => {
            return unreached();
        },
    };
    let st = step(st, FsEvent::WriteGranted, policy, false);

    // The root's own state no longer blocks — the grant made it writable —
    // yet the platform still refuses to unlink a filesystem root: the
    // retry's denial is final, passed through verbatim.
    proof {
        lemma_make_writable_is_writable(entry_perm);
        assert(is_writable_spec(entry));
    }
    let st = step(
        st,
        FsEvent::RemoveFailed(FsErrorKind::PermissionDenied),
        policy,
        false,
    );
    match st {
        RemoverState::Finished(res) => res,
        _ => unreached(),
    }
}

/// The only permission state outside the removed tree that a removal can
/// leave altered is its containing directory's, and the only possible change
/// is the owner-write bit: the mode afterwards is either exactly what it
/// was, or what it was with owner write added — group- and other-write are
/// never granted.
pub proof fn lemma_removal_alters_parent_minimally(m: u32, policy: PermissionPolicy)
    ensures
        parent_perm_after(PermissionState::Mode(m), policy) == PermissionState::Mode(m)
            || parent_perm_after(PermissionState::Mode(m), policy) == PermissionState::Mode(
            m | 0o200u32,
        ),
        (m | 0o200u32) & 0o022u32 == m & 0o022u32,
{
    lemma_make_writable_grants_owner_only(m);
}

/// Outcome of removing one subtree of the model: the containing directory's
/// permission state afterwards, and how many entries under the subtree could
/// not be removed — failures are collected, never raised, so the walk always
/// covers the whole tree.
pub struct RemovalReport {
    pub parent_perm: PermissionState,
    pub entries_failed: u64,
}

/// Remove a whole model subtree, contents first: every descendant of `node`
/// is removed before `node` itself, as a directory can only be removed once
/// it is empty. Every tree is removed entirely — read-only files and
/// directories included, the permission fixes cascading bottom-up — and the
/// containing directory's state afterwards is exactly [`parent_perm_after`]:
/// in particular it is untouched whenever it was already writable.
///
/// `removed` records each entry as it is removed: the removal visits exactly
/// the entries the walker yields for the tree, each exactly once, in the
/// walker's contents-first order — no directory before its descendants.
pub fn remove_model_node(
    node: FsNode,
    parent_perm: PermissionState,
    policy: PermissionPolicy,
    removed: &mut Vec<EntryKind>,
) -> (r: RemovalReport)
    ensures
        r.entries_failed == 0,
        r.parent_perm == parent_perm_after(parent_perm, policy),
        final(removed)@ == old(removed)@ + post_order_spec(node),
    decreases node,
{
    let ghost n = node;
    match node {
        FsNode::File { perm } => {
            let (p2, res) = remove_model_entry(perm, parent_perm, policy);
            let failed: u64;
            if res.is_ok() {
                removed.push(EntryKind::File);
                failed = 0;
            } else {
                failed = 1;
            }
            assert(removed@ =~= old(removed)@ + post_order_spec(n));
            RemovalReport { parent_perm: p2, entries_failed: failed }
        },
        FsNode::Dir { perm, children } => {
            let rep = remove_model_children(children, perm, policy, removed);
            let (p2, res) = remove_model_entry(rep.parent_perm, parent_perm, policy);
            let failed: u64;
            if res.is_ok() {
                removed.push(EntryKind::Dir);
                failed = rep.entries_failed;
            } else {
                failed = rep.entries_failed + 1;
            }
            assert(removed@ =~= old(removed)@ + post_order_spec(n));
            RemovalReport { parent_perm: p2, entries_failed: failed }
        },
    }
}

/// Remove every entry of a model directory's contents, in order. The
/// directory's own permission state afterwards is exactly
/// [`children_perm_after`]: the first denied child grants it write
/// permission, which then stays for the siblings, and a directory whose
/// contents needed no fix keeps its state.
pub fn remove_model_children(
    list: FsList,
    dir_perm: PermissionState,
    policy: PermissionPolicy,
    removed: &mut Vec<EntryKind>,
) -> (r: RemovalReport)
    ensures
        r.entries_failed == 0,
        r.parent_perm == children_perm_after(list, dir_perm, policy),
        final(removed)@ == old(removed)@ + post_order_list_spec(list),
    decreases list,
{
    let ghost l = list;
    match list {
        FsList::Nil => {
            assert(removed@ =~= old(removed)@ + post_order_list_spec(l));
            RemovalReport { parent_perm: dir_perm, entries_failed: 0 }
        },
        FsList::Cons(head, tail) => {
            let rep1 = remove_model_node(*head, dir_perm, policy, removed);
            proof {
                lemma_make_writable_is_writable(dir_perm);
            }
            let rep2 = remove_model_children(*tail, rep1.parent_perm, policy, removed);
            assert(removed@ =~= old(removed)@ + post_order_list_spec(l));
            RemovalReport { parent_perm: rep2.parent_perm, entries_failed: 0 }
        },
    }
}

/// Whether a root path whose walk produced this report was fully removed:
/// success exactly when no entry under it failed, even if most succeeded.
pub fn root_removed(report: &RemovalReport) -> (r: bool)
    ensures
        r == (report.entries_failed == 0),
{
    report.entries_failed == 0
}

/// Remove one root tree of the model and report the outcome as the caller of
/// a root-path removal sees it: `Ok` exactly when every entry under the root
/// was removed — which in the model is every time — together with the
/// permission state the process leaves on the root's containing directory.
/// The removal covers exactly the walker's entries of the tree, in its
/// contents-first order, appended to `removed`.
pub fn remove_model_tree(
    root: FsNode,
    parent_perm: PermissionState,
    policy: PermissionPolicy,
    removed: &mut Vec<EntryKind>,
) -> (r: (PermissionState, Result<(), RemoveError>))
    ensures
        r.0 == parent_perm_after(parent_perm, policy),
        r.1 is Ok,
        final(removed)@ == old(removed)@ + post_order_spec(root),
{
    let rep = remove_model_node(root, parent_perm, policy, removed);
    let ok = root_removed(&rep);
    if ok {
        (rep.parent_perm, Ok(()))
    } else {
        (rep.parent_perm, Err(RemoveError::AccessDenied))
    }
}

/// The number of entries a tree holds: the node itself and everything under
/// it. This is how many entries the walker yields for it.
pub open spec fn entry_count(node: FsNode) -> nat
    decreases node,
{
    match node {
        FsNode::File { .. } => 1,
        FsNode::Dir { children, .. } => 1 + entry_list_count(children),
    }
}

/// The number of entries in a directory's contents, all trees together.
pub open spec fn entry_list_count(list: FsList) -> nat
    decreases list,
{
    match list {
        FsList::Nil => 0,
        FsList::Cons(head, tail) => entry_count(*head) + entry_list_count(*tail),
    }
}

/// The contents-first order of a tree's entry kinds: for each directory,
/// everything nested inside it comes before the directory itself, and the
/// root comes last of all.
pub open spec fn post_order_spec(node: FsNode) -> Seq<EntryKind>
    decreases node,
{
    match node {
        FsNode::File { .. } => seq![EntryKind::File],
        FsNode::Dir { children, .. } => post_order_list_spec(children) + seq![EntryKind::Dir],
    }
}

/// The contents-first order of a directory's contents, tree by tree.
pub open spec fn post_order_list_spec(list: FsList) -> Seq<EntryKind>
    decreases list,
{
    match list {
        FsList::Nil => Seq::empty(),
        FsList::Cons(head, tail) => post_order_spec(*head) + post_order_list_spec(*tail),
    }
}

/// Walk a model tree in contents-first order, appending the kind of every
/// entry to `out`: exactly the order in which the remover is handed the
/// tree's entries, no entry before the entries nested inside it.
pub fn walk_post_order(node: &FsNode, out: &mut Vec<EntryKind>)
    ensures
        final(out)@ == old(out)@ + post_order_spec(*node),
    decreases *node,
{
    match node {
        FsNode::File { .. } => {
            out.push(EntryKind::File);
            assert(out@ =~= old(out)@ + post_order_spec(*node));
        },
        FsNode::Dir { children, .. } => {
            walk_post_order_list(children, out);
            out.push(EntryKind::Dir);
            assert(out@ =~= old(out)@ + post_order_spec(*node));
        },
    }
}

/// Walk each tree of a directory's contents in order, contents first.
pub fn walk_post_order_list(list: &FsList, out: &mut Vec<EntryKind>)
    ensures
        final(out)@ == old(out)@ + post_order_list_spec(*list),
    decreases *list,
{
    match list {
        FsList::Nil => {
            assert(out@ =~= old(out)@ + post_order_list_spec(*list));
        },
        FsList::Cons(head, tail) => {
            walk_post_order(head, out);
            walk_post_order_list(tail, out);
            assert(out@ =~= old(out)@ + post_order_list_spec(*list));
        },
    }
}

/// The walker yields exactly one entry for every node of the tree, each
/// exactly once.
pub proof fn lemma_walk_is_complete(node: FsNode)
    ensures
        post_order_spec(node).len() == entry_count(node),
    decreases node,
{
    match node {
        FsNode::File { .. } => {},
        FsNode::Dir { children, .. } => {
            lemma_walk_list_is_complete(children);
        },
    }
}

/// The walk of a directory's contents yields one entry per node as well.
pub proof fn lemma_walk_list_is_complete(list: FsList)
    ensures
        post_order_list_spec(list).len() == entry_list_count(list),
    decreases list,
{
    match list {
        FsList::Nil => {},
        FsList::Cons(head, tail) => {
            lemma_walk_is_complete(*head);
            lemma_walk_list_is_complete(*tail);
        },
    }
}

} // verus!
