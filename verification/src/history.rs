//! What holds of the store after any number of changes: whatever sequence
//! of creations, renamings, expiries, extensions and removals it has been
//! through, no two of its workspaces share filesystem, owner and name.

use vstd::prelude::*;
use crate::create::{created, lemma_created_wf};
use crate::expire::{expired, lemma_expired_wf};
use crate::extend::{extended, lemma_extended_wf};
use crate::rename::{lemma_renamed_wf, renamed};
use crate::store::{lemma_position, lemma_without_workspace_wf, taken_by_another, StoreView};

verus! {

/// One change of the store, as the operations of the lifecycle and the
/// maintenance sweep make it.
pub enum Change {
    /// A workspace is created.
    Create { filesystem: Seq<char>, owner: Seq<char>, name: Seq<char>, expiration: i64, now: i64 },
    /// A workspace is renamed.
    Rename { filesystem: Seq<char>, owner: Seq<char>, src_name: Seq<char>, dest_name: Seq<char> },
    /// The workspace at `position` is expired.
    Expire { position: int, candidate: i64, now: i64 },
    /// The workspace at `position` is extended.
    Extend { position: int, candidate: i64, now: i64, acknowledged: bool },
    /// The workspace at `position` is removed with its log entries.
    Remove { position: int },
}

/// Whether the change is one that the operations make of this store: a
/// creation of a workspace that the store does not hold yet, a renaming to
/// a name that no other workspace of that filesystem and owner has, and
/// an expiry, an extension or a removal of a workspace that is there.
pub open spec fn is_made(store: StoreView, change: Change) -> bool {
    match change {
        Change::Create { filesystem, owner, name, expiration, now } => store.has_room()
            && !store.holds(filesystem, owner, name),
        Change::Rename { filesystem, owner, src_name, dest_name } => store.position(
            filesystem,
            owner,
            src_name,
        ) matches Some(position) ==> !taken_by_another(
            store,
            position,
            filesystem,
            owner,
            dest_name,
        ),
        Change::Expire { position, candidate, now } => 0 <= position < store.workspaces.len(),
        Change::Extend { position, candidate, now, acknowledged } => 0 <= position
            < store.workspaces.len(),
        Change::Remove { position } => 0 <= position < store.workspaces.len(),
    }
}

/// The store after a change. A change that the operations do not make of
/// this store, because they refuse it, leaves the store as it is.
pub open spec fn after(store: StoreView, change: Change) -> StoreView {
    if !is_made(store, change) {
        store
    } else {
        match change {
            Change::Create { filesystem, owner, name, expiration, now } => created(
                store,
                filesystem,
                owner,
                name,
                expiration,
                now,
            ),
            Change::Rename { filesystem, owner, src_name, dest_name } => renamed(
                store,
                filesystem,
                owner,
                src_name,
                dest_name,
            ),
            Change::Expire { position, candidate, now } => expired(
                store,
                position,
                candidate,
                now,
            ),
            Change::Extend { position, candidate, now, acknowledged } => extended(
                store,
                position,
                candidate,
                now,
                acknowledged,
            ),
            Change::Remove { position } => store.without_workspace(position),
        }
    }
}

/// The store after the first `done` changes of a sequence.
pub open spec fn after_all(store: StoreView, changes: Seq<Change>, done: int) -> StoreView
    decreases done,
{
    if done <= 0 || done > changes.len() {
        store
    } else {
        after(after_all(store, changes, done - 1), changes[done - 1])
    }
}

/// One change leaves a well-formed store well-formed.
pub proof fn lemma_change_keeps_wf(store: StoreView, change: Change)
    requires
        store.wf(),
    ensures
        after(store, change).wf(),
{
    if is_made(store, change) {
        match change {
            Change::Create { filesystem, owner, name, expiration, now } => {
                lemma_created_wf(store, filesystem, owner, name, expiration, now);
            },
            Change::Rename { filesystem, owner, src_name, dest_name } => {
                lemma_position(store, filesystem, owner, src_name);
                lemma_renamed_wf(store, filesystem, owner, src_name, dest_name);
            },
            Change::Expire { position, candidate, now } => {
                lemma_expired_wf(store, position, candidate, now);
            },
            Change::Extend { position, candidate, now, acknowledged } => {
                lemma_extended_wf(store, position, candidate, now, acknowledged);
            },
            Change::Remove { position } => {
                lemma_without_workspace_wf(store, position);
            },
        }
    }
}

/// Uniqueness: after any sequence of changes of a well-formed store, and so
/// of the empty store, no two workspaces share filesystem, owner and name,
/// no two share an identifier, and every log entry belongs to a workspace.
pub proof fn lemma_always_unique(store: StoreView, changes: Seq<Change>, done: int)
    requires
        store.wf(),
    ensures
        after_all(store, changes, done).wf(),
        after_all(store, changes, done).unique_triples(),
    decreases done,
{
    if 0 < done <= changes.len() {
        lemma_always_unique(store, changes, done - 1);
        lemma_change_keeps_wf(after_all(store, changes, done - 1), changes[done - 1]);
    }
}

} // verus!
