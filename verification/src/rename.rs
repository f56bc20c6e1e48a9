//! Renaming a workspace.

use vstd::prelude::*;
use crate::action::{action_views, Action, ActionView};
use crate::policy::{check, refusal, Caller, Error, Filesystem};
use crate::store::{lemma_position, lemma_with_name_wf, taken_by_another, Store, StoreView};
use crate::volume::{to_volume_string, volume_string};

verus! {

/// Why a renaming is refused, if it is: by the checks on caller and
/// policy, or else because another workspace of the same filesystem and
/// owner has the new name already.
pub open spec fn rename_refusal(
    store: StoreView,
    caller: &Caller,
    filesystem: &Filesystem,
    filesystem_name: Seq<char>,
    user: Seq<char>,
    src_name: Seq<char>,
    dest_name: Seq<char>,
) -> Option<Error> {
    match refusal(caller, filesystem, user, None) {
        Some(e) => Some(e),
        None => match store.position(filesystem_name, user, src_name) {
            Some(position) if taken_by_another(
                store,
                position,
                filesystem_name,
                user,
                dest_name,
            ) => Some(Error::WorkspaceExists),
            _ => None,
        },
    }
}

/// The store after a renaming: the record of the workspace `src_name` has
/// the name `dest_name`. A store without that workspace stays as it is.
pub open spec fn renamed(
    store: StoreView,
    filesystem_name: Seq<char>,
    user: Seq<char>,
    src_name: Seq<char>,
    dest_name: Seq<char>,
) -> StoreView {
    match store.position(filesystem_name, user, src_name) {
        Some(position) => store.with_name(position, dest_name),
        None => store,
    }
}

/// Renames the workspace `src_name` of `user` on the filesystem
/// `filesystem_name` to `dest_name`.
///
/// On success the result tells the caller to commit the change and then
/// to rename the volume; a failure of that renaming is not made up for in
/// the store. Where the store holds no workspace `src_name`, the
/// store stays as it is, and the volume manager, asked to rename a volume
/// that does not exist, is the one to report it. On refusal the store is
/// unchanged.
pub fn rename(
    store: &mut Store,
    filesystem_name: &str,
    filesystem: &Filesystem,
    user: &str,
    src_name: &str,
    dest_name: &str,
    caller: &Caller,
) -> (result: Result<Vec<Action>, Error>)
    requires
        old(store).wf(),
    ensures
        final(store).wf(),
        match result {
            Ok(actions) => {
                &&& rename_refusal(
                    old(store)@,
                    caller,
                    filesystem,
                    filesystem_name@,
                    user@,
                    src_name@,
                    dest_name@,
                ) is None
                &&& final(store)@ == renamed(
                    old(store)@,
                    filesystem_name@,
                    user@,
                    src_name@,
                    dest_name@,
                )
                &&& action_views(actions@) == seq![
                    ActionView::Commit,
                    ActionView::RenameVolume {
                        volume: volume_string(filesystem.root@, user@, src_name@),
                        new_volume: volume_string(filesystem.root@, user@, dest_name@),
                    },
                ]
            },
            Err(e) => {
                &&& rename_refusal(
                    old(store)@,
                    caller,
                    filesystem,
                    filesystem_name@,
                    user@,
                    src_name@,
                    dest_name@,
                ) == Some(e)
                &&& final(store)@ == old(store)@
            },
        },
{
    match check(caller, filesystem, user, None) {
        Err(e) => { return Err(e); },
        Ok(()) => {},
    }
    proof {
        lemma_position(store@, filesystem_name@, user@, src_name@);
    }
    match store.find(filesystem_name, user, src_name) {
        Some(position) => {
            if !store.rename_workspace(position, dest_name) {
                return Err(Error::WorkspaceExists);
            }
        },
        None => {},
    }
    let mut actions: Vec<Action> = Vec::new();
    actions.push(Action::Commit);
    actions.push(
        Action::RenameVolume {
            volume: to_volume_string(filesystem.root.as_str(), user, src_name),
            new_volume: to_volume_string(filesystem.root.as_str(), user, dest_name),
        },
    );
    assert(action_views(actions@) =~= seq![
        ActionView::Commit,
        ActionView::RenameVolume {
            volume: volume_string(filesystem.root@, user@, src_name@),
            new_volume: volume_string(filesystem.root@, user@, dest_name@),
        },
    ]);
    Ok(actions)
}

/// A renaming that is not refused leaves the store well-formed: in
/// particular no two records share filesystem, owner and name.
pub proof fn lemma_renamed_wf(
    store: StoreView,
    filesystem_name: Seq<char>,
    user: Seq<char>,
    src_name: Seq<char>,
    dest_name: Seq<char>,
)
    requires
        store.wf(),
        store.position(filesystem_name, user, src_name) matches Some(position)
            ==> !taken_by_another(store, position, filesystem_name, user, dest_name),
    ensures
        renamed(store, filesystem_name, user, src_name, dest_name).wf(),
{
    lemma_position(store, filesystem_name, user, src_name);
    if store.position(filesystem_name, user, src_name) is Some {
        let position = store.position(filesystem_name, user, src_name)->0;
        lemma_with_name_wf(store, position, dest_name);
    }
}

/// A renaming changes one record's name and nothing else: identifiers,
/// expirations, the other records and the notification log stay.
pub proof fn lemma_renamed_keeps_rest(
    store: StoreView,
    filesystem_name: Seq<char>,
    user: Seq<char>,
    src_name: Seq<char>,
    dest_name: Seq<char>,
)
    ensures
        ({
            let after = renamed(store, filesystem_name, user, src_name, dest_name);
            &&& after.notifications == store.notifications
            &&& after.workspaces.len() == store.workspaces.len()
            &&& forall|i: int|
                0 <= i < store.workspaces.len() ==> #[trigger] after.workspaces[i]
                    == store.workspaces[i] || (Some(i) == store.position(
                    filesystem_name,
                    user,
                    src_name,
                ) && after.workspaces[i] == store.workspaces[i].renamed(dest_name))
        }),
{
    lemma_position(store, filesystem_name, user, src_name);
}

} // verus!
