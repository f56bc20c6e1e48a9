//! Creating a workspace.

use vstd::prelude::*;
use crate::action::{action_views, Action, ActionView};
use crate::policy::{check, refusal, Caller, Error, Filesystem};
use crate::store::{lemma_position, Store, StoreView, WorkspaceView};
use crate::text::owned;
use crate::time::{num_days, whole_days};
use crate::volume::{to_volume_string, volume_string};

verus! {

/// Why a creation is refused, if it is: by the checks on caller and
/// policy, or else because the store holds the workspace already.
pub open spec fn create_refusal(
    store: StoreView,
    caller: &Caller,
    filesystem: &Filesystem,
    filesystem_name: Seq<char>,
    user: Seq<char>,
    name: Seq<char>,
    duration: i64,
) -> Option<Error> {
    match refusal(caller, filesystem, user, Some(duration)) {
        Some(e) => Some(e),
        None => if store.holds(filesystem_name, user, name) {
            Some(Error::WorkspaceExists)
        } else {
            None
        },
    }
}

/// The store after a creation at `now`: one more record, which expires at
/// `expiration`, and one log entry for it, timestamped `now`, so that the
/// next maintenance run does not remind the owner at once.
pub open spec fn created(
    store: StoreView,
    filesystem_name: Seq<char>,
    user: Seq<char>,
    name: Seq<char>,
    expiration: i64,
    now: i64,
) -> StoreView {
    let id = store.next_id() as i64;
    store.with_workspace(
        WorkspaceView { id, filesystem: filesystem_name, owner: user, name, expiration },
    ).with_notification(id, now)
}

/// What follows a creation: the change is committed, then the volume is
/// provisioned, access to it is restricted to the owner, and, where mail
/// is configured, the owner is told.
pub open spec fn create_actions(
    root: Seq<char>,
    user: Seq<char>,
    name: Seq<char>,
    duration: i64,
    notify: bool,
) -> Seq<ActionView> {
    let volume = volume_string(root, user, name);
    let provision = seq![
        ActionView::Commit,
        ActionView::CreateVolume { volume },
        ActionView::RestrictToOwner { volume, owner: user },
    ];
    if notify {
        provision.push(
            ActionView::NotifyCreated {
                owner: user,
                name,
                volume,
                days: whole_days(duration as int) as i64,
            },
        )
    } else {
        provision
    }
}

/// Creates the workspace `name` of `user` on the filesystem
/// `filesystem_name`, to expire `duration` seconds after `now`.
///
/// On success the store holds the new record and a log entry for it, and
/// the result lists what the caller has to do, beginning with the commit
/// of the change. On refusal the store is unchanged.
pub fn create(
    store: &mut Store,
    filesystem_name: &str,
    filesystem: &Filesystem,
    user: &str,
    name: &str,
    duration: i64,
    caller: &Caller,
    now: i64,
    notify: bool,
) -> (result: Result<Vec<Action>, Error>)
    requires
        old(store).wf(),
        old(store)@.has_room(),
        i64::MIN <= now + duration <= i64::MAX,
    ensures
        final(store).wf(),
        match result {
            Ok(actions) => {
                &&& create_refusal(
                    old(store)@,
                    caller,
                    filesystem,
                    filesystem_name@,
                    user@,
                    name@,
                    duration,
                ) is None
                &&& final(store)@ == created(
                    old(store)@,
                    filesystem_name@,
                    user@,
                    name@,
                    (now + duration) as i64,
                    now,
                )
                &&& action_views(actions@) == create_actions(
                    filesystem.root@,
                    user@,
                    name@,
                    duration,
                    notify,
                )
            },
            Err(e) => {
                &&& create_refusal(
                    old(store)@,
                    caller,
                    filesystem,
                    filesystem_name@,
                    user@,
                    name@,
                    duration,
                ) == Some(e)
                &&& final(store)@ == old(store)@
            },
        },
{
    match check(caller, filesystem, user, Some(duration)) {
        Err(e) => { return Err(e); },
        Ok(()) => {},
    }
    let id = match store.insert_workspace(filesystem_name, user, name, now + duration) {
        None => { return Err(Error::WorkspaceExists); },
        Some(id) => id,
    };
    assert(store@.workspaces[store@.workspaces.len() - 1].id == id);
    let logged = store.log_notification(id, now);
    assert(logged);

    let mut actions: Vec<Action> = Vec::new();
    actions.push(Action::Commit);
    actions.push(Action::CreateVolume { volume: to_volume_string(filesystem.root.as_str(), user, name) });
    actions.push(
        Action::RestrictToOwner {
            volume: to_volume_string(filesystem.root.as_str(), user, name),
            owner: owned(user),
        },
    );
    if notify {
        actions.push(
            Action::NotifyCreated {
                owner: owned(user),
                name: owned(name),
                volume: to_volume_string(filesystem.root.as_str(), user, name),
                days: num_days(duration),
            },
        );
    }
    assert(action_views(actions@) =~= create_actions(
        filesystem.root@,
        user@,
        name@,
        duration,
        notify,
    ));
    Ok(actions)
}

/// A creation that is not refused leaves the store well-formed: no two
/// records share an identifier, no two share filesystem, owner and name,
/// and every log entry belongs to a record.
pub proof fn lemma_created_wf(
    store: StoreView,
    filesystem_name: Seq<char>,
    user: Seq<char>,
    name: Seq<char>,
    expiration: i64,
    now: i64,
)
    requires
        store.wf(),
        store.has_room(),
        !store.holds(filesystem_name, user, name),
    ensures
        created(store, filesystem_name, user, name, expiration, now).wf(),
{
    let id = store.next_id() as i64;
    let row = WorkspaceView { id, filesystem: filesystem_name, owner: user, name, expiration };
    crate::store::lemma_next_id_is_new(store);
    crate::store::lemma_with_workspace_wf(store, row);
    let with_row = store.with_workspace(row);
    assert(with_row.workspaces[with_row.workspaces.len() - 1].id == id);
    crate::store::lemma_with_notification_wf(with_row, id, now);
}

/// Reading back what was created: the new workspace is found, it expires
/// exactly at the expiration it was created with, its latest log entry is
/// the one of its creation, and every workspace that the store held before
/// is still where it was.
pub proof fn lemma_created_reads_back(
    store: StoreView,
    filesystem_name: Seq<char>,
    user: Seq<char>,
    name: Seq<char>,
    expiration: i64,
    now: i64,
)
    requires
        store.wf(),
        store.has_room(),
        !store.holds(filesystem_name, user, name),
    ensures
        ({
            let after = created(store, filesystem_name, user, name, expiration, now);
            &&& after.position(filesystem_name, user, name) == Some(store.workspaces.len() as int)
            &&& after.workspaces[store.workspaces.len() as int].expiration == expiration
            &&& after.last_notified(store.next_id() as i64) == Some(now)
            &&& forall|i: int|
                0 <= i < store.workspaces.len() ==> #[trigger] after.workspaces[i]
                    == store.workspaces[i]
        }),
{
    let after = created(store, filesystem_name, user, name, expiration, now);
    let n = store.workspaces.len() as int;
    let id = store.next_id() as i64;
    lemma_created_wf(store, filesystem_name, user, name, expiration, now);
    lemma_position(after, filesystem_name, user, name);
    assert(after.workspaces[n].is_named(filesystem_name, user, name));
    assert(after.holds(filesystem_name, user, name));
    let p = after.position(filesystem_name, user, name)->0;
    if p != n {
        assert(!after.workspaces[n].is_named(filesystem_name, user, name));
    }
    // The log held no entry of the new workspace before.
    crate::store::lemma_next_id_is_new(store);
    crate::store::lemma_latest_among(store, id, store.notifications.len() as int);
    assert(store.latest_among(id, store.notifications.len() as int) is None) by {
        if store.latest_among(id, store.notifications.len() as int) is Some {
            let k = choose|k: int|
                0 <= k < store.notifications.len() && (#[trigger] store.notifications[k]).workspace_id
                    == id;
            assert(store.has_id(store.notifications[k].workspace_id));
        }
    }
    crate::store::lemma_latest_among_prefix(store, after, id, store.notifications.len() as int);
}

} // verus!
