//! Extending a workspace.

use vstd::prelude::*;
use crate::action::{action_views, Action, ActionView};
use crate::policy::{check, refusal, Caller, Error, Filesystem};
use crate::store::{
    lemma_with_expiration_wf, lemma_with_notification_wf, lemma_without_notifications_after,
    Store, StoreView,
};
use crate::text::{owned, same_text};
use crate::time::{whole_days, whole_days_wide};
use crate::volume::{to_volume_string, volume_string};

verus! {

/// The later of two instants.
pub open spec fn latest(a: i64, b: i64) -> i64 {
    if a >= b {
        a
    } else {
        b
    }
}

/// Whether an extension is the owner's own acknowledgement of the
/// workspace's state: the caller is the owner and is not privileged.
pub open spec fn acknowledges(caller: &Caller, user: Seq<char>) -> bool {
    caller.username@ == user && !caller.privileged
}

/// Why an extension is refused, if it is: by the checks on caller and
/// policy, or else because the store holds no such workspace.
pub open spec fn extend_refusal(
    store: StoreView,
    caller: &Caller,
    filesystem: &Filesystem,
    filesystem_name: Seq<char>,
    user: Seq<char>,
    name: Seq<char>,
    duration: i64,
) -> Option<Error> {
    match refusal(caller, filesystem, user, Some(duration)) {
        Some(e) => Some(e),
        None => if store.position(filesystem_name, user, name) is None {
            Some(Error::UnknownWorkspace)
        } else {
            None
        },
    }
}

/// The store after the workspace at `position` was extended at `now`: its
/// expiration is the later of what it was and `candidate`; the log entries
/// of the workspace that are timestamped after `now` are gone; and, where
/// the owner acknowledged, the log has a new entry for it at `now`.
pub open spec fn extended(
    store: StoreView,
    position: int,
    candidate: i64,
    now: i64,
    acknowledged: bool,
) -> StoreView {
    let row = store.workspaces[position];
    let cleared = store.with_expiration(
        position,
        latest(row.expiration, candidate),
    ).without_notifications_after(row.id, now);
    if acknowledged {
        cleared.with_notification(row.id, now)
    } else {
        cleared
    }
}

/// What follows an extension: the change is committed, then the volume is
/// made writable again and, where mail is configured, the owner is told
/// the new expiration and the whole days that are left until then.
pub open spec fn extend_actions(
    root: Seq<char>,
    user: Seq<char>,
    name: Seq<char>,
    expiration: i64,
    now: i64,
    notify: bool,
) -> Seq<ActionView> {
    let writable = seq![
        ActionView::Commit,
        ActionView::SetReadOnly { volume: volume_string(root, user, name), read_only: false },
    ];
    if notify {
        writable.push(
            ActionView::NotifyExtended {
                owner: user,
                name,
                expiration,
                days: whole_days(expiration - now) as i64,
            },
        )
    } else {
        writable
    }
}

/// Extends the workspace `name` of `user` on the filesystem
/// `filesystem_name` so that it expires no earlier than `duration` seconds
/// after `now`.
///
/// On success the result lists what the caller has to do, beginning with
/// the commit of the change. On refusal the store is unchanged.
pub fn extend(
    store: &mut Store,
    filesystem_name: &str,
    filesystem: &Filesystem,
    user: &str,
    name: &str,
    duration: i64,
    caller: &Caller,
    now: i64,
    notify: bool,
) -> (result: Result<Vec<Action>, Error>)
    requires
        old(store).wf(),
        i64::MIN <= now + duration <= i64::MAX,
    ensures
        final(store).wf(),
        match result {
            Ok(actions) => {
                let position = old(store)@.position(filesystem_name@, user@, name@)->0;
                let expiration = latest(
                    old(store)@.workspaces[position].expiration,
                    (now + duration) as i64,
                );
                &&& extend_refusal(
                    old(store)@,
                    caller,
                    filesystem,
                    filesystem_name@,
                    user@,
                    name@,
                    duration,
                ) is None
                &&& final(store)@ == extended(
                    old(store)@,
                    position,
                    (now + duration) as i64,
                    now,
                    acknowledges(caller, user@),
                )
                &&& action_views(actions@) == extend_actions(
                    filesystem.root@,
                    user@,
                    name@,
                    expiration,
                    now,
                    notify,
                )
                &&& final(store)@.workspaces[position].expiration >= old(
                    store,
                )@.workspaces[position].expiration
                &&& forall|k: int|
                    0 <= k < final(store)@.notifications.len() && (
                    #[trigger] final(store)@.notifications[k]).workspace_id == old(
                        store,
                    )@.workspaces[position].id ==> final(store)@.notifications[k].timestamp <= now
            },
            Err(e) => {
                &&& extend_refusal(
                    old(store)@,
                    caller,
                    filesystem,
                    filesystem_name@,
                    user@,
                    name@,
                    duration,
                ) == Some(e)
                &&& final(store)@ == old(store)@
            },
        },
{
    match check(caller, filesystem, user, Some(duration)) {
        Err(e) => { return Err(e); },
        Ok(()) => {},
    }
    let position = match store.find(filesystem_name, user, name) {
        None => { return Err(Error::UnknownWorkspace); },
        Some(position) => position,
    };
    let id = store.workspace(position).id;
    let current = store.workspace(position).expiration;
    let candidate: i64 = now + duration;
    let expiration = if current >= candidate {
        current
    } else {
        candidate
    };
    store.set_expiration(position, expiration);
    store.remove_notifications_after(id, now);
    if same_text(caller.username.as_str(), user) && !caller.privileged {
        assert(store@.workspaces[position as int].id == id);
        let logged = store.log_notification(id, now);
        assert(logged);
    }
    proof {
        lemma_extend_leaves_no_later_entry(
            old(store)@,
            position as int,
            candidate,
            now,
            acknowledges(caller, user@),
        );
    }
    let mut actions: Vec<Action> = Vec::new();
    actions.push(Action::Commit);
    actions.push(
        Action::SetReadOnly {
            volume: to_volume_string(filesystem.root.as_str(), user, name),
            read_only: false,
        },
    );
    if notify {
        actions.push(
            Action::NotifyExtended {
                owner: owned(user),
                name: owned(name),
                expiration,
                days: whole_days_wide(expiration as i128 - now as i128),
            },
        );
    }
    assert(action_views(actions@) =~= extend_actions(
        filesystem.root@,
        user@,
        name@,
        expiration,
        now,
        notify,
    ));
    Ok(actions)
}

/// An extension never makes a workspace expire earlier, and it changes
/// nothing else of any record.
pub proof fn lemma_extend_never_decreases(
    store: StoreView,
    position: int,
    candidate: i64,
    now: i64,
    acknowledged: bool,
)
    requires
        0 <= position < store.workspaces.len(),
    ensures
        ({
            let after = extended(store, position, candidate, now, acknowledged);
            &&& after.workspaces.len() == store.workspaces.len()
            &&& after.workspaces[position].expiration >= store.workspaces[position].expiration
            &&& after.workspaces[position].expiration >= candidate
            &&& after.workspaces[position] == store.workspaces[position].expiring_at(
                after.workspaces[position].expiration,
            )
            &&& forall|i: int|
                0 <= i < store.workspaces.len() && i != position ==> #[trigger] after.workspaces[i]
                    == store.workspaces[i]
        }),
{
}

/// An extension leaves a well-formed store well-formed.
pub proof fn lemma_extended_wf(
    store: StoreView,
    position: int,
    candidate: i64,
    now: i64,
    acknowledged: bool,
)
    requires
        store.wf(),
        0 <= position < store.workspaces.len(),
    ensures
        extended(store, position, candidate, now, acknowledged).wf(),
{
    let row = store.workspaces[position];
    let prolonged = store.with_expiration(position, latest(row.expiration, candidate));
    lemma_with_expiration_wf(store, position, latest(row.expiration, candidate));
    lemma_without_notifications_after(prolonged, row.id, now);
    let cleared = prolonged.without_notifications_after(row.id, now);
    assert(cleared.workspaces[position].id == row.id);
    lemma_with_notification_wf(cleared, row.id, now);
}

/// After an extension at `now`, by the owner or by anyone else, the log
/// holds no entry of that workspace that is timestamped strictly after
/// `now`.
pub proof fn lemma_extend_leaves_no_later_entry(
    store: StoreView,
    position: int,
    candidate: i64,
    now: i64,
    acknowledged: bool,
)
    requires
        store.wf(),
        0 <= position < store.workspaces.len(),
    ensures
        ({
            let after = extended(store, position, candidate, now, acknowledged);
            forall|k: int|
                0 <= k < after.notifications.len() && (
                #[trigger] after.notifications[k]).workspace_id == store.workspaces[position].id
                    ==> after.notifications[k].timestamp <= now
        }),
{
    let row = store.workspaces[position];
    let prolonged = store.with_expiration(position, latest(row.expiration, candidate));
    lemma_with_expiration_wf(store, position, latest(row.expiration, candidate));
    lemma_without_notifications_after(prolonged, row.id, now);
    let cleared = prolonged.without_notifications_after(row.id, now);
    let after = extended(store, position, candidate, now, acknowledged);
    assert forall|k: int|
        0 <= k < after.notifications.len() && (#[trigger] after.notifications[k]).workspace_id
            == row.id implies after.notifications[k].timestamp <= now by {
        if k < cleared.notifications.len() {
            assert(after.notifications[k] == cleared.notifications[k]);
        }
    }
}

/// After the owner's own extension at `now` the latest log entry of the
/// workspace is the acknowledgement, timestamped `now`.
pub proof fn lemma_extend_by_owner_is_logged(
    store: StoreView,
    position: int,
    candidate: i64,
    now: i64,
)
    requires
        store.wf(),
        0 <= position < store.workspaces.len(),
    ensures
        extended(store, position, candidate, now, true).last_notified(
            store.workspaces[position].id,
        ) == Some(now),
{
    let id = store.workspaces[position].id;
    let after = extended(store, position, candidate, now, true);
    lemma_extend_leaves_no_later_entry(store, position, candidate, now, true);
    let n = after.notifications.len() as int;
    crate::store::lemma_latest_among(after, id, n);
    assert(after.notifications[n - 1].workspace_id == id);
    assert(after.notifications[n - 1].timestamp == now);
}

} // verus!
