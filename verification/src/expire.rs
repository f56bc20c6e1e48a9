//! Expiring a workspace ahead of its time.

use vstd::prelude::*;
use crate::action::{action_views, Action, ActionView};
use crate::policy::{authorize, permitted, Caller, Error, Filesystem};
use crate::store::{lemma_with_expiration_wf, Store, StoreView};
use crate::volume::{to_volume_string, volume_string};

verus! {

/// The expiration that an expiry at `now` proposes: `now` itself, or, for
/// an immediate expiry, the instant that lies the retention window before
/// `now`, so that the next maintenance run removes the workspace.
pub open spec fn expire_candidate(now: i64, retention: i64, immediate: bool) -> int {
    if immediate {
        now - retention
    } else {
        now as int
    }
}

/// The earlier of two instants.
pub open spec fn earlier(a: i64, b: i64) -> i64 {
    if a <= b {
        a
    } else {
        b
    }
}

/// Why an expiry is refused, if it is.
pub open spec fn expire_refusal(
    store: StoreView,
    caller: &Caller,
    filesystem_name: Seq<char>,
    user: Seq<char>,
    name: Seq<char>,
) -> Option<Error> {
    if !permitted(caller, user) {
        Some(Error::InsufficientPrivileges)
    } else if store.position(filesystem_name, user, name) is None {
        Some(Error::UnknownWorkspace)
    } else {
        None
    }
}

/// The store after the workspace at `position` was expired at `now`: its
/// expiration is the earlier of what it was and `candidate`, and the log
/// has one more entry for it, timestamped `now`, which keeps the next
/// reminder from being sent right away.
pub open spec fn expired(store: StoreView, position: int, candidate: i64, now: i64) -> StoreView {
    let row = store.workspaces[position];
    store.with_expiration(position, earlier(row.expiration, candidate)).with_notification(
        row.id,
        now,
    )
}

/// Expires the workspace `name` of `user` on the filesystem
/// `filesystem_name`. With `delete_on_next_clean` the expiration is set so
/// far back that the retention window is over, too.
///
/// On success the result tells the caller to commit the change and then
/// to mark the volume read-only. On refusal the store is unchanged.
pub fn expire(
    store: &mut Store,
    filesystem_name: &str,
    filesystem: &Filesystem,
    user: &str,
    name: &str,
    delete_on_next_clean: bool,
    caller: &Caller,
    now: i64,
) -> (result: Result<Vec<Action>, Error>)
    requires
        old(store).wf(),
        i64::MIN <= expire_candidate(now, filesystem.expired_retention, delete_on_next_clean)
            <= i64::MAX,
    ensures
        final(store).wf(),
        match result {
            Ok(actions) => {
                &&& expire_refusal(old(store)@, caller, filesystem_name@, user@, name@) is None
                &&& final(store)@ == expired(
                    old(store)@,
                    old(store)@.position(filesystem_name@, user@, name@)->0,
                    expire_candidate(
                        now,
                        filesystem.expired_retention,
                        delete_on_next_clean,
                    ) as i64,
                    now,
                )
                &&& action_views(actions@) == seq![
                    ActionView::Commit,
                    ActionView::SetReadOnly {
                        volume: volume_string(filesystem.root@, user@, name@),
                        read_only: true,
                    },
                ]
                &&& final(store)@.workspaces[old(store)@.position(
                    filesystem_name@,
                    user@,
                    name@,
                )->0].expiration <= old(store)@.workspaces[old(store)@.position(
                    filesystem_name@,
                    user@,
                    name@,
                )->0].expiration
            },
            Err(e) => {
                &&& expire_refusal(old(store)@, caller, filesystem_name@, user@, name@) == Some(e)
                &&& final(store)@ == old(store)@
            },
        },
{
    match authorize(caller, user) {
        Err(e) => { return Err(e); },
        Ok(()) => {},
    }
    let candidate: i64 = if delete_on_next_clean {
        now - filesystem.expired_retention
    } else {
        now
    };
    let position = match store.find(filesystem_name, user, name) {
        None => { return Err(Error::UnknownWorkspace); },
        Some(position) => position,
    };
    let id = store.workspace(position).id;
    let current = store.workspace(position).expiration;
    let expiration = if current <= candidate {
        current
    } else {
        candidate
    };
    store.set_expiration(position, expiration);
    assert(store@.workspaces[position as int].id == id);
    let logged = store.log_notification(id, now);
    assert(logged);

    let mut actions: Vec<Action> = Vec::new();
    actions.push(Action::Commit);
    actions.push(
        Action::SetReadOnly {
            volume: to_volume_string(filesystem.root.as_str(), user, name),
            read_only: true,
        },
    );
    assert(action_views(actions@) =~= seq![
        ActionView::Commit,
        ActionView::SetReadOnly {
            volume: volume_string(filesystem.root@, user@, name@),
            read_only: true,
        },
    ]);
    Ok(actions)
}

/// An expiry never makes a workspace expire later, and it changes nothing
/// else of any record: identifiers, names and the expirations of the other
/// workspaces stay.
pub proof fn lemma_expire_never_increases(store: StoreView, position: int, candidate: i64, now: i64)
    requires
        0 <= position < store.workspaces.len(),
    ensures
        ({
            let after = expired(store, position, candidate, now);
            &&& after.workspaces.len() == store.workspaces.len()
            &&& after.workspaces[position].expiration <= store.workspaces[position].expiration
            &&& after.workspaces[position].expiration <= candidate
            &&& after.workspaces[position] == store.workspaces[position].expiring_at(
                after.workspaces[position].expiration,
            )
            &&& forall|i: int|
                0 <= i < store.workspaces.len() && i != position ==> #[trigger] after.workspaces[i]
                    == store.workspaces[i]
        }),
{
}

/// An expiry leaves a well-formed store well-formed.
pub proof fn lemma_expired_wf(store: StoreView, position: int, candidate: i64, now: i64)
    requires
        store.wf(),
        0 <= position < store.workspaces.len(),
    ensures
        expired(store, position, candidate, now).wf(),
{
    let row = store.workspaces[position];
    let shortened = store.with_expiration(position, earlier(row.expiration, candidate));
    lemma_with_expiration_wf(store, position, earlier(row.expiration, candidate));
    assert(shortened.workspaces[position].id == row.id);
    crate::store::lemma_with_notification_wf(shortened, row.id, now);
}

} // verus!
