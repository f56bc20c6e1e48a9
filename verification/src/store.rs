//! The workspace store: the workspace records and their notification log,
//! with the rules that hold of every state of it.
//!
//! The store is a plain value. Its mathematical model is [`StoreView`]; the
//! transitions of the lifecycle are spec functions on that model, and the
//! methods of [`Store`] carry them out.

use vstd::prelude::*;
use crate::text::{owned, same_text};

verus! {

/// A workspace record.
#[derive(Debug)]
pub struct Workspace {
    /// Stable identifier, chosen by the store.
    pub id: i64,
    /// Name of the filesystem that holds the workspace.
    pub filesystem: String,
    /// The owner's user name.
    pub owner: String,
    /// The workspace's name, unique per filesystem and owner.
    pub name: String,
    /// The instant after which the workspace is expired.
    pub expiration: i64,
}

/// A workspace record as a mathematical value.
pub struct WorkspaceView {
    pub id: i64,
    pub filesystem: Seq<char>,
    pub owner: Seq<char>,
    pub name: Seq<char>,
    pub expiration: i64,
}

impl View for Workspace {
    type V = WorkspaceView;

    open spec fn view(&self) -> WorkspaceView {
        WorkspaceView {
            id: self.id,
            filesystem: self.filesystem@,
            owner: self.owner@,
            name: self.name@,
            expiration: self.expiration,
        }
    }
}

impl WorkspaceView {
    /// Whether this is the workspace `name` of `owner` on `filesystem`.
    pub open spec fn is_named(self, filesystem: Seq<char>, owner: Seq<char>, name: Seq<char>) -> bool {
        self.filesystem == filesystem && self.owner == owner && self.name == name
    }

    /// The same record with another expiration.
    pub open spec fn expiring_at(self, expiration: i64) -> WorkspaceView {
        WorkspaceView { expiration, ..self }
    }

    /// The same record under another name.
    pub open spec fn renamed(self, name: Seq<char>) -> WorkspaceView {
        WorkspaceView { name, ..self }
    }
}

/// One entry of the notification log: the owner of workspace
/// `workspace_id` was notified, or is taken to have been, at `timestamp`.
#[derive(Clone, Copy, Debug, PartialEq, Eq, Structural)]
pub struct NotificationLogEntry {
    pub workspace_id: i64,
    pub timestamp: i64,
}

/// The later of two optional instants.
pub open spec fn later(seen: Option<i64>, timestamp: i64) -> Option<i64> {
    match seen {
        Some(t) if t >= timestamp => Some(t),
        _ => Some(timestamp),
    }
}

/// Log entries that belong to other workspaces than `id`.
pub open spec fn of_other_workspace(id: i64) -> spec_fn(NotificationLogEntry) -> bool {
    |entry: NotificationLogEntry| entry.workspace_id != id
}

/// Log entries that are not entries of workspace `id` timestamped strictly
/// after `now`.
pub open spec fn not_ahead_of(id: i64, now: i64) -> spec_fn(NotificationLogEntry) -> bool {
    |entry: NotificationLogEntry| !(entry.workspace_id == id && entry.timestamp > now)
}

/// The store as a mathematical value: the workspace records and the
/// notification log, each in insertion order.
pub struct StoreView {
    pub workspaces: Seq<WorkspaceView>,
    pub notifications: Seq<NotificationLogEntry>,
}

impl StoreView {
    /// The position, at or after `start`, of the first record of the
    /// workspace `name` of `owner` on `filesystem`; the number of records
    /// when there is none.
    pub open spec fn position_from(
        self,
        filesystem: Seq<char>,
        owner: Seq<char>,
        name: Seq<char>,
        start: int,
    ) -> int
        decreases self.workspaces.len() - start,
    {
        if start < 0 || start >= self.workspaces.len() {
            self.workspaces.len() as int
        } else if self.workspaces[start].is_named(filesystem, owner, name) {
            start
        } else {
            self.position_from(filesystem, owner, name, start + 1)
        }
    }

    /// The position of the record of the workspace `name` of `owner` on
    /// `filesystem`, if the store holds one.
    pub open spec fn position(self, filesystem: Seq<char>, owner: Seq<char>, name: Seq<char>) -> Option<int> {
        let i = self.position_from(filesystem, owner, name, 0);
        if i < self.workspaces.len() {
            Some(i)
        } else {
            None
        }
    }

    /// Whether the store holds the workspace `name` of `owner` on
    /// `filesystem`.
    pub open spec fn holds(self, filesystem: Seq<char>, owner: Seq<char>, name: Seq<char>) -> bool {
        exists|i: int|
            0 <= i < self.workspaces.len() && (#[trigger] self.workspaces[i]).is_named(
                filesystem,
                owner,
                name,
            )
    }

    /// Whether some record has the identifier `id`.
    pub open spec fn has_id(self, id: i64) -> bool {
        exists|i: int| 0 <= i < self.workspaces.len() && (#[trigger] self.workspaces[i]).id == id
    }

    /// No two records share an identifier.
    pub open spec fn unique_ids(self) -> bool {
        forall|i: int, j: int|
            0 <= i < j < self.workspaces.len() ==> (#[trigger] self.workspaces[i]).id != (
            #[trigger] self.workspaces[j]).id
    }

    /// No two records share filesystem, owner and name.
    pub open spec fn unique_triples(self) -> bool {
        forall|i: int, j: int|
            0 <= i < j < self.workspaces.len() ==> !(#[trigger] self.workspaces[i]).is_named(
                (#[trigger] self.workspaces[j]).filesystem,
                self.workspaces[j].owner,
                self.workspaces[j].name,
            )
    }

    /// Every log entry belongs to a workspace of the store.
    pub open spec fn log_is_owned(self) -> bool {
        forall|k: int|
            0 <= k < self.notifications.len() ==> self.has_id(
                (#[trigger] self.notifications[k]).workspace_id,
            )
    }

    /// What holds of every state of the store.
    pub open spec fn wf(self) -> bool {
        &&& self.unique_ids()
        &&& self.unique_triples()
        &&& self.log_is_owned()
    }

    /// The largest identifier among the first `upto` records, `0` for none.
    pub open spec fn max_id(self, upto: int) -> int
        decreases upto,
    {
        if upto <= 0 || upto > self.workspaces.len() {
            0
        } else {
            let rest = self.max_id(upto - 1);
            let id = self.workspaces[upto - 1].id;
            if upto == 1 || id > rest {
                id as int
            } else {
                rest
            }
        }
    }

    /// The identifier that the next new record gets: one more than the
    /// largest in use, and `1` in an empty store.
    pub open spec fn next_id(self) -> int {
        self.max_id(self.workspaces.len() as int) + 1
    }

    /// Whether the next identifier fits the identifier type.
    pub open spec fn has_room(self) -> bool {
        self.next_id() <= i64::MAX
    }

    /// The latest timestamp among the first `upto` log entries of workspace
    /// `id`.
    pub open spec fn latest_among(self, id: i64, upto: int) -> Option<i64>
        decreases upto,
    {
        if upto <= 0 || upto > self.notifications.len() {
            None
        } else {
            let rest = self.latest_among(id, upto - 1);
            let entry = self.notifications[upto - 1];
            if entry.workspace_id == id {
                later(rest, entry.timestamp)
            } else {
                rest
            }
        }
    }

    /// The timestamp of the most recent log entry of workspace `id`, if it
    /// has any.
    pub open spec fn last_notified(self, id: i64) -> Option<i64> {
        self.latest_among(id, self.notifications.len() as int)
    }

    /// The store with one more record, at the end.
    pub open spec fn with_workspace(self, workspace: WorkspaceView) -> StoreView {
        StoreView { workspaces: self.workspaces.push(workspace), ..self }
    }

    /// The store with one more log entry, at the end.
    pub open spec fn with_notification(self, workspace_id: i64, timestamp: i64) -> StoreView {
        StoreView {
            notifications: self.notifications.push(
                NotificationLogEntry { workspace_id, timestamp },
            ),
            ..self
        }
    }

    /// The store with the expiration of the record at `position` replaced.
    pub open spec fn with_expiration(self, position: int, expiration: i64) -> StoreView {
        StoreView {
            workspaces: self.workspaces.update(
                position,
                self.workspaces[position].expiring_at(expiration),
            ),
            ..self
        }
    }

    /// The store with the name of the record at `position` replaced.
    pub open spec fn with_name(self, position: int, name: Seq<char>) -> StoreView {
        StoreView {
            workspaces: self.workspaces.update(position, self.workspaces[position].renamed(name)),
            ..self
        }
    }

    /// The store without the log entries of workspace `id` that are
    /// timestamped strictly after `now`.
    pub open spec fn without_notifications_after(self, id: i64, now: i64) -> StoreView {
        StoreView { notifications: self.notifications.filter(not_ahead_of(id, now)), ..self }
    }

    /// The store without the record at `position` and without the log
    /// entries of that workspace.
    pub open spec fn without_workspace(self, position: int) -> StoreView {
        StoreView {
            workspaces: self.workspaces.remove(position),
            notifications: self.notifications.filter(
                of_other_workspace(self.workspaces[position].id),
            ),
        }
    }
}

/// The records of a vector of workspaces, as mathematical values.
pub open spec fn records(workspaces: Seq<Workspace>) -> Seq<WorkspaceView> {
    workspaces.map_values(|workspace: Workspace| workspace@)
}

/// Where `position_from` points, a record of that name stands, and none
/// stands between `start` and that place.
pub proof fn lemma_position_from(
    store: StoreView,
    filesystem: Seq<char>,
    owner: Seq<char>,
    name: Seq<char>,
    start: int,
)
    requires
        0 <= start <= store.workspaces.len(),
    ensures
        start <= store.position_from(filesystem, owner, name, start) <= store.workspaces.len(),
        store.position_from(filesystem, owner, name, start) < store.workspaces.len()
            ==> store.workspaces[store.position_from(filesystem, owner, name, start)].is_named(
            filesystem,
            owner,
            name,
        ),
        forall|j: int|
            start <= j < store.position_from(filesystem, owner, name, start) ==> !(
            #[trigger] store.workspaces[j]).is_named(filesystem, owner, name),
    decreases store.workspaces.len() - start,
{
    if start < store.workspaces.len() && !store.workspaces[start].is_named(
        filesystem,
        owner,
        name,
    ) {
        lemma_position_from(store, filesystem, owner, name, start + 1);
    }
}

/// A workspace has a position exactly when the store holds it, and in a
/// well-formed store no other record has its name.
pub proof fn lemma_position(
    store: StoreView,
    filesystem: Seq<char>,
    owner: Seq<char>,
    name: Seq<char>,
)
    ensures
        store.position(filesystem, owner, name) is Some <==> store.holds(filesystem, owner, name),
        store.position(filesystem, owner, name) matches Some(i) ==> {
            &&& 0 <= i < store.workspaces.len()
            &&& store.workspaces[i].is_named(filesystem, owner, name)
            &&& store.unique_triples() ==> forall|j: int|
                0 <= j < store.workspaces.len() && j != i ==> !(
                #[trigger] store.workspaces[j]).is_named(filesystem, owner, name)
        },
{
    lemma_position_from(store, filesystem, owner, name, 0);
    let i = store.position_from(filesystem, owner, name, 0);
    if i < store.workspaces.len() {
        assert(store.workspaces[i].is_named(filesystem, owner, name));
        if store.unique_triples() {
            assert forall|j: int| 0 <= j < store.workspaces.len() && j != i implies !(
            #[trigger] store.workspaces[j]).is_named(filesystem, owner, name) by {
                if j > i {
                    assert(!store.workspaces[i].is_named(
                        store.workspaces[j].filesystem,
                        store.workspaces[j].owner,
                        store.workspaces[j].name,
                    ));
                }
            }
        }
    } else {
        assert(!store.holds(filesystem, owner, name));
    }
}

/// No identifier among the first `upto` records is larger than `max_id`.
pub proof fn lemma_max_id(store: StoreView, upto: int)
    requires
        0 <= upto <= store.workspaces.len(),
    ensures
        forall|i: int| 0 <= i < upto ==> (#[trigger] store.workspaces[i]).id <= store.max_id(upto),
        i64::MIN <= store.max_id(upto) <= i64::MAX,
    decreases upto,
{
    if upto > 0 {
        lemma_max_id(store, upto - 1);
    }
}

/// The identifier of the next new record is in use by no record.
pub proof fn lemma_next_id_is_new(store: StoreView)
    ensures
        forall|i: int|
            0 <= i < store.workspaces.len() ==> (#[trigger] store.workspaces[i]).id
                < store.next_id(),
        store.has_room() ==> !store.has_id(store.next_id() as i64),
{
    lemma_max_id(store, store.workspaces.len() as int);
}

/// `latest_among` is the largest timestamp among the entries of the
/// workspace, and is `None` exactly when it has no entry.
pub proof fn lemma_latest_among(store: StoreView, id: i64, upto: int)
    requires
        0 <= upto <= store.notifications.len(),
    ensures
        match store.latest_among(id, upto) {
            Some(t) => {
                &&& exists|k: int|
                    0 <= k < upto && (#[trigger] store.notifications[k]).workspace_id == id
                        && store.notifications[k].timestamp == t
                &&& forall|k: int|
                    0 <= k < upto && (#[trigger] store.notifications[k]).workspace_id == id
                        ==> store.notifications[k].timestamp <= t
            },
            None => forall|k: int|
                0 <= k < upto ==> (#[trigger] store.notifications[k]).workspace_id != id,
        },
    decreases upto,
{
    if upto > 0 {
        lemma_latest_among(store, id, upto - 1);
        let entry = store.notifications[upto - 1];
        let rest = store.latest_among(id, upto - 1);
        if entry.workspace_id == id {
            match rest {
                Some(t) if t >= entry.timestamp => {
                    let k = choose|k: int|
                        0 <= k < upto - 1 && (#[trigger] store.notifications[k]).workspace_id
                            == id && store.notifications[k].timestamp == t;
                    assert(0 <= k < upto && store.notifications[k].workspace_id == id
                        && store.notifications[k].timestamp == t);
                },
                _ => {
                    assert(store.notifications[upto - 1].workspace_id == id);
                },
            }
        } else if rest is Some {
            let t = rest->0;
            let k = choose|k: int|
                0 <= k < upto - 1 && (#[trigger] store.notifications[k]).workspace_id == id
                    && store.notifications[k].timestamp == t;
            assert(0 <= k < upto && store.notifications[k].workspace_id == id
                && store.notifications[k].timestamp == t);
        }
    }
}

/// Log entries that two stores share give the same latest timestamp.
pub proof fn lemma_latest_among_prefix(a: StoreView, b: StoreView, id: i64, upto: int)
    requires
        0 <= upto <= a.notifications.len() <= b.notifications.len(),
        forall|k: int| 0 <= k < upto ==> a.notifications[k] == b.notifications[k],
    ensures
        a.latest_among(id, upto) == b.latest_among(id, upto),
    decreases upto,
{
    if upto > 0 {
        lemma_latest_among_prefix(a, b, id, upto - 1);
    }
}

/// The workspace store.
///
/// Every store that this module hands out is well-formed: identifiers are
/// unique, no two records share filesystem, owner and name, and every log
/// entry belongs to a record.
pub struct Store {
    workspaces: Vec<Workspace>,
    notifications: Vec<NotificationLogEntry>,
}

impl View for Store {
    type V = StoreView;

    closed spec fn view(&self) -> StoreView {
        StoreView {
            workspaces: records(self.workspaces@),
            notifications: self.notifications@,
        }
    }
}

impl Store {
    /// Whether the store is well-formed.
    pub open spec fn wf(&self) -> bool {
        self@.wf()
    }

    /// An empty store.
    pub fn new() -> (store: Store)
        ensures
            store@.workspaces.len() == 0,
            store@.notifications.len() == 0,
            store.wf(),
    {
        Store { workspaces: Vec::new(), notifications: Vec::new() }
    }

    /// The workspace records, in insertion order.
    pub fn workspaces(&self) -> (rows: &Vec<Workspace>)
        ensures
            records(rows@) == self@.workspaces,
    {
        &self.workspaces
    }

    /// The notification log, in insertion order.
    pub fn notifications(&self) -> (entries: &Vec<NotificationLogEntry>)
        ensures
            entries@ == self@.notifications,
    {
        &self.notifications
    }

    /// The number of workspace records.
    pub fn len(&self) -> (n: usize)
        ensures
            n == self@.workspaces.len(),
    {
        self.workspaces.len()
    }

    /// The record at `position`.
    pub fn workspace(&self, position: usize) -> (row: &Workspace)
        requires
            position < self@.workspaces.len(),
        ensures
            row@ == self@.workspaces[position as int],
    {
        &self.workspaces[position]
    }

    /// Looks up the workspace `name` of `owner` on `filesystem`.
    pub fn find(&self, filesystem: &str, owner: &str, name: &str) -> (found: Option<usize>)
        ensures
            match found {
                Some(i) => self@.position(filesystem@, owner@, name@) == Some(i as int),
                None => self@.position(filesystem@, owner@, name@) is None,
            },
    {
        let mut i: usize = 0;
        while i < self.workspaces.len()
            invariant
                i <= self.workspaces.len(),
                self@.workspaces.len() == self.workspaces.len(),
                self@.position_from(filesystem@, owner@, name@, 0) == self@.position_from(
                    filesystem@,
                    owner@,
                    name@,
                    i as int,
                ),
            decreases self.workspaces.len() - i,
        {
            let row = &self.workspaces[i];
            if same_text(row.filesystem.as_str(), filesystem) && same_text(
                row.owner.as_str(),
                owner,
            ) && same_text(row.name.as_str(), name) {
                return Some(i);
            }
            i += 1;
        }
        None
    }

    /// Looks up the record with the identifier `id`.
    pub fn find_id(&self, id: i64) -> (found: Option<usize>)
        ensures
            match found {
                Some(i) => i < self@.workspaces.len() && self@.workspaces[i as int].id == id,
                None => !self@.has_id(id),
            },
    {
        let mut i: usize = 0;
        while i < self.workspaces.len()
            invariant
                i <= self.workspaces.len(),
                self@.workspaces.len() == self.workspaces.len(),
                forall|j: int| 0 <= j < i ==> (#[trigger] self@.workspaces[j]).id != id,
            decreases self.workspaces.len() - i,
        {
            if self.workspaces[i].id == id {
                return Some(i);
            }
            i += 1;
        }
        None
    }

    /// The identifier that the next new record gets, or `None` when the
    /// identifiers are used up.
    pub fn next_id(&self) -> (id: Option<i64>)
        ensures
            match id {
                Some(id) => self@.has_room() && id == self@.next_id(),
                None => !self@.has_room(),
            },
    {
        let mut largest: i64 = 0;
        let mut i: usize = 0;
        while i < self.workspaces.len()
            invariant
                i <= self.workspaces.len(),
                self@.workspaces.len() == self.workspaces.len(),
                largest == self@.max_id(i as int),
            decreases self.workspaces.len() - i,
        {
            let id = self.workspaces[i].id;
            if i == 0 || id > largest {
                largest = id;
            }
            i += 1;
        }
        if largest < i64::MAX {
            Some(largest + 1)
        } else {
            None
        }
    }

    /// The timestamp of the most recent log entry of workspace `id`.
    pub fn last_notified(&self, id: i64) -> (latest: Option<i64>)
        ensures
            latest == self@.last_notified(id),
    {
        let mut latest: Option<i64> = None;
        let mut k: usize = 0;
        while k < self.notifications.len()
            invariant
                k <= self.notifications.len(),
                self@.notifications == self.notifications@,
                latest == self@.latest_among(id, k as int),
            decreases self.notifications.len() - k,
        {
            let entry = self.notifications[k];
            if entry.workspace_id == id {
                latest = match latest {
                    Some(t) if t >= entry.timestamp => Some(t),
                    _ => Some(entry.timestamp),
                };
            }
            k += 1;
        }
        latest
    }
}

/// Adding a record whose identifier and name are not in use keeps the
/// store well-formed.
pub proof fn lemma_with_workspace_wf(store: StoreView, workspace: WorkspaceView)
    requires
        store.wf(),
        !store.has_id(workspace.id),
        !store.holds(workspace.filesystem, workspace.owner, workspace.name),
    ensures
        store.with_workspace(workspace).wf(),
{
    let after = store.with_workspace(workspace);
    let n = store.workspaces.len() as int;
    assert forall|i: int, j: int| 0 <= i < j < after.workspaces.len() implies (
    #[trigger] after.workspaces[i]).id != (#[trigger] after.workspaces[j]).id by {
        if j == n {
            assert(store.workspaces[i].id != workspace.id);
        } else {
            assert(store.workspaces[i].id != store.workspaces[j].id);
        }
    }
    assert forall|i: int, j: int| 0 <= i < j < after.workspaces.len() implies !(
    #[trigger] after.workspaces[i]).is_named(
        (#[trigger] after.workspaces[j]).filesystem,
        after.workspaces[j].owner,
        after.workspaces[j].name,
    ) by {
        if j == n {
            assert(!store.workspaces[i].is_named(
                workspace.filesystem,
                workspace.owner,
                workspace.name,
            ));
        } else {
            assert(!store.workspaces[i].is_named(
                store.workspaces[j].filesystem,
                store.workspaces[j].owner,
                store.workspaces[j].name,
            ));
        }
    }
    assert forall|k: int| 0 <= k < after.notifications.len() implies after.has_id(
        (#[trigger] after.notifications[k]).workspace_id,
    ) by {
        let id = store.notifications[k].workspace_id;
        assert(store.has_id(id));
        let i = choose|i: int|
            0 <= i < store.workspaces.len() && (#[trigger] store.workspaces[i]).id == id;
        assert(after.workspaces[i].id == id);
    }
}

/// Whether an identifier is in use depends on the records alone.
pub proof fn lemma_has_id_by_records(a: StoreView, b: StoreView, id: i64)
    requires
        a.workspaces == b.workspaces,
    ensures
        a.has_id(id) == b.has_id(id),
{
    if a.has_id(id) {
        let i = choose|i: int| 0 <= i < a.workspaces.len() && (#[trigger] a.workspaces[i]).id == id;
        assert(b.workspaces[i].id == id);
    }
    if b.has_id(id) {
        let i = choose|i: int| 0 <= i < b.workspaces.len() && (#[trigger] b.workspaces[i]).id == id;
        assert(a.workspaces[i].id == id);
    }
}

/// Logging a notification for a workspace of the store keeps the store
/// well-formed.
pub proof fn lemma_with_notification_wf(store: StoreView, workspace_id: i64, timestamp: i64)
    requires
        store.wf(),
        store.has_id(workspace_id),
    ensures
        store.with_notification(workspace_id, timestamp).wf(),
{
    let after = store.with_notification(workspace_id, timestamp);
    assert forall|k: int| 0 <= k < after.notifications.len() implies after.has_id(
        (#[trigger] after.notifications[k]).workspace_id,
    ) by {
        let id = after.notifications[k].workspace_id;
        if k < store.notifications.len() {
            assert(store.has_id(store.notifications[k].workspace_id));
        }
        lemma_has_id_by_records(store, after, id);
    }
}

/// A change of one record's expiration keeps the store well-formed, and
/// moves no record.
pub proof fn lemma_with_expiration_wf(store: StoreView, position: int, expiration: i64)
    requires
        store.wf(),
        0 <= position < store.workspaces.len(),
    ensures
        store.with_expiration(position, expiration).wf(),
{
    let after = store.with_expiration(position, expiration);
    assert forall|i: int, j: int| 0 <= i < j < after.workspaces.len() implies (
    #[trigger] after.workspaces[i]).id != (#[trigger] after.workspaces[j]).id by {
        assert(store.workspaces[i].id != store.workspaces[j].id);
    }
    assert forall|i: int, j: int| 0 <= i < j < after.workspaces.len() implies !(
    #[trigger] after.workspaces[i]).is_named(
        (#[trigger] after.workspaces[j]).filesystem,
        after.workspaces[j].owner,
        after.workspaces[j].name,
    ) by {
        assert(!store.workspaces[i].is_named(
            store.workspaces[j].filesystem,
            store.workspaces[j].owner,
            store.workspaces[j].name,
        ));
    }
    assert forall|k: int| 0 <= k < after.notifications.len() implies after.has_id(
        (#[trigger] after.notifications[k]).workspace_id,
    ) by {
        let id = store.notifications[k].workspace_id;
        assert(store.has_id(id));
        let i = choose|i: int|
            0 <= i < store.workspaces.len() && (#[trigger] store.workspaces[i]).id == id;
        assert(after.workspaces[i].id == id);
    }
}

/// Whether a record other than the one at `position` is the workspace
/// `name` of `owner` on `filesystem`.
pub open spec fn taken_by_another(
    store: StoreView,
    position: int,
    filesystem: Seq<char>,
    owner: Seq<char>,
    name: Seq<char>,
) -> bool {
    exists|j: int|
        0 <= j < store.workspaces.len() && j != position && (#[trigger] store.workspaces[j]).is_named(
            filesystem,
            owner,
            name,
        )
}

/// Renaming a record to a name that no other record of its filesystem and
/// owner has keeps the store well-formed.
pub proof fn lemma_with_name_wf(store: StoreView, position: int, name: Seq<char>)
    requires
        store.wf(),
        0 <= position < store.workspaces.len(),
        !taken_by_another(
            store,
            position,
            store.workspaces[position].filesystem,
            store.workspaces[position].owner,
            name,
        ),
    ensures
        store.with_name(position, name).wf(),
{
    let after = store.with_name(position, name);
    let row = store.workspaces[position];
    assert forall|i: int, j: int| 0 <= i < j < after.workspaces.len() implies (
    #[trigger] after.workspaces[i]).id != (#[trigger] after.workspaces[j]).id by {
        assert(store.workspaces[i].id != store.workspaces[j].id);
    }
    assert forall|i: int, j: int| 0 <= i < j < after.workspaces.len() implies !(
    #[trigger] after.workspaces[i]).is_named(
        (#[trigger] after.workspaces[j]).filesystem,
        after.workspaces[j].owner,
        after.workspaces[j].name,
    ) by {
        if i == position {
            assert(!store.workspaces[j].is_named(row.filesystem, row.owner, name));
        } else if j == position {
            assert(!store.workspaces[i].is_named(row.filesystem, row.owner, name));
        } else {
            assert(!store.workspaces[i].is_named(
                store.workspaces[j].filesystem,
                store.workspaces[j].owner,
                store.workspaces[j].name,
            ));
        }
    }
    assert forall|k: int| 0 <= k < after.notifications.len() implies after.has_id(
        (#[trigger] after.notifications[k]).workspace_id,
    ) by {
        let id = store.notifications[k].workspace_id;
        assert(store.has_id(id));
        let i = choose|i: int|
            0 <= i < store.workspaces.len() && (#[trigger] store.workspaces[i]).id == id;
        assert(after.workspaces[i].id == id);
    }
}

/// Dropping the log entries of a workspace that lie after `now` keeps the
/// store well-formed, and none of its remaining entries lies after `now`.
pub proof fn lemma_without_notifications_after(store: StoreView, id: i64, now: i64)
    requires
        store.wf(),
    ensures
        store.without_notifications_after(id, now).wf(),
        forall|k: int|
            0 <= k < store.without_notifications_after(id, now).notifications.len() && (
            #[trigger] store.without_notifications_after(id, now).notifications[k]).workspace_id
                == id ==> store.without_notifications_after(id, now).notifications[k].timestamp
                <= now,
{
    let after = store.without_notifications_after(id, now);
    assert forall|k: int| 0 <= k < after.notifications.len() implies after.has_id(
        (#[trigger] after.notifications[k]).workspace_id,
    ) && (after.notifications[k].workspace_id == id ==> after.notifications[k].timestamp
        <= now) by {
        let entry = after.notifications[k];
        store.notifications.lemma_filter_pred(not_ahead_of(id, now), k);
        assert(after.notifications.contains(entry));
        store.notifications.lemma_filter_contains_rev(not_ahead_of(id, now), entry);
        let m = choose|m: int| 0 <= m < store.notifications.len() && store.notifications[m] == entry;
        assert(store.has_id(store.notifications[m].workspace_id));
        lemma_has_id_by_records(store, after, entry.workspace_id);
    }
}

/// Removing a record together with its log entries keeps the store
/// well-formed; the other records stay, in their order.
pub proof fn lemma_without_workspace_wf(store: StoreView, position: int)
    requires
        store.wf(),
        0 <= position < store.workspaces.len(),
    ensures
        store.without_workspace(position).wf(),
        !store.without_workspace(position).has_id(store.workspaces[position].id),
{
    let after = store.without_workspace(position);
    let gone = store.workspaces[position].id;
    let shift = |i: int| if i < position { i } else { i + 1 };
    assert forall|i: int| 0 <= i < after.workspaces.len() implies (#[trigger] after.workspaces[i])
        == store.workspaces[shift(i)] by {}
    assert forall|i: int, j: int| 0 <= i < j < after.workspaces.len() implies (
    #[trigger] after.workspaces[i]).id != (#[trigger] after.workspaces[j]).id by {
        assert(store.workspaces[shift(i)].id != store.workspaces[shift(j)].id);
    }
    assert forall|i: int, j: int| 0 <= i < j < after.workspaces.len() implies !(
    #[trigger] after.workspaces[i]).is_named(
        (#[trigger] after.workspaces[j]).filesystem,
        after.workspaces[j].owner,
        after.workspaces[j].name,
    ) by {
        assert(!store.workspaces[shift(i)].is_named(
            store.workspaces[shift(j)].filesystem,
            store.workspaces[shift(j)].owner,
            store.workspaces[shift(j)].name,
        ));
    }
    assert forall|k: int| 0 <= k < after.notifications.len() implies after.has_id(
        (#[trigger] after.notifications[k]).workspace_id,
    ) by {
        let entry = after.notifications[k];
        store.notifications.lemma_filter_pred(of_other_workspace(gone), k);
        assert(after.notifications.contains(entry));
        store.notifications.lemma_filter_contains_rev(of_other_workspace(gone), entry);
        let m = choose|m: int| 0 <= m < store.notifications.len() && store.notifications[m] == entry;
        let id = store.notifications[m].workspace_id;
        assert(store.has_id(id));
        let i = choose|i: int|
            0 <= i < store.workspaces.len() && (#[trigger] store.workspaces[i]).id == id;
        assert(i != position);
        let at = if i < position { i } else { i - 1 };
        assert(after.workspaces[at].id == id);
    }
    if after.has_id(gone) {
        let i = choose|i: int|
            0 <= i < after.workspaces.len() && (#[trigger] after.workspaces[i]).id == gone;
        assert(store.workspaces[shift(i)].id == gone);
        if shift(i) < position {
            assert(store.workspaces[shift(i)].id != store.workspaces[position].id);
        } else {
            assert(store.workspaces[position].id != store.workspaces[shift(i)].id);
        }
    }
}

impl Store {
    /// Adds a record for the workspace `name` of `owner` on `filesystem`
    /// and returns its new identifier. When the store already holds that
    /// workspace, nothing is added and the result is `None`.
    pub fn insert_workspace(
        &mut self,
        filesystem: &str,
        owner: &str,
        name: &str,
        expiration: i64,
    ) -> (id: Option<i64>)
        requires
            old(self).wf(),
            old(self)@.has_room(),
        ensures
            final(self).wf(),
            match id {
                Some(id) => {
                    &&& !old(self)@.holds(filesystem@, owner@, name@)
                    &&& id == old(self)@.next_id()
                    &&& final(self)@ == old(self)@.with_workspace(
                        WorkspaceView {
                            id,
                            filesystem: filesystem@,
                            owner: owner@,
                            name: name@,
                            expiration,
                        },
                    )
                },
                None => old(self)@.holds(filesystem@, owner@, name@) && final(self)@ == old(
                    self,
                )@,
            },
    {
        proof {
            lemma_position(self@, filesystem@, owner@, name@);
            lemma_next_id_is_new(self@);
        }
        if self.find(filesystem, owner, name).is_some() {
            return None;
        }
        let id = match self.next_id() {
            Some(id) => id,
            None => { return None; },
        };
        let row = Workspace {
            id,
            filesystem: owned(filesystem),
            owner: owned(owner),
            name: owned(name),
            expiration,
        };
        proof {
            lemma_with_workspace_wf(self@, row@);
            self.workspaces@.lemma_push_map_commute(|workspace: Workspace| workspace@, row);
        }
        self.workspaces.push(row);
        assert(self@.workspaces =~= old(self)@.workspaces.push(row@));
        Some(id)
    }

    /// Puts back a record that was stored before, under the identifier it
    /// had. When the identifier or the workspace's name is already in use,
    /// nothing is added and the result is `false`.
    pub fn restore_workspace(&mut self, workspace: Workspace) -> (added: bool)
        requires
            old(self).wf(),
        ensures
            final(self).wf(),
            added == (!old(self)@.has_id(workspace.id) && !old(self)@.holds(
                workspace.filesystem@,
                workspace.owner@,
                workspace.name@,
            )),
            added ==> final(self)@ == old(self)@.with_workspace(workspace@),
            !added ==> final(self)@ == old(self)@,
    {
        proof {
            lemma_position(self@, workspace.filesystem@, workspace.owner@, workspace.name@);
        }
        if self.find_id(workspace.id).is_some() {
            return false;
        }
        if self.find(
            workspace.filesystem.as_str(),
            workspace.owner.as_str(),
            workspace.name.as_str(),
        ).is_some() {
            return false;
        }
        proof {
            lemma_with_workspace_wf(self@, workspace@);
            self.workspaces@.lemma_push_map_commute(|workspace: Workspace| workspace@, workspace);
        }
        let ghost view = workspace@;
        self.workspaces.push(workspace);
        assert(self@.workspaces =~= old(self)@.workspaces.push(view));
        true
    }

    /// Appends a log entry for workspace `workspace_id`. When no record has
    /// that identifier, nothing is logged and the result is `false`.
    pub fn log_notification(&mut self, workspace_id: i64, timestamp: i64) -> (logged: bool)
        requires
            old(self).wf(),
        ensures
            final(self).wf(),
            logged == old(self)@.has_id(workspace_id),
            logged ==> final(self)@ == old(self)@.with_notification(workspace_id, timestamp),
            !logged ==> final(self)@ == old(self)@,
    {
        if self.find_id(workspace_id).is_none() {
            return false;
        }
        proof {
            lemma_with_notification_wf(self@, workspace_id, timestamp);
        }
        self.notifications.push(NotificationLogEntry { workspace_id, timestamp });
        true
    }

    /// Replaces the expiration of the record at `position`.
    pub fn set_expiration(&mut self, position: usize, expiration: i64)
        requires
            old(self).wf(),
            position < old(self)@.workspaces.len(),
        ensures
            final(self).wf(),
            final(self)@ == old(self)@.with_expiration(position as int, expiration),
    {
        proof {
            lemma_with_expiration_wf(self@, position as int, expiration);
        }
        self.workspaces[position].expiration = expiration;
        assert(self@.workspaces =~= old(self)@.with_expiration(
            position as int,
            expiration,
        ).workspaces);
    }
}

/// The log entries that do not belong to workspace `id`, in their order.
fn entries_of_others(entries: &Vec<NotificationLogEntry>, id: i64) -> (kept: Vec<
    NotificationLogEntry,
>)
    ensures
        kept@ == entries@.filter(of_other_workspace(id)),
{
    let mut kept: Vec<NotificationLogEntry> = Vec::new();
    let mut k: usize = 0;
    proof {
        reveal(Seq::filter);
        assert(entries@.take(0).filter(of_other_workspace(id)) =~= Seq::empty());
    }
    while k < entries.len()
        invariant
            k <= entries.len(),
            kept@ == entries@.take(k as int).filter(of_other_workspace(id)),
        decreases entries.len() - k,
    {
        let entry = entries[k];
        proof {
            assert(entries@.take(k + 1) =~= entries@.take(k as int).push(entry));
            entries@.take(k as int).lemma_filter_push(entry, of_other_workspace(id));
        }
        if entry.workspace_id != id {
            kept.push(entry);
        }
        k += 1;
    }
    assert(entries@.take(entries.len() as int) =~= entries@);
    kept
}

/// The log entries but those of workspace `id` that are timestamped
/// strictly after `now`, in their order.
fn entries_not_ahead(entries: &Vec<NotificationLogEntry>, id: i64, now: i64) -> (kept: Vec<
    NotificationLogEntry,
>)
    ensures
        kept@ == entries@.filter(not_ahead_of(id, now)),
{
    let mut kept: Vec<NotificationLogEntry> = Vec::new();
    let mut k: usize = 0;
    proof {
        reveal(Seq::filter);
        assert(entries@.take(0).filter(not_ahead_of(id, now)) =~= Seq::empty());
    }
    while k < entries.len()
        invariant
            k <= entries.len(),
            kept@ == entries@.take(k as int).filter(not_ahead_of(id, now)),
        decreases entries.len() - k,
    {
        let entry = entries[k];
        proof {
            assert(entries@.take(k + 1) =~= entries@.take(k as int).push(entry));
            entries@.take(k as int).lemma_filter_push(entry, not_ahead_of(id, now));
        }
        if !(entry.workspace_id == id && entry.timestamp > now) {
            kept.push(entry);
        }
        k += 1;
    }
    assert(entries@.take(entries.len() as int) =~= entries@);
    kept
}

impl Store {
    /// Whether a record other than the one at `position` is the workspace
    /// `name` of `owner` on `filesystem`.
    fn is_taken_by_another(&self, position: usize, filesystem: &str, owner: &str, name: &str) -> (taken: bool)
        ensures
            taken == taken_by_another(self@, position as int, filesystem@, owner@, name@),
    {
        let mut j: usize = 0;
        while j < self.workspaces.len()
            invariant
                j <= self.workspaces.len(),
                self@.workspaces.len() == self.workspaces.len(),
                forall|i: int|
                    0 <= i < j && i != position ==> !(#[trigger] self@.workspaces[i]).is_named(
                        filesystem@,
                        owner@,
                        name@,
                    ),
            decreases self.workspaces.len() - j,
        {
            let row = &self.workspaces[j];
            if j != position && same_text(row.filesystem.as_str(), filesystem) && same_text(
                row.owner.as_str(),
                owner,
            ) && same_text(row.name.as_str(), name) {
                assert(self@.workspaces[j as int].is_named(filesystem@, owner@, name@));
                return true;
            }
            j += 1;
        }
        false
    }

    /// Gives the record at `position` the name `name`. When another record
    /// of the same filesystem and owner has that name already, nothing is
    /// changed and the result is `false`.
    pub fn rename_workspace(&mut self, position: usize, name: &str) -> (renamed: bool)
        requires
            old(self).wf(),
            position < old(self)@.workspaces.len(),
        ensures
            final(self).wf(),
            renamed == !taken_by_another(
                old(self)@,
                position as int,
                old(self)@.workspaces[position as int].filesystem,
                old(self)@.workspaces[position as int].owner,
                name@,
            ),
            renamed ==> final(self)@ == old(self)@.with_name(position as int, name@),
            !renamed ==> final(self)@ == old(self)@,
    {
        let taken = self.is_taken_by_another(
            position,
            self.workspaces[position].filesystem.as_str(),
            self.workspaces[position].owner.as_str(),
            name,
        );
        if taken {
            return false;
        }
        proof {
            lemma_with_name_wf(self@, position as int, name@);
        }
        self.workspaces[position].name = owned(name);
        assert(self@.workspaces =~= old(self)@.with_name(position as int, name@).workspaces);
        true
    }

    /// Drops the log entries of workspace `id` that are timestamped
    /// strictly after `now`.
    pub fn remove_notifications_after(&mut self, id: i64, now: i64)
        requires
            old(self).wf(),
        ensures
            final(self).wf(),
            final(self)@ == old(self)@.without_notifications_after(id, now),
    {
        proof {
            lemma_without_notifications_after(self@, id, now);
        }
        self.notifications = entries_not_ahead(&self.notifications, id, now);
    }

    /// Removes the record at `position`, and with it the log entries of
    /// that workspace.
    pub fn remove_workspace(&mut self, position: usize)
        requires
            old(self).wf(),
            position < old(self)@.workspaces.len(),
        ensures
            final(self).wf(),
            final(self)@ == old(self)@.without_workspace(position as int),
    {
        proof {
            lemma_without_workspace_wf(self@, position as int);
        }
        let id = self.workspaces[position].id;
        self.notifications = entries_of_others(&self.notifications, id);
        self.workspaces.remove(position);
        assert(self@.workspaces =~= old(self)@.workspaces.remove(position as int));
    }
}

} // verus!
