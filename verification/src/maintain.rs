//! The maintenance sweep: one pass over all workspaces that reminds owners
//! whose deadlines have passed, removes workspaces whose retention window
//! is over, keeps expired ones read-only and at last asks for the
//! snapshots.
//!
//! The sweep decides; its caller acts. [`Sweep::advance`] takes the outcome
//! of the action that was handed out last and hands out the next one. The
//! store changes only where an outcome allows it.

use vstd::prelude::*;
use crate::policy::{filesystem_position, is_configured, lookup, Filesystem, NamedFilesystem};
use crate::schedule::{due, notification_due, Notice};
use crate::store::{lemma_with_notification_wf, lemma_without_workspace_wf, Store, StoreView};
use crate::text::owned;
use crate::volume::{to_volume_string, volume_string};

verus! {

/// Where a sweep stands.
#[derive(Clone, Copy, Debug, PartialEq, Eq, Structural)]
pub enum Stage {
    /// The reminder for the current workspace is to be decided. A sweep
    /// begins here, at the first workspace.
    Notifying,
    /// A reminder was handed out; its outcome is awaited.
    AwaitNotify,
    /// The reclamation of the current workspace is to be decided.
    Reclaiming,
    /// The destruction of a volume was handed out; its outcome is awaited.
    AwaitDestroy,
    /// The marking of a volume as read-only was handed out; its outcome is
    /// awaited.
    AwaitReadOnly,
    /// All workspaces are done and the commit of the store was handed out;
    /// its outcome is awaited.
    AwaitCommit,
    /// The snapshot of the current filesystem is to be decided.
    Snapshotting,
    /// A snapshot was handed out; its outcome is awaited.
    AwaitSnapshot,
    /// The sweep is complete.
    Finished,
    /// The sweep was given up.
    Failed,
}

/// How the action that the sweep handed out last has ended.
#[derive(Clone, Copy, Debug, PartialEq, Eq, Structural)]
pub enum Outcome {
    /// It was carried out.
    Succeeded,
    /// It was not carried out, for a reason that lies with this one
    /// workspace's owner: the recipient cannot be resolved, or the owner's
    /// contact record is unreadable or invalid. Of any action but a
    /// reminder this counts as a failure.
    Recoverable,
    /// It failed.
    Failed,
}

/// What the caller of a sweep has to do next.
#[derive(Debug)]
pub enum SweepAction {
    /// Send `notice` to the owner of the workspace.
    Notify { workspace_id: i64, owner: String, name: String, notice: Notice },
    /// Destroy the volume.
    DestroyVolume { volume: String },
    /// Mark the volume read-only.
    SetReadOnly { volume: String },
    /// Commit the store as the sweep has left it.
    Commit,
    /// Take a snapshot of the volume.
    Snapshot { volume: String },
    /// Nothing: the sweep is complete.
    Done,
    /// Nothing: the sweep was given up, and what it changed in the store is
    /// to be discarded unless it was committed before.
    Abort,
}

/// An action of the sweep as a mathematical value.
pub enum SweepActionView {
    Notify { workspace_id: i64, owner: Seq<char>, name: Seq<char>, notice: Notice },
    DestroyVolume { volume: Seq<char> },
    SetReadOnly { volume: Seq<char> },
    Commit,
    Snapshot { volume: Seq<char> },
    Done,
    Abort,
}

impl View for SweepAction {
    type V = SweepActionView;

    open spec fn view(&self) -> SweepActionView {
        match self {
            SweepAction::Notify { workspace_id, owner, name, notice } => SweepActionView::Notify {
                workspace_id: *workspace_id,
                owner: owner@,
                name: name@,
                notice: *notice,
            },
            SweepAction::DestroyVolume { volume } => SweepActionView::DestroyVolume {
                volume: volume@,
            },
            SweepAction::SetReadOnly { volume } => SweepActionView::SetReadOnly { volume: volume@ },
            SweepAction::Commit => SweepActionView::Commit,
            SweepAction::Snapshot { volume } => SweepActionView::Snapshot { volume: volume@ },
            SweepAction::Done => SweepActionView::Done,
            SweepAction::Abort => SweepActionView::Abort,
        }
    }
}

/// Whether every workspace of the store lies on a configured filesystem.
pub open spec fn covers(store: StoreView, filesystems: Seq<NamedFilesystem>) -> bool {
    forall|i: int|
        0 <= i < store.workspaces.len() ==> is_configured(
            filesystems,
            (#[trigger] store.workspaces[i]).filesystem,
        )
}

/// A sweep as a mathematical value.
pub struct SweepView {
    /// The store as the sweep has left it so far.
    pub store: StoreView,
    /// The configured filesystems.
    pub filesystems: Seq<NamedFilesystem>,
    /// The instant of the sweep.
    pub now: i64,
    /// Whether reminders are sent at all.
    pub notify: bool,
    /// The position of the current workspace in the store.
    pub position: int,
    /// The position of the current filesystem.
    pub snapshot: int,
    /// Where the sweep stands.
    pub stage: Stage,
}

impl SweepView {
    /// Every workspace lies on a configured filesystem.
    pub open spec fn covered(self) -> bool {
        covers(self.store, self.filesystems)
    }

    /// The policy of the filesystem of the workspace at `i`.
    pub open spec fn policy(self, i: int) -> Filesystem {
        self.filesystems[filesystem_position(
            self.filesystems,
            self.store.workspaces[i].filesystem,
            0,
        )].filesystem
    }

    /// The reminder that is due for the workspace at `i`, if any.
    pub open spec fn notice(self, i: int) -> Option<Notice> {
        if self.notify {
            due(
                self.store.workspaces[i].expiration as int,
                self.policy(i).expiry_notifications_on_days@,
                self.store.last_notified(self.store.workspaces[i].id),
                self.policy(i).expired_retention as int,
                self.now as int,
            )
        } else {
            None
        }
    }

    /// Whether the workspace at `i` has expired.
    pub open spec fn is_expired(self, i: int) -> bool {
        self.now > self.store.workspaces[i].expiration
    }

    /// Whether the retention window of the workspace at `i` is over.
    pub open spec fn is_past_retention(self, i: int) -> bool {
        self.now > self.store.workspaces[i].expiration + self.policy(i).expired_retention
    }

    /// The volume of the workspace at `i`.
    pub open spec fn volume(self, i: int) -> Seq<char> {
        volume_string(
            self.policy(i).root@,
            self.store.workspaces[i].owner,
            self.store.workspaces[i].name,
        )
    }

    /// What holds of a sweep at every stage.
    pub open spec fn inv(self) -> bool {
        &&& self.store.wf()
        &&& self.covered()
        &&& 0 <= self.position <= self.store.workspaces.len()
        &&& 0 <= self.snapshot <= self.filesystems.len()
    }

    /// What holds of a sweep between two calls: while an outcome is
    /// awaited, the workspace or filesystem that it is about is there, and
    /// a volume is up for destruction only if its retention window is over.
    pub open spec fn wf(self) -> bool {
        &&& self.inv()
        &&& (self.stage is AwaitNotify || self.stage is AwaitDestroy || self.stage
            is AwaitReadOnly) ==> self.position < self.store.workspaces.len()
        &&& self.stage is AwaitDestroy ==> self.is_past_retention(self.position)
        &&& self.stage is AwaitSnapshot ==> self.snapshot < self.filesystems.len()
    }

    /// The sweep after the outcome of the awaited action is taken in.
    ///
    /// A reminder that was sent is logged; one that was not sent for a
    /// reason on the owner's side is passed over; one that failed ends the
    /// sweep. A workspace whose volume was destroyed is removed with its
    /// log entries; one whose volume was not is left as it is for a later
    /// sweep. A failure to mark a volume read-only, to commit or to take a
    /// snapshot ends the sweep.
    pub open spec fn settle(self, outcome: Outcome) -> SweepView {
        match self.stage {
            Stage::AwaitNotify => match outcome {
                Outcome::Succeeded => SweepView {
                    store: self.store.with_notification(
                        self.store.workspaces[self.position].id,
                        self.now,
                    ),
                    stage: Stage::Reclaiming,
                    ..self
                },
                Outcome::Recoverable => SweepView { stage: Stage::Reclaiming, ..self },
                Outcome::Failed => SweepView { stage: Stage::Failed, ..self },
            },
            Stage::AwaitDestroy => match outcome {
                Outcome::Succeeded => SweepView {
                    store: self.store.without_workspace(self.position),
                    stage: Stage::Notifying,
                    ..self
                },
                _ => SweepView { position: self.position + 1, stage: Stage::Notifying, ..self },
            },
            Stage::AwaitReadOnly => match outcome {
                Outcome::Succeeded => SweepView {
                    position: self.position + 1,
                    stage: Stage::Notifying,
                    ..self
                },
                _ => SweepView { stage: Stage::Failed, ..self },
            },
            Stage::AwaitCommit => match outcome {
                Outcome::Succeeded => SweepView { snapshot: 0, stage: Stage::Snapshotting, ..self },
                _ => SweepView { stage: Stage::Failed, ..self },
            },
            Stage::AwaitSnapshot => match outcome {
                Outcome::Succeeded => SweepView {
                    snapshot: self.snapshot + 1,
                    stage: Stage::Snapshotting,
                    ..self
                },
                _ => SweepView { stage: Stage::Failed, ..self },
            },
            _ => self,
        }
    }

    /// How far the sweep is from its end, for the stages that decide.
    pub open spec fn rank(self) -> nat {
        match self.stage {
            Stage::Notifying => 1,
            _ => 0,
        }
    }

    /// The sweep at the next action, and that action.
    ///
    /// For each workspace in turn: a reminder, if one is due; then the
    /// destruction of the volume if the retention window is over, else its
    /// marking as read-only if the workspace has expired. After the last
    /// workspace: the commit. After that, for each filesystem in turn: its
    /// snapshot, if it is flagged for one.
    pub open spec fn run(self) -> (SweepView, SweepActionView)
        decreases
            self.store.workspaces.len() - self.position,
            self.filesystems.len() - self.snapshot,
            self.rank(),
    {
        match self.stage {
            Stage::Notifying => {
                if self.position < 0 || self.position >= self.store.workspaces.len() {
                    (SweepView { stage: Stage::AwaitCommit, ..self }, SweepActionView::Commit)
                } else if self.notice(self.position) is Some {
                    (
                        SweepView { stage: Stage::AwaitNotify, ..self },
                        SweepActionView::Notify {
                            workspace_id: self.store.workspaces[self.position].id,
                            owner: self.store.workspaces[self.position].owner,
                            name: self.store.workspaces[self.position].name,
                            notice: self.notice(self.position)->0,
                        },
                    )
                } else {
                    SweepView { stage: Stage::Reclaiming, ..self }.run()
                }
            },
            Stage::Reclaiming => {
                if self.position < 0 || self.position >= self.store.workspaces.len() {
                    (SweepView { stage: Stage::AwaitCommit, ..self }, SweepActionView::Commit)
                } else if self.is_past_retention(self.position) {
                    (
                        SweepView { stage: Stage::AwaitDestroy, ..self },
                        SweepActionView::DestroyVolume { volume: self.volume(self.position) },
                    )
                } else if self.is_expired(self.position) {
                    (
                        SweepView { stage: Stage::AwaitReadOnly, ..self },
                        SweepActionView::SetReadOnly { volume: self.volume(self.position) },
                    )
                } else {
                    SweepView { position: self.position + 1, stage: Stage::Notifying, ..self }.run()
                }
            },
            Stage::Snapshotting => {
                if self.snapshot < 0 || self.snapshot >= self.filesystems.len() {
                    (SweepView { stage: Stage::Finished, ..self }, SweepActionView::Done)
                } else if self.filesystems[self.snapshot].filesystem.snapshot {
                    (
                        SweepView { stage: Stage::AwaitSnapshot, ..self },
                        SweepActionView::Snapshot {
                            volume: self.filesystems[self.snapshot].filesystem.root@,
                        },
                    )
                } else {
                    SweepView { snapshot: self.snapshot + 1, ..self }.run()
                }
            },
            Stage::Finished => (self, SweepActionView::Done),
            _ => (SweepView { stage: Stage::Failed, ..self }, SweepActionView::Abort),
        }
    }

    /// One step of the sweep: the outcome is taken in, then the sweep runs
    /// on to its next action.
    pub open spec fn advance(self, outcome: Outcome) -> (SweepView, SweepActionView) {
        self.settle(outcome).run()
    }
}

/// Taking an outcome in keeps what holds of a sweep at every stage: the
/// store stays well-formed, and since no workspace is added, every
/// workspace still lies on a configured filesystem.
proof fn lemma_settle_inv(sweep: SweepView, outcome: Outcome)
    requires
        sweep.wf(),
    ensures
        sweep.settle(outcome).inv(),
{
    let after = sweep.settle(outcome);
    match sweep.stage {
        Stage::AwaitNotify => {
            if outcome is Succeeded {
                let id = sweep.store.workspaces[sweep.position].id;
                assert(sweep.store.has_id(id));
                lemma_with_notification_wf(sweep.store, id, sweep.now);
                assert forall|i: int| 0 <= i < after.store.workspaces.len() implies is_configured(
                    after.filesystems,
                    (#[trigger] after.store.workspaces[i]).filesystem,
                ) by {
                    assert(is_configured(sweep.filesystems, sweep.store.workspaces[i].filesystem));
                }
            }
        },
        Stage::AwaitDestroy => {
            if outcome is Succeeded {
                lemma_without_workspace_wf(sweep.store, sweep.position);
                assert forall|i: int| 0 <= i < after.store.workspaces.len() implies is_configured(
                    after.filesystems,
                    (#[trigger] after.store.workspaces[i]).filesystem,
                ) by {
                    let j = if i < sweep.position {
                        i
                    } else {
                        i + 1
                    };
                    assert(after.store.workspaces[i] == sweep.store.workspaces[j]);
                    assert(is_configured(sweep.filesystems, sweep.store.workspaces[j].filesystem));
                }
            }
        },
        _ => {},
    }
}

/// A run changes neither the store nor what is configured, and it stops
/// where the next outcome can be taken in: at a workspace or filesystem
/// that is there, and before a destruction only if the retention window of
/// that workspace is over.
pub proof fn lemma_run(sweep: SweepView)
    requires
        sweep.inv(),
    ensures
        sweep.run().0.wf(),
        sweep.run().0.store == sweep.store,
        sweep.run().0.filesystems == sweep.filesystems,
        sweep.run().0.now == sweep.now,
        sweep.run().0.notify == sweep.notify,
        sweep.run().0.position >= sweep.position,
        sweep.run().0.snapshot >= sweep.snapshot,
        match sweep.run().1 {
            SweepActionView::Notify { workspace_id, owner, name, notice } => {
                &&& sweep.run().0.stage is AwaitNotify
                &&& sweep.run().0.notice(sweep.run().0.position) == Some(notice)
                &&& sweep.store.workspaces[sweep.run().0.position].id == workspace_id
            },
            SweepActionView::DestroyVolume { volume } => {
                &&& sweep.run().0.stage is AwaitDestroy
                &&& sweep.run().0.is_past_retention(sweep.run().0.position)
                &&& volume == sweep.run().0.volume(sweep.run().0.position)
            },
            SweepActionView::SetReadOnly { volume } => {
                &&& sweep.run().0.stage is AwaitReadOnly
                &&& sweep.run().0.is_expired(sweep.run().0.position)
                &&& !sweep.run().0.is_past_retention(sweep.run().0.position)
                &&& volume == sweep.run().0.volume(sweep.run().0.position)
            },
            SweepActionView::Commit => sweep.run().0.stage is AwaitCommit,
            SweepActionView::Snapshot { volume } => sweep.run().0.stage is AwaitSnapshot,
            SweepActionView::Done => sweep.run().0.stage is Finished,
            SweepActionView::Abort => sweep.run().0.stage is Failed,
        },
    decreases
        sweep.store.workspaces.len() - sweep.position,
        sweep.filesystems.len() - sweep.snapshot,
        sweep.rank(),
{
    match sweep.stage {
        Stage::Notifying => {
            if sweep.position < sweep.store.workspaces.len() && sweep.notice(sweep.position)
                is None {
                lemma_run(SweepView { stage: Stage::Reclaiming, ..sweep });
            }
        },
        Stage::Reclaiming => {
            if sweep.position < sweep.store.workspaces.len() && !sweep.is_past_retention(
                sweep.position,
            ) && !sweep.is_expired(sweep.position) {
                lemma_run(
                    SweepView { position: sweep.position + 1, stage: Stage::Notifying, ..sweep },
                );
            }
        },
        Stage::Snapshotting => {
            if sweep.snapshot < sweep.filesystems.len()
                && !sweep.filesystems[sweep.snapshot].filesystem.snapshot {
                lemma_run(SweepView { snapshot: sweep.snapshot + 1, ..sweep });
            }
        },
        _ => {},
    }
}

/// A maintenance sweep in progress.
pub struct Sweep {
    store: Store,
    filesystems: Vec<NamedFilesystem>,
    now: i64,
    notify: bool,
    position: usize,
    snapshot: usize,
    stage: Stage,
}

impl View for Sweep {
    type V = SweepView;

    closed spec fn view(&self) -> SweepView {
        SweepView {
            store: self.store@,
            filesystems: self.filesystems@,
            now: self.now,
            notify: self.notify,
            position: self.position as int,
            snapshot: self.snapshot as int,
            stage: self.stage,
        }
    }
}

/// Checks that every workspace of the store lies on a configured
/// filesystem. A sweep can begin only where that holds.
pub fn check_covers(store: &Store, filesystems: &Vec<NamedFilesystem>) -> (covered: bool)
    ensures
        covered == covers(store@, filesystems@),
{
    let mut i: usize = 0;
    while i < store.len()
        invariant
            i <= store@.workspaces.len(),
            forall|j: int|
                0 <= j < i ==> is_configured(
                    filesystems@,
                    (#[trigger] store@.workspaces[j]).filesystem,
                ),
        decreases store@.workspaces.len() - i,
    {
        if lookup(filesystems, store.workspace(i).filesystem.as_str()).is_none() {
            return false;
        }
        i += 1;
    }
    true
}

/// Begins a maintenance sweep over the workspaces of `store` at the instant
/// `now`. With `notify` unset no reminder is sent.
///
/// The sweep takes the store and the filesystems over and stands before
/// its first workspace. Every workspace has to lie on a configured
/// filesystem.
pub fn maintain(store: Store, filesystems: Vec<NamedFilesystem>, notify: bool, now: i64) -> (sweep:
    Sweep)
    requires
        store.wf(),
        covers(store@, filesystems@),
    ensures
        sweep.wf(),
        sweep@ == (SweepView {
            store: store@,
            filesystems: filesystems@,
            now,
            notify,
            position: 0,
            snapshot: 0,
            stage: Stage::Notifying,
        }),
{
    Sweep { store, filesystems, now, notify, position: 0, snapshot: 0, stage: Stage::Notifying }
}

impl Sweep {
    /// What holds of a sweep between two calls of `advance`.
    pub open spec fn wf(&self) -> bool {
        self@.wf()
    }

    /// The store as the sweep has left it so far.
    pub fn store(&self) -> (store: &Store)
        ensures
            store@ == self@.store,
    {
        &self.store
    }

    /// Where the sweep stands.
    pub fn stage(&self) -> (stage: Stage)
        ensures
            stage == self@.stage,
    {
        self.stage
    }

    /// Ends the sweep and hands back the store and the filesystems.
    pub fn finish(self) -> (parts: (Store, Vec<NamedFilesystem>))
        ensures
            parts.0@ == self@.store,
            parts.1@ == self@.filesystems,
            self.wf() ==> parts.0.wf(),
    {
        (self.store, self.filesystems)
    }

    /// The position of the policy of the current workspace.
    fn policy_index(&self) -> (index: usize)
        requires
            self@.inv(),
            self@.position < self@.store.workspaces.len(),
        ensures
            index < self@.filesystems.len(),
            self@.filesystems[index as int].filesystem == self@.policy(self@.position),
    {
        let row = self.store.workspace(self.position);
        assert(is_configured(self@.filesystems, self@.store.workspaces[self@.position].filesystem));
        match lookup(&self.filesystems, row.filesystem.as_str()) {
            Some(index) => index,
            None => 0,
        }
    }

    /// The volume of the current workspace.
    fn current_volume(&self) -> (volume: String)
        requires
            self@.inv(),
            self@.position < self@.store.workspaces.len(),
        ensures
            volume@ == self@.volume(self@.position),
    {
        let row = self.store.workspace(self.position);
        let index = self.policy_index();
        to_volume_string(
            self.filesystems[index].filesystem.root.as_str(),
            row.owner.as_str(),
            row.name.as_str(),
        )
    }

    /// Takes in the outcome of the awaited action.
    fn settle(&mut self, outcome: Outcome)
        requires
            old(self)@.wf(),
        ensures
            final(self)@ == old(self)@.settle(outcome),
            final(self)@.inv(),
    {
        proof {
            lemma_settle_inv(self@, outcome);
        }
        // Both counts fit a `usize`, so a position below them can be stepped.
        let rows = self.store.len();
        let filesystems = self.filesystems.len();
        match self.stage {
            Stage::AwaitNotify => match outcome {
                Outcome::Succeeded => {
                    let id = self.store.workspace(self.position).id;
                    let logged = self.store.log_notification(id, self.now);
                    assert(logged);
                    self.stage = Stage::Reclaiming;
                },
                Outcome::Recoverable => {
                    self.stage = Stage::Reclaiming;
                },
                Outcome::Failed => {
                    self.stage = Stage::Failed;
                },
            },
            Stage::AwaitDestroy => match outcome {
                Outcome::Succeeded => {
                    self.store.remove_workspace(self.position);
                    self.stage = Stage::Notifying;
                },
                _ => {
                    self.position = self.position + 1;
                    self.stage = Stage::Notifying;
                },
            },
            Stage::AwaitReadOnly => match outcome {
                Outcome::Succeeded => {
                    self.position = self.position + 1;
                    self.stage = Stage::Notifying;
                },
                _ => {
                    self.stage = Stage::Failed;
                },
            },
            Stage::AwaitCommit => match outcome {
                Outcome::Succeeded => {
                    self.snapshot = 0;
                    self.stage = Stage::Snapshotting;
                },
                _ => {
                    self.stage = Stage::Failed;
                },
            },
            Stage::AwaitSnapshot => match outcome {
                Outcome::Succeeded => {
                    self.snapshot = self.snapshot + 1;
                    self.stage = Stage::Snapshotting;
                },
                _ => {
                    self.stage = Stage::Failed;
                },
            },
            _ => {},
        }
    }

    /// Runs on to the next action.
    fn run(&mut self) -> (action: SweepAction)
        requires
            old(self)@.inv(),
        ensures
            (final(self)@, action@) == old(self)@.run(),
            final(self)@.wf(),
    {
        let ghost target = self@.run();
        proof {
            lemma_run(self@);
        }
        loop
            invariant
                self@.inv(),
                self@.run() == target,
                target == old(self)@.run(),
                target.0.wf(),
            decreases
                self@.store.workspaces.len() - self@.position,
                self@.filesystems.len() - self@.snapshot,
                self@.rank(),
        {
            match self.stage {
                Stage::Notifying => {
                    if self.position >= self.store.len() {
                        self.stage = Stage::AwaitCommit;
                        return SweepAction::Commit;
                    }
                    let row = self.store.workspace(self.position);
                    let index = self.policy_index();
                    let policy = &self.filesystems[index].filesystem;
                    let notice = if self.notify {
                        notification_due(
                            row.expiration,
                            &policy.expiry_notifications_on_days,
                            self.store.last_notified(row.id),
                            policy.expired_retention,
                            self.now,
                        )
                    } else {
                        None
                    };
                    match notice {
                        Some(notice) => {
                            let action = SweepAction::Notify {
                                workspace_id: row.id,
                                owner: owned(row.owner.as_str()),
                                name: owned(row.name.as_str()),
                                notice,
                            };
                            self.stage = Stage::AwaitNotify;
                            return action;
                        },
                        None => {
                            self.stage = Stage::Reclaiming;
                        },
                    }
                },
                Stage::Reclaiming => {
                    if self.position >= self.store.len() {
                        self.stage = Stage::AwaitCommit;
                        return SweepAction::Commit;
                    }
                    let expiration = self.store.workspace(self.position).expiration;
                    let index = self.policy_index();
                    let retention = self.filesystems[index].filesystem.expired_retention;
                    if self.now as i128 > expiration as i128 + retention as i128 {
                        let volume = self.current_volume();
                        self.stage = Stage::AwaitDestroy;
                        return SweepAction::DestroyVolume { volume };
                    } else if self.now > expiration {
                        let volume = self.current_volume();
                        self.stage = Stage::AwaitReadOnly;
                        return SweepAction::SetReadOnly { volume };
                    } else {
                        self.position = self.position + 1;
                        self.stage = Stage::Notifying;
                    }
                },
                Stage::Snapshotting => {
                    if self.snapshot >= self.filesystems.len() {
                        self.stage = Stage::Finished;
                        return SweepAction::Done;
                    }
                    if self.filesystems[self.snapshot].filesystem.snapshot {
                        let volume = owned(self.filesystems[self.snapshot].filesystem.root.as_str());
                        self.stage = Stage::AwaitSnapshot;
                        return SweepAction::Snapshot { volume };
                    }
                    self.snapshot = self.snapshot + 1;
                },
                Stage::Finished => {
                    return SweepAction::Done;
                },
                _ => {
                    self.stage = Stage::Failed;
                    return SweepAction::Abort;
                },
            }
        }
    }

    /// Takes in the outcome of the action that was handed out last and
    /// hands out the next one. The first call, at the beginning of a sweep,
    /// awaits nothing: its outcome is passed over.
    pub fn advance(&mut self, outcome: Outcome) -> (action: SweepAction)
        requires
            old(self).wf(),
        ensures
            final(self).wf(),
            (final(self)@, action@) == old(self)@.advance(outcome),
    {
        self.settle(outcome);
        self.run()
    }
}

/// A step leaves the sweep well-formed.
pub proof fn lemma_advance_wf(sweep: SweepView, outcome: Outcome)
    requires
        sweep.wf(),
    ensures
        sweep.advance(outcome).0.wf(),
{
    lemma_settle_inv(sweep, outcome);
    lemma_run(sweep.settle(outcome));
}

/// What a step does to the store, for every stage and outcome.
///
/// A workspace leaves the store, with its log entries, in one case only:
/// the destruction of its volume was awaited, it succeeded, and the
/// retention window of that workspace is over. The log grows in one case
/// only: a reminder was awaited and was sent. In every other case the
/// store stays as it is; in particular a destruction that failed leaves
/// the workspace and its log entries unchanged.
pub proof fn lemma_advance_store(sweep: SweepView, outcome: Outcome)
    requires
        sweep.wf(),
    ensures
        ({
            let after = sweep.advance(outcome).0;
            if sweep.stage is AwaitDestroy && outcome is Succeeded {
                &&& sweep.now > sweep.store.workspaces[sweep.position].expiration + sweep.policy(
                    sweep.position,
                ).expired_retention
                &&& after.store == sweep.store.without_workspace(sweep.position)
            } else if sweep.stage is AwaitNotify && outcome is Succeeded {
                after.store == sweep.store.with_notification(
                    sweep.store.workspaces[sweep.position].id,
                    sweep.now,
                )
            } else {
                after.store == sweep.store
            }
        }),
{
    lemma_settle_inv(sweep, outcome);
    lemma_run(sweep.settle(outcome));
}

/// The destruction of a volume is asked for only when the retention window
/// of its workspace is over, and the marking as read-only only when the
/// workspace has expired and its retention window is not over.
pub proof fn lemma_advance_action(sweep: SweepView, outcome: Outcome)
    requires
        sweep.wf(),
    ensures
        ({
            let after = sweep.advance(outcome).0;
            match sweep.advance(outcome).1 {
                SweepActionView::DestroyVolume { volume } => {
                    &&& 0 <= after.position < after.store.workspaces.len()
                    &&& after.is_past_retention(after.position)
                    &&& volume == after.volume(after.position)
                },
                SweepActionView::SetReadOnly { volume } => {
                    &&& 0 <= after.position < after.store.workspaces.len()
                    &&& after.is_expired(after.position)
                    &&& !after.is_past_retention(after.position)
                    &&& volume == after.volume(after.position)
                },
                SweepActionView::Notify { workspace_id, owner, name, notice } => {
                    &&& 0 <= after.position < after.store.workspaces.len()
                    &&& after.notify
                    &&& after.notice(after.position) == Some(notice)
                    &&& after.store.workspaces[after.position].id == workspace_id
                },
                _ => true,
            }
        }),
{
    lemma_settle_inv(sweep, outcome);
    lemma_run(sweep.settle(outcome));
}

/// A reminder that failed in transport, and a failure to mark a volume
/// read-only, to commit or to take a snapshot, end the sweep: the next
/// action is to give up, and so is every action after it.
pub proof fn lemma_failure_ends_sweep(sweep: SweepView, outcome: Outcome, later: Outcome)
    requires
        sweep.wf(),
        (sweep.stage is AwaitNotify && outcome is Failed) || ((sweep.stage is AwaitReadOnly
            || sweep.stage is AwaitCommit || sweep.stage is AwaitSnapshot || sweep.stage
            is Failed) && !(outcome is Succeeded)),
    ensures
        sweep.advance(outcome).1 is Abort,
        sweep.advance(outcome).0.stage is Failed,
        sweep.advance(outcome).0.advance(later).1 is Abort,
        sweep.advance(outcome).0.advance(later).0 == sweep.advance(outcome).0,
{
}

/// A sweep that is complete stays complete.
pub proof fn lemma_finished_stays(sweep: SweepView, outcome: Outcome)
    requires
        sweep.stage is Finished,
    ensures
        sweep.advance(outcome) == (sweep, SweepActionView::Done),
{
}

} // verus!
