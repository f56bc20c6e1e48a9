use workspaces::maintain::{check_covers, maintain, Outcome, Stage, Sweep, SweepAction};
use workspaces::policy::{Filesystem, NamedFilesystem};
use workspaces::schedule::Notice;
use workspaces::store::{NotificationLogEntry, Store, Workspace};

const DAY: i64 = 86_400;
const NOW: i64 = 1_700_000_000;

fn filesystems() -> Vec<NamedFilesystem> {
    vec![
        NamedFilesystem {
            name: "fsA".to_string(),
            filesystem: Filesystem {
                root: "tank/a".to_string(),
                max_duration: 90 * DAY,
                expired_retention: 14 * DAY,
                expiry_notifications_on_days: vec![DAY, 7 * DAY],
                snapshot: true,
                disabled: false,
            },
        },
        NamedFilesystem {
            name: "fsB".to_string(),
            filesystem: Filesystem {
                root: "tank/b".to_string(),
                max_duration: 30 * DAY,
                expired_retention: 2 * DAY,
                expiry_notifications_on_days: vec![],
                snapshot: false,
                disabled: true,
            },
        },
        NamedFilesystem {
            name: "fsC".to_string(),
            filesystem: Filesystem {
                root: "tank/c".to_string(),
                max_duration: 30 * DAY,
                expired_retention: 0,
                expiry_notifications_on_days: vec![],
                snapshot: true,
                disabled: false,
            },
        },
    ]
}

fn row(id: i64, fs: &str, owner: &str, name: &str, expiration: i64) -> Workspace {
    Workspace {
        id,
        filesystem: fs.to_string(),
        owner: owner.to_string(),
        name: name.to_string(),
        expiration,
    }
}

fn store_of(rows: Vec<Workspace>) -> Store {
    let mut store = Store::new();
    for r in rows {
        assert!(store.restore_workspace(r));
    }
    store
}

fn show(action: &SweepAction) -> String {
    format!("{:?}", action)
}

fn names(sweep: &Sweep) -> Vec<String> {
    sweep.store().workspaces().iter().map(|w| w.name.clone()).collect()
}

#[test]
fn empty_store_commits_then_snapshots() {
    let mut sweep = maintain(Store::new(), filesystems(), true, NOW);
    assert_eq!(sweep.stage(), Stage::Notifying);
    assert_eq!(show(&sweep.advance(Outcome::Succeeded)), "Commit");
    assert_eq!(sweep.stage(), Stage::AwaitCommit);
    assert_eq!(show(&sweep.advance(Outcome::Succeeded)), "Snapshot { volume: \"tank/a\" }");
    assert_eq!(show(&sweep.advance(Outcome::Succeeded)), "Snapshot { volume: \"tank/c\" }");
    assert_eq!(show(&sweep.advance(Outcome::Succeeded)), "Done");
    assert_eq!(sweep.stage(), Stage::Finished);
    assert_eq!(show(&sweep.advance(Outcome::Failed)), "Done");
}

#[test]
fn sweep_walks_every_workspace() {
    let mut store = store_of(vec![
        row(1, "fsA", "alice", "fresh", NOW + 30 * DAY),
        row(2, "fsA", "alice", "soon", NOW + 5 * DAY),
        row(3, "fsA", "bob", "expired", NOW - DAY),
        row(4, "fsB", "bob", "gone", NOW - 3 * DAY),
        row(5, "fsA", "carol", "kept", NOW + DAY),
    ]);
    assert!(store.log_notification(4, NOW - 10 * DAY));
    assert!(store.log_notification(5, NOW));
    let mut sweep = maintain(store, filesystems(), true, NOW);

    // "fresh" needs nothing; "soon" has crossed the seven-day threshold.
    let action = sweep.advance(Outcome::Succeeded);
    match &action {
        SweepAction::Notify { workspace_id, owner, name, notice } => {
            assert_eq!(*workspace_id, 2);
            assert_eq!(owner, "alice");
            assert_eq!(name, "soon");
            assert_eq!(*notice, Notice::ExpiresIn { days: 5 });
        }
        other => panic!("unexpected action {:?}", other),
    }
    assert_eq!(sweep.stage(), Stage::AwaitNotify);
    assert_eq!(sweep.store().notifications().len(), 2);

    // The reminder was sent: it is logged. "expired" is reminded next.
    let action = sweep.advance(Outcome::Succeeded);
    assert_eq!(
        sweep.store().notifications()[2],
        NotificationLogEntry { workspace_id: 2, timestamp: NOW }
    );
    assert_eq!(
        show(&action),
        "Notify { workspace_id: 3, owner: \"bob\", name: \"expired\", notice: DeletedIn { days: 13 } }"
    );

    // The owner has no valid contact record: passed over, nothing logged,
    // the workspace is still made read-only.
    let action = sweep.advance(Outcome::Recoverable);
    assert_eq!(sweep.store().notifications().len(), 3);
    assert_eq!(show(&action), "SetReadOnly { volume: \"tank/a/bob/expired\" }");
    assert_eq!(sweep.stage(), Stage::AwaitReadOnly);

    // "gone" is past its retention window (no offsets configured on fsB).
    let action = sweep.advance(Outcome::Succeeded);
    assert_eq!(show(&action), "DestroyVolume { volume: \"tank/b/bob/gone\" }");
    assert_eq!(sweep.stage(), Stage::AwaitDestroy);
    assert_eq!(names(&sweep), vec!["fresh", "soon", "expired", "gone", "kept"]);

    // Destroyed: the record and its log entries go. "kept" was notified just
    // now and has not expired, so the walk is over.
    let action = sweep.advance(Outcome::Succeeded);
    assert_eq!(names(&sweep), vec!["fresh", "soon", "expired", "kept"]);
    assert!(sweep.store().notifications().iter().all(|e| e.workspace_id != 4));
    assert_eq!(sweep.store().notifications().len(), 2);
    assert_eq!(show(&action), "Commit");

    assert_eq!(show(&sweep.advance(Outcome::Succeeded)), "Snapshot { volume: \"tank/a\" }");
    assert_eq!(show(&sweep.advance(Outcome::Succeeded)), "Snapshot { volume: \"tank/c\" }");
    assert_eq!(show(&sweep.advance(Outcome::Succeeded)), "Done");
    let (store, configured) = sweep.finish();
    assert_eq!(store.len(), 4);
    assert_eq!(configured.len(), 3);
}

#[test]
fn failed_destroy_leaves_record_and_log() {
    let mut store = store_of(vec![
        row(1, "fsB", "bob", "gone", NOW - 3 * DAY),
        row(2, "fsB", "bob", "later", NOW - 2 * DAY - 1),
    ]);
    assert!(store.log_notification(1, NOW - 5 * DAY));
    assert!(store.log_notification(2, NOW - 5 * DAY));
    let mut sweep = maintain(store, filesystems(), true, NOW);
    assert_eq!(
        show(&sweep.advance(Outcome::Succeeded)),
        "DestroyVolume { volume: \"tank/b/bob/gone\" }"
    );
    // The destruction failed: the sweep goes on to the next workspace.
    assert_eq!(
        show(&sweep.advance(Outcome::Failed)),
        "DestroyVolume { volume: \"tank/b/bob/later\" }"
    );
    assert_eq!(names(&sweep), vec!["gone", "later"]);
    assert_eq!(sweep.store().notifications().len(), 2);
    assert_eq!(show(&sweep.advance(Outcome::Recoverable)), "Commit");
    assert_eq!(names(&sweep), vec!["gone", "later"]);
    assert_eq!(
        sweep.store().notifications(),
        &vec![
            NotificationLogEntry { workspace_id: 1, timestamp: NOW - 5 * DAY },
            NotificationLogEntry { workspace_id: 2, timestamp: NOW - 5 * DAY },
        ]
    );
}

#[test]
fn retention_boundary_is_strict() {
    // Exactly at expiration + retention: not yet removed, but read-only.
    let store = store_of(vec![row(1, "fsB", "bob", "edge", NOW - 2 * DAY)]);
    let mut sweep = maintain(store, filesystems(), false, NOW);
    assert_eq!(
        show(&sweep.advance(Outcome::Succeeded)),
        "SetReadOnly { volume: \"tank/b/bob/edge\" }"
    );
    // Exactly at expiration: neither.
    let store = store_of(vec![row(1, "fsB", "bob", "edge", NOW)]);
    let mut sweep = maintain(store, filesystems(), false, NOW);
    assert_eq!(show(&sweep.advance(Outcome::Succeeded)), "Commit");
    // With no retention window an expired workspace goes at once.
    let store = store_of(vec![row(1, "fsC", "bob", "edge", NOW - 1)]);
    let mut sweep = maintain(store, filesystems(), false, NOW);
    assert_eq!(
        show(&sweep.advance(Outcome::Succeeded)),
        "DestroyVolume { volume: \"tank/c/bob/edge\" }"
    );
}

#[test]
fn transport_failure_gives_the_sweep_up() {
    let store = store_of(vec![
        row(1, "fsA", "alice", "soon", NOW + 5 * DAY),
        row(2, "fsB", "bob", "gone", NOW - 3 * DAY),
    ]);
    let mut sweep = maintain(store, filesystems(), true, NOW);
    assert!(matches!(sweep.advance(Outcome::Succeeded), SweepAction::Notify { .. }));
    assert_eq!(show(&sweep.advance(Outcome::Failed)), "Abort");
    assert_eq!(sweep.stage(), Stage::Failed);
    assert_eq!(sweep.store().notifications().len(), 0);
    assert_eq!(sweep.store().len(), 2);
    assert_eq!(show(&sweep.advance(Outcome::Succeeded)), "Abort");
    assert_eq!(sweep.stage(), Stage::Failed);
}

#[test]
fn failure_to_mark_read_only_or_commit_or_snapshot_gives_up() {
    let store = store_of(vec![row(1, "fsA", "bob", "expired", NOW - DAY)]);
    let mut sweep = maintain(store, filesystems(), false, NOW);
    assert!(matches!(sweep.advance(Outcome::Succeeded), SweepAction::SetReadOnly { .. }));
    assert_eq!(show(&sweep.advance(Outcome::Failed)), "Abort");

    let mut sweep = maintain(Store::new(), filesystems(), false, NOW);
    assert_eq!(show(&sweep.advance(Outcome::Succeeded)), "Commit");
    assert_eq!(show(&sweep.advance(Outcome::Failed)), "Abort");

    let mut sweep = maintain(Store::new(), filesystems(), false, NOW);
    assert_eq!(show(&sweep.advance(Outcome::Succeeded)), "Commit");
    assert!(matches!(sweep.advance(Outcome::Succeeded), SweepAction::Snapshot { .. }));
    assert_eq!(show(&sweep.advance(Outcome::Recoverable)), "Abort");
}

#[test]
fn without_mail_no_reminder_is_due() {
    let store = store_of(vec![row(1, "fsA", "alice", "soon", NOW + 5 * DAY)]);
    let mut sweep = maintain(store, filesystems(), false, NOW);
    assert_eq!(show(&sweep.advance(Outcome::Succeeded)), "Commit");
    assert_eq!(sweep.store().notifications().len(), 0);
}

#[test]
fn reminder_is_not_repeated_by_the_next_sweep() {
    let store = store_of(vec![row(1, "fsA", "alice", "soon", NOW + 5 * DAY)]);
    let mut sweep = maintain(store, filesystems(), true, NOW);
    assert!(matches!(sweep.advance(Outcome::Succeeded), SweepAction::Notify { .. }));
    assert_eq!(show(&sweep.advance(Outcome::Succeeded)), "Commit");
    let (store, configured) = sweep.finish();
    let mut again = maintain(store, configured, true, NOW);
    assert_eq!(show(&again.advance(Outcome::Succeeded)), "Commit");
    let (store, configured) = again.finish();
    // Once the one-day threshold is crossed, the owner is reminded again.
    let mut later = maintain(store, configured, true, NOW + 4 * DAY + 1);
    assert_eq!(
        show(&later.advance(Outcome::Succeeded)),
        "Notify { workspace_id: 1, owner: \"alice\", name: \"soon\", notice: ExpiresIn { days: 0 } }"
    );
}

#[test]
fn coverage_check() {
    let store = store_of(vec![row(1, "fsA", "a", "x", 0), row(2, "fsZ", "a", "y", 0)]);
    assert!(!check_covers(&store, &filesystems()));
    let store = store_of(vec![row(1, "fsA", "a", "x", 0), row(2, "fsC", "a", "y", 0)]);
    assert!(check_covers(&store, &filesystems()));
    assert!(check_covers(&Store::new(), &Vec::new()));
}
