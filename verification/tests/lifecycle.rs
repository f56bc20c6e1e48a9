use workspaces::action::Action;
use workspaces::create::create;
use workspaces::expire::expire;
use workspaces::extend::extend;
use workspaces::policy::{authorize, check, filesystem_or_default, Caller, Error, Filesystem, NamedFilesystem};
use workspaces::rename::rename;
use workspaces::store::{NotificationLogEntry, Store, Workspace};

const DAY: i64 = 86_400;
const NOW: i64 = 1_700_000_000;

fn policy() -> Filesystem {
    Filesystem {
        root: "tank/ws".to_string(),
        max_duration: 90 * DAY,
        expired_retention: 14 * DAY,
        expiry_notifications_on_days: vec![DAY, 7 * DAY],
        snapshot: false,
        disabled: false,
    }
}

fn user(name: &str) -> Caller {
    Caller { username: name.to_string(), privileged: false }
}

fn root() -> Caller {
    Caller { username: "root".to_string(), privileged: true }
}

fn describe(actions: &Vec<Action>) -> Vec<String> {
    actions.iter().map(|a| format!("{:?}", a)).collect()
}

fn expiration_of(store: &Store, fs: &str, owner: &str, name: &str) -> Option<i64> {
    store.find(fs, owner, name).map(|i| store.workspace(i).expiration)
}

fn no_duplicate_triples(store: &Store) -> bool {
    let rows = store.workspaces();
    for i in 0..rows.len() {
        for j in (i + 1)..rows.len() {
            if rows[i].filesystem == rows[j].filesystem
                && rows[i].owner == rows[j].owner
                && rows[i].name == rows[j].name
            {
                return false;
            }
            if rows[i].id == rows[j].id {
                return false;
            }
        }
    }
    true
}

#[test]
fn create_then_read_back() {
    let mut store = Store::new();
    let actions =
        create(&mut store, "fsA", &policy(), "alice", "proj", 30 * DAY, &user("alice"), NOW, true)
            .unwrap();
    assert_eq!(expiration_of(&store, "fsA", "alice", "proj"), Some(NOW + 30 * DAY));
    assert_eq!(store.len(), 1);
    assert_eq!(store.workspace(0).id, 1);
    assert_eq!(
        store.notifications(),
        &vec![NotificationLogEntry { workspace_id: 1, timestamp: NOW }]
    );
    assert_eq!(store.last_notified(1), Some(NOW));
    assert_eq!(
        describe(&actions),
        vec![
            "Commit",
            "CreateVolume { volume: \"tank/ws/alice/proj\" }",
            "RestrictToOwner { volume: \"tank/ws/alice/proj\", owner: \"alice\" }",
            "NotifyCreated { owner: \"alice\", name: \"proj\", volume: \"tank/ws/alice/proj\", days: 30 }",
        ]
    );
    assert!(!actions[0].is_best_effort());
    assert!(!actions[1].is_best_effort());
    assert!(!actions[2].is_best_effort());
    assert!(actions[3].is_best_effort());
}

#[test]
fn create_without_mail_has_no_notification_action() {
    let mut store = Store::new();
    let actions =
        create(&mut store, "fsA", &policy(), "alice", "proj", DAY, &user("alice"), NOW, false)
            .unwrap();
    assert_eq!(actions.len(), 3);
}

#[test]
fn create_twice_is_refused_and_changes_nothing() {
    let mut store = Store::new();
    create(&mut store, "fsA", &policy(), "alice", "proj", 30 * DAY, &user("alice"), NOW, false)
        .unwrap();
    let again = create(
        &mut store, "fsA", &policy(), "alice", "proj", 10 * DAY, &user("alice"), NOW + 5, false,
    );
    assert_eq!(again.unwrap_err(), Error::WorkspaceExists);
    assert_eq!(store.len(), 1);
    assert_eq!(store.notifications().len(), 1);
    assert_eq!(expiration_of(&store, "fsA", "alice", "proj"), Some(NOW + 30 * DAY));
    // The same name on another filesystem or for another owner is another workspace.
    create(&mut store, "fsB", &policy(), "alice", "proj", DAY, &user("alice"), NOW, false).unwrap();
    create(&mut store, "fsA", &policy(), "bob", "proj", DAY, &user("bob"), NOW, false).unwrap();
    assert_eq!(store.len(), 3);
    assert_eq!(store.workspace(2).id, 3);
    assert!(no_duplicate_triples(&store));
}

#[test]
fn create_checks_caller_then_policy() {
    let mut store = Store::new();
    let mut disabled = policy();
    disabled.disabled = true;
    // Another user's workspace: authorization comes first.
    assert_eq!(
        create(&mut store, "fsA", &disabled, "alice", "p", 100 * DAY, &user("bob"), NOW, false)
            .unwrap_err(),
        Error::InsufficientPrivileges
    );
    // Disabled filesystem comes before the duration.
    assert_eq!(
        create(&mut store, "fsA", &disabled, "alice", "p", 100 * DAY, &user("alice"), NOW, false)
            .unwrap_err(),
        Error::FsDisabled
    );
    assert_eq!(
        create(&mut store, "fsA", &policy(), "alice", "p", 90 * DAY + 1, &user("alice"), NOW, false)
            .unwrap_err(),
        Error::TooHighDuration
    );
    assert_eq!(store.len(), 0);
    // The longest duration itself is allowed.
    create(&mut store, "fsA", &policy(), "alice", "p", 90 * DAY, &user("alice"), NOW, false)
        .unwrap();
    // A privileged caller passes all of them.
    create(&mut store, "fsA", &disabled, "alice", "q", 1000 * DAY, &root(), NOW, false).unwrap();
    assert_eq!(expiration_of(&store, "fsA", "alice", "q"), Some(NOW + 1000 * DAY));
}

#[test]
fn expire_never_increases() {
    let mut store = Store::new();
    create(&mut store, "fsA", &policy(), "alice", "proj", 30 * DAY, &user("alice"), NOW, false)
        .unwrap();
    let actions =
        expire(&mut store, "fsA", &policy(), "alice", "proj", false, &user("alice"), NOW + DAY)
            .unwrap();
    assert_eq!(
        describe(&actions),
        vec!["Commit", "SetReadOnly { volume: \"tank/ws/alice/proj\", read_only: true }"]
    );
    assert_eq!(expiration_of(&store, "fsA", "alice", "proj"), Some(NOW + DAY));
    assert_eq!(store.last_notified(1), Some(NOW + DAY));
    // Expiring again later keeps the earlier expiration.
    expire(&mut store, "fsA", &policy(), "alice", "proj", false, &user("alice"), NOW + 2 * DAY)
        .unwrap();
    assert_eq!(expiration_of(&store, "fsA", "alice", "proj"), Some(NOW + DAY));
    assert_eq!(store.notifications().len(), 3);
    // Immediate expiry puts the expiration a retention window into the past.
    expire(&mut store, "fsA", &policy(), "alice", "proj", true, &root(), NOW + 3 * DAY).unwrap();
    assert_eq!(expiration_of(&store, "fsA", "alice", "proj"), Some(NOW + 3 * DAY - 14 * DAY));
}

#[test]
fn expire_refusals() {
    let mut store = Store::new();
    create(&mut store, "fsA", &policy(), "alice", "proj", 30 * DAY, &user("alice"), NOW, false)
        .unwrap();
    assert_eq!(
        expire(&mut store, "fsA", &policy(), "alice", "proj", false, &user("bob"), NOW)
            .unwrap_err(),
        Error::InsufficientPrivileges
    );
    assert_eq!(
        expire(&mut store, "fsA", &policy(), "alice", "other", false, &user("alice"), NOW)
            .unwrap_err(),
        Error::UnknownWorkspace
    );
    // A disabled filesystem does not keep a workspace from being expired.
    let mut disabled = policy();
    disabled.disabled = true;
    expire(&mut store, "fsA", &disabled, "alice", "proj", false, &user("alice"), NOW).unwrap();
    assert_eq!(store.notifications().len(), 2);
}

#[test]
fn extend_never_decreases() {
    let mut store = Store::new();
    create(&mut store, "fsA", &policy(), "alice", "proj", 30 * DAY, &user("alice"), NOW, false)
        .unwrap();
    // A shorter extension keeps the later expiration.
    let actions =
        extend(&mut store, "fsA", &policy(), "alice", "proj", 10 * DAY, &user("alice"), NOW, true)
            .unwrap();
    assert_eq!(expiration_of(&store, "fsA", "alice", "proj"), Some(NOW + 30 * DAY));
    assert_eq!(
        describe(&actions),
        vec![
            "Commit".to_string(),
            "SetReadOnly { volume: \"tank/ws/alice/proj\", read_only: false }".to_string(),
            format!(
                "NotifyExtended {{ owner: \"alice\", name: \"proj\", expiration: {}, days: 30 }}",
                NOW + 30 * DAY
            ),
        ]
    );
    let actions = extend(
        &mut store, "fsA", &policy(), "alice", "proj", 60 * DAY, &user("alice"), NOW + DAY + 5,
        true,
    )
    .unwrap();
    assert_eq!(expiration_of(&store, "fsA", "alice", "proj"), Some(NOW + 61 * DAY + 5));
    assert_eq!(
        describe(&actions)[2],
        format!(
            "NotifyExtended {{ owner: \"alice\", name: \"proj\", expiration: {}, days: 60 }}",
            NOW + 61 * DAY + 5
        )
    );
}

#[test]
fn extend_by_owner_clears_later_entries_and_acknowledges() {
    let mut store = Store::new();
    assert!(store.restore_workspace(Workspace {
        id: 7,
        filesystem: "fsA".to_string(),
        owner: "alice".to_string(),
        name: "proj".to_string(),
        expiration: NOW + DAY,
    }));
    assert!(store.restore_workspace(Workspace {
        id: 9,
        filesystem: "fsA".to_string(),
        owner: "bob".to_string(),
        name: "proj".to_string(),
        expiration: NOW + DAY,
    }));
    assert!(store.log_notification(7, NOW - 10));
    assert!(store.log_notification(7, NOW + 1000));
    assert!(store.log_notification(9, NOW + 2000));
    assert!(store.log_notification(7, NOW));
    assert!(store.log_notification(7, NOW + 1));
    extend(&mut store, "fsA", &policy(), "alice", "proj", 5 * DAY, &user("alice"), NOW, false)
        .unwrap();
    assert_eq!(
        store.notifications(),
        &vec![
            NotificationLogEntry { workspace_id: 7, timestamp: NOW - 10 },
            NotificationLogEntry { workspace_id: 9, timestamp: NOW + 2000 },
            NotificationLogEntry { workspace_id: 7, timestamp: NOW },
            NotificationLogEntry { workspace_id: 7, timestamp: NOW },
        ]
    );
    assert!(store.notifications().iter().all(|e| e.workspace_id != 7 || e.timestamp <= NOW));
    assert_eq!(store.last_notified(7), Some(NOW));
    assert_eq!(store.last_notified(9), Some(NOW + 2000));
}

#[test]
fn extend_by_privileged_caller_does_not_acknowledge() {
    let mut store = Store::new();
    create(&mut store, "fsA", &policy(), "alice", "proj", DAY, &user("alice"), NOW, false)
        .unwrap();
    assert!(store.log_notification(1, NOW + 500));
    extend(&mut store, "fsA", &policy(), "alice", "proj", 5 * DAY, &root(), NOW + 100, false)
        .unwrap();
    assert_eq!(
        store.notifications(),
        &vec![NotificationLogEntry { workspace_id: 1, timestamp: NOW }]
    );
    // root acting on root's own workspace is privileged, too.
    create(&mut store, "fsA", &policy(), "root", "r", DAY, &root(), NOW, false).unwrap();
    extend(&mut store, "fsA", &policy(), "root", "r", 5 * DAY, &root(), NOW + 100, false).unwrap();
    assert_eq!(store.notifications().len(), 2);
}

#[test]
fn extend_refusals() {
    let mut store = Store::new();
    create(&mut store, "fsA", &policy(), "alice", "proj", DAY, &user("alice"), NOW, false)
        .unwrap();
    let mut disabled = policy();
    disabled.disabled = true;
    assert_eq!(
        extend(&mut store, "fsA", &policy(), "alice", "proj", DAY, &user("bob"), NOW, false)
            .unwrap_err(),
        Error::InsufficientPrivileges
    );
    assert_eq!(
        extend(&mut store, "fsA", &disabled, "alice", "proj", DAY, &user("alice"), NOW, false)
            .unwrap_err(),
        Error::FsDisabled
    );
    assert_eq!(
        extend(&mut store, "fsA", &policy(), "alice", "proj", 91 * DAY, &user("alice"), NOW, false)
            .unwrap_err(),
        Error::TooHighDuration
    );
    assert_eq!(
        extend(&mut store, "fsA", &policy(), "alice", "nope", DAY, &user("alice"), NOW, false)
            .unwrap_err(),
        Error::UnknownWorkspace
    );
    assert_eq!(expiration_of(&store, "fsA", "alice", "proj"), Some(NOW + DAY));
    assert_eq!(store.notifications().len(), 1);
}

#[test]
fn rename_moves_the_record() {
    let mut store = Store::new();
    create(&mut store, "fsA", &policy(), "alice", "old", DAY, &user("alice"), NOW, false).unwrap();
    let actions = rename(&mut store, "fsA", &policy(), "alice", "old", "new", &user("alice"))
        .unwrap();
    assert_eq!(
        describe(&actions),
        vec![
            "Commit",
            "RenameVolume { volume: \"tank/ws/alice/old\", new_volume: \"tank/ws/alice/new\" }"
        ]
    );
    assert_eq!(store.find("fsA", "alice", "old"), None);
    assert_eq!(store.find("fsA", "alice", "new"), Some(0));
    assert_eq!(store.workspace(0).id, 1);
    assert_eq!(store.workspace(0).expiration, NOW + DAY);
    assert_eq!(store.last_notified(1), Some(NOW));
}

#[test]
fn rename_onto_existing_is_refused() {
    let mut store = Store::new();
    create(&mut store, "fsA", &policy(), "alice", "a", DAY, &user("alice"), NOW, false).unwrap();
    create(&mut store, "fsA", &policy(), "alice", "b", DAY, &user("alice"), NOW, false).unwrap();
    create(&mut store, "fsA", &policy(), "bob", "c", DAY, &user("bob"), NOW, false).unwrap();
    assert_eq!(
        rename(&mut store, "fsA", &policy(), "alice", "a", "b", &user("alice")).unwrap_err(),
        Error::WorkspaceExists
    );
    assert_eq!(store.find("fsA", "alice", "a"), Some(0));
    assert_eq!(store.find("fsA", "alice", "b"), Some(1));
    // Another owner's name is free, and so is the workspace's own name.
    rename(&mut store, "fsA", &policy(), "alice", "a", "c", &user("alice")).unwrap();
    rename(&mut store, "fsA", &policy(), "alice", "b", "b", &user("alice")).unwrap();
    assert!(no_duplicate_triples(&store));
    assert_eq!(store.len(), 3);
}

#[test]
fn rename_checks_and_missing_source() {
    let mut store = Store::new();
    create(&mut store, "fsA", &policy(), "alice", "a", DAY, &user("alice"), NOW, false).unwrap();
    let mut disabled = policy();
    disabled.disabled = true;
    assert_eq!(
        rename(&mut store, "fsA", &policy(), "alice", "a", "b", &user("bob")).unwrap_err(),
        Error::InsufficientPrivileges
    );
    assert_eq!(
        rename(&mut store, "fsA", &disabled, "alice", "a", "b", &user("alice")).unwrap_err(),
        Error::FsDisabled
    );
    rename(&mut store, "fsA", &disabled, "alice", "a", "b", &root()).unwrap();
    // A source that the store does not hold leaves the store alone; the
    // volume rename is still handed out.
    let actions = rename(&mut store, "fsA", &policy(), "alice", "zzz", "b", &user("alice")).unwrap();
    assert_eq!(actions.len(), 2);
    assert_eq!(store.len(), 1);
    assert_eq!(store.find("fsA", "alice", "b"), Some(0));
}

#[test]
fn authorize_and_check() {
    assert_eq!(authorize(&user("alice"), "alice"), Ok(()));
    assert_eq!(authorize(&user("alice"), "bob"), Err(Error::InsufficientPrivileges));
    assert_eq!(authorize(&root(), "bob"), Ok(()));
    assert_eq!(check(&user("alice"), &policy(), "alice", None), Ok(()));
    assert_eq!(check(&user("alice"), &policy(), "alice", Some(90 * DAY)), Ok(()));
    assert_eq!(
        check(&user("alice"), &policy(), "alice", Some(90 * DAY + 1)),
        Err(Error::TooHighDuration)
    );
}

#[test]
fn exit_codes() {
    assert_eq!(Error::InsufficientPrivileges.exit_code(), 1);
    assert_eq!(Error::FsDisabled.exit_code(), 2);
    assert_eq!(Error::TooHighDuration.exit_code(), 3);
    assert_eq!(Error::UnknownWorkspace.exit_code(), 4);
    assert_eq!(Error::WorkspaceExists.exit_code(), 5);
    assert_eq!(Error::NoFilesystemSpecified.exit_code(), 6);
    assert_eq!(Error::UnknownFilesystem.exit_code(), 4);
}

#[test]
fn choice_of_filesystem() {
    let one = vec![NamedFilesystem { name: "fsA".to_string(), filesystem: policy() }];
    let two = vec![
        NamedFilesystem { name: "fsA".to_string(), filesystem: policy() },
        NamedFilesystem { name: "fsB".to_string(), filesystem: policy() },
    ];
    let none: Vec<NamedFilesystem> = Vec::new();
    assert_eq!(filesystem_or_default(&Some("fsB".to_string()), &two, &None), Ok("fsB".to_string()));
    assert_eq!(
        filesystem_or_default(&Some("fsB".to_string()), &two, &Some("fsA".to_string())),
        Ok("fsB".to_string())
    );
    assert_eq!(
        filesystem_or_default(&None, &two, &Some("fsA".to_string())),
        Ok("fsA".to_string())
    );
    assert_eq!(filesystem_or_default(&None, &one, &None), Ok("fsA".to_string()));
    assert_eq!(filesystem_or_default(&None, &two, &None), Err(Error::NoFilesystemSpecified));
    assert_eq!(filesystem_or_default(&None, &none, &None), Err(Error::NoFilesystemSpecified));
    assert_eq!(
        filesystem_or_default(&Some("fsC".to_string()), &two, &None),
        Err(Error::UnknownFilesystem)
    );
    assert_eq!(
        filesystem_or_default(&None, &two, &Some("fsC".to_string())),
        Err(Error::UnknownFilesystem)
    );
}

#[test]
fn store_restores_and_rejects() {
    let mut store = Store::new();
    let row = |id: i64, name: &str| Workspace {
        id,
        filesystem: "fsA".to_string(),
        owner: "alice".to_string(),
        name: name.to_string(),
        expiration: 0,
    };
    assert!(store.restore_workspace(row(5, "a")));
    assert!(!store.restore_workspace(row(5, "b")));
    assert!(!store.restore_workspace(row(6, "a")));
    assert!(store.restore_workspace(row(-3, "b")));
    assert_eq!(store.len(), 2);
    assert_eq!(store.next_id(), Some(6));
    assert_eq!(store.find_id(-3), Some(1));
    assert_eq!(store.find_id(4), None);
    assert!(!store.log_notification(4, 0));
    assert_eq!(store.last_notified(5), None);
    assert!(store.log_notification(5, 10));
    assert!(store.log_notification(5, 30));
    assert!(store.log_notification(5, 20));
    assert!(store.log_notification(-3, 99));
    assert_eq!(store.last_notified(5), Some(30));
    store.remove_workspace(0);
    assert_eq!(store.len(), 1);
    assert_eq!(
        store.notifications(),
        &vec![NotificationLogEntry { workspace_id: -3, timestamp: 99 }]
    );
    assert_eq!(store.next_id(), Some(-2));
    assert_eq!(Store::new().next_id(), Some(1));
    assert!(store.restore_workspace(row(i64::MAX, "z")));
    assert_eq!(store.next_id(), None);
}
