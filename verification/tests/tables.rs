use workspaces::filesystems::{filesystems, FilesystemsColumns, Usage};
use workspaces::list::{
    expiry_cell, expiry_status, is_listed, list, size_cell, Cell, Color, ExpiryStatus, VolumeInfo,
    WorkspacesColumns,
};
use workspaces::policy::{Filesystem, NamedFilesystem};
use workspaces::store::{Store, Workspace};
use workspaces::zfs::{
    create_arguments, destroy_arguments, get_property_arguments, property_line, property_size,
    readonly_value, rename_arguments, set_property_arguments, snapshot_arguments,
    snapshot_arguments_at, status_result, Error,
};

const DAY: i64 = 86_400;
const NOW: i64 = 1_700_000_000;
const GIB: u64 = 1 << 30;

fn configured() -> Vec<NamedFilesystem> {
    vec![
        NamedFilesystem {
            name: "fsA".to_string(),
            filesystem: Filesystem {
                root: "tank/a".to_string(),
                max_duration: 90 * DAY,
                expired_retention: 14 * DAY,
                expiry_notifications_on_days: vec![],
                snapshot: false,
                disabled: false,
            },
        },
        NamedFilesystem {
            name: "fsB".to_string(),
            filesystem: Filesystem {
                root: "tank/b".to_string(),
                max_duration: 30 * DAY + 5,
                expired_retention: 2 * DAY,
                expiry_notifications_on_days: vec![],
                snapshot: false,
                disabled: true,
            },
        },
    ]
}

fn texts(row: &Vec<Cell>) -> Vec<String> {
    row.iter().map(|c| c.text.clone()).collect()
}

fn info(referenced: u64, mountpoint: &str) -> Option<VolumeInfo> {
    Some(VolumeInfo { referenced, mountpoint: mountpoint.to_string() })
}

fn store() -> Store {
    let mut store = Store::new();
    for (id, fs, owner, name, expiration) in [
        (1, "fsA", "alice", "far", NOW + 45 * DAY),
        (2, "fsA", "bob", "near", NOW + 3 * DAY + 7),
        (3, "fsB", "alice", "late", NOW - DAY / 2),
        (4, "fsB", "carol", "over", NOW - 2 * DAY - 1),
    ] {
        assert!(store.restore_workspace(Workspace {
            id,
            filesystem: fs.to_string(),
            owner: owner.to_string(),
            name: name.to_string(),
            expiration,
        }));
    }
    store
}

#[test]
fn expiry_statuses() {
    assert_eq!(expiry_status(NOW + 45 * DAY, 14 * DAY, NOW), ExpiryStatus::ExpiresIn { days: 45 });
    assert_eq!(expiry_status(NOW + 30 * DAY, 14 * DAY, NOW), ExpiryStatus::ExpiresIn { days: 30 });
    assert_eq!(
        expiry_status(NOW + 30 * DAY - 1, 14 * DAY, NOW),
        ExpiryStatus::ExpiresSoon { days: 29 }
    );
    assert_eq!(expiry_status(NOW, 14 * DAY, NOW), ExpiryStatus::ExpiresSoon { days: 0 });
    assert_eq!(expiry_status(NOW - 1, 14 * DAY, NOW), ExpiryStatus::DeletedIn { days: 13 });
    assert_eq!(expiry_status(NOW - 14 * DAY, 14 * DAY, NOW), ExpiryStatus::DeletedIn { days: 0 });
    assert_eq!(expiry_status(NOW - 14 * DAY - 1, 14 * DAY, NOW), ExpiryStatus::DeletedSoon);
    assert_eq!(expiry_status(i64::MIN, i64::MIN, i64::MAX), ExpiryStatus::DeletedSoon);
}

#[test]
fn expiry_cells() {
    let c = expiry_cell(ExpiryStatus::DeletedSoon);
    assert_eq!((c.text.as_str(), c.right, c.bold, c.color), ("deleted soon", false, true, Some(Color::Red)));
    let c = expiry_cell(ExpiryStatus::DeletedIn { days: 3 });
    assert_eq!((c.text.as_str(), c.right, c.bold, c.color), ("deleted in  3d", true, true, Some(Color::Red)));
    let c = expiry_cell(ExpiryStatus::ExpiresSoon { days: 29 });
    assert_eq!((c.text.as_str(), c.right, c.bold, c.color), ("expires in 29d", true, false, Some(Color::Yellow)));
    let c = expiry_cell(ExpiryStatus::ExpiresIn { days: 120 });
    assert_eq!((c.text.as_str(), c.right, c.bold, c.color), ("expires in 120d", true, false, None));
    for days in [0i64, 5, 9, 10, 99, 100, -1, -12] {
        assert_eq!(
            expiry_cell(ExpiryStatus::ExpiresIn { days }).text,
            format!("expires in {:>2}d", days)
        );
    }
}

#[test]
fn sizes_are_whole_gibibytes() {
    assert_eq!(size_cell(0).text, "0G");
    assert_eq!(size_cell(GIB - 1).text, "0G");
    assert_eq!(size_cell(GIB).text, "1G");
    assert_eq!(size_cell(1536 * GIB + 5).text, "1536G");
    assert_eq!(size_cell(u64::MAX).text, "17179869183G");
    assert!(size_cell(1).right);
}

#[test]
fn filters() {
    let users = Some(vec!["alice".to_string(), "bob".to_string()]);
    let fss = Some(vec!["fsA".to_string()]);
    assert!(is_listed("alice", "fsA", &None, &None));
    assert!(is_listed("alice", "fsA", &users, &fss));
    assert!(!is_listed("carol", "fsA", &users, &fss));
    assert!(!is_listed("alice", "fsB", &users, &fss));
    assert!(is_listed("carol", "fsA", &None, &fss));
    assert!(!is_listed("alice", "fsA", &Some(vec![]), &None));
}

#[test]
fn table_of_workspaces() {
    let infos = vec![
        info(5 * GIB, "/tank/a/alice/far"),
        info(GIB / 2, "/tank/a/bob/near"),
        None,
        info(0, "/tank/b/carol/over"),
    ];
    let rows = list(&store(), &configured(), &infos, &None, &None, &None, NOW);
    assert_eq!(rows.len(), 3);
    assert_eq!(
        texts(&rows[0]),
        vec!["far", "alice", "fsA", "5G", "expires in 45d", "/tank/a/alice/far"]
    );
    assert_eq!(
        texts(&rows[1]),
        vec!["near", "bob", "fsA", "0G", "expires in  3d", "/tank/a/bob/near"]
    );
    assert_eq!(rows[1][4].color, Some(Color::Yellow));
    assert_eq!(
        texts(&rows[2]),
        vec!["over", "carol", "fsB", "0G", "deleted soon", "/tank/b/carol/over"]
    );
    assert!(rows[2][4].bold);

    let all = vec![
        info(0, "m1"),
        info(0, "m2"),
        info(0, "m3"),
        info(0, "m4"),
    ];
    let columns = Some(vec![WorkspacesColumns::Expiry, WorkspacesColumns::Name]);
    let rows = list(
        &store(),
        &configured(),
        &all,
        &Some(vec!["alice".to_string()]),
        &None,
        &columns,
        NOW,
    );
    assert_eq!(rows.len(), 2);
    assert_eq!(texts(&rows[0]), vec!["expires in 45d", "far"]);
    assert_eq!(texts(&rows[1]), vec!["deleted in  1d", "late"]);
    let rows = list(
        &store(),
        &configured(),
        &all,
        &Some(vec!["alice".to_string()]),
        &Some(vec!["fsB".to_string()]),
        &Some(vec![]),
        NOW,
    );
    assert_eq!(rows.len(), 1);
    assert_eq!(rows[0].len(), 0);
}

#[test]
fn table_of_filesystems() {
    let usages = vec![
        Usage { used: 10 * GIB, available: 30 * GIB + 1 },
        Usage { used: u64::MAX, available: u64::MAX },
    ];
    let rows = filesystems(&configured(), &usages, &None);
    assert_eq!(rows.len(), 2);
    assert_eq!(texts(&rows[0]), vec!["fsA", "10G", "30G", "40G", "90d", "14d"]);
    assert!(rows[0].iter().all(|c| !c.dim && c.color.is_none() && !c.bold));
    assert_eq!(
        rows[0].iter().map(|c| c.right).collect::<Vec<_>>(),
        vec![false, true, true, true, true, true]
    );
    assert_eq!(
        texts(&rows[1]),
        vec!["fsB", "17179869183G", "17179869183G", "34359738367G", "disabled", "2d"]
    );
    assert!(rows[1].iter().all(|c| c.dim));
    assert!(!rows[1][4].right);
    let rows = filesystems(
        &configured(),
        &usages,
        &Some(vec![FilesystemsColumns::Retention, FilesystemsColumns::Name]),
    );
    assert_eq!(texts(&rows[0]), vec!["14d", "fsA"]);
    assert_eq!(texts(&rows[1]), vec!["2d", "fsB"]);
    assert_eq!(filesystems(&Vec::new(), &Vec::new(), &None).len(), 0);
}

#[test]
fn zfs_command_lines() {
    assert_eq!(create_arguments("tank/a/u/n"), vec!["create", "-p", "tank/a/u/n"]);
    assert_eq!(destroy_arguments("tank/a/u/n"), vec!["destroy", "-r", "tank/a/u/n"]);
    assert_eq!(rename_arguments("tank/a", "tank/b"), vec!["rename", "tank/a", "tank/b"]);
    assert_eq!(
        get_property_arguments("tank/a", "mountpoint"),
        vec!["get", "-Hp", "-o", "value", "mountpoint", "tank/a"]
    );
    assert_eq!(
        set_property_arguments("tank/a", "readonly", readonly_value(true)),
        vec!["set", "readonly=on", "tank/a"]
    );
    assert_eq!(
        set_property_arguments("tank/a", "readonly", readonly_value(false)),
        vec!["set", "readonly=off", "tank/a"]
    );
    assert_eq!(
        snapshot_arguments("tank/a", "label"),
        vec!["snapshot", "-r", "tank/a@label"]
    );
    assert_eq!(
        snapshot_arguments_at("tank/a", 1_700_000_000),
        Some(vec![
            "snapshot".to_string(),
            "-r".to_string(),
            "tank/a@2023-11-14T22:13:20Z".to_string()
        ])
    );
    assert_eq!(snapshot_arguments_at("tank/a", i64::MAX), None);
}

#[test]
fn zfs_answers() {
    assert_eq!(property_line("/tank/a\n"), "/tank/a");
    assert_eq!(property_line("x"), "");
    assert_eq!(property_line(""), "");
    assert_eq!(property_size("1024\n"), Some(1024));
    assert_eq!(property_size("18446744073709551615\n"), Some(u64::MAX));
    assert_eq!(property_size("18446744073709551616\n"), None);
    assert_eq!(property_size("1024"), Some(102));
    assert_eq!(property_size("\n"), None);
    assert_eq!(property_size(""), None);
    assert_eq!(property_size("-\n"), None);
    assert_eq!(property_size("12a\n"), None);
    assert!(status_result(true, "exit status: 0".to_string()).is_ok());
    let failed = status_result(false, "exit status: 1".to_string()).unwrap_err();
    assert_eq!(format!("{:?}", failed), "ZfsStatus(\"exit status: 1\")");
    assert_eq!(failed.message(), "ZFS status error: exit status: 1");
    assert_eq!(Error::Command("no such file".to_string()).message(), "Command error: no such file");
    assert_eq!(
        Error::PropertyParse("invalid digit".to_string()).message(),
        "ZFS property parsing error: invalid digit"
    );
}
