use workspaces::config::{
    default_db_path, filesystem, from_days_list, sorted, CONFIG_PATH, DEFAULT_DB_PATH,
    LEGACY_DB_PATH,
};
use workspaces::db_schema::{
    backup_file_name, backup_file_name_at, failure, migration, upgrade, Migration, SchemaError,
    UpgradeStep, NEWEST_DB_VERSION,
};

#[test]
fn upgrade_at_newest_version_does_nothing() {
    assert_eq!(NEWEST_DB_VERSION, 2);
    assert_eq!(upgrade(NEWEST_DB_VERSION), Ok(vec![]));
}

#[test]
fn upgrade_backs_up_then_migrates_in_order() {
    assert_eq!(
        upgrade(0),
        Ok(vec![
            UpgradeStep::Backup,
            UpgradeStep::Migrate { index: 0 },
            UpgradeStep::Migrate { index: 1 },
        ])
    );
    assert_eq!(upgrade(1), Ok(vec![UpgradeStep::Backup, UpgradeStep::Migrate { index: 1 }]));
}

#[test]
fn upgrade_refuses_newer_store() {
    assert_eq!(upgrade(3), Err(SchemaError::NewerVersion { found: 3 }));
    assert_eq!(upgrade(usize::MAX), Err(SchemaError::NewerVersion { found: usize::MAX }));
}

#[test]
fn a_failed_step_names_its_error() {
    assert_eq!(failure(UpgradeStep::Backup), SchemaError::BackupFailed);
    assert_eq!(
        failure(UpgradeStep::Migrate { index: 1 }),
        SchemaError::MigrationFailed { index: 1 }
    );
}

#[test]
fn known_migrations() {
    assert_eq!(migration(0), Some(Migration::CreateWorkspaces));
    assert_eq!(migration(1), Some(Migration::AddIdentityAndNotifications));
    assert_eq!(migration(2), None);
}

#[test]
fn backup_names() {
    assert_eq!(backup_file_name("workspaces", "20231114T221320"), "workspaces-20231114T221320.db.bak");
    assert_eq!(
        backup_file_name_at("workspaces", 1_700_000_000),
        Some("workspaces-20231114T221320.db.bak".to_string())
    );
    assert_eq!(backup_file_name_at("db", 0), Some("db-19700101T000000.db.bak".to_string()));
    assert_eq!(backup_file_name_at("db", i64::MAX), None);
}

#[test]
fn database_paths() {
    assert_eq!(CONFIG_PATH, "/etc/workspaces/workspaces.toml");
    assert_eq!(default_db_path(true, true), (DEFAULT_DB_PATH, false));
    assert_eq!(default_db_path(true, false), (DEFAULT_DB_PATH, false));
    assert_eq!(default_db_path(false, true), (LEGACY_DB_PATH, true));
    assert_eq!(default_db_path(false, false), ("/usr/local/lib/workspaces/workspaces.db", false));
    assert_eq!(LEGACY_DB_PATH, "/usr/local/share/workspaces/workspaces.db");
}

#[test]
fn days_are_sorted_and_made_spans() {
    assert_eq!(sorted(&vec![7, -2, 1, 7, 0]), vec![-2, 0, 1, 7, 7]);
    assert_eq!(sorted(&vec![]), Vec::<i64>::new());
    assert_eq!(
        from_days_list(&vec![7, 1, -2]),
        Some(vec![-2 * 86_400, 86_400, 7 * 86_400])
    );
    assert_eq!(from_days_list(&vec![]), Some(vec![]));
    assert_eq!(from_days_list(&vec![1, i64::MAX]), None);
}

#[test]
fn policy_from_configuration() {
    let policy = filesystem("tank/ws".to_string(), 90, 14, &vec![7, 1], true, false).unwrap();
    assert_eq!(policy.root, "tank/ws");
    assert_eq!(policy.max_duration, 90 * 86_400);
    assert_eq!(policy.expired_retention, 14 * 86_400);
    assert_eq!(policy.expiry_notifications_on_days, vec![86_400, 7 * 86_400]);
    assert!(policy.snapshot);
    assert!(!policy.disabled);
    assert!(filesystem("r".to_string(), i64::MAX, 14, &vec![], false, false).is_none());
    assert!(filesystem("r".to_string(), 1, i64::MIN, &vec![], false, false).is_none());
    assert!(filesystem("r".to_string(), 1, 1, &vec![i64::MAX / 2], false, false).is_none());
}
