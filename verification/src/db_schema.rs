//! The versions of the store's schema and the way from one to the newest.

use vstd::prelude::*;
use vstd::string::StringExecFns;
use crate::text::text_of;
use crate::time::{formatted, formatted_text};

verus! {

/// The newest schema version. A store at version `v` has the migrations
/// `0` to `v - 1` applied.
pub const NEWEST_DB_VERSION: usize = 2;

/// One step of an upgrade. The caller carries the steps out in their
/// order and gives the upgrade up at the first that fails; the migrations
/// carried out before stay applied.
#[derive(Clone, Copy, Debug, PartialEq, Eq, Structural)]
pub enum UpgradeStep {
    /// Copy the whole store to a new place that is named by the time of
    /// the upgrade.
    Backup,
    /// Apply migration `index` in a transaction of its own, which also
    /// records `index + 1` as the store's version.
    Migrate { index: usize },
}

/// Why an upgrade cannot be made, or was given up.
#[derive(Clone, Copy, Debug, PartialEq, Eq, Structural)]
pub enum SchemaError {
    /// The store is of a version that is newer than the newest known.
    NewerVersion { found: usize },
    /// The backup could not be made. No migration was applied.
    BackupFailed,
    /// Migration `index` failed. The migrations before it stay applied, and
    /// the store is at version `index`.
    MigrationFailed { index: usize },
}

/// What a migration brings.
#[derive(Clone, Copy, Debug, PartialEq, Eq, Structural)]
pub enum Migration {
    /// The workspace records, with an implicit identity.
    CreateWorkspaces,
    /// An explicit stable identity for the workspace records, the
    /// notification log with entries that go when their workspace goes,
    /// and the enforcement of references.
    AddIdentityAndNotifications,
}

/// The steps that bring a store of version `version` to the newest
/// version: none for a store that is there already; else a backup, then
/// the migrations from `version` on, in ascending order.
pub open spec fn upgrade_steps(version: int) -> Seq<UpgradeStep> {
    if version >= NEWEST_DB_VERSION {
        Seq::empty()
    } else {
        Seq::new(
            (1 + NEWEST_DB_VERSION - version) as nat,
            |i: int|
                if i == 0 {
                    UpgradeStep::Backup
                } else {
                    UpgradeStep::Migrate { index: (version + i - 1) as usize }
                },
        )
    }
}

/// The version of the store after a step was carried out.
pub open spec fn version_after(version: int, step: UpgradeStep) -> int {
    match step {
        UpgradeStep::Backup => version,
        UpgradeStep::Migrate { index } => index + 1,
    }
}

/// The version of the store after the first `done` of `steps` were carried
/// out.
pub open spec fn version_after_steps(version: int, steps: Seq<UpgradeStep>, done: int) -> int
    decreases done,
{
    if done <= 0 || done > steps.len() {
        version
    } else {
        version_after(version_after_steps(version, steps, done - 1), steps[done - 1])
    }
}

/// Plans the upgrade of a store of version `version`.
pub fn upgrade(version: usize) -> (result: Result<Vec<UpgradeStep>, SchemaError>)
    ensures
        match result {
            Ok(steps) => version <= NEWEST_DB_VERSION && steps@ == upgrade_steps(version as int),
            Err(e) => version > NEWEST_DB_VERSION && e == (SchemaError::NewerVersion {
                found: version,
            }),
        },
{
    if version > NEWEST_DB_VERSION {
        return Err(SchemaError::NewerVersion { found: version });
    }
    let mut steps: Vec<UpgradeStep> = Vec::new();
    if version == NEWEST_DB_VERSION {
        return Ok(steps);
    }
    steps.push(UpgradeStep::Backup);
    let mut index: usize = version;
    while index < NEWEST_DB_VERSION
        invariant
            version <= index <= NEWEST_DB_VERSION,
            steps@.len() == 1 + index - version,
            steps@[0] == UpgradeStep::Backup,
            forall|i: int|
                1 <= i < steps@.len() ==> #[trigger] steps@[i] == (UpgradeStep::Migrate {
                    index: (version + i - 1) as usize,
                }),
        decreases NEWEST_DB_VERSION - index,
    {
        steps.push(UpgradeStep::Migrate { index });
        index += 1;
    }
    assert(steps@ =~= upgrade_steps(version as int));
    Ok(steps)
}

/// The error by which an upgrade is given up when `step` fails.
pub fn failure(step: UpgradeStep) -> (error: SchemaError)
    ensures
        error == match step {
            UpgradeStep::Backup => SchemaError::BackupFailed,
            UpgradeStep::Migrate { index } => SchemaError::MigrationFailed { index },
        },
{
    match step {
        UpgradeStep::Backup => SchemaError::BackupFailed,
        UpgradeStep::Migrate { index } => SchemaError::MigrationFailed { index },
    }
}

/// What migration `index` brings, for the migrations that there are.
pub fn migration(index: usize) -> (found: Option<Migration>)
    ensures
        found is Some <==> index < NEWEST_DB_VERSION,
        index == 0 ==> found == Some(Migration::CreateWorkspaces),
        index == 1 ==> found == Some(Migration::AddIdentityAndNotifications),
{
    if index == 0 {
        Some(Migration::CreateWorkspaces)
    } else if index == 1 {
        Some(Migration::AddIdentityAndNotifications)
    } else {
        None
    }
}

/// The upgrade of a store that is at the newest version already has no
/// step: nothing is backed up and nothing is written.
pub proof fn lemma_upgrade_of_newest_is_empty()
    ensures
        upgrade_steps(NEWEST_DB_VERSION as int) == Seq::<UpgradeStep>::empty(),
{
}

/// An upgrade never begins without a backup, applies the migrations in
/// strictly ascending order without a gap, and each of them raises the
/// version by one.
pub proof fn lemma_upgrade_steps_order(version: int)
    requires
        0 <= version < NEWEST_DB_VERSION,
    ensures
        upgrade_steps(version).len() == 1 + NEWEST_DB_VERSION - version,
        upgrade_steps(version)[0] == UpgradeStep::Backup,
        forall|i: int|
            1 <= i < upgrade_steps(version).len() ==> #[trigger] upgrade_steps(version)[i] == (
            UpgradeStep::Migrate { index: (version + i - 1) as usize }),
        forall|done: int|
            1 <= done <= upgrade_steps(version).len() ==> #[trigger] version_after_steps(
                version,
                upgrade_steps(version),
                done,
            ) == version + done - 1,
{
    let steps = upgrade_steps(version);
    assert(version_after_steps(version, steps, 0) == version);
    assert(version_after_steps(version, steps, 1) == version);
    assert forall|done: int| 1 <= done <= steps.len() implies #[trigger] version_after_steps(
        version,
        steps,
        done,
    ) == version + done - 1 by {
        lemma_version_after_steps(version, done);
    }
}

/// The version after the first `done` steps of an upgrade.
proof fn lemma_version_after_steps(version: int, done: int)
    requires
        0 <= version < NEWEST_DB_VERSION,
        1 <= done <= upgrade_steps(version).len(),
    ensures
        version_after_steps(version, upgrade_steps(version), done) == version + done - 1,
    decreases done,
{
    let steps = upgrade_steps(version);
    if done == 1 {
        assert(version_after_steps(version, steps, 0) == version);
    } else {
        lemma_version_after_steps(version, done - 1);
    }
}

/// When a step of an upgrade fails, the store is at the version that the
/// steps before it have reached: the version it had, if the backup or the
/// first migration failed, and else the index of the migration that failed.
pub proof fn lemma_failed_step_keeps_earlier(version: int, failed: int)
    requires
        0 <= version < NEWEST_DB_VERSION,
        0 <= failed < upgrade_steps(version).len(),
    ensures
        failed == 0 ==> upgrade_steps(version)[failed] == UpgradeStep::Backup
            && version_after_steps(version, upgrade_steps(version), failed) == version,
        failed >= 1 ==> upgrade_steps(version)[failed] == (UpgradeStep::Migrate {
            index: (version + failed - 1) as usize,
        }) && version_after_steps(version, upgrade_steps(version), failed) == version + failed
            - 1,
{
    lemma_upgrade_steps_order(version);
    if failed >= 1 {
        lemma_version_after_steps(version, failed);
    }
}

/// An upgrade that was carried out to its end leaves the store at the
/// newest version, and the upgrade of such a store has no step.
pub proof fn lemma_upgrade_is_idempotent(version: int)
    requires
        0 <= version <= NEWEST_DB_VERSION,
    ensures
        ({
            let steps = upgrade_steps(version);
            let reached = version_after_steps(version, steps, steps.len() as int);
            reached == NEWEST_DB_VERSION && upgrade_steps(reached).len() == 0
        }),
{
    if version < NEWEST_DB_VERSION {
        lemma_upgrade_steps_order(version);
        lemma_version_after_steps(version, upgrade_steps(version).len() as int);
    }
}

/// The name of the file that holds the backup of the store file whose name
/// without extension is `stem`, made at the time that `stamp` spells.
pub open spec fn backup_name(stem: Seq<char>, stamp: Seq<char>) -> Seq<char> {
    stem + "-"@ + stamp + ".db.bak"@
}

/// Builds the name of a backup file from the stem of the store's file name
/// and a time stamp.
pub fn backup_file_name(stem: &str, stamp: &str) -> (name: String)
    ensures
        name@ == backup_name(stem@, stamp@),
{
    let mut name = String::from_str(stem);
    name.append("-");
    name.append(stamp);
    name.append(".db.bak");
    name
}

/// Builds the name of the backup file for an upgrade at the instant `now`,
/// which is spelled as year, month, day, `T`, hour, minute and second in
/// UTC; `None` for an instant outside the range of the calendar.
pub fn backup_file_name_at(stem: &str, now: i64) -> (name: Option<String>)
    ensures
        text_of(&name) == match formatted_text(now, "%Y%m%dT%H%M%S"@) {
            Some(stamp) => Some(backup_name(stem@, stamp)),
            None => None,
        },
{
    match formatted(now, "%Y%m%dT%H%M%S") {
        Some(stamp) => Some(backup_file_name(stem, stamp.as_str())),
        None => None,
    }
}

} // verus!
