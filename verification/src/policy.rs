//! Who may do what: the caller's identity, the policy of a filesystem, and
//! the checks that every lifecycle operation makes before it changes
//! anything.

use vstd::prelude::*;
use crate::text::{owned, same_text, text_of};

verus! {

/// The policy of a filesystem in which workspaces can be created.
#[derive(Debug)]
pub struct Filesystem {
    /// The volume that is the root of the workspaces' volumes.
    pub root: String,
    /// The longest span for which a workspace may be created or extended.
    pub max_duration: i64,
    /// The span after expiry after which an expired workspace is removed.
    pub expired_retention: i64,
    /// The spans before expiry at which the owner is reminded, ascending.
    /// A negative span is a point after expiry, before the removal.
    pub expiry_notifications_on_days: Vec<i64>,
    /// Whether the filesystem is snapshotted on every maintenance run.
    pub snapshot: bool,
    /// Whether workspaces can no longer be created or extended.
    pub disabled: bool,
}

/// Who asks for an operation.
#[derive(Debug)]
pub struct Caller {
    /// The caller's user name.
    pub username: String,
    /// Whether the caller is the superuser.
    pub privileged: bool,
}

/// Why an operation was refused.
#[derive(Clone, Copy, Debug, PartialEq, Eq, Structural)]
pub enum Error {
    /// The caller is neither the workspace's owner nor privileged.
    InsufficientPrivileges,
    /// The filesystem is disabled and the caller is not privileged.
    FsDisabled,
    /// The duration asked for is longer than the filesystem allows and the
    /// caller is not privileged.
    TooHighDuration,
    /// The store holds no such workspace.
    UnknownWorkspace,
    /// The store holds a workspace of that name already.
    WorkspaceExists,
    /// No filesystem was named and the configuration has no default.
    NoFilesystemSpecified,
    /// The filesystem that was named is not configured.
    UnknownFilesystem,
}

/// Whether `caller` may act on the workspaces of `user`: the owner may, and
/// so may a privileged caller.
pub open spec fn permitted(caller: &Caller, user: Seq<char>) -> bool {
    caller.username@ == user || caller.privileged
}

/// The first of the checks that refuses the operation, in the order in
/// which they are made: authorization, then the disabled flag, then the
/// longest duration. `duration` is `None` for an operation that asks for no
/// duration. A privileged caller passes all of them.
pub open spec fn refusal(
    caller: &Caller,
    filesystem: &Filesystem,
    user: Seq<char>,
    duration: Option<i64>,
) -> Option<Error> {
    if !permitted(caller, user) {
        Some(Error::InsufficientPrivileges)
    } else if filesystem.disabled && !caller.privileged {
        Some(Error::FsDisabled)
    } else if duration is Some && duration->0 > filesystem.max_duration && !caller.privileged {
        Some(Error::TooHighDuration)
    } else {
        None
    }
}

/// Checks that `caller` may act on the workspaces of `user`.
pub fn authorize(caller: &Caller, user: &str) -> (result: Result<(), Error>)
    ensures
        result is Ok <==> permitted(caller, user@),
        result is Err ==> result == Err::<(), Error>(Error::InsufficientPrivileges),
{
    if caller.privileged || same_text(caller.username.as_str(), user) {
        Ok(())
    } else {
        Err(Error::InsufficientPrivileges)
    }
}

/// Makes the checks that come before a change: authorization and, for a
/// caller who is not privileged, the filesystem's policy.
pub fn check(caller: &Caller, filesystem: &Filesystem, user: &str, duration: Option<i64>) -> (result:
    Result<(), Error>)
    ensures
        match result {
            Ok(()) => refusal(caller, filesystem, user@, duration) is None,
            Err(e) => refusal(caller, filesystem, user@, duration) == Some(e),
        },
{
    match authorize(caller, user) {
        Err(e) => { return Err(e); },
        Ok(()) => {},
    }
    if filesystem.disabled && !caller.privileged {
        return Err(Error::FsDisabled);
    }
    match duration {
        Some(d) => {
            if d > filesystem.max_duration && !caller.privileged {
                return Err(Error::TooHighDuration);
            }
        },
        None => {},
    }
    Ok(())
}

/// The number by which a refusal is reported to the calling process.
pub open spec fn exit_code_of(error: Error) -> int {
    match error {
        Error::InsufficientPrivileges => 1,
        Error::FsDisabled => 2,
        Error::TooHighDuration => 3,
        Error::UnknownWorkspace => 4,
        Error::WorkspaceExists => 5,
        Error::NoFilesystemSpecified => 6,
        Error::UnknownFilesystem => 4,
    }
}

impl Error {
    /// The exit code of the process for this refusal. An unknown
    /// filesystem is reported with the code of an unknown workspace.
    pub fn exit_code(&self) -> (code: i32)
        ensures
            code == exit_code_of(*self),
    {
        match self {
            Error::InsufficientPrivileges => 1,
            Error::FsDisabled => 2,
            Error::TooHighDuration => 3,
            Error::UnknownWorkspace => 4,
            Error::WorkspaceExists => 5,
            Error::NoFilesystemSpecified => 6,
            Error::UnknownFilesystem => 4,
        }
    }
}

/// A privileged caller is refused by none of the checks.
pub proof fn lemma_privileged_passes(
    caller: &Caller,
    filesystem: &Filesystem,
    user: Seq<char>,
    duration: Option<i64>,
)
    requires
        caller.privileged,
    ensures
        refusal(caller, filesystem, user, duration) is None,
{
}

/// A filesystem of the configuration, under its name.
#[derive(Debug)]
pub struct NamedFilesystem {
    pub name: String,
    pub filesystem: Filesystem,
}

/// The position, at or after `start`, of the first filesystem named `name`;
/// the number of filesystems when there is none.
pub open spec fn filesystem_position(
    filesystems: Seq<NamedFilesystem>,
    name: Seq<char>,
    start: int,
) -> int
    decreases filesystems.len() - start,
{
    if start < 0 || start >= filesystems.len() {
        filesystems.len() as int
    } else if filesystems[start].name@ == name {
        start
    } else {
        filesystem_position(filesystems, name, start + 1)
    }
}

/// Whether a filesystem named `name` is configured.
pub open spec fn is_configured(filesystems: Seq<NamedFilesystem>, name: Seq<char>) -> bool {
    filesystem_position(filesystems, name, 0) < filesystems.len()
}

/// Where `filesystem_position` points, a filesystem of that name stands,
/// and none stands between `start` and that place.
pub proof fn lemma_filesystem_position(
    filesystems: Seq<NamedFilesystem>,
    name: Seq<char>,
    start: int,
)
    requires
        0 <= start <= filesystems.len(),
    ensures
        start <= filesystem_position(filesystems, name, start) <= filesystems.len(),
        filesystem_position(filesystems, name, start) < filesystems.len()
            ==> filesystems[filesystem_position(filesystems, name, start)].name@ == name,
        forall|j: int|
            start <= j < filesystem_position(filesystems, name, start) ==> (
            #[trigger] filesystems[j]).name@ != name,
    decreases filesystems.len() - start,
{
    if start < filesystems.len() && filesystems[start].name@ != name {
        lemma_filesystem_position(filesystems, name, start + 1);
    }
}

/// Looks up the filesystem named `name`.
pub fn lookup(filesystems: &Vec<NamedFilesystem>, name: &str) -> (found: Option<usize>)
    ensures
        match found {
            Some(i) => i == filesystem_position(filesystems@, name@, 0) && i < filesystems.len()
                && filesystems[i as int].name@ == name@,
            None => !is_configured(filesystems@, name@),
        },
{
    proof {
        lemma_filesystem_position(filesystems@, name@, 0);
    }
    let mut i: usize = 0;
    while i < filesystems.len()
        invariant
            i <= filesystems.len(),
            filesystem_position(filesystems@, name@, 0) == filesystem_position(
                filesystems@,
                name@,
                i as int,
            ),
        decreases filesystems.len() - i,
    {
        if same_text(filesystems[i].name.as_str(), name) {
            return Some(i);
        }
        i += 1;
    }
    None
}

/// The name that the choice of a filesystem falls on, before it is looked
/// up: the one asked for; else the configured default; else the only
/// filesystem there is.
pub open spec fn chosen_name(
    requested: Option<Seq<char>>,
    filesystems: Seq<NamedFilesystem>,
    default: Option<Seq<char>>,
) -> Option<Seq<char>> {
    if requested is Some {
        requested
    } else if default is Some {
        default
    } else if filesystems.len() == 1 {
        Some(filesystems[0].name@)
    } else {
        None
    }
}

/// Chooses the filesystem of an operation: the one asked for, else the
/// configured default, else the only filesystem there is. The choice has to
/// be a configured filesystem.
pub fn filesystem_or_default(
    filesystem_name: &Option<String>,
    filesystems: &Vec<NamedFilesystem>,
    default: &Option<String>,
) -> (result: Result<String, Error>)
    ensures
        match chosen_name(text_of(filesystem_name), filesystems@, text_of(default)) {
            None => result == Err::<String, Error>(Error::NoFilesystemSpecified),
            Some(name) => if is_configured(filesystems@, name) {
                result is Ok && result->Ok_0@ == name
            } else {
                result == Err::<String, Error>(Error::UnknownFilesystem)
            },
        },
{
    let name: String = match filesystem_name {
        Some(name) => owned(name.as_str()),
        None => match default {
            Some(name) => owned(name.as_str()),
            None => {
                if filesystems.len() == 1 {
                    owned(filesystems[0].name.as_str())
                } else {
                    return Err(Error::NoFilesystemSpecified);
                }
            },
        },
    };
    match lookup(filesystems, name.as_str()) {
        Some(_) => Ok(name),
        None => Err(Error::UnknownFilesystem),
    }
}

} // verus!
