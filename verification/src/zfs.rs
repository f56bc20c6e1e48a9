//! The command lines by which volumes are managed through `zfs`, and what
//! its answers mean. Running the command is left to the caller.

use vstd::prelude::*;
use vstd::string::{StrSliceExecFns, StringExecFns};
use crate::text::{owned, parse_natural, read_natural, texts};
use crate::time::{rfc3339, rfc3339_text};

verus! {

/// What went wrong with a `zfs` invocation. Each variant carries the
/// caller's description of the cause.
#[derive(Debug)]
pub enum Error {
    /// The command could not be run.
    Command(String),
    /// The command ran and returned a status other than success.
    ZfsStatus(String),
    /// The command's output could not be understood.
    PropertyParse(String),
}

/// The message of an error: what kind it is, then its cause.
pub open spec fn error_text(error: &Error) -> Seq<char> {
    match error {
        Error::Command(cause) => "Command error: "@ + cause@,
        Error::ZfsStatus(cause) => "ZFS status error: "@ + cause@,
        Error::PropertyParse(cause) => "ZFS property parsing error: "@ + cause@,
    }
}

impl Error {
    /// The message of the error.
    pub fn message(&self) -> (text: String)
        ensures
            text@ == error_text(self),
    {
        match self {
            Error::Command(cause) => {
                let mut text = String::from_str("Command error: ");
                text.append(cause.as_str());
                text
            },
            Error::ZfsStatus(cause) => {
                let mut text = String::from_str("ZFS status error: ");
                text.append(cause.as_str());
                text
            },
            Error::PropertyParse(cause) => {
                let mut text = String::from_str("ZFS property parsing error: ");
                text.append(cause.as_str());
                text
            },
        }
    }
}

/// What the status of a finished command means: success, or the error that
/// carries the status.
pub fn status_result(success: bool, status: String) -> (result: Result<(), Error>)
    ensures
        success ==> result is Ok,
        !success ==> (result matches Err(Error::ZfsStatus(cause)) && cause@ == status@),
{
    if success {
        Ok(())
    } else {
        Err(Error::ZfsStatus(status))
    }
}

/// The arguments that create a volume, with the volumes above it.
pub fn create_arguments(volume: &str) -> (arguments: Vec<String>)
    ensures
        texts(arguments@) == seq!["create"@, "-p"@, volume@],
{
    let mut arguments: Vec<String> = Vec::new();
    arguments.push(owned("create"));
    arguments.push(owned("-p"));
    arguments.push(owned(volume));
    assert(texts(arguments@) =~= seq!["create"@, "-p"@, volume@]);
    arguments
}

/// The arguments that destroy a volume, with all that lies below it.
pub fn destroy_arguments(volume: &str) -> (arguments: Vec<String>)
    ensures
        texts(arguments@) == seq!["destroy"@, "-r"@, volume@],
{
    let mut arguments: Vec<String> = Vec::new();
    arguments.push(owned("destroy"));
    arguments.push(owned("-r"));
    arguments.push(owned(volume));
    assert(texts(arguments@) =~= seq!["destroy"@, "-r"@, volume@]);
    arguments
}

/// The arguments that rename a volume.
pub fn rename_arguments(src_volume: &str, dest_volume: &str) -> (arguments: Vec<String>)
    ensures
        texts(arguments@) == seq!["rename"@, src_volume@, dest_volume@],
{
    let mut arguments: Vec<String> = Vec::new();
    arguments.push(owned("rename"));
    arguments.push(owned(src_volume));
    arguments.push(owned(dest_volume));
    assert(texts(arguments@) =~= seq!["rename"@, src_volume@, dest_volume@]);
    arguments
}

/// The arguments that ask for a property of a volume, in a form that is
/// easy to read back: the bare value, with numbers in full.
pub fn get_property_arguments(volume: &str, property: &str) -> (arguments: Vec<String>)
    ensures
        texts(arguments@) == seq!["get"@, "-Hp"@, "-o"@, "value"@, property@, volume@],
{
    let mut arguments: Vec<String> = Vec::new();
    arguments.push(owned("get"));
    arguments.push(owned("-Hp"));
    arguments.push(owned("-o"));
    arguments.push(owned("value"));
    arguments.push(owned(property));
    arguments.push(owned(volume));
    assert(texts(arguments@) =~= seq!["get"@, "-Hp"@, "-o"@, "value"@, property@, volume@]);
    arguments
}

/// The arguments that set a property of a volume.
pub fn set_property_arguments(volume: &str, property: &str, value: &str) -> (arguments: Vec<
    String,
>)
    ensures
        texts(arguments@) == seq!["set"@, property@ + "="@ + value@, volume@],
{
    let mut assignment = String::from_str(property);
    assignment.append("=");
    assignment.append(value);
    let mut arguments: Vec<String> = Vec::new();
    arguments.push(owned("set"));
    arguments.push(assignment);
    arguments.push(owned(volume));
    assert(texts(arguments@) =~= seq!["set"@, property@ + "="@ + value@, volume@]);
    arguments
}

/// The value of the `readonly` property that marks a volume read-only, or
/// writable.
pub fn readonly_value(read_only: bool) -> (value: &'static str)
    ensures
        value@ == if read_only {
            "on"@
        } else {
            "off"@
        },
{
    if read_only {
        "on"
    } else {
        "off"
    }
}

/// The name of the snapshot of `volume` that is labelled `label`.
pub open spec fn snapshot_name(volume: Seq<char>, label: Seq<char>) -> Seq<char> {
    volume + "@"@ + label
}

/// The arguments that take a snapshot of a volume and of all that lies
/// below it, under the label `label`.
pub fn snapshot_arguments(volume: &str, label: &str) -> (arguments: Vec<String>)
    ensures
        texts(arguments@) == seq!["snapshot"@, "-r"@, snapshot_name(volume@, label@)],
{
    let mut name = String::from_str(volume);
    name.append("@");
    name.append(label);
    let mut arguments: Vec<String> = Vec::new();
    arguments.push(owned("snapshot"));
    arguments.push(owned("-r"));
    arguments.push(name);
    assert(texts(arguments@) =~= seq!["snapshot"@, "-r"@, snapshot_name(volume@, label@)]);
    arguments
}

/// The arguments that take a snapshot of a volume, labelled with the
/// instant `now` as an RFC 3339 date and time; `None` for an instant
/// outside the range of the calendar.
pub fn snapshot_arguments_at(volume: &str, now: i64) -> (arguments: Option<Vec<String>>)
    ensures
        match rfc3339_text(now) {
            Some(label) => arguments is Some && texts(arguments->0@) == seq![
                "snapshot"@,
                "-r"@,
                snapshot_name(volume@, label),
            ],
            None => arguments is None,
        },
{
    match rfc3339(now) {
        Some(label) => Some(snapshot_arguments(volume, label.as_str())),
        None => None,
    }
}

/// The line that `zfs get` has printed, without the character that ends
/// it.
pub fn property_line(output: &str) -> (line: &str)
    ensures
        line@ == if output@.len() == 0 {
            output@
        } else {
            output@.drop_last()
        },
{
    let len = output.unicode_len();
    if len == 0 {
        output
    } else {
        output.substring_char(0, len - 1)
    }
}

/// The number that `zfs get` has printed for a property that is a size.
pub fn property_size(output: &str) -> (size: Option<u64>)
    ensures
        match size {
            Some(n) => parse_natural(
                if output@.len() == 0 {
                    output@
                } else {
                    output@.drop_last()
                },
                u64::MAX as nat,
            ) == Some(n as nat),
            None => parse_natural(
                if output@.len() == 0 {
                    output@
                } else {
                    output@.drop_last()
                },
                u64::MAX as nat,
            ) is None,
        },
{
    let len = output.unicode_len();
    let end = if len == 0 {
        0
    } else {
        len - 1
    };
    assert(output@.subrange(0, end as int) =~= if output@.len() == 0 {
        output@
    } else {
        output@.drop_last()
    });
    read_natural(output, 0, end, u64::MAX)
}

} // verus!
