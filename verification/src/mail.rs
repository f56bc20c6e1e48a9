//! Mail: how the relay is reached, who sends, and what the messages say.
//! Sending is left to the caller.

use vstd::prelude::*;
use vstd::string::StringExecFns;
use crate::maintain::Outcome;
use crate::relay::{host_and_port, split_host_port};
use crate::schedule::Notice;
use crate::text::{append_decimal, decimal_text, owned, text_of};
use crate::time::{display, display_text};

verus! {

/// How the connection to the relay is secured.
#[derive(Clone, Copy, Debug, PartialEq, Eq, Structural)]
pub enum TlsMode {
    /// The connection begins in the clear and is upgraded before anything
    /// is sent.
    Starttls,
    /// The connection is encrypted from the start.
    Wrapper,
}

/// How the client proves its identity to the relay.
#[derive(Clone, Copy, Debug, PartialEq, Eq, Structural)]
pub enum AuthMethod {
    Plain,
    Login,
}

/// The mail settings of the configuration.
#[derive(Debug)]
pub struct SmtpConfig {
    /// The relay: `host`, `host:port` or `[host]:port`.
    pub relay: String,
    pub username: String,
    pub password: String,
    /// The sender of the notifications. Without it the user name is the
    /// sender, if it is a mail address.
    pub from: Option<String>,
    /// How the connection is secured; STARTTLS where nothing is set.
    pub tls: Option<TlsMode>,
    /// The authentication mechanism, where the default is not wanted.
    pub auth: Option<AuthMethod>,
}

/// How the relay is reached.
#[derive(Debug)]
pub struct Transport {
    pub host: String,
    /// The port, where it is not the transport's default.
    pub port: Option<u16>,
    pub tls: TlsMode,
    pub auth: Option<AuthMethod>,
}

/// The port that a connection uses: the one that the relay address names; else
/// 465 for a connection that is encrypted from the start; else the
/// transport's default.
pub open spec fn transport_port(tls: TlsMode, port: Option<u16>) -> Option<u16> {
    match port {
        Some(p) => Some(p),
        None => match tls {
            TlsMode::Wrapper => Some(465u16),
            TlsMode::Starttls => None,
        },
    }
}

/// The mode that secures the connection: the configured one, STARTTLS
/// where none is configured.
pub open spec fn effective_tls(tls: Option<TlsMode>) -> TlsMode {
    match tls {
        Some(mode) => mode,
        None => TlsMode::Starttls,
    }
}

/// Works out how the relay of the configuration is reached.
pub fn transport(smtp_config: &SmtpConfig) -> (transport: Transport)
    ensures
        transport.host@ == host_and_port(smtp_config.relay@).0,
        transport.tls == effective_tls(smtp_config.tls),
        transport.port == transport_port(
            effective_tls(smtp_config.tls),
            host_and_port(smtp_config.relay@).1,
        ),
        transport.auth == smtp_config.auth,
{
    let (relay_host, relay_port) = split_host_port(smtp_config.relay.as_str());
    let tls = match smtp_config.tls {
        Some(mode) => mode,
        None => TlsMode::Starttls,
    };
    let port = match relay_port {
        Some(p) => Some(p),
        None => match tls {
            TlsMode::Wrapper => Some(465u16),
            TlsMode::Starttls => None,
        },
    };
    Transport { host: owned(relay_host), port, tls, auth: smtp_config.auth }
}

/// Why a notification was not sent. Each variant carries the caller's
/// description of the cause.
#[derive(Debug)]
pub enum NotificationError {
    /// The recipient is no user of the system.
    UserNotFoundError(String),
    /// The user's own configuration could not be read.
    UserConfigReadError(String),
    /// The user's own configuration holds no valid address.
    UserConfigParseError(String),
    /// The transport failed.
    SmtpError(String),
    /// A text that should be a mail address is none.
    MailboxParseError(String),
    /// No TLS parameters could be made for the relay host.
    TlsParametersInvalid(String),
}

/// What a failed notification means for a sweep. A failure that lies with
/// the recipient, whose identity cannot be resolved or whose contact record
/// is unreadable or invalid, is passed over; a failure of the transport
/// ends the sweep.
pub open spec fn outcome_of_error(error: &NotificationError) -> Outcome {
    match error {
        NotificationError::UserNotFoundError(_) => Outcome::Recoverable,
        NotificationError::UserConfigReadError(_) => Outcome::Recoverable,
        NotificationError::UserConfigParseError(_) => Outcome::Recoverable,
        NotificationError::MailboxParseError(_) => Outcome::Recoverable,
        NotificationError::SmtpError(_) => Outcome::Failed,
        NotificationError::TlsParametersInvalid(_) => Outcome::Failed,
    }
}

/// The message of an error: what kind it is, then its cause.
pub open spec fn notification_error_text(error: &NotificationError) -> Seq<char> {
    match error {
        NotificationError::UserNotFoundError(cause) => "User not found: "@ + cause@,
        NotificationError::UserConfigReadError(cause) => "User configuration read error: "@
            + cause@,
        NotificationError::UserConfigParseError(cause) => "User configuration parsing error: "@
            + cause@,
        NotificationError::SmtpError(cause) => "SMTP error: "@ + cause@,
        NotificationError::MailboxParseError(cause) => "Mailbox parse error: "@ + cause@,
        NotificationError::TlsParametersInvalid(cause) =>
            "TLS parameters could not be constructed for relay host: "@ + cause@,
    }
}

impl NotificationError {
    /// The message of the error.
    pub fn message(&self) -> (text: String)
        ensures
            text@ == notification_error_text(self),
    {
        let (kind, cause) = match self {
            NotificationError::UserNotFoundError(cause) => ("User not found: ", cause),
            NotificationError::UserConfigReadError(cause) => (
                "User configuration read error: ",
                cause,
            ),
            NotificationError::UserConfigParseError(cause) => (
                "User configuration parsing error: ",
                cause,
            ),
            NotificationError::SmtpError(cause) => ("SMTP error: ", cause),
            NotificationError::MailboxParseError(cause) => ("Mailbox parse error: ", cause),
            NotificationError::TlsParametersInvalid(cause) => (
                "TLS parameters could not be constructed for relay host: ",
                cause,
            ),
        };
        let mut text = String::from_str(kind);
        text.append(cause.as_str());
        text
    }
}

/// The outcome that a sweep is told for a notification.
pub fn notification_outcome(result: &Result<(), NotificationError>) -> (outcome: Outcome)
    ensures
        outcome == match result {
            Ok(()) => Outcome::Succeeded,
            Err(error) => outcome_of_error(error),
        },
{
    match result {
        Ok(()) => Outcome::Succeeded,
        Err(NotificationError::UserNotFoundError(_)) => Outcome::Recoverable,
        Err(NotificationError::UserConfigReadError(_)) => Outcome::Recoverable,
        Err(NotificationError::UserConfigParseError(_)) => Outcome::Recoverable,
        Err(NotificationError::MailboxParseError(_)) => Outcome::Recoverable,
        Err(NotificationError::SmtpError(_)) => Outcome::Failed,
        Err(NotificationError::TlsParametersInvalid(_)) => Outcome::Failed,
    }
}

/// Whether lettre reads the text as a mailbox: a mail address, with or
/// without a display name before it.
pub uninterp spec fn mailbox_parses(text: Seq<char>) -> bool;

/// Calls the `FromStr` implementation of `lettre::message::Mailbox` and
/// tells whether it accepted the text. The answer depends on the text
/// alone; which texts are accepted is not stated here but named.
#[verifier::external_body]
fn is_mailbox(text: &str) -> (valid: bool)
    ensures
        valid == mailbox_parses(text@),
{
    text.parse::<lettre::message::Mailbox>().is_ok()
}

/// The sender among a configured sender and a user name of which it is
/// known whether it is a mailbox: the configured sender where there is
/// one, else the user name if it is a mailbox.
pub open spec fn chosen_sender(
    from: Option<Seq<char>>,
    username: Seq<char>,
    username_is_mailbox: bool,
) -> Option<Seq<char>> {
    match from {
        Some(sender) => Some(sender),
        None => if username_is_mailbox {
            Some(username)
        } else {
            None
        },
    }
}

/// Chooses the sender of the notifications, given whether the user name is
/// a mailbox. Without a sender the error names the user name.
pub fn sender_among(from: &Option<String>, username: &str, username_is_mailbox: bool) -> (result:
    Result<String, NotificationError>)
    ensures
        match chosen_sender(text_of(from), username@, username_is_mailbox) {
            Some(sender) => result is Ok && result->Ok_0@ == sender,
            None => (result matches Err(NotificationError::MailboxParseError(cause)) && cause@
                == username@),
        },
{
    match from {
        Some(sender) => Ok(owned(sender.as_str())),
        None => {
            if username_is_mailbox {
                Ok(owned(username))
            } else {
                Err(NotificationError::MailboxParseError(owned(username)))
            }
        },
    }
}

/// Chooses the sender of the notifications: the configured sender, else
/// the user name of the account at the relay if it is a mailbox.
pub fn sender(smtp_config: &SmtpConfig) -> (result: Result<String, NotificationError>)
    ensures
        match chosen_sender(
            text_of(&smtp_config.from),
            smtp_config.username@,
            mailbox_parses(smtp_config.username@),
        ) {
            Some(sender) => result is Ok && result->Ok_0@ == sender,
            None => (result matches Err(NotificationError::MailboxParseError(cause)) && cause@
                == smtp_config.username@),
        },
{
    let username_is_mailbox = is_mailbox(smtp_config.username.as_str());
    sender_among(&smtp_config.from, smtp_config.username.as_str(), username_is_mailbox)
}

/// What is made of a text that should be an address, given whether it is a
/// mailbox.
pub fn address_among(text: &str, text_is_mailbox: bool) -> (result: Result<
    String,
    NotificationError,
>)
    ensures
        text_is_mailbox ==> result is Ok && result->Ok_0@ == text@,
        !text_is_mailbox ==> (result matches Err(NotificationError::MailboxParseError(cause))
            && cause@ == text@),
{
    if text_is_mailbox {
        Ok(owned(text))
    } else {
        Err(NotificationError::MailboxParseError(owned(text)))
    }
}

/// Checks a text that should be an address: that of a recipient who was
/// named by hand, or that of a user's own configuration.
pub fn address(text: &str) -> (result: Result<String, NotificationError>)
    ensures
        mailbox_parses(text@) ==> result is Ok && result->Ok_0@ == text@,
        !mailbox_parses(text@) ==> (result matches Err(NotificationError::MailboxParseError(cause))
            && cause@ == text@),
{
    let text_is_mailbox = is_mailbox(text);
    address_among(text, text_is_mailbox)
}

/// A message: its subject and its text.
#[derive(Debug)]
pub struct Message {
    pub subject: String,
    pub body: String,
}

/// A message as a mathematical value.
pub struct MessageView {
    pub subject: Seq<char>,
    pub body: Seq<char>,
}

impl View for Message {
    type V = MessageView;

    open spec fn view(&self) -> MessageView {
        MessageView { subject: self.subject@, body: self.body@ }
    }
}

/// The subject of a reminder: the workspace, the host, and the days that
/// are left until expiry or, for an expired workspace, until deletion.
pub open spec fn reminder_subject(name: Seq<char>, host: Seq<char>, notice: Notice) -> Seq<char> {
    match notice {
        Notice::ExpiresIn { days } => "Your workspace "@ + name + " on "@ + host
            + " will expire in "@ + decimal_text(days as int) + " days."@,
        Notice::DeletedIn { days } => "Your workspace "@ + name + " on "@ + host
            + " will be deleted in "@ + decimal_text(days as int) + " days."@,
    }
}

/// The text of a reminder: its subject, then how to extend the workspace
/// and how to silence the reminders.
pub open spec fn reminder_body(name: Seq<char>, host: Seq<char>, notice: Notice) -> Seq<char> {
    reminder_subject(name, host, notice) + "\n\nYou can extend it by logging into "@ + host
        + " and running\n`workspaces extend -d <duration in days> "@ + name
        + "`.\n\nTo disable notifications for this workspace, manually mark this workspace as expired by running\n`workspaces expire "@
        + name + "`."@
}

/// Writes the reminder for the workspace `name` on the host `host`.
pub fn reminder_message(name: &str, host: &str, notice: Notice) -> (message: Message)
    ensures
        message@.subject == reminder_subject(name@, host@, notice),
        message@.body == reminder_body(name@, host@, notice),
{
    let mut subject = String::from_str("Your workspace ");
    subject.append(name);
    subject.append(" on ");
    subject.append(host);
    match notice {
        Notice::ExpiresIn { days } => {
            subject.append(" will expire in ");
            append_decimal(&mut subject, days);
        },
        Notice::DeletedIn { days } => {
            subject.append(" will be deleted in ");
            append_decimal(&mut subject, days);
        },
    }
    subject.append(" days.");
    let mut body = String::from_str(subject.as_str());
    body.append("\n\nYou can extend it by logging into ");
    body.append(host);
    body.append(" and running\n`workspaces extend -d <duration in days> ");
    body.append(name);
    body.append(
        "`.\n\nTo disable notifications for this workspace, manually mark this workspace as expired by running\n`workspaces expire ",
    );
    body.append(name);
    body.append("`.");
    Message { subject, body }
}

/// The subject of the message about a new workspace.
pub open spec fn created_subject(name: Seq<char>, host: Seq<char>) -> Seq<char> {
    "Workspace "@ + name + " created on "@ + host
}

/// The text of the message about a new workspace: where it is, when it
/// expires, and how to extend it.
pub open spec fn created_body(
    name: Seq<char>,
    host: Seq<char>,
    filesystem_name: Seq<char>,
    mountpoint: Seq<char>,
    days: i64,
) -> Seq<char> {
    "Hello,\n\nYour workspace \""@ + name + "\" has been created on "@ + host + ".\nFilesystem: "@
        + filesystem_name + "\nMountpoint: "@ + mountpoint + "\nInitial expiry: in "@
        + decimal_text(days as int) + " days.\n\nYou can extend it with:\n  workspaces extend -f "@
        + filesystem_name + " -d <days> "@ + name + "\n"@
}

/// Writes the message about the new workspace `name`.
pub fn created_message(
    name: &str,
    host: &str,
    filesystem_name: &str,
    mountpoint: &str,
    days: i64,
) -> (message: Message)
    ensures
        message@.subject == created_subject(name@, host@),
        message@.body == created_body(name@, host@, filesystem_name@, mountpoint@, days),
{
    let mut subject = String::from_str("Workspace ");
    subject.append(name);
    subject.append(" created on ");
    subject.append(host);
    let mut body = String::from_str("Hello,\n\nYour workspace \"");
    body.append(name);
    body.append("\" has been created on ");
    body.append(host);
    body.append(".\nFilesystem: ");
    body.append(filesystem_name);
    body.append("\nMountpoint: ");
    body.append(mountpoint);
    body.append("\nInitial expiry: in ");
    append_decimal(&mut body, days);
    body.append(" days.\n\nYou can extend it with:\n  workspaces extend -f ");
    body.append(filesystem_name);
    body.append(" -d <days> ");
    body.append(name);
    body.append("\n");
    Message { subject, body }
}

/// The subject of the message about an extension.
pub open spec fn extended_subject(name: Seq<char>, host: Seq<char>) -> Seq<char> {
    "Workspace "@ + name + " extended on "@ + host
}

/// The text of the message about an extension: the new expiry date, as
/// `date` spells it, and the days until then.
pub open spec fn extended_body(
    name: Seq<char>,
    host: Seq<char>,
    filesystem_name: Seq<char>,
    date: Seq<char>,
    days: i64,
) -> Seq<char> {
    "Hello,\n\nYour workspace \""@ + name + "\" on "@ + host + " was extended.\nFilesystem: "@
        + filesystem_name + "\nNew expiry date: "@ + date + "\n(days until expiry: "@
        + decimal_text(days as int) + " days)\n"@
}

/// Writes the message about the extension of the workspace `name`, whose
/// new expiry date is spelled `date`.
pub fn extended_message(name: &str, host: &str, filesystem_name: &str, date: &str, days: i64) -> (message:
    Message)
    ensures
        message@.subject == extended_subject(name@, host@),
        message@.body == extended_body(name@, host@, filesystem_name@, date@, days),
{
    let mut subject = String::from_str("Workspace ");
    subject.append(name);
    subject.append(" extended on ");
    subject.append(host);
    let mut body = String::from_str("Hello,\n\nYour workspace \"");
    body.append(name);
    body.append("\" on ");
    body.append(host);
    body.append(" was extended.\nFilesystem: ");
    body.append(filesystem_name);
    body.append("\nNew expiry date: ");
    body.append(date);
    body.append("\n(days until expiry: ");
    append_decimal(&mut body, days);
    body.append(" days)\n");
    Message { subject, body }
}

/// Writes the message about the extension of the workspace `name` to the
/// instant `expiration`, with the date and time in UTC; `None` for an
/// instant outside the range of the calendar.
pub fn extended_message_at(
    name: &str,
    host: &str,
    filesystem_name: &str,
    expiration: i64,
    days: i64,
) -> (message: Option<Message>)
    ensures
        match display_text(expiration) {
            Some(date) => message is Some && message->0@.subject == extended_subject(name@, host@)
                && message->0@.body == extended_body(name@, host@, filesystem_name@, date, days),
            None => message is None,
        },
{
    match display(expiration) {
        Some(date) => Some(extended_message(name, host, filesystem_name, date.as_str(), days)),
        None => None,
    }
}

/// The subject of the test message.
pub open spec fn test_subject(host: Seq<char>) -> Seq<char> {
    "Workspaces test email from "@ + host
}

/// The text of the test message.
pub open spec fn test_body(host: Seq<char>) -> Seq<char> {
    "Hello,\n\nThis is a test email sent by Workspaces on "@ + host
        + ".\nIf you can read this, SMTP is configured correctly.\n"@
}

/// Writes the message by which an administrator tests the mail settings.
pub fn test_message(host: &str) -> (message: Message)
    ensures
        message@.subject == test_subject(host@),
        message@.body == test_body(host@),
{
    let mut subject = String::from_str("Workspaces test email from ");
    subject.append(host);
    let mut body = String::from_str("Hello,\n\nThis is a test email sent by Workspaces on ");
    body.append(host);
    body.append(".\nIf you can read this, SMTP is configured correctly.\n");
    Message { subject, body }
}

} // verus!
