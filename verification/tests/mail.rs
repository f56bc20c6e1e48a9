use workspaces::mail::{
    address, address_among, created_message, extended_message, extended_message_at,
    notification_outcome, reminder_message, sender, sender_among, test_message, transport,
    AuthMethod, NotificationError, SmtpConfig, TlsMode,
};
use workspaces::maintain::Outcome;
use workspaces::schedule::Notice;
use workspaces::text::{contains_text, decimal, same_text};

fn smtp(relay: &str, tls: Option<TlsMode>) -> SmtpConfig {
    SmtpConfig {
        relay: relay.to_string(),
        username: "workspaces@example.org".to_string(),
        password: "hunter2".to_string(),
        from: None,
        tls,
        auth: None,
    }
}

fn show<T: std::fmt::Debug>(value: &T) -> String {
    format!("{:?}", value)
}

#[test]
fn decimal_matches_display() {
    for n in [0i64, 1, 9, 10, 11, 99, 100, 12345, -1, -9, -10, -12345, i64::MAX, i64::MIN] {
        assert_eq!(decimal(n), format!("{}", n));
    }
}

#[test]
fn text_helpers() {
    assert!(same_text("abc", "abc"));
    assert!(!same_text("abc", "abd"));
    assert!(!same_text("abc", "ab"));
    assert!(same_text("", ""));
    let list = vec!["alice".to_string(), "bob".to_string()];
    assert!(contains_text(&list, "bob"));
    assert!(!contains_text(&list, "carol"));
    assert!(!contains_text(&Vec::new(), ""));
}

#[test]
fn transport_of_relay() {
    let t = transport(&smtp("mail.example.org", None));
    assert_eq!(
        show(&t),
        "Transport { host: \"mail.example.org\", port: None, tls: Starttls, auth: None }"
    );
    let t = transport(&smtp("mail.example.org:587", Some(TlsMode::Starttls)));
    assert_eq!((t.host.as_str(), t.port, t.tls), ("mail.example.org", Some(587), TlsMode::Starttls));
    let t = transport(&smtp("mail.example.org", Some(TlsMode::Wrapper)));
    assert_eq!((t.host.as_str(), t.port, t.tls), ("mail.example.org", Some(465), TlsMode::Wrapper));
    let t = transport(&smtp("[::1]:2465", Some(TlsMode::Wrapper)));
    assert_eq!((t.host.as_str(), t.port, t.tls), ("::1", Some(2465), TlsMode::Wrapper));
    let mut config = smtp("relay", None);
    config.auth = Some(AuthMethod::Login);
    assert_eq!(transport(&config).auth, Some(AuthMethod::Login));
    config.auth = Some(AuthMethod::Plain);
    assert_eq!(transport(&config).auth, Some(AuthMethod::Plain));
}

#[test]
fn sender_is_configured_or_user_name() {
    let mut config = smtp("relay", None);
    assert_eq!(sender(&config).unwrap(), "workspaces@example.org");
    config.from = Some("Workspaces <noreply@example.org>".to_string());
    assert_eq!(sender(&config).unwrap(), "Workspaces <noreply@example.org>");
    config.from = None;
    config.username = "relay-account".to_string();
    assert_eq!(show(&sender(&config)), "Err(MailboxParseError(\"relay-account\"))");
    config.from = Some("noreply@example.org".to_string());
    assert_eq!(sender(&config).unwrap(), "noreply@example.org");
}

#[test]
fn sender_given_the_answer() {
    assert_eq!(sender_among(&None, "u", true).unwrap(), "u");
    assert_eq!(show(&sender_among(&None, "u", false)), "Err(MailboxParseError(\"u\"))");
    assert_eq!(sender_among(&Some("f".to_string()), "u", false).unwrap(), "f");
    assert_eq!(address_among("a", true).unwrap(), "a");
    assert_eq!(show(&address_among("a", false)), "Err(MailboxParseError(\"a\"))");
}

#[test]
fn addresses_are_checked() {
    assert_eq!(address("alice@example.org").unwrap(), "alice@example.org");
    assert_eq!(address("Alice <alice@example.org>").unwrap(), "Alice <alice@example.org>");
    assert_eq!(show(&address("alice")), "Err(MailboxParseError(\"alice\"))");
    assert_eq!(show(&address("")), "Err(MailboxParseError(\"\"))");
    assert_eq!(show(&address("a@b@c")), "Err(MailboxParseError(\"a@b@c\"))");
}

#[test]
fn failures_are_classified() {
    let e = |s: &str| s.to_string();
    assert_eq!(notification_outcome(&Ok(())), Outcome::Succeeded);
    assert_eq!(
        notification_outcome(&Err(NotificationError::UserNotFoundError(e("u")))),
        Outcome::Recoverable
    );
    assert_eq!(
        notification_outcome(&Err(NotificationError::UserConfigReadError(e("u")))),
        Outcome::Recoverable
    );
    assert_eq!(
        notification_outcome(&Err(NotificationError::UserConfigParseError(e("u")))),
        Outcome::Recoverable
    );
    assert_eq!(
        notification_outcome(&Err(NotificationError::MailboxParseError(e("u")))),
        Outcome::Recoverable
    );
    assert_eq!(notification_outcome(&Err(NotificationError::SmtpError(e("u")))), Outcome::Failed);
    assert_eq!(
        notification_outcome(&Err(NotificationError::TlsParametersInvalid(e("u")))),
        Outcome::Failed
    );
}

#[test]
fn error_messages() {
    let e = |s: &str| s.to_string();
    assert_eq!(NotificationError::UserNotFoundError(e("bob")).message(), "User not found: bob");
    assert_eq!(
        NotificationError::UserConfigReadError(e("denied")).message(),
        "User configuration read error: denied"
    );
    assert_eq!(
        NotificationError::UserConfigParseError(e("bad")).message(),
        "User configuration parsing error: bad"
    );
    assert_eq!(NotificationError::SmtpError(e("timeout")).message(), "SMTP error: timeout");
    assert_eq!(
        NotificationError::MailboxParseError(e("x")).message(),
        "Mailbox parse error: x"
    );
    assert_eq!(
        NotificationError::TlsParametersInvalid(e("relay")).message(),
        "TLS parameters could not be constructed for relay host: relay"
    );
}

#[test]
fn reminder_text() {
    let m = reminder_message("proj", "node1", Notice::ExpiresIn { days: 5 });
    assert_eq!(m.subject, "Your workspace proj on node1 will expire in 5 days.");
    assert_eq!(
        m.body,
        "Your workspace proj on node1 will expire in 5 days.\n\n\
         You can extend it by logging into node1 and running\n\
         `workspaces extend -d <duration in days> proj`.\n\n\
         To disable notifications for this workspace, manually mark this workspace as expired by running\n\
         `workspaces expire proj`."
    );
    let m = reminder_message("proj", "node1", Notice::DeletedIn { days: -3 });
    assert_eq!(m.subject, "Your workspace proj on node1 will be deleted in -3 days.");
    assert!(m.body.starts_with("Your workspace proj on node1 will be deleted in -3 days.\n\nYou can"));
}

#[test]
fn created_text() {
    let m = created_message("proj", "node1", "fsA", "/tank/ws/alice/proj", 30);
    assert_eq!(m.subject, "Workspace proj created on node1");
    assert_eq!(
        m.body,
        format!(
            "Hello,\n\nYour workspace \"{}\" has been created on {}.\nFilesystem: {}\nMountpoint: {}\nInitial expiry: in {} days.\n\nYou can extend it with:\n  workspaces extend -f {} -d <days> {}\n",
            "proj", "node1", "fsA", "/tank/ws/alice/proj", 30, "fsA", "proj"
        )
    );
}

#[test]
fn extended_text() {
    let m = extended_message("proj", "node1", "fsA", "2023-11-14 22:13:20 UTC", 12);
    assert_eq!(m.subject, "Workspace proj extended on node1");
    assert_eq!(
        m.body,
        "Hello,\n\nYour workspace \"proj\" on node1 was extended.\nFilesystem: fsA\nNew expiry date: 2023-11-14 22:13:20 UTC\n(days until expiry: 12 days)\n"
    );
    let at = extended_message_at("proj", "node1", "fsA", 1_700_000_000, 12).unwrap();
    assert_eq!(at.subject, m.subject);
    assert_eq!(at.body, m.body);
    assert!(extended_message_at("proj", "node1", "fsA", i64::MIN, 12).is_none());
}

#[test]
fn test_mail_text() {
    let m = test_message("node1");
    assert_eq!(m.subject, "Workspaces test email from node1");
    assert_eq!(
        m.body,
        "Hello,\n\nThis is a test email sent by Workspaces on node1.\nIf you can read this, SMTP is configured correctly.\n"
    );
}
