use workspaces::relay::split_host_port;
use workspaces::volume::to_volume_string;

#[test]
fn volume_string_joins_with_slashes() {
    assert_eq!(to_volume_string("tank/ws", "alice", "proj"), "tank/ws/alice/proj");
    assert_eq!(to_volume_string("", "", ""), "//");
}

#[test]
fn bare_host_has_no_port() {
    assert_eq!(split_host_port("mail.example.org"), ("mail.example.org", None));
    assert_eq!(split_host_port(""), ("", None));
}

#[test]
fn host_with_port() {
    assert_eq!(split_host_port("mail.example.org:587"), ("mail.example.org", Some(587)));
    assert_eq!(split_host_port("mail.example.org:+25"), ("mail.example.org", Some(25)));
    assert_eq!(split_host_port("mail.example.org:0025"), ("mail.example.org", Some(25)));
    assert_eq!(split_host_port("h:65535"), ("h", Some(65535)));
}

#[test]
fn port_that_is_none_keeps_whole_input() {
    assert_eq!(split_host_port("mail.example.org:smtp"), ("mail.example.org:smtp", None));
    assert_eq!(split_host_port("h:65536"), ("h:65536", None));
    assert_eq!(split_host_port("h:"), ("h:", None));
    assert_eq!(split_host_port("h:+"), ("h:+", None));
    assert_eq!(split_host_port("h:-1"), ("h:-1", None));
    assert_eq!(split_host_port("h:99999999999999999999"), ("h:99999999999999999999", None));
}

#[test]
fn bracketed_host() {
    assert_eq!(split_host_port("[::1]:25"), ("::1", Some(25)));
    assert_eq!(split_host_port("[2001:db8::1]:465"), ("2001:db8::1", Some(465)));
    // A bracketed host keeps its host part even when the port is none.
    assert_eq!(split_host_port("[::1]:smtp"), ("::1", None));
    assert_eq!(split_host_port("[::1]:"), ("::1", None));
    // The first "]:" ends the host.
    assert_eq!(split_host_port("[a]:b]:25"), ("a", None));
}

#[test]
fn bracket_without_port_separator_splits_at_last_colon() {
    assert_eq!(split_host_port("[::1]"), ("[::1]", None));
    assert_eq!(split_host_port("[::25"), ("[:", Some(25)));
    assert_eq!(split_host_port("["), ("[", None));
}
