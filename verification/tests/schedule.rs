use workspaces::schedule::{notification_due, Notice};
use workspaces::time::{from_days, num_days, SECONDS_PER_DAY};

const DAY: i64 = 86_400;

#[test]
fn whole_days_round_towards_zero() {
    assert_eq!(SECONDS_PER_DAY, 86_400);
    assert_eq!(num_days(0), 0);
    assert_eq!(num_days(DAY - 1), 0);
    assert_eq!(num_days(DAY), 1);
    assert_eq!(num_days(5 * DAY + 3), 5);
    assert_eq!(num_days(-1), 0);
    assert_eq!(num_days(-DAY + 1), 0);
    assert_eq!(num_days(-DAY), -1);
    assert_eq!(num_days(-3 * DAY - 7), -3);
    assert_eq!(num_days(i64::MAX), 106_751_991_167_300);
    assert_eq!(num_days(i64::MIN), -106_751_991_167_300);
}

#[test]
fn days_to_seconds() {
    assert_eq!(from_days(0), Some(0));
    assert_eq!(from_days(30), Some(2_592_000));
    assert_eq!(from_days(-2), Some(-172_800));
    assert_eq!(from_days(106_751_991_167_300), Some(106_751_991_167_300 * 86_400));
    assert_eq!(from_days(106_751_991_167_301), None);
    assert_eq!(from_days(i64::MIN), None);
}

#[test]
fn fires_once_for_the_crossed_threshold() {
    let offsets = vec![7 * DAY, DAY];
    let expiration = 1_000_000_000;
    let now = expiration - 5 * DAY;
    // No prior log, five days left: the seven-day threshold has been crossed.
    assert_eq!(
        notification_due(expiration, &offsets, None, 14 * DAY, now),
        Some(Notice::ExpiresIn { days: 5 })
    );
    // The reminder was logged at `now`: it does not fire again.
    assert_eq!(notification_due(expiration, &offsets, Some(now), 14 * DAY, now), None);
    // Nor a day later, while the threshold is the same.
    assert_eq!(notification_due(expiration, &offsets, Some(now), 14 * DAY, now + DAY), None);
}

#[test]
fn ascending_offsets_pick_the_nearest_threshold() {
    let offsets = vec![-2 * DAY, DAY, 7 * DAY];
    let expiration = 50 * DAY;
    // Ten days left: nothing crossed.
    assert_eq!(notification_due(expiration, &offsets, None, 14 * DAY, 40 * DAY), None);
    // Five days left: seven-day threshold.
    assert_eq!(
        notification_due(expiration, &offsets, None, 14 * DAY, 45 * DAY),
        Some(Notice::ExpiresIn { days: 5 })
    );
    // Reminded at the seven-day deadline exactly: silent until the next threshold.
    assert_eq!(notification_due(expiration, &offsets, Some(43 * DAY), 14 * DAY, 45 * DAY), None);
    // Half a day left: the one-day threshold, whose deadline is day 49.
    let now = 49 * DAY + DAY / 2;
    assert_eq!(
        notification_due(expiration, &offsets, Some(43 * DAY), 14 * DAY, now),
        Some(Notice::ExpiresIn { days: 0 })
    );
    assert_eq!(notification_due(expiration, &offsets, Some(49 * DAY), 14 * DAY, now), None);
    assert_eq!(
        notification_due(expiration, &offsets, Some(49 * DAY - 1), 14 * DAY, now),
        Some(Notice::ExpiresIn { days: 0 })
    );
}

#[test]
fn threshold_is_strict() {
    let offsets = vec![7 * DAY];
    let expiration = 100 * DAY;
    // Exactly seven days left: the offset is not strictly greater, nothing fires.
    assert_eq!(notification_due(expiration, &offsets, None, 0, 93 * DAY), None);
    // One second later it does.
    assert_eq!(
        notification_due(expiration, &offsets, None, 0, 93 * DAY + 1),
        Some(Notice::ExpiresIn { days: 6 })
    );
}

#[test]
fn after_expiry_reports_days_until_deletion() {
    let offsets = vec![-2 * DAY, DAY];
    let expiration = 100 * DAY;
    let retention = 14 * DAY;
    // At the instant of expiry the workspace still "expires in 0 days".
    assert_eq!(
        notification_due(expiration, &offsets, None, retention, expiration),
        Some(Notice::ExpiresIn { days: 0 })
    );
    // One day after expiry: one-day threshold still the nearest crossed.
    assert_eq!(
        notification_due(expiration, &offsets, None, retention, 101 * DAY),
        Some(Notice::DeletedIn { days: 13 })
    );
    // Three days after expiry the threshold two days after expiry is crossed.
    assert_eq!(
        notification_due(expiration, &offsets, Some(100 * DAY), retention, 103 * DAY),
        Some(Notice::DeletedIn { days: 11 })
    );
    assert_eq!(notification_due(expiration, &offsets, Some(102 * DAY), retention, 103 * DAY), None);
}

#[test]
fn no_offsets_never_fire() {
    assert_eq!(notification_due(0, &Vec::new(), None, 0, 1_000), None);
}

#[test]
fn extreme_instants_do_not_overflow() {
    let offsets = vec![i64::MAX];
    assert_eq!(
        notification_due(i64::MIN, &offsets, None, i64::MIN, i64::MAX),
        Some(Notice::DeletedIn { days: -320_255_973_501_901 })
    );
    assert_eq!(notification_due(i64::MAX, &vec![i64::MIN], None, 0, i64::MIN), None);
}
