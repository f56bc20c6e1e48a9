//! The notification scheduler: decides from a workspace's expiration, the
//! configured reminder offsets and the time of the latest notification
//! whether the owner has to be reminded now, and of what.

use vstd::prelude::*;
use crate::time::{whole_days, whole_days_wide};

verus! {

/// What a reminder tells the owner.
#[derive(Clone, Copy, Debug, PartialEq, Eq, Structural)]
pub enum Notice {
    /// The workspace has not expired yet; `days` whole days are left until
    /// it does.
    ExpiresIn { days: i64 },
    /// The workspace has expired; `days` whole days are left until it is
    /// deleted for good.
    DeletedIn { days: i64 },
}

/// The position, at or after `start`, of the first offset that is strictly
/// greater than `remaining`; `offsets.len()` when there is none.
pub open spec fn crossed_index(offsets: Seq<i64>, remaining: int, start: int) -> int
    decreases offsets.len() - start,
{
    if start < 0 || start >= offsets.len() {
        offsets.len() as int
    } else if offsets[start] > remaining {
        start
    } else {
        crossed_index(offsets, remaining, start + 1)
    }
}

/// The first offset of the list that is strictly greater than `remaining`:
/// the threshold that has been crossed when `remaining` seconds are left.
pub open spec fn first_crossed(offsets: Seq<i64>, remaining: int) -> Option<int> {
    let i = crossed_index(offsets, remaining, 0);
    if i < offsets.len() {
        Some(offsets[i] as int)
    } else {
        None
    }
}

/// Every offset is at most the one that follows it.
pub open spec fn ascending(offsets: Seq<i64>) -> bool {
    forall|i: int, j: int| 0 <= i <= j < offsets.len() ==> offsets[i] <= offsets[j]
}

/// What a reminder says when `remaining` seconds are left until expiry:
/// the whole days until expiry while the workspace has not expired, and
/// once it has, the whole days until its deletion, `retention` seconds
/// after expiry.
pub open spec fn notice_of(remaining: int, retention: int) -> Notice {
    if remaining >= 0 {
        Notice::ExpiresIn { days: whole_days(remaining) as i64 }
    } else {
        Notice::DeletedIn { days: whole_days(retention + remaining) as i64 }
    }
}

/// The scheduler's decision.
///
/// With `remaining = expiration - now`, the threshold is the first offset
/// strictly greater than `remaining`. Its deadline is `expiration - offset`.
/// A reminder is due when there is a threshold and no notification was
/// logged at or after its deadline.
pub open spec fn due(
    expiration: int,
    offsets: Seq<i64>,
    last_notified: Option<i64>,
    retention: int,
    now: int,
) -> Option<Notice> {
    let remaining = expiration - now;
    match first_crossed(offsets, remaining) {
        None => None,
        Some(offset) => {
            let deadline = expiration - offset;
            if last_notified is None || last_notified->0 < deadline {
                Some(notice_of(remaining, retention))
            } else {
                None
            }
        },
    }
}

/// Finds the first offset strictly greater than `remaining`.
fn find_crossed(offsets: &Vec<i64>, remaining: i128) -> (found: Option<i64>)
    ensures
        match found {
            Some(offset) => first_crossed(offsets@, remaining as int) == Some(offset as int),
            None => first_crossed(offsets@, remaining as int) is None,
        },
{
    let mut i: usize = 0;
    while i < offsets.len()
        invariant
            i <= offsets.len(),
            crossed_index(offsets@, remaining as int, 0) == crossed_index(
                offsets@,
                remaining as int,
                i as int,
            ),
        decreases offsets.len() - i,
    {
        let offset: i64 = offsets[i];
        if offset as i128 > remaining {
            return Some(offset);
        }
        i += 1;
    }
    None
}

/// Decides whether the owner of a workspace has to be reminded now.
///
/// `expiration` and `now` are instants, `retention` and the offsets are
/// spans. `last_notified` is the time of the latest entry in the
/// workspace's notification log, if it has one. A positive offset is a
/// point before expiry, a negative one a point after it.
pub fn notification_due(
    expiration: i64,
    offsets: &Vec<i64>,
    last_notified: Option<i64>,
    retention: i64,
    now: i64,
) -> (notice: Option<Notice>)
    ensures
        notice == due(expiration as int, offsets@, last_notified, retention as int, now as int),
{
    let remaining: i128 = expiration as i128 - now as i128;
    match find_crossed(offsets, remaining) {
        None => None,
        Some(offset) => {
            let deadline: i128 = expiration as i128 - offset as i128;
            let silent = match last_notified {
                None => false,
                Some(at) => at as i128 >= deadline,
            };
            if silent {
                None
            } else if remaining >= 0 {
                Some(Notice::ExpiresIn { days: whole_days_wide(remaining) })
            } else {
                Some(Notice::DeletedIn { days: whole_days_wide(retention as i128 + remaining) })
            }
        },
    }
}

/// Where `crossed_index` points, an offset greater than `remaining` stands,
/// and none stands between `start` and that place.
pub proof fn lemma_crossed_index(offsets: Seq<i64>, remaining: int, start: int)
    requires
        0 <= start <= offsets.len(),
    ensures
        start <= crossed_index(offsets, remaining, start) <= offsets.len(),
        crossed_index(offsets, remaining, start) < offsets.len() ==> offsets[crossed_index(
            offsets,
            remaining,
            start,
        )] > remaining,
        forall|j: int|
            start <= j < crossed_index(offsets, remaining, start) ==> #[trigger] offsets[j]
                <= remaining,
    decreases offsets.len() - start,
{
    if start < offsets.len() && offsets[start] <= remaining {
        lemma_crossed_index(offsets, remaining, start + 1);
    }
}

/// In an ascending list the threshold found is the smallest offset that is
/// strictly greater than `remaining`, and there is none exactly when no
/// offset is greater.
pub proof fn lemma_first_crossed_is_smallest(offsets: Seq<i64>, remaining: int)
    requires
        ascending(offsets),
    ensures
        match first_crossed(offsets, remaining) {
            Some(offset) => {
                &&& offset > remaining
                &&& exists|i: int| 0 <= i < offsets.len() && offsets[i] == offset
                &&& forall|j: int|
                    0 <= j < offsets.len() && offsets[j] > remaining ==> offset <= offsets[j]
            },
            None => forall|j: int| 0 <= j < offsets.len() ==> offsets[j] <= remaining,
        },
{
    lemma_crossed_index(offsets, remaining, 0);
    let i = crossed_index(offsets, remaining, 0);
    if i < offsets.len() {
        assert(offsets[i] == offsets[i] as int);
        assert forall|j: int| 0 <= j < offsets.len() && offsets[j] > remaining implies offsets[i]
            <= offsets[j] by {
            if j < i {
                assert(offsets[j] <= remaining);
            }
        }
    }
}

/// A threshold's deadline lies strictly before the moment at which it is
/// found crossed.
pub proof fn lemma_deadline_has_passed(expiration: int, offsets: Seq<i64>, now: int)
    ensures
        first_crossed(offsets, expiration - now) matches Some(offset) ==> expiration - offset
            < now,
{
    lemma_crossed_index(offsets, expiration - now, 0);
}

/// A reminder fires at most once per crossed threshold, part one: once a
/// notification is logged at `now` or later, evaluating again at `now` gives
/// no reminder, whatever was decided before.
pub proof fn lemma_no_second_notice(
    expiration: int,
    offsets: Seq<i64>,
    logged: i64,
    retention: int,
    now: int,
)
    requires
        logged >= now,
    ensures
        due(expiration, offsets, Some(logged), retention, now) is None,
{
    lemma_deadline_has_passed(expiration, offsets, now);
}

/// A reminder fires at most once per crossed threshold, part two: after a
/// reminder was due at `fired` and was logged then, no reminder is due at a
/// later time `now` for as long as the crossed threshold is the same.
pub proof fn lemma_once_per_threshold(
    expiration: int,
    offsets: Seq<i64>,
    earlier: Option<i64>,
    retention: int,
    fired: i64,
    now: int,
)
    requires
        due(expiration, offsets, earlier, retention, fired as int) is Some,
        first_crossed(offsets, expiration - now) == first_crossed(offsets, expiration - fired),
    ensures
        due(expiration, offsets, Some(fired), retention, now) is None,
{
    lemma_deadline_has_passed(expiration, offsets, fired as int);
}

/// A reminder is due only when some threshold has been crossed, and its
/// text depends on nothing but the time left and the retention window.
pub proof fn lemma_due_notice(
    expiration: int,
    offsets: Seq<i64>,
    last_notified: Option<i64>,
    retention: int,
    now: int,
)
    ensures
        due(expiration, offsets, last_notified, retention, now) matches Some(notice) ==> {
            &&& first_crossed(offsets, expiration - now) is Some
            &&& notice == notice_of(expiration - now, retention)
        },
        due(expiration, offsets, None, retention, now) is Some <==> first_crossed(
            offsets,
            expiration - now,
        ) is Some,
{
}

} // verus!
