//! What the configuration file holds, turned into the values that the rest
//! of the library works on. Reading and parsing the file is left to the
//! caller.

use vstd::prelude::*;
use crate::policy::Filesystem;
use crate::schedule::ascending;
use crate::time::{days_span, from_days};

verus! {

/// Path of the configuration file.
pub const CONFIG_PATH: &'static str = "/etc/workspaces/workspaces.toml";

/// Where the store lies by default.
pub const DEFAULT_DB_PATH: &'static str = "/usr/local/lib/workspaces/workspaces.db";

/// The former default place of the store. A store that still lies there is
/// used, and the user is told to move it.
pub const LEGACY_DB_PATH: &'static str = "/usr/local/share/workspaces/workspaces.db";

/// Chooses the store's place where the configuration names none, given
/// which of the two default places hold a file: the current place if a
/// store lies there; else the former place if a store lies there, which
/// the caller is to warn about; else the current place. The second part of
/// the result tells whether the former place was chosen.
pub fn default_db_path(current_exists: bool, legacy_exists: bool) -> (choice: (&'static str, bool))
    ensures
        choice.1 == (!current_exists && legacy_exists),
        choice.1 ==> choice.0@ == LEGACY_DB_PATH@,
        !choice.1 ==> choice.0@ == DEFAULT_DB_PATH@,
{
    if current_exists {
        (DEFAULT_DB_PATH, false)
    } else if legacy_exists {
        (LEGACY_DB_PATH, true)
    } else {
        (DEFAULT_DB_PATH, false)
    }
}

/// Inserting into a sequence adds one occurrence of the new element and
/// keeps the others.
proof fn lemma_insert_to_multiset(s: Seq<i64>, at: int, x: i64)
    requires
        0 <= at <= s.len(),
    ensures
        s.insert(at, x).to_multiset() =~= s.to_multiset().insert(x),
{
    broadcast use vstd::seq_lib::group_to_multiset_ensures;

    let t = s.insert(at, x);
    assert(t[at] == x);
    assert(t.remove(at) =~= s);
    vstd::seq_lib::to_multiset_remove(t, at);
    assert(s.to_multiset() == t.to_multiset().remove(x));
    assert(t.contains(x));
    assert(t.to_multiset().count(x) > 0);
    assert forall|y: i64| t.to_multiset().count(y) == s.to_multiset().insert(x).count(y) by {
        if y == x {
        } else {
        }
    }
}

/// The numbers of `days` in ascending order.
pub fn sorted(days: &Vec<i64>) -> (result: Vec<i64>)
    ensures
        ascending(result@),
        result@.to_multiset() == days@.to_multiset(),
{
    let mut result: Vec<i64> = Vec::new();
    let mut i: usize = 0;
    assert(days@.take(0) =~= Seq::<i64>::empty());
    while i < days.len()
        invariant
            i <= days.len(),
            ascending(result@),
            result@.to_multiset() == days@.take(i as int).to_multiset(),
        decreases days.len() - i,
    {
        let x = days[i];
        // The place of `x`: behind every number that is not greater.
        let mut at: usize = 0;
        while at < result.len() && result[at] <= x
            invariant
                at <= result.len(),
                ascending(result@),
                forall|k: int| 0 <= k < at ==> result@[k] <= x,
            decreases result.len() - at,
        {
            at += 1;
        }
        proof {
            lemma_insert_to_multiset(result@, at as int, x);
            assert(days@.take(i + 1) =~= days@.take(i as int).push(x));
            vstd::seq_lib::to_multiset_build(days@.take(i as int), x);
            let after = result@.insert(at as int, x);
            assert forall|a: int, b: int| 0 <= a <= b < after.len() implies after[a] <= after[b] by {
                if b < at {
                    assert(after[a] == result@[a] && after[b] == result@[b]);
                } else if b == at {
                    if a < at {
                        assert(after[a] == result@[a]);
                    }
                } else {
                    assert(after[b] == result@[b - 1]);
                    if a < at {
                        assert(after[a] == result@[a]);
                        assert(result@[a] <= result@[b - 1]);
                    } else if a == at {
                        assert(x < result@[at as int]);
                        assert(result@[at as int] <= result@[b - 1]);
                    } else {
                        assert(after[a] == result@[a - 1]);
                    }
                }
            }
        }
        result.insert(at, x);
        i += 1;
    }
    assert(days@.take(days.len() as int) =~= days@);
    result
}

/// Whether every number of days makes a span that fits the instants.
pub open spec fn all_fit(days: Seq<i64>) -> bool {
    forall|i: int| 0 <= i < days.len() ==> i64::MIN <= days_span(#[trigger] days[i] as int) <= i64::MAX
}

/// The spans of a sequence of numbers of days.
pub open spec fn spans_of(days: Seq<i64>) -> Seq<i64> {
    days.map_values(|d: i64| days_span(d as int) as i64)
}

/// The spans of the numbers of days, in their order; `None` when one of
/// them does not fit.
fn spans(days: &Vec<i64>) -> (result: Option<Vec<i64>>)
    ensures
        result is Some <==> all_fit(days@),
        result matches Some(spans) ==> spans@ == spans_of(days@),
{
    let mut result: Vec<i64> = Vec::new();
    let mut i: usize = 0;
    while i < days.len()
        invariant
            i <= days.len(),
            result@.len() == i,
            forall|k: int| 0 <= k < i ==> i64::MIN <= days_span(#[trigger] days@[k] as int) <= i64::MAX,
            forall|k: int| 0 <= k < i ==> #[trigger] result@[k] == days_span(days@[k] as int),
        decreases days.len() - i,
    {
        match from_days(days[i]) {
            Some(span) => {
                result.push(span);
            },
            None => {
                assert(!(i64::MIN <= days_span(days@[i as int] as int) <= i64::MAX));
                return None;
            },
        }
        i += 1;
    }
    assert(result@ =~= spans_of(days@));
    Some(result)
}

/// The reminder offsets of a filesystem from the days that the
/// configuration lists, in any order: the spans of those days, ascending.
/// `None` when a number of days is too large for a span.
pub fn from_days_list(days: &Vec<i64>) -> (offsets: Option<Vec<i64>>)
    ensures
        offsets is Some <==> all_fit(days@),
        offsets matches Some(spans) ==> {
            &&& ascending(spans@)
            &&& exists|ordered: Seq<i64>|
                #![auto]
                ascending(ordered) && ordered.to_multiset() == days@.to_multiset() && spans@
                    == spans_of(ordered)
        },
{
    let ordered = sorted(days);
    proof {
        broadcast use vstd::seq_lib::group_to_multiset_ensures;

        // The same numbers, so the same question of fit.
        assert forall|k: int| 0 <= k < ordered@.len() implies days@.contains(
            #[trigger] ordered@[k],
        ) by {
            assert(ordered@.contains(ordered@[k]));
            assert(ordered@.to_multiset().count(ordered@[k]) > 0);
        }
        assert forall|k: int| 0 <= k < days@.len() implies ordered@.contains(
            #[trigger] days@[k],
        ) by {
            assert(days@.contains(days@[k]));
            assert(days@.to_multiset().count(days@[k]) > 0);
        }
        if all_fit(days@) {
            assert forall|k: int| 0 <= k < ordered@.len() implies i64::MIN <= days_span(
                #[trigger] ordered@[k] as int,
            ) <= i64::MAX by {
                let m = choose|m: int| 0 <= m < days@.len() && days@[m] == ordered@[k];
                assert(i64::MIN <= days_span(days@[m] as int) <= i64::MAX);
            }
        }
        if all_fit(ordered@) {
            assert forall|k: int| 0 <= k < days@.len() implies i64::MIN <= days_span(
                #[trigger] days@[k] as int,
            ) <= i64::MAX by {
                let m = choose|m: int| 0 <= m < ordered@.len() && ordered@[m] == days@[k];
                assert(i64::MIN <= days_span(ordered@[m] as int) <= i64::MAX);
            }
        }
    }
    match spans(&ordered) {
        Some(result) => {
            assert(ascending(result@)) by {
                assert forall|a: int, b: int| 0 <= a <= b < result@.len() implies result@[a]
                    <= result@[b] by {
                    assert(ordered@[a] <= ordered@[b]);
                }
            }
            Some(result)
        },
        None => None,
    }
}

/// Makes the policy of a filesystem from what the configuration holds for
/// it: the longest duration and the retention window in days, and the days
/// before expiry on which the owner is reminded, in any order. `None` when
/// a number of days is too large for a span.
pub fn filesystem(
    root: String,
    max_duration_days: i64,
    expired_retention_days: i64,
    expiry_notifications_on_days: &Vec<i64>,
    snapshot: bool,
    disabled: bool,
) -> (policy: Option<Filesystem>)
    ensures
        policy is Some <==> {
            &&& i64::MIN <= days_span(max_duration_days as int) <= i64::MAX
            &&& i64::MIN <= days_span(expired_retention_days as int) <= i64::MAX
            &&& all_fit(expiry_notifications_on_days@)
        },
        policy matches Some(p) ==> {
            &&& p.root == root
            &&& p.max_duration == days_span(max_duration_days as int)
            &&& p.expired_retention == days_span(expired_retention_days as int)
            &&& ascending(p.expiry_notifications_on_days@)
            &&& exists|ordered: Seq<i64>|
                #![auto]
                ascending(ordered) && ordered.to_multiset()
                    == expiry_notifications_on_days@.to_multiset()
                    && p.expiry_notifications_on_days@ == spans_of(ordered)
            &&& p.snapshot == snapshot
            &&& p.disabled == disabled
        },
{
    let max_duration = match from_days(max_duration_days) {
        Some(span) => span,
        None => { return None; },
    };
    let expired_retention = match from_days(expired_retention_days) {
        Some(span) => span,
        None => { return None; },
    };
    let offsets = match from_days_list(expiry_notifications_on_days) {
        Some(offsets) => offsets,
        None => { return None; },
    };
    Some(
        Filesystem {
            root,
            max_duration,
            expired_retention,
            expiry_notifications_on_days: offsets,
            snapshot,
            disabled,
        },
    )
}

} // verus!
