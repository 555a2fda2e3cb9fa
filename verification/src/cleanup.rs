//! Which old files the periodic clean-up removes.

use vstd::prelude::*;

use crate::clock::{elapsed_nanos, nanos_between, Timestamp};

verus! {

/// Nanoseconds in an hour.
pub open spec fn nanos_per_hour() -> int {
    3_600_000_000_000
}

/// Whether a file modified at `modified` is, at time `now`, more than
/// `max_age_hours` hours old.
pub open spec fn older_than(now: Timestamp, modified: Timestamp, max_age_hours: u64) -> bool {
    nanos_between(now, modified) > max_age_hours * nanos_per_hour()
}

/// Whether an entry is removed: its modification time could be read and it
/// is older than the limit.
pub open spec fn entry_expired(now: Timestamp, modified: Option<Timestamp>, max_age_hours: u64) -> bool {
    match modified {
        Some(t) => older_than(now, t, max_age_hours),
        None => false,
    }
}

/// The positions, in order, of the expired entries.
pub open spec fn expired_positions(now: Timestamp, entries: Seq<Option<Timestamp>>, max_age_hours: u64) -> Seq<usize>
    decreases entries.len(),
{
    if entries.len() == 0 {
        Seq::<usize>::empty()
    } else {
        let rest = expired_positions(now, entries.drop_last(), max_age_hours);
        if entry_expired(now, entries.last(), max_age_hours) {
            rest.push((entries.len() - 1) as usize)
        } else {
            rest
        }
    }
}

/// The entries that are left once the expired ones are removed, in order.
pub open spec fn kept_entries(now: Timestamp, entries: Seq<Option<Timestamp>>, max_age_hours: u64) -> Seq<Option<Timestamp>>
    decreases entries.len(),
{
    if entries.len() == 0 {
        Seq::<Option<Timestamp>>::empty()
    } else {
        let rest = kept_entries(now, entries.drop_last(), max_age_hours);
        if entry_expired(now, entries.last(), max_age_hours) {
            rest
        } else {
            rest.push(entries.last())
        }
    }
}

/// Whether a file modified at `modified` is, at `now`, more than
/// `max_age_hours` hours old: the limit is the number of hours before a file
/// is old enough to clean up.
pub fn is_expired(now: Timestamp, modified: Timestamp, max_age_hours: u64) -> (res: bool)
    ensures
        res == older_than(now, modified, max_age_hours),
{
    let age = elapsed_nanos(now, modified);
    let limit: i128 = (max_age_hours as i128) * 3_600_000_000_000i128;
    age > limit
}

/// The positions of the directory entries to remove at time `now`: those
/// whose modification time could be read and that are more than
/// `max_age_hours` hours old.
pub fn select_expired(now: Timestamp, modified: &Vec<Option<Timestamp>>, max_age_hours: u64) -> (res: Vec<usize>)
    ensures
        res@ == expired_positions(now, modified@, max_age_hours),
{
    let mut res: Vec<usize> = Vec::new();
    let n = modified.len();
    for i in 0..n
        invariant
            n == modified@.len(),
            res@ == expired_positions(now, modified@.take(i as int), max_age_hours),
    {
        proof {
            assert(modified@.take(i + 1).drop_last() =~= modified@.take(i as int));
            assert(modified@.take(i + 1).last() == modified@[i as int]);
        }
        let expired = match modified[i] {
            Some(t) => is_expired(now, t, max_age_hours),
            None => false,
        };
        if expired {
            res.push(i);
        }
    }
    proof {
        assert(modified@.take(n as int) =~= modified@);
    }
    res
}

proof fn lemma_positions_in_range(now: Timestamp, entries: Seq<Option<Timestamp>>, max_age_hours: u64)
    requires
        entries.len() <= usize::MAX,
    ensures
        forall|k: int| 0 <= k < expired_positions(now, entries, max_age_hours).len() ==> {
            let p = #[trigger] expired_positions(now, entries, max_age_hours)[k];
            &&& p < entries.len()
            &&& entry_expired(now, entries[p as int], max_age_hours)
        },
    decreases entries.len(),
{
    if entries.len() > 0 {
        let t = entries.drop_last();
        lemma_positions_in_range(now, t, max_age_hours);
        let r = expired_positions(now, entries, max_age_hours);
        assert forall|k: int| 0 <= k < r.len() implies {
            let p = #[trigger] r[k];
            &&& p < entries.len()
            &&& entry_expired(now, entries[p as int], max_age_hours)
        } by {
            let rest = expired_positions(now, t, max_age_hours);
            if k < rest.len() {
                assert(r[k] == rest[k]);
                assert(entries[rest[k] as int] == t[rest[k] as int]);
            } else {
                assert(entry_expired(now, entries.last(), max_age_hours));
                assert(r[k] == (entries.len() - 1) as usize);
            }
        }
    }
}

/// Only files older than the limit go: every chosen entry had its
/// modification time read and is more than `max_age_hours` hours old, so a
/// file modified after `now`, or at most the limit ago, is kept.
pub proof fn lemma_removed_only_when_older(now: Timestamp, entries: Seq<Option<Timestamp>>, max_age_hours: u64)
    requires
        entries.len() <= usize::MAX,
    ensures
        forall|k: int| 0 <= k < expired_positions(now, entries, max_age_hours).len() ==> {
            let p = #[trigger] expired_positions(now, entries, max_age_hours)[k];
            &&& p < entries.len()
            &&& entries[p as int] matches Some(t)
            &&& nanos_between(now, t) > max_age_hours * nanos_per_hour()
            &&& nanos_between(now, t) > 0
        },
{
    lemma_positions_in_range(now, entries, max_age_hours);
}

/// A second clean-up at the same instant removes nothing: of the entries
/// that the first one kept, none is expired.
pub proof fn lemma_second_cleanup_removes_nothing(now: Timestamp, entries: Seq<Option<Timestamp>>, max_age_hours: u64)
    ensures
        expired_positions(now, kept_entries(now, entries, max_age_hours), max_age_hours).len() == 0,
    decreases entries.len(),
{
    if entries.len() > 0 {
        let t = entries.drop_last();
        lemma_second_cleanup_removes_nothing(now, t, max_age_hours);
        let kt = kept_entries(now, t, max_age_hours);
        if !entry_expired(now, entries.last(), max_age_hours) {
            let k = kt.push(entries.last());
            assert(k.drop_last() =~= kt);
        }
    }
}

proof fn lemma_expired_positions_exact(now: Timestamp, entries: Seq<Option<Timestamp>>, max_age_hours: u64)
    requires
        entries.len() <= usize::MAX,
    ensures
        forall|i: int| 0 <= i < entries.len() ==>
            (expired_positions(now, entries, max_age_hours).contains(i as usize)
                <==> entry_expired(now, #[trigger] entries[i], max_age_hours)),
        forall|k: int| 0 <= k < expired_positions(now, entries, max_age_hours).len() ==>
            (#[trigger] expired_positions(now, entries, max_age_hours)[k]) < entries.len(),
    decreases entries.len(),
{
    if entries.len() > 0 {
        let t = entries.drop_last();
        lemma_expired_positions_exact(now, t, max_age_hours);
        let rest = expired_positions(now, t, max_age_hours);
        let r = expired_positions(now, entries, max_age_hours);
        let last = (entries.len() - 1) as usize;
        assert forall|i: int| 0 <= i < entries.len() implies
            (r.contains(i as usize) <==> entry_expired(now, #[trigger] entries[i], max_age_hours)) by {
            if i < entries.len() - 1 {
                assert(entries[i] == t[i]);
                if r.contains(i as usize) {
                    let k = choose|k: int| 0 <= k < r.len() && r[k] == i as usize;
                    if k < rest.len() {
                        assert(r[k] == rest[k]);
                    }
                }
                if rest.contains(i as usize) {
                    let k = choose|k: int| 0 <= k < rest.len() && rest[k] == i as usize;
                    assert(r[k] == rest[k]);
                }
            } else {
                if entry_expired(now, entries.last(), max_age_hours) {
                    assert(r[r.len() - 1] == last);
                } else {
                    if r.contains(i as usize) {
                        let k = choose|k: int| 0 <= k < r.len() && r[k] == i as usize;
                        assert(r[k] == rest[k]);
                    }
                }
            }
        }
        assert forall|k: int| 0 <= k < r.len() implies (#[trigger] r[k]) < entries.len() by {
            if k < rest.len() {
                assert(r[k] == rest[k]);
            }
        }
    }
}

/// The clean-up removes exactly the old entries: an entry is chosen if and
/// only if its modification time was read and it is more than the limit's
/// hours old, for every limit; nothing outside the list is chosen.
pub proof fn lemma_cleanup_selects_exactly_the_old(now: Timestamp, entries: Seq<Option<Timestamp>>, max_age_hours: u64)
    requires
        entries.len() <= usize::MAX,
    ensures
        forall|i: int| 0 <= i < entries.len() ==>
            (expired_positions(now, entries, max_age_hours).contains(i as usize)
                <==> match #[trigger] entries[i] {
                    Some(t) => (now.secs - t.secs) * 1_000_000_000 + (now.nanos - t.nanos)
                        > max_age_hours * 3_600_000_000_000,
                    None => false,
                }),
        forall|k: int| 0 <= k < expired_positions(now, entries, max_age_hours).len() ==>
            (#[trigger] expired_positions(now, entries, max_age_hours)[k]) < entries.len(),
{
    lemma_expired_positions_exact(now, entries, max_age_hours);
}

/// Whether one file is old enough to go: exactly when the nanoseconds
/// since its modification exceed the limit in hours times
/// 3 600 000 000 000, whatever the limit.
pub proof fn lemma_expiry_is_exact_age(now: Timestamp, modified: Timestamp, max_age_hours: u64)
    ensures
        older_than(now, modified, max_age_hours) <==> (now.secs - modified.secs) * 1_000_000_000
            + (now.nanos - modified.nanos) > max_age_hours * 3_600_000_000_000,
{
}

} // verus!
