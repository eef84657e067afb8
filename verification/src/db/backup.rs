//! Backups of the database: how they are named, in what order they are
//! listed and which of them are thrown away.

use crate::paths::{extension, has_extension};
use crate::text::{push_text, string_of};
use vstd::prelude::*;

verus! {

/// How many backups are kept.
pub const KEPT_BACKUPS: usize = 10;

/// The name of the backup taken at the moment `timestamp`.
pub open spec fn backup_name(timestamp: Seq<char>) -> Seq<char> {
    "cache_backup_"@ + timestamp + ".db"@
}

/// The name of the export taken at the moment `timestamp`.
pub open spec fn export_name(timestamp: Seq<char>) -> Seq<char> {
    "catalog_export_"@ + timestamp + ".json"@
}

/// Names the backup taken at the moment `timestamp`.
pub fn backup_file_name(timestamp: &str) -> (name: String)
    ensures
        name@ == backup_name(timestamp@),
{
    let mut out: Vec<char> = Vec::new();
    push_text(&mut out, "cache_backup_");
    push_text(&mut out, timestamp);
    push_text(&mut out, ".db");
    string_of(out.as_slice())
}

/// Names the export taken at the moment `timestamp`.
pub fn export_file_name(timestamp: &str) -> (name: String)
    ensures
        name@ == export_name(timestamp@),
{
    let mut out: Vec<char> = Vec::new();
    push_text(&mut out, "catalog_export_");
    push_text(&mut out, timestamp);
    push_text(&mut out, ".json");
    string_of(out.as_slice())
}

/// Tells whether a file is a backup of the database: its name ends in
/// `.db`. `is_file` is whether the path names a regular file.
pub fn is_backup_file(path: &str, is_file: bool) -> (r: bool)
    ensures
        r == (is_file && extension(path@) == Some("db"@)),
{
    is_file && has_extension(path, "db")
}

/// Whether the file at position `i` comes before the one at position `j`
/// when files are put in the order of their times of modification: older
/// first, or newer first if `newest_first`; of two files of one time, the
/// one that was found first.
pub open spec fn comes_before(times: Seq<u64>, newest_first: bool, i: int, j: int) -> bool {
    if times[i] == times[j] {
        i < j
    } else if newest_first {
        times[i] > times[j]
    } else {
        times[i] < times[j]
    }
}

/// Whether `order` lists the positions of `times`, each once, in the
/// order of their times of modification.
pub open spec fn is_ordering(times: Seq<u64>, newest_first: bool, order: Seq<usize>) -> bool {
    &&& order.len() == times.len()
    &&& forall|a: int| 0 <= a < order.len() ==> (#[trigger] order[a]) < times.len()
    &&& forall|a: int, b: int|
        0 <= a < b < order.len() ==> comes_before(
            times,
            newest_first,
            #[trigger] order[a] as int,
            #[trigger] order[b] as int,
        )
}

/// Puts files in the order of their times of modification. The result
/// lists their positions.
pub fn order_by_time(times: &[u64], newest_first: bool) -> (order: Vec<usize>)
    ensures
        is_ordering(times@, newest_first, order@),
{
    let n = times.len();
    let mut order: Vec<usize> = Vec::new();
    let mut used: Vec<bool> = Vec::new();
    let mut k: usize = 0;
    while k < n
        invariant
            k <= n,
            used@.len() == k,
            forall|i: int| 0 <= i < k ==> !(#[trigger] used@[i]),
        decreases n - k,
    {
        used.push(false);
        k += 1;
    }
    let mut count: usize = 0;
    while count < n
        invariant
            n == times@.len(),
            used@.len() == n,
            count <= n,
            order@.len() == count,
            forall|a: int| 0 <= a < count ==> (#[trigger] order@[a]) < n && used@[order@[a] as int],
            forall|i: int|
                0 <= i < n && #[trigger] used@[i] ==> exists|a: int|
                    0 <= a < count && order@[a] == i,
            forall|a: int, b: int|
                0 <= a < b < count ==> comes_before(
                    times@,
                    newest_first,
                    #[trigger] order@[a] as int,
                    #[trigger] order@[b] as int,
                ),
            forall|a: int, j: int|
                0 <= a < count && 0 <= j < n && !(#[trigger] used@[j]) ==> comes_before(
                    times@,
                    newest_first,
                    #[trigger] order@[a] as int,
                    j,
                ),
        decreases n - count,
    {
        // The used positions are as many as were listed, so one is left.
        let mut best: usize = 0;
        let mut found = false;
        let mut j: usize = 0;
        while j < n
            invariant
                n == times@.len(),
                used@.len() == n,
                j <= n,
                found ==> best < n && !used@[best as int],
                found ==> forall|i: int|
                    0 <= i < j && !(#[trigger] used@[i]) && i != best ==> comes_before(
                        times@,
                        newest_first,
                        best as int,
                        i,
                    ),
                !found ==> forall|i: int| 0 <= i < j ==> #[trigger] used@[i],
            decreases n - j,
        {
            if !used[j] {
                if !found {
                    best = j;
                    found = true;
                } else {
                    let better = if times[j] == times[best] {
                        j < best
                    } else if newest_first {
                        times[j] > times[best]
                    } else {
                        times[j] < times[best]
                    };
                    if better {
                        best = j;
                    }
                }
            }
            j += 1;
        }
        proof {
            if !found {
                assert forall|i: int| 0 <= i < n implies #[trigger] names(order@, i) by {
                    assert(used@[i]);
                }
                lemma_names_need_entries(order@, n as int);
            }
        }
        let ghost before = order@;
        order.push(best);
        used.set(best, true);
        assert forall|i: int| 0 <= i < n && #[trigger] used@[i] implies exists|a: int|
            0 <= a < count + 1 && order@[a] == i by {
            if i == best {
                assert(order@[count as int] == i);
            } else {
                let a = choose|a: int| 0 <= a < count && before[a] == i;
                assert(order@[a] == i);
            }
        }
        count += 1;
    }
    order
}

/// Whether an entry of `order` names the position `i`.
pub open spec fn names(order: Seq<usize>, i: int) -> bool {
    exists|a: int| 0 <= a < order.len() && order[a] == i
}

/// Entries that name every position below `n` are `n` at least.
proof fn lemma_names_need_entries(order: Seq<usize>, n: int)
    requires
        0 <= n,
        forall|i: int| 0 <= i < n ==> #[trigger] names(order, i),
    ensures
        order.len() >= n,
    decreases n,
{
    if n > 0 {
        assert(names(order, n - 1));
        let a = choose|a: int| 0 <= a < order.len() && order[a] == n - 1;
        let rest = order.remove(a);
        assert forall|i: int| 0 <= i < n - 1 implies #[trigger] names(rest, i) by {
            assert(names(order, i));
            let b = choose|b: int| 0 <= b < order.len() && order[b] == i;
            if b < a {
                assert(rest[b] == i);
            } else {
                assert(rest[b - 1] == i);
            }
        }
        lemma_names_need_entries(rest, n - 1);
    }
}

/// How many backups are thrown away when `count` are there and `keep` are
/// kept.
pub open spec fn surplus(count: int, keep: int) -> int {
    if count <= keep {
        0
    } else {
        count - keep
    }
}

/// Picks the backups to throw away so that `keep` are left: the oldest,
/// oldest first. `times` are the times of modification of the backups;
/// the result lists positions.
pub fn backups_to_remove(times: &[u64], keep: usize) -> (doomed: Vec<usize>)
    ensures
        doomed@.len() == surplus(times@.len() as int, keep as int),
        exists|order: Seq<usize>|
            is_ordering(times@, false, order) && doomed@ == order.take(doomed@.len() as int),
{
    if times.len() <= keep {
        let full = order_by_time(times, false);
        let doomed: Vec<usize> = Vec::new();
        assert(doomed@ == full@.take(0));
        return doomed;
    }
    let full = order_by_time(times, false);
    let n = times.len() - keep;
    let mut doomed: Vec<usize> = Vec::new();
    let mut i: usize = 0;
    while i < n
        invariant
            i <= n <= full@.len(),
            doomed@ == full@.take(i as int),
        decreases n - i,
    {
        doomed.push(full[i]);
        assert(full@.take(i + 1) == full@.take(i as int).push(full@[i as int]));
        i += 1;
    }
    doomed
}

} // verus!
