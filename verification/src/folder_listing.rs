//! The folder level shown by the glob explorer from its cache: the cached
//! entries whose names match the pattern (case-insensitively), most files
//! first, entries with equal counts in cache order, and their file total.
use vstd::prelude::*;
use crate::discover::FsEntry;
use crate::file_filters::{glob_match_name, name_matches};
use crate::text::{to_lowercase, unicode_lower};

verus! {

/// An entry is shown under the pattern: every entry when the pattern is
/// empty, else those whose lowercased name matches the lowercased pattern.
pub open spec fn entry_shown(e: FsEntry, pattern: Seq<char>) -> bool {
    pattern.len() == 0 || name_matches(unicode_lower(e.name_spec()), unicode_lower(pattern))
}

/// Positions below `n` of the entries shown, in cache order.
pub open spec fn shown_upto(entries: Seq<FsEntry>, pattern: Seq<char>, n: int) -> Seq<usize>
    decreases n,
{
    if n <= 0 {
        Seq::empty()
    } else {
        let rest = shown_upto(entries, pattern, n - 1);
        if entry_shown(entries[n - 1], pattern) {
            rest.push((n - 1) as usize)
        } else {
            rest
        }
    }
}

/// File count of the entry at a position.
pub open spec fn count_at(entries: Seq<FsEntry>, i: usize) -> nat {
    entries[i as int].count_spec() as nat
}

/// First position `k` or later in `order` whose entry has fewer files than
/// `c`; the end when there is none.
pub open spec fn first_smaller_from(entries: Seq<FsEntry>, order: Seq<usize>, c: nat, k: int) -> int
    decreases order.len() - k,
{
    if k >= order.len() || k < 0 {
        order.len() as int
    } else if count_at(entries, order[k]) < c {
        k
    } else {
        first_smaller_from(entries, order, c, k + 1)
    }
}

/// `order` with `i` put before the first entry with fewer files, so that
/// it follows every entry with at least as many.
pub open spec fn insert_by_count(entries: Seq<FsEntry>, order: Seq<usize>, i: usize) -> Seq<usize> {
    order.insert(first_smaller_from(entries, order, count_at(entries, i), 0), i)
}

/// The positions `idxs` ordered by file count, most first, keeping the
/// given order among equal counts (each inserted after its equals).
pub open spec fn by_count_desc(entries: Seq<FsEntry>, idxs: Seq<usize>) -> Seq<usize>
    decreases idxs.len(),
{
    if idxs.len() == 0 {
        Seq::empty()
    } else {
        insert_by_count(entries, by_count_desc(entries, idxs.drop_last()), idxs.last())
    }
}

/// Files of the entries below `n` that are shown.
pub open spec fn shown_total(entries: Seq<FsEntry>, pattern: Seq<char>, n: int) -> nat
    decreases n,
{
    if n <= 0 {
        0
    } else {
        shown_total(entries, pattern, n - 1) + if entry_shown(entries[n - 1], pattern) {
            entries[n - 1].count_spec() as nat
        } else {
            0
        }
    }
}

proof fn lemma_shown_total_bounded(entries: Seq<FsEntry>, pattern: Seq<char>, n: int)
    ensures
        shown_total(entries, pattern, n) <= all_files(entries, n),
    decreases n,
{
    if n > 0 {
        lemma_shown_total_bounded(entries, pattern, n - 1);
    }
}

proof fn lemma_all_files_monotone(entries: Seq<FsEntry>, m: int, n: int)
    requires
        m <= n,
    ensures
        all_files(entries, m) <= all_files(entries, n),
    decreases n - m,
{
    if m < n {
        lemma_all_files_monotone(entries, m, n - 1);
    }
}

/// Files of all the entries.
pub open spec fn all_files(entries: Seq<FsEntry>, n: int) -> nat
    decreases n,
{
    if n <= 0 {
        0
    } else {
        all_files(entries, n - 1) + entries[n - 1].count_spec() as nat
    }
}

/// Counts are descending along `order`.
pub open spec fn descending(entries: Seq<FsEntry>, order: Seq<usize>) -> bool {
    forall|a: int, b: int|
        0 <= a < b < order.len() ==> count_at(entries, #[trigger] order[a]) >= count_at(
            entries,
            #[trigger] order[b],
        )
}

proof fn lemma_first_smaller(entries: Seq<FsEntry>, order: Seq<usize>, c: nat, k: int)
    requires
        0 <= k <= order.len(),
    ensures
        k <= first_smaller_from(entries, order, c, k) <= order.len(),
        forall|j: int| k <= j < first_smaller_from(entries, order, c, k) ==> count_at(entries, #[trigger] order[j]) >= c,
        first_smaller_from(entries, order, c, k) < order.len() ==> count_at(
            entries,
            order[first_smaller_from(entries, order, c, k)],
        ) < c,
    decreases order.len() - k,
{
    if k < order.len() && count_at(entries, order[k]) >= c {
        lemma_first_smaller(entries, order, c, k + 1);
    }
}

/// Law: the listing is ordered by file count, most first.
pub proof fn law_listing_descending(entries: Seq<FsEntry>, idxs: Seq<usize>)
    requires
        forall|k: int| 0 <= k < idxs.len() ==> (#[trigger] idxs[k]) < entries.len(),
    ensures
        descending(entries, by_count_desc(entries, idxs)),
        by_count_desc(entries, idxs).len() == idxs.len(),
    decreases idxs.len(),
{
    if idxs.len() > 0 {
        let init = idxs.drop_last();
        law_listing_descending(entries, init);
        let order = by_count_desc(entries, init);
        let i = idxs.last();
        let c = count_at(entries, i);
        lemma_first_smaller(entries, order, c, 0);
        let p = first_smaller_from(entries, order, c, 0);
        let r = order.insert(p, i);
        assert forall|a: int, b: int| 0 <= a < b < r.len() implies count_at(entries, #[trigger] r[a])
            >= count_at(entries, #[trigger] r[b]) by {
            if b < p {
                assert(r[a] == order[a] && r[b] == order[b]);
            } else if b == p {
                assert(r[a] == order[a]);
            } else if a == p {
                assert(r[b] == order[b - 1]);
                if p < order.len() {
                    assert(count_at(entries, order[p]) < c);
                    if b - 1 > p {
                        assert(count_at(entries, order[p]) >= count_at(entries, order[b - 1]));
                    }
                }
            } else if a < p {
                assert(r[a] == order[a] && r[b] == order[b - 1]);
            } else {
                assert(r[a] == order[a - 1] && r[b] == order[b - 1]);
            }
        }
    }
}

/// Law: the listing holds the same positions as it was given, no more and
/// no fewer.
pub proof fn law_listing_keeps_entries(entries: Seq<FsEntry>, idxs: Seq<usize>)
    ensures
        by_count_desc(entries, idxs).len() == idxs.len(),
        forall|x: usize| by_count_desc(entries, idxs).contains(x) <==> idxs.contains(x),
    decreases idxs.len(),
{
    if idxs.len() > 0 {
        let init = idxs.drop_last();
        law_listing_keeps_entries(entries, init);
        let order = by_count_desc(entries, init);
        let i = idxs.last();
        lemma_first_smaller(entries, order, count_at(entries, i), 0);
        let p = first_smaller_from(entries, order, count_at(entries, i), 0);
        let r = order.insert(p, i);
        assert forall|x: usize| r.contains(x) <==> idxs.contains(x) by {
            if r.contains(x) {
                let k = choose|k: int| 0 <= k < r.len() && r[k] == x;
                if k < p {
                    assert(order[k] == x);
                    assert(order.contains(x));
                    assert(init.contains(x));
                    let w = choose|w: int| 0 <= w < init.len() && init[w] == x;
                    assert(idxs[w] == x);
                } else if k > p {
                    assert(order[k - 1] == x);
                    assert(order.contains(x));
                    assert(init.contains(x));
                    let w = choose|w: int| 0 <= w < init.len() && init[w] == x;
                    assert(idxs[w] == x);
                } else {
                    assert(idxs[idxs.len() - 1] == x);
                }
            }
            if idxs.contains(x) {
                let w = choose|w: int| 0 <= w < idxs.len() && idxs[w] == x;
                if w == idxs.len() - 1 {
                    assert(r[p] == x);
                } else {
                    assert(init[w] == x);
                    assert(init.contains(x));
                    assert(order.contains(x));
                    let k = choose|k: int| 0 <= k < order.len() && order[k] == x;
                    if k < p {
                        assert(r[k] == x);
                    } else {
                        assert(r[k + 1] == x);
                    }
                }
            }
        }
    }
}

/// Position in `order` before which an entry with `c` files goes.
fn first_smaller(entries: &Vec<FsEntry>, order: &Vec<usize>, c: usize) -> (r: usize)
    requires
        forall|k: int| 0 <= k < order.len() ==> (#[trigger] order@[k]) < entries.len(),
    ensures
        r == first_smaller_from(entries@, order@, c as nat, 0),
{
    let mut k: usize = 0;
    while k < order.len() && entries[order[k]].file_count() >= c
        invariant
            k <= order.len(),
            forall|j: int| 0 <= j < order.len() ==> (#[trigger] order@[j]) < entries.len(),
            first_smaller_from(entries@, order@, c as nat, 0) == first_smaller_from(
                entries@,
                order@,
                c as nat,
                k as int,
            ),
        decreases order.len() - k,
    {
        k += 1;
    }
    k
}

/// The cached entries shown under `pattern`, as positions in the cache
/// ordered by file count (most first, cache order among equals), and the
/// total of their file counts.
pub fn folder_listing(entries: &Vec<FsEntry>, pattern: &str) -> (r: (Vec<usize>, usize))
    requires
        all_files(entries@, entries@.len() as int) <= usize::MAX,
    ensures
        r.0@ == by_count_desc(entries@, shown_upto(entries@, pattern@, entries@.len() as int)),
        r.1 == shown_total(entries@, pattern@, entries@.len() as int),
{
    let lowered_pattern = to_lowercase(pattern);
    let mut order: Vec<usize> = Vec::new();
    let mut total: usize = 0;
    let mut i: usize = 0;
    while i < entries.len()
        invariant
            i <= entries.len(),
            lowered_pattern@ == unicode_lower(pattern@),
            order@ == by_count_desc(entries@, shown_upto(entries@, pattern@, i as int)),
            forall|k: int| 0 <= k < order.len() ==> (#[trigger] order@[k]) < i,
            total == shown_total(entries@, pattern@, i as int),
            all_files(entries@, entries@.len() as int) <= usize::MAX,
        decreases entries.len() - i,
    {
        let shown = if pattern.is_empty() {
            true
        } else {
            let lowered_name = to_lowercase(entries[i].name());
            glob_match_name(lowered_name.as_str(), lowered_pattern.as_str())
        };
        proof {
            lemma_shown_total_bounded(entries@, pattern@, i + 1);
            lemma_all_files_monotone(entries@, i + 1, entries@.len() as int);
        }
        if shown {
            total = total + entries[i].file_count();
            let p = first_smaller(entries, &order, entries[i].file_count());
            let ghost prev = order@;
            proof {
                let s = shown_upto(entries@, pattern@, i + 1);
                assert(s.drop_last() == shown_upto(entries@, pattern@, i as int));
                assert(s.last() == i);
                lemma_first_smaller(entries@, order@, entries@[i as int].count_spec() as nat, 0);
            }
            order.insert(p, i);
            proof {
                assert forall|k: int| 0 <= k < order.len() implies (#[trigger] order@[k]) < i + 1 by {
                    if k < p {
                        assert(order@[k] == prev[k]);
                    } else if k > p {
                        assert(order@[k] == prev[k - 1]);
                    }
                }
            }
        }
        i += 1;
    }
    (order, total)
}

} // verus!
