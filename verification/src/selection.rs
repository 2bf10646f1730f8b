//! Stable sorted selections of list rows.
//!
//! A selection picks the rows `i < n` for which `sel(i)` holds and orders
//! them by a two-part key, ties broken by the original row order (which is
//! what a stable sort gives). Such an ordering is unique, so it can be named.
use vstd::prelude::*;

verus! {

/// Row `ia` with key `a` comes before row `ib` with key `b`.
pub open spec fn key_before(a: (int, int), ia: int, b: (int, int), ib: int) -> bool {
    ||| a.0 < b.0
    ||| (a.0 == b.0 && a.1 < b.1)
    ||| (a.0 == b.0 && a.1 == b.1 && ia < ib)
}

/// `s` lists exactly the selected rows below `n`, in key order.
pub open spec fn is_sorted_selection(
    s: Seq<usize>,
    n: nat,
    sel: spec_fn(int) -> bool,
    key: spec_fn(int) -> (int, int),
) -> bool {
    &&& forall|p: int| 0 <= p < s.len() ==> #[trigger] s[p] < n && sel(s[p] as int)
    &&& forall|i: int| 0 <= i < n && sel(i) ==> #[trigger] s.contains(i as usize)
    &&& forall|p: int, q: int|
        0 <= p < q < s.len() ==> key_before(key(s[p] as int), s[p] as int, key(s[q] as int), s[q] as int)
}

/// The selection, named. (It exists and is unique: see the lemmas below.)
pub open spec fn sorted_selection(n: nat, sel: spec_fn(int) -> bool, key: spec_fn(int) -> (int, int)) -> Seq<usize> {
    choose|s: Seq<usize>| is_sorted_selection(s, n, sel, key)
}

/// Number of selected rows below `n`.
pub open spec fn selected_count(n: nat, sel: spec_fn(int) -> bool) -> nat
    decreases n,
{
    if n == 0 {
        0
    } else {
        selected_count((n - 1) as nat, sel) + if sel(n - 1) {
            1nat
        } else {
            0nat
        }
    }
}

/// Two sorted selections of the same rows are the same sequence.
pub proof fn lemma_sorted_selection_unique(
    s1: Seq<usize>,
    s2: Seq<usize>,
    n: nat,
    sel: spec_fn(int) -> bool,
    key: spec_fn(int) -> (int, int),
)
    requires
        is_sorted_selection(s1, n, sel, key),
        is_sorted_selection(s2, n, sel, key),
    ensures
        s1 == s2,
{
    assert forall|p: int| 0 <= p < s1.len() && p < s2.len() implies s1[p] == s2[p] by {
        lemma_sorted_selection_agree_upto(s1, s2, n, sel, key, p);
    }
    if s1.len() != s2.len() {
        if s1.len() > s2.len() {
            lemma_selection_not_longer(s1, s2, n, sel, key);
        } else {
            lemma_selection_not_longer(s2, s1, n, sel, key);
        }
    }
    assert(s1 =~= s2);
}

proof fn lemma_sorted_selection_agree_upto(
    s1: Seq<usize>,
    s2: Seq<usize>,
    n: nat,
    sel: spec_fn(int) -> bool,
    key: spec_fn(int) -> (int, int),
    p: int,
)
    requires
        is_sorted_selection(s1, n, sel, key),
        is_sorted_selection(s2, n, sel, key),
        0 <= p < s1.len(),
        p < s2.len(),
    ensures
        s1[p] == s2[p],
    decreases p,
{
    if p > 0 {
        lemma_sorted_selection_agree_upto(s1, s2, n, sel, key, p - 1);
    }
    assert forall|r: int| 0 <= r < p implies s1[r] == s2[r] by {
        lemma_sorted_selection_agree_upto(s1, s2, n, sel, key, r);
    }
    // s1[p] appears in s2 at some position q >= p, and vice versa.
    let a = s1[p];
    let b = s2[p];
    assert(sel(a as int) && (a as int) < n);
    assert(s2.contains((a as int) as usize));
    let q = choose|q: int| 0 <= q < s2.len() && s2[q] == a;
    assert(s1.contains((b as int) as usize));
    let q2 = choose|q: int| 0 <= q < s1.len() && s1[q] == b;
    if q < p {
        // s2[q] == s1[q] == a == s1[p] with q < p: impossible in a strict order
        assert(key_before(key(s1[q] as int), s1[q] as int, key(s1[p] as int), s1[p] as int));
    }
    if q2 < p {
        assert(key_before(key(s2[q2] as int), s2[q2] as int, key(s2[p] as int), s2[p] as int));
    }
    if q > p && q2 > p {
        assert(key_before(key(s2[p] as int), s2[p] as int, key(s2[q] as int), s2[q] as int));
        assert(key_before(key(s1[p] as int), s1[p] as int, key(s1[q2] as int), s1[q2] as int));
    }
}

proof fn lemma_selection_not_longer(
    long: Seq<usize>,
    short: Seq<usize>,
    n: nat,
    sel: spec_fn(int) -> bool,
    key: spec_fn(int) -> (int, int),
)
    requires
        is_sorted_selection(long, n, sel, key),
        is_sorted_selection(short, n, sel, key),
    ensures
        long.len() <= short.len(),
{
    if long.len() > short.len() {
        let m = short.len() as int;
        let a = long[m];
        assert(sel(a as int) && (a as int) < n);
        assert(short.contains((a as int) as usize));
        let q = choose|q: int| 0 <= q < short.len() && short[q] == a;
        lemma_sorted_selection_agree_upto(long, short, n, sel, key, q);
        assert(key_before(key(long[q] as int), long[q] as int, key(long[m] as int), long[m] as int));
    }
}

/// Sorts the selected rows. `keys[i]` is the key of row `i`, `picked[i]`
/// whether it is selected.
pub fn sort_selection(keys: &Vec<(i64, i128)>, picked: &Vec<bool>) -> (r: Vec<usize>)
    requires
        keys@.len() == picked@.len(),
    ensures
        is_sorted_selection(
            r@,
            keys@.len(),
            |i: int| picked@[i],
            |i: int| (keys@[i].0 as int, keys@[i].1 as int),
        ),
        r@.len() == selected_count(keys@.len(), |i: int| picked@[i]),
{
    let ghost sel = |i: int| picked@[i];
    let ghost key = |i: int| (keys@[i].0 as int, keys@[i].1 as int);
    let mut out: Vec<usize> = Vec::new();
    let mut i: usize = 0;
    while i < keys.len()
        invariant
            i <= keys@.len(),
            keys@.len() == picked@.len(),
            sel == (|i: int| picked@[i]),
            key == (|i: int| (keys@[i].0 as int, keys@[i].1 as int)),
            out@.len() == selected_count(i as nat, sel),
            forall|p: int| 0 <= p < out@.len() ==> #[trigger] out@[p] < i && sel(out@[p] as int),
            forall|j: int| 0 <= j < i && sel(j) ==> #[trigger] out@.contains(j as usize),
            forall|p: int, q: int|
                0 <= p < q < out@.len() ==> key_before(
                    key(out@[p] as int),
                    out@[p] as int,
                    key(out@[q] as int),
                    out@[q] as int,
                ),
        decreases keys@.len() - i,
    {
        if picked[i] {
            let (k0, k1) = keys[i];
            // first position whose row comes after row i
            let mut pos: usize = 0;
            while pos < out.len()
                invariant
                    pos <= out@.len(),
                    i < keys@.len(),
                    keys@.len() == picked@.len(),
                    key == (|i: int| (keys@[i].0 as int, keys@[i].1 as int)),
                    (k0, k1) == keys@[i as int],
                    forall|p: int| 0 <= p < out@.len() ==> #[trigger] out@[p] < i,
                    forall|p: int|
                        0 <= p < pos ==> key_before(
                            key(#[trigger] out@[p] as int),
                            out@[p] as int,
                            key(i as int),
                            i as int,
                        ),
                ensures
                    pos <= out@.len(),
                    forall|p: int|
                        0 <= p < pos ==> key_before(
                            key(#[trigger] out@[p] as int),
                            out@[p] as int,
                            key(i as int),
                            i as int,
                        ),
                    pos < out@.len() ==> key_before(
                        key(i as int),
                        i as int,
                        key(out@[pos as int] as int),
                        out@[pos as int] as int,
                    ),
                decreases out@.len() - pos,
            {
                let o = out[pos];
                let (o0, o1) = keys[o];
                if k0 < o0 || (k0 == o0 && k1 < o1) {
                    break;
                }
                pos += 1;
            }
            let ghost before = out@;
            out.insert(pos, i);
            proof {
                assert forall|p: int| 0 <= p < out@.len() implies #[trigger] out@[p] < i + 1 && sel(
                    out@[p] as int,
                ) by {
                    if p < pos {
                        assert(out@[p] == before[p]);
                    } else if p > pos {
                        assert(out@[p] == before[p - 1]);
                    }
                }
                assert forall|j: int| 0 <= j < i + 1 && sel(j) implies #[trigger] out@.contains(
                    j as usize,
                ) by {
                    if j < i {
                        assert(before.contains(j as usize));
                        let p = choose|p: int| 0 <= p < before.len() && before[p] == j as usize;
                        if p < pos {
                            assert(out@[p] == before[p]);
                        } else {
                            assert(out@[p + 1] == before[p]);
                        }
                    } else {
                        assert(out@[pos as int] == i);
                    }
                }
                assert forall|p: int, q: int| 0 <= p < q < out@.len() implies key_before(
                    key(out@[p] as int),
                    out@[p] as int,
                    key(out@[q] as int),
                    out@[q] as int,
                ) by {
                    if q < pos {
                        assert(out@[p] == before[p] && out@[q] == before[q]);
                    } else if q == pos {
                        assert(out@[p] == before[p]);
                    } else if p < pos {
                        assert(out@[p] == before[p] && out@[q] == before[q - 1]);
                        // before[p] < row i < before[q - 1]
                        if pos < before.len() {
                            assert(out@[pos + 1] == before[pos as int]);
                        }
                    } else if p == pos {
                        assert(out@[q] == before[q - 1]);
                        assert(pos < before.len());
                        assert(out@[pos + 1] == before[pos as int]);
                    } else {
                        assert(out@[p] == before[p - 1] && out@[q] == before[q - 1]);
                    }
                }
            }
        }
        i += 1;
    }
    out
}


/// A sorted selection only depends on the selection and keys of rows below
/// `n`; the one that satisfies the definition is the named one.
pub proof fn lemma_selection_transfer(
    s: Seq<usize>,
    n: nat,
    sel1: spec_fn(int) -> bool,
    key1: spec_fn(int) -> (int, int),
    sel2: spec_fn(int) -> bool,
    key2: spec_fn(int) -> (int, int),
)
    requires
        is_sorted_selection(s, n, sel1, key1),
        forall|i: int| #![trigger sel2(i)] #![trigger key2(i)] 0 <= i < n ==> sel1(i) == sel2(i) && key1(i) == key2(i),
    ensures
        is_sorted_selection(s, n, sel2, key2),
        sorted_selection(n, sel2, key2) == s,
{
    assert forall|p: int, q: int| 0 <= p < q < s.len() implies key_before(
        key2(s[p] as int),
        s[p] as int,
        key2(s[q] as int),
        s[q] as int,
    ) by {
        assert(key1(s[p] as int) == key2(s[p] as int));
        assert(key1(s[q] as int) == key2(s[q] as int));
    }
    assert(is_sorted_selection(s, n, sel2, key2));
    let c = sorted_selection(n, sel2, key2);
    assert(is_sorted_selection(c, n, sel2, key2));
    lemma_sorted_selection_unique(c, s, n, sel2, key2);
}

/// The count of selected rows only depends on rows below `n`.
pub proof fn lemma_selected_count_transfer(n: nat, sel1: spec_fn(int) -> bool, sel2: spec_fn(int) -> bool)
    requires
        forall|i: int| #![trigger sel2(i)] 0 <= i < n ==> sel1(i) == sel2(i),
    ensures
        selected_count(n, sel1) == selected_count(n, sel2),
    decreases n,
{
    if n > 0 {
        lemma_selected_count_transfer((n - 1) as nat, sel1, sel2);
    }
}

} // verus!
