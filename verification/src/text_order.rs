//! The order of strings: lexicographic by character code, which is also the
//! order of their UTF-8 bytes. Sorting lists of strings, and keeping a list
//! sorted without repeats.
use vstd::prelude::*;
use crate::text::{owned, str_chars, strings_view};

verus! {

/// `a` comes before `b`: at the first place they differ `a` has the smaller
/// character, or `a` is a proper prefix of `b`.
pub open spec fn chars_lt(a: Seq<char>, b: Seq<char>) -> bool
    decreases a.len(),
{
    if a.len() == 0 {
        b.len() > 0
    } else if b.len() == 0 {
        false
    } else if a[0] != b[0] {
        (a[0] as int) < (b[0] as int)
    } else {
        chars_lt(a.drop_first(), b.drop_first())
    }
}

pub proof fn lemma_lt_irreflexive(a: Seq<char>)
    ensures
        !chars_lt(a, a),
    decreases a.len(),
{
    if a.len() > 0 {
        lemma_lt_irreflexive(a.drop_first());
    }
}

pub proof fn lemma_lt_asymmetric(a: Seq<char>, b: Seq<char>)
    ensures
        chars_lt(a, b) ==> !chars_lt(b, a),
    decreases a.len(),
{
    if a.len() > 0 && b.len() > 0 && a[0] == b[0] {
        lemma_lt_asymmetric(a.drop_first(), b.drop_first());
    }
}

pub proof fn lemma_lt_transitive(a: Seq<char>, b: Seq<char>, c: Seq<char>)
    ensures
        chars_lt(a, b) && chars_lt(b, c) ==> chars_lt(a, c),
    decreases a.len(),
{
    if a.len() > 0 && b.len() > 0 && c.len() > 0 && a[0] == b[0] && b[0] == c[0] {
        lemma_lt_transitive(a.drop_first(), b.drop_first(), c.drop_first());
    }
}

pub proof fn lemma_lt_total(a: Seq<char>, b: Seq<char>)
    ensures
        a != b ==> chars_lt(a, b) || chars_lt(b, a),
    decreases a.len(),
{
    if a.len() > 0 && b.len() > 0 && a[0] == b[0] {
        lemma_lt_total(a.drop_first(), b.drop_first());
        if a.drop_first() == b.drop_first() {
            assert forall|i: int| 0 <= i < a.len() implies a[i] == b[i] by {
                if i > 0 {
                    assert(a[i] == a.drop_first()[i - 1]);
                    assert(b[i] == b.drop_first()[i - 1]);
                }
            }
            assert(a =~= b);
        }
    } else if a.len() == 0 && b.len() == 0 {
        assert(a =~= b);
    } else if a.len() > 0 && b.len() > 0 {
        assert((a[0] as int) != (b[0] as int));
    }
}

/// Whether `a` comes before `b`.
pub fn str_lt(a: &str, b: &str) -> (r: bool)
    ensures
        r == chars_lt(a@, b@),
{
    let x = str_chars(a);
    let y = str_chars(b);
    let mut i: usize = 0;
    proof {
        assert(x@.subrange(0, x@.len() as int) =~= x@);
        assert(y@.subrange(0, y@.len() as int) =~= y@);
    }
    while i < x.len() && i < y.len()
        invariant
            x@ == a@,
            y@ == b@,
            i <= x@.len(),
            i <= y@.len(),
            chars_lt(a@, b@) == chars_lt(
                x@.subrange(i as int, x@.len() as int),
                y@.subrange(i as int, y@.len() as int),
            ),
        decreases x@.len() - i,
    {
        if x[i] != y[i] {
            return x[i] < y[i];
        }
        proof {
            let xs = x@.subrange(i as int, x@.len() as int);
            let ys = y@.subrange(i as int, y@.len() as int);
            assert(xs.drop_first() =~= x@.subrange(i + 1, x@.len() as int));
            assert(ys.drop_first() =~= y@.subrange(i + 1, y@.len() as int));
        }
        i += 1;
    }
    i < y.len()
}

/// Every string is no later than the ones after it.
pub open spec fn sorted_strings(s: Seq<Seq<char>>) -> bool {
    forall|i: int, j: int| 0 <= i < j < s.len() ==> !chars_lt(#[trigger] s[j], #[trigger] s[i])
}

/// Every string comes before the ones after it: sorted, no repeats.
pub open spec fn strictly_sorted(s: Seq<Seq<char>>) -> bool {
    forall|i: int, j: int| 0 <= i < j < s.len() ==> chars_lt(#[trigger] s[i], #[trigger] s[j])
}

/// Inserts a string before the first one that comes after it.
fn insert_sorted(v: &mut Vec<String>, t: String)
    requires
        sorted_strings(strings_view(old(v)@)),
    ensures
        sorted_strings(strings_view(final(v)@)),
        strings_view(final(v)@).to_multiset() == strings_view(old(v)@).to_multiset().insert(t@),
{
    let ghost old_view = strings_view(v@);
    let mut j: usize = 0;
    while j < v.len() && !str_lt(t.as_str(), v[j].as_str())
        invariant
            j <= v@.len(),
            strings_view(v@) == old_view,
            forall|k: int| 0 <= k < j ==> !chars_lt(t@, #[trigger] old_view[k]),
        decreases v@.len() - j,
    {
        proof {
            assert(old_view[j as int] == v@[j as int]@);
        }
        j += 1;
    }
    proof {
        if j < v@.len() {
            assert(old_view[j as int] == v@[j as int]@);
        }
    }
    let ghost tv = t@;
    v.insert(j, t);
    proof {
        let nv = strings_view(v@);
        assert(nv =~= old_view.insert(j as int, tv));
        assert forall|a: int, b: int| 0 <= a < b < nv.len() implies !chars_lt(
            #[trigger] nv[b],
            #[trigger] nv[a],
        ) by {
            if a < j && b == j {
            } else if a == j && b > j {
                // nv[b] == old_view[b - 1]; t comes before old_view[j]
                let m = b - 1;
                assert(chars_lt(tv, old_view[j as int]));
                if chars_lt(old_view[m], tv) {
                    lemma_lt_transitive(old_view[m], tv, old_view[j as int]);
                    if m == j {
                        lemma_lt_irreflexive(old_view[m]);
                    }
                }
            } else if a < j && b < j {
                assert(nv[a] == old_view[a] && nv[b] == old_view[b]);
            } else if a < j && b > j {
                assert(nv[a] == old_view[a] && nv[b] == old_view[b - 1]);
            } else {
                assert(nv[a] == old_view[a - 1] && nv[b] == old_view[b - 1]);
            }
        }
        vstd::seq_lib::to_multiset_insert(old_view, j as int, tv);
    }
}

/// The strings sorted; equal strings keep their order.
pub fn sort_strings(items: &Vec<String>) -> (r: Vec<String>)
    ensures
        sorted_strings(strings_view(r@)),
        strings_view(r@).to_multiset() == strings_view(items@).to_multiset(),
{
    let mut out: Vec<String> = Vec::new();
    let mut i: usize = 0;
    proof {
        assert(strings_view(items@).subrange(0, 0) =~= Seq::<Seq<char>>::empty());
        assert(strings_view(out@) =~= Seq::<Seq<char>>::empty());
    }
    while i < items.len()
        invariant
            i <= items@.len(),
            sorted_strings(strings_view(out@)),
            strings_view(out@).to_multiset() == strings_view(items@).subrange(
                0,
                i as int,
            ).to_multiset(),
        decreases items@.len() - i,
    {
        let t = owned(items[i].as_str());
        insert_sorted(&mut out, t);
        proof {
            let s = strings_view(items@);
            assert(s.subrange(0, i + 1) =~= s.subrange(0, i as int).push(s[i as int]));
            vstd::seq_lib::to_multiset_build(s.subrange(0, i as int), s[i as int]);
        }
        i += 1;
    }
    proof {
        assert(strings_view(items@).subrange(0, items@.len() as int) =~= strings_view(items@));
    }
    out
}

/// Adds a string to a list sorted without repeats, keeping it so.
pub fn insert_distinct(v: &mut Vec<String>, t: &str)
    requires
        strictly_sorted(strings_view(old(v)@)),
    ensures
        strictly_sorted(strings_view(final(v)@)),
        strings_view(final(v)@).to_set() == strings_view(old(v)@).to_set().insert(t@),
{
    let ghost old_view = strings_view(v@);
    let mut j: usize = 0;
    while j < v.len() && str_lt(v[j].as_str(), t)
        invariant
            j <= v@.len(),
            strings_view(v@) == old_view,
            forall|k: int| 0 <= k < j ==> chars_lt(#[trigger] old_view[k], t@),
        decreases v@.len() - j,
    {
        proof {
            assert(old_view[j as int] == v@[j as int]@);
        }
        j += 1;
    }
    if j < v.len() && crate::text::str_eq(v[j].as_str(), t) {
        proof {
            assert(old_view[j as int] == t@);
            assert(old_view.to_set().insert(t@) =~= old_view.to_set());
        }
        return;
    }
    proof {
        if j < v@.len() {
            assert(old_view[j as int] == v@[j as int]@);
            lemma_lt_total(old_view[j as int], t@);
        }
    }
    v.insert(j, owned(t));
    proof {
        let nv = strings_view(v@);
        assert(nv =~= old_view.insert(j as int, t@));
        assert forall|a: int, b: int| 0 <= a < b < nv.len() implies chars_lt(
            #[trigger] nv[a],
            #[trigger] nv[b],
        ) by {
            if a < j && b == j {
            } else if a == j && b > j {
                let m = b - 1;
                assert(chars_lt(t@, old_view[j as int]));
                if m > j {
                    lemma_lt_transitive(t@, old_view[j as int], old_view[m]);
                }
            } else if a < j && b < j {
                assert(nv[a] == old_view[a] && nv[b] == old_view[b]);
            } else if a < j && b > j {
                assert(nv[a] == old_view[a] && nv[b] == old_view[b - 1]);
            } else {
                assert(nv[a] == old_view[a - 1] && nv[b] == old_view[b - 1]);
            }
        }
        assert forall|x: Seq<char>| nv.to_set().contains(x) <==> old_view.to_set().insert(
            t@,
        ).contains(x) by {
            if nv.contains(x) {
                let k = choose|k: int| 0 <= k < nv.len() && nv[k] == x;
                if k < j {
                    assert(old_view[k] == x);
                } else if k > j {
                    assert(old_view[k - 1] == x);
                }
            }
            if old_view.contains(x) {
                let k = choose|k: int| 0 <= k < old_view.len() && old_view[k] == x;
                if k < j {
                    assert(nv[k] == x);
                } else {
                    assert(nv[k + 1] == x);
                }
            }
            if x == t@ {
                assert(nv[j as int] == x);
            }
        }
        assert(nv.to_set() =~= old_view.to_set().insert(t@));
    }
}

} // verus!
