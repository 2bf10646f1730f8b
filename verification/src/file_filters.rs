//! Matching file names against simple patterns, and turning glob patterns
//! into SQL `LIKE` patterns.
use vstd::prelude::*;
use crate::flow_steps::{replace_all, replace_str};
use crate::text::{
    chars_contains, chars_ends_with, chars_starts_with, ends_with, seq_contains, starts_with,
    str_chars, string_from_chars,
};

verus! {

/// `s` without the character `c`.
pub open spec fn remove_char(s: Seq<char>, c: char) -> Seq<char>
    decreases s.len(),
{
    if s.len() == 0 {
        s
    } else if s.last() == c {
        remove_char(s.drop_last(), c)
    } else {
        remove_char(s.drop_last(), c).push(s.last())
    }
}

/// How often `c` occurs in `s`.
pub open spec fn count_char(s: Seq<char>, c: char) -> nat
    decreases s.len(),
{
    if s.len() == 0 {
        0
    } else {
        count_char(s.drop_last(), c) + if s.last() == c {
            1nat
        } else {
            0
        }
    }
}

fn remove_and_count(s: &[char], c: char) -> (r: (Vec<char>, usize))
    ensures
        r.0@ == remove_char(s@, c),
        r.1 == count_char(s@, c),
{
    let mut out: Vec<char> = Vec::new();
    let mut n: usize = 0;
    let mut i: usize = 0;
    proof {
        assert(s@.subrange(0, 0) =~= Seq::<char>::empty());
    }
    while i < s.len()
        invariant
            i <= s@.len(),
            out@ == remove_char(s@.subrange(0, i as int), c),
            n == count_char(s@.subrange(0, i as int), c),
            n <= i,
        decreases s@.len() - i,
    {
        proof {
            assert(s@.subrange(0, i + 1).drop_last() =~= s@.subrange(0, i as int));
            assert(s@.subrange(0, i + 1).last() == s@[i as int]);
        }
        if s[i] == c {
            n += 1;
        } else {
            out.push(s[i]);
        }
        i += 1;
    }
    proof {
        assert(s@.subrange(0, s@.len() as int) =~= s@);
    }
    (out, n)
}

/// Position of the first `*`, when there is one.
pub open spec fn first_star(p: Seq<char>, k: int) -> bool {
    &&& 0 <= k < p.len()
    &&& p[k] == '*'
    &&& forall|j: int| 0 <= j < k ==> p[j] != '*'
}

/// Whether a file name matches a simple pattern: `*.ext` by its ending,
/// `prefix*` by its beginning, `a*b` (one star) by both, a pattern with
/// more stars by containing it without its stars, and a pattern without
/// stars by containing it.
pub open spec fn name_matches(name: Seq<char>, pattern: Seq<char>) -> bool {
    if starts_with(pattern, seq!['*', '.']) {
        ends_with(name, pattern.drop_first())
    } else if pattern.len() > 0 && pattern.last() == '*' {
        starts_with(name, pattern.drop_last())
    } else if pattern.contains('*') {
        if count_char(pattern, '*') == 1 {
            let k = choose|k: int| first_star(pattern, k);
            starts_with(name, pattern.subrange(0, k)) && ends_with(
                name,
                pattern.subrange(k + 1, pattern.len() as int),
            )
        } else {
            seq_contains(name, remove_char(pattern, '*'))
        }
    } else {
        seq_contains(name, pattern)
    }
}

/// Whether a file name matches a simple pattern (see `name_matches`).
pub fn glob_match_name(name: &str, pattern: &str) -> (r: bool)
    ensures
        r == name_matches(name@, pattern@),
{
    let n = str_chars(name);
    let p = str_chars(pattern);
    let star_dot = [('*'), ('.')];
    proof {
        assert(star_dot@ =~= seq!['*', '.']);
    }
    if chars_starts_with(p.as_slice(), &star_dot) {
        let ext = crate::text::slice_chars(p.as_slice(), 1, p.len());
        proof {
            assert(ext@ =~= p@.drop_first());
        }
        return chars_ends_with(n.as_slice(), ext.as_slice());
    }
    if p.len() > 0 && p[p.len() - 1] == '*' {
        let prefix = crate::text::slice_chars(p.as_slice(), 0, p.len() - 1);
        proof {
            assert(prefix@ =~= p@.drop_last());
        }
        return chars_starts_with(n.as_slice(), prefix.as_slice());
    }
    let mut k: usize = 0;
    while k < p.len() && p[k] != '*'
        invariant
            k <= p@.len(),
            forall|j: int| 0 <= j < k ==> p@[j] != '*',
        decreases p@.len() - k,
    {
        k += 1;
    }
    if k == p.len() {
        proof {
            if p@.contains('*') {
                let j = choose|j: int| 0 <= j < p@.len() && p@[j] == '*';
                assert(p@[j] != '*');
            }
        }
        return chars_contains(n.as_slice(), p.as_slice());
    }
    proof {
        assert(first_star(p@, k as int));
        assert(p@.contains('*'));
        let c = choose|c: int| first_star(p@, c);
        assert(c == k);
    }
    let (stripped, stars) = remove_and_count(p.as_slice(), '*');
    if stars == 1 {
        let before = crate::text::slice_chars(p.as_slice(), 0, k);
        let after = crate::text::slice_chars(p.as_slice(), k + 1, p.len());
        chars_starts_with(n.as_slice(), before.as_slice()) && chars_ends_with(
            n.as_slice(),
            after.as_slice(),
        )
    } else {
        chars_contains(n.as_slice(), stripped.as_slice())
    }
}

/// The `LIKE` form of glob text: `*` and `%` stand for any run, `?` for one
/// character, `_` is escaped, and a backslash takes the next character as
/// it is (a final backslash is dropped).
pub open spec fn like_of(s: Seq<char>) -> Seq<char>
    decreases s.len(),
{
    if s.len() == 0 {
        s
    } else if s[0] == '*' || s[0] == '%' {
        seq!['%'] + like_of(s.drop_first())
    } else if s[0] == '?' {
        seq!['_'] + like_of(s.drop_first())
    } else if s[0] == '_' {
        seq!['\\', '_'] + like_of(s.drop_first())
    } else if s[0] == '\\' {
        if s.len() >= 2 {
            seq![s[1]] + like_of(s.subrange(2, s.len() as int))
        } else {
            Seq::empty()
        }
    } else {
        seq![s[0]] + like_of(s.drop_first())
    }
}

/// The `LIKE` pattern of a glob: `**/` is dropped, `**` becomes `%`, then
/// the rest as `like_of` says.
pub open spec fn glob_like(glob: Seq<char>) -> Seq<char> {
    like_of(replace_all(replace_all(glob, seq!['*', '*', '/'], Seq::empty()), seq!['*', '*'], seq!['%']))
}

fn like_chars(s: &[char]) -> (r: Vec<char>)
    ensures
        r@ == like_of(s@),
{
    let mut out: Vec<char> = Vec::new();
    let mut i: usize = 0;
    proof {
        assert(s@.subrange(0, s@.len() as int) =~= s@);
        assert(Seq::<char>::empty() + like_of(s@) =~= like_of(s@));
    }
    while i < s.len()
        invariant
            i <= s@.len(),
            out@ + like_of(s@.subrange(i as int, s@.len() as int)) == like_of(s@),
        decreases s@.len() - i,
    {
        let ghost rest = s@.subrange(i as int, s@.len() as int);
        let ghost before = out@;
        let c = s[i];
        proof {
            assert(rest[0] == c);
            assert(rest.drop_first() =~= s@.subrange(i + 1, s@.len() as int));
        }
        if c == '*' || c == '%' {
            out.push('%');
            i += 1;
        } else if c == '?' {
            out.push('_');
            i += 1;
        } else if c == '_' {
            out.push('\\');
            out.push('_');
            i += 1;
        } else if c == '\\' {
            if i + 1 < s.len() {
                out.push(s[i + 1]);
                proof {
                    assert(rest[1] == s@[i + 1]);
                    assert(rest.subrange(2, rest.len() as int) =~= s@.subrange(
                        i + 2,
                        s@.len() as int,
                    ));
                }
                i += 2;
            } else {
                proof {
                    assert(s@.subrange(s@.len() as int, s@.len() as int) =~= Seq::<char>::empty());
                }
                i += 1;
            }
        } else {
            out.push(c);
            i += 1;
        }
        proof {
            assert(out@ + like_of(s@.subrange(i as int, s@.len() as int)) =~= before + like_of(
                rest,
            ));
        }
    }
    proof {
        assert(out@ + like_of(Seq::<char>::empty()) =~= out@);
        assert(s@.subrange(i as int, s@.len() as int) =~= Seq::<char>::empty());
    }
    out
}

/// The `LIKE` pattern of a glob (see `glob_like`).
pub fn glob_to_like_pattern(glob: &str) -> (r: String)
    ensures
        r@ == glob_like(glob@),
{
    proof {
        reveal_strlit("**/");
        reveal_strlit("");
        reveal_strlit("**");
        reveal_strlit("%");
        assert("**/"@ =~= seq!['*', '*', '/']);
        assert(""@ =~= Seq::<char>::empty());
        assert("**"@ =~= seq!['*', '*']);
        assert("%"@ =~= seq!['%']);
    }
    let a = replace_str(glob, "**/", "");
    let b = replace_str(a.as_str(), "**", "%");
    let chars = str_chars(b.as_str());
    let out = like_chars(chars.as_slice());
    string_from_chars(out.as_slice())
}

} // verus!
