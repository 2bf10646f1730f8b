//! Character-level building blocks shared by the parsers and formatters.
//!
//! Strings are reasoned about through their view, a `Seq<char>`.
use vstd::prelude::*;

verus! {

// ---------------------------------------------------------------------------
// Character classes
// ---------------------------------------------------------------------------

pub open spec fn is_ascii_lower(c: char) -> bool {
    'a' <= c && c <= 'z'
}

pub open spec fn is_ascii_upper(c: char) -> bool {
    'A' <= c && c <= 'Z'
}

pub open spec fn is_ascii_digit(c: char) -> bool {
    '0' <= c && c <= '9'
}

/// The Unicode `White_Space` property, as `char::is_whitespace` defines it.
pub open spec fn is_unicode_whitespace(c: char) -> bool {
    let u = c as u32;
    ||| (0x09 <= u && u <= 0x0d)
    ||| u == 0x20
    ||| u == 0x85
    ||| u == 0xa0
    ||| u == 0x1680
    ||| (0x2000 <= u && u <= 0x200a)
    ||| u == 0x2028
    ||| u == 0x2029
    ||| u == 0x202f
    ||| u == 0x205f
    ||| u == 0x3000
}

pub fn char_is_ascii_lower(c: char) -> (r: bool)
    ensures
        r == is_ascii_lower(c),
{
    'a' <= c && c <= 'z'
}

pub fn char_is_ascii_digit(c: char) -> (r: bool)
    ensures
        r == is_ascii_digit(c),
{
    '0' <= c && c <= '9'
}

pub fn char_is_whitespace(c: char) -> (r: bool)
    ensures
        r == is_unicode_whitespace(c),
{
    let u = c as u32;
    (0x09 <= u && u <= 0x0d) || u == 0x20 || u == 0x85 || u == 0xa0 || u == 0x1680 || (0x2000
        <= u && u <= 0x200a) || u == 0x2028 || u == 0x2029 || u == 0x202f || u == 0x205f || u
        == 0x3000
}

/// ASCII lowercase mapping of one character (other characters unchanged).
pub open spec fn lower_char(c: char) -> char {
    if is_ascii_upper(c) {
        ((c as u32) + 32) as char
    } else {
        c
    }
}

/// ASCII uppercase mapping of one character (other characters unchanged).
pub open spec fn upper_char(c: char) -> char {
    if is_ascii_lower(c) {
        ((c as u32) - 32) as char
    } else {
        c
    }
}

pub fn char_to_ascii_lower(c: char) -> (r: char)
    ensures
        r == lower_char(c),
{
    if 'A' <= c && c <= 'Z' {
        let u: u32 = (c as u32) + 32;
        assert(0x61 <= u <= 0x7a);
        char_from_ascii(u)
    } else {
        c
    }
}

pub fn char_to_ascii_upper(c: char) -> (r: char)
    ensures
        r == upper_char(c),
{
    if 'a' <= c && c <= 'z' {
        let u: u32 = (c as u32) - 32;
        char_from_ascii(u)
    } else {
        c
    }
}

fn char_from_ascii(u: u32) -> (r: char)
    requires
        u < 128,
    ensures
        r == u as char,
        r as u32 == u,
{
    let b: u8 = u as u8;
    b as char
}

pub open spec fn lower_seq(s: Seq<char>) -> Seq<char> {
    s.map_values(|c: char| lower_char(c))
}

pub open spec fn upper_seq(s: Seq<char>) -> Seq<char> {
    s.map_values(|c: char| upper_char(c))
}

// ---------------------------------------------------------------------------
// Unicode case mapping
// ---------------------------------------------------------------------------

/// What `str::to_uppercase` returns for a string: the full Unicode uppercase
/// mapping, character by character (some characters map to several).
pub uninterp spec fn unicode_upper(s: Seq<char>) -> Seq<char>;

/// What `str::to_lowercase` returns for a string: the full Unicode lowercase
/// mapping, including the context-dependent final sigma.
pub uninterp spec fn unicode_lower(s: Seq<char>) -> Seq<char>;

/// `str::to_uppercase`. Its result is named `unicode_upper` of the input's
/// characters; the Unicode tables behind it are not restated here.
#[verifier::external_body]
pub(crate) fn to_uppercase(s: &str) -> (r: String)
    ensures
        r@ == unicode_upper(s@),
{
    s.to_uppercase()
}

/// All characters are ASCII.
pub open spec fn all_ascii(s: Seq<char>) -> bool {
    forall|i: int| 0 <= i < s.len() ==> (#[trigger] s[i] as u32) < 128
}

/// `str::to_lowercase`. Its result is named `unicode_lower` of the input's
/// characters; the Unicode tables behind it are not restated here, save
/// that on ASCII text it lowercases 'A' to 'Z' and keeps the rest (the
/// Unicode lowercase mapping of ASCII characters).
#[verifier::external_body]
pub(crate) fn to_lowercase(s: &str) -> (r: String)
    ensures
        r@ == unicode_lower(s@),
        all_ascii(s@) ==> r@ == lower_seq(s@),
{
    s.to_lowercase()
}

// ---------------------------------------------------------------------------
// Sequence predicates
// ---------------------------------------------------------------------------

/// `needle` occurs in `hay` starting at `pos`.
pub open spec fn occurs_at(hay: Seq<char>, needle: Seq<char>, pos: int) -> bool {
    0 <= pos && pos + needle.len() <= hay.len() && hay.subrange(pos, pos + needle.len()) =~= needle
}

/// `needle` occurs somewhere in `hay` (an empty needle occurs everywhere).
pub open spec fn seq_contains(hay: Seq<char>, needle: Seq<char>) -> bool {
    exists|pos: int| occurs_at(hay, needle, pos)
}

pub open spec fn starts_with(s: Seq<char>, prefix: Seq<char>) -> bool {
    prefix.len() <= s.len() && s.subrange(0, prefix.len() as int) =~= prefix
}

pub open spec fn ends_with(s: Seq<char>, suffix: Seq<char>) -> bool {
    suffix.len() <= s.len() && s.subrange(s.len() - suffix.len(), s.len() as int) =~= suffix
}

/// Index of the first character of `s` that is not whitespace (or `s.len()`).
pub open spec fn first_non_ws(s: Seq<char>) -> int
    decreases s.len(),
{
    if s.len() == 0 {
        0
    } else if is_unicode_whitespace(s[0]) {
        1 + first_non_ws(s.drop_first())
    } else {
        0
    }
}

/// Length of `s` once its trailing whitespace is removed.
pub open spec fn end_non_ws(s: Seq<char>) -> int
    decreases s.len(),
{
    if s.len() == 0 {
        0
    } else if is_unicode_whitespace(s.last()) {
        end_non_ws(s.drop_last())
    } else {
        s.len() as int
    }
}

/// `str::trim`: leading and trailing Unicode whitespace removed.
pub open spec fn trim_seq(s: Seq<char>) -> Seq<char> {
    let e = end_non_ws(s);
    s.subrange(first_non_ws(s.subrange(0, e)), e)
}

pub proof fn lemma_end_non_ws_bounds(s: Seq<char>)
    ensures
        0 <= end_non_ws(s) <= s.len(),
        forall|i: int| end_non_ws(s) <= i < s.len() ==> is_unicode_whitespace(#[trigger] s[i]),
        end_non_ws(s) > 0 ==> !is_unicode_whitespace(s[end_non_ws(s) - 1]),
    decreases s.len(),
{
    if s.len() > 0 && is_unicode_whitespace(s.last()) {
        lemma_end_non_ws_bounds(s.drop_last());
        assert forall|i: int| end_non_ws(s) <= i < s.len() implies is_unicode_whitespace(
            #[trigger] s[i],
        ) by {
            if i < s.len() - 1 {
                assert(s[i] == s.drop_last()[i]);
            }
        }
    }
}

pub proof fn lemma_first_non_ws_bounds(s: Seq<char>)
    ensures
        0 <= first_non_ws(s) <= s.len(),
        forall|i: int| 0 <= i < first_non_ws(s) ==> is_unicode_whitespace(#[trigger] s[i]),
        first_non_ws(s) < s.len() ==> !is_unicode_whitespace(s[first_non_ws(s)]),
    decreases s.len(),
{
    if s.len() > 0 && is_unicode_whitespace(s[0]) {
        lemma_first_non_ws_bounds(s.drop_first());
        assert forall|i: int| 0 <= i < first_non_ws(s) implies is_unicode_whitespace(
            #[trigger] s[i],
        ) by {
            if i > 0 {
                assert(s[i] == s.drop_first()[i - 1]);
            }
        }
        if first_non_ws(s) < s.len() {
            assert(s[first_non_ws(s)] == s.drop_first()[first_non_ws(s) - 1]);
        }
    }
}

/// A characterisation of `first_non_ws` by its defining properties.
pub proof fn lemma_first_non_ws_unique(s: Seq<char>, k: int)
    requires
        0 <= k <= s.len(),
        forall|i: int| 0 <= i < k ==> is_unicode_whitespace(#[trigger] s[i]),
        k < s.len() ==> !is_unicode_whitespace(s[k]),
    ensures
        first_non_ws(s) == k,
    decreases s.len(),
{
    if s.len() > 0 && k > 0 {
        assert(is_unicode_whitespace(s[0]));
        assert forall|i: int| 0 <= i < k - 1 implies is_unicode_whitespace(
            #[trigger] s.drop_first()[i],
        ) by {
            assert(s.drop_first()[i] == s[i + 1]);
        }
        if k - 1 < s.drop_first().len() {
            assert(s.drop_first()[k - 1] == s[k]);
        }
        lemma_first_non_ws_unique(s.drop_first(), k - 1);
    }
}

/// A characterisation of `end_non_ws` by its defining properties.
pub proof fn lemma_end_non_ws_unique(s: Seq<char>, k: int)
    requires
        0 <= k <= s.len(),
        forall|i: int| k <= i < s.len() ==> is_unicode_whitespace(#[trigger] s[i]),
        k > 0 ==> !is_unicode_whitespace(s[k - 1]),
    ensures
        end_non_ws(s) == k,
    decreases s.len(),
{
    if s.len() > 0 && k < s.len() {
        assert(is_unicode_whitespace(s[s.len() - 1]));
        assert forall|i: int| k <= i < s.len() - 1 implies is_unicode_whitespace(
            #[trigger] s.drop_last()[i],
        ) by {
            assert(s.drop_last()[i] == s[i]);
        }
        if k > 0 {
            assert(s.drop_last()[k - 1] == s[k - 1]);
        }
        lemma_end_non_ws_unique(s.drop_last(), k);
    }
}

// ---------------------------------------------------------------------------
// Conversions between `str`/`String` and character vectors
// ---------------------------------------------------------------------------

/// The characters of `s`, in order.
pub fn str_chars(s: &str) -> (v: Vec<char>)
    ensures
        v@ == s@,
{
    let mut v: Vec<char> = Vec::new();
    for c in it: s.chars()
        invariant
            v@ == it.seq().subrange(0, it.index() as int),
            it.seq() == s@,
    {
        v.push(c);
    }
    v
}

/// `String::push`: appends one character.
#[verifier::external_body]
pub(crate) fn push_char(s: &mut String, c: char)
    ensures
        final(s)@ == old(s)@.push(c),
{
    s.push(c);
}

/// A fresh `String` holding the given characters.
pub fn string_from_chars(v: &[char]) -> (s: String)
    ensures
        s@ == v@,
{
    let mut s = String::new();
    let mut i: usize = 0;
    while i < v.len()
        invariant
            i <= v.len(),
            s@ == v@.subrange(0, i as int),
        decreases v.len() - i,
    {
        push_char(&mut s, v[i]);
        i += 1;
        assert(s@ =~= v@.subrange(0, i as int));
    }
    assert(v@.subrange(0, v.len() as int) =~= v@);
    s
}

/// A fresh `String` holding the characters of `s` (the `to_string` of a `&str`).
pub fn owned(s: &str) -> (r: String)
    ensures
        r@ == s@,
{
    let v = str_chars(s);
    string_from_chars(v.as_slice())
}

/// Appends the characters of `t` to `s`.
pub fn push_str(s: &mut String, t: &str)
    ensures
        final(s)@ == old(s)@ + t@,
{
    let v = str_chars(t);
    let mut i: usize = 0;
    let ghost start = s@;
    while i < v.len()
        invariant
            i <= v.len(),
            v@ == t@,
            s@ == start + v@.subrange(0, i as int),
        decreases v.len() - i,
    {
        push_char(s, v[i]);
        i += 1;
        assert(s@ =~= start + v@.subrange(0, i as int));
    }
    assert(v@.subrange(0, v.len() as int) =~= v@);
}

/// Concatenation of two strings into a fresh `String`.
pub fn concat2(a: &str, b: &str) -> (r: String)
    ensures
        r@ == a@ + b@,
{
    let mut r = owned(a);
    push_str(&mut r, b);
    r
}

/// Concatenation of three strings into a fresh `String`.
pub fn concat3(a: &str, b: &str, c: &str) -> (r: String)
    ensures
        r@ == a@ + b@ + c@,
{
    let mut r = owned(a);
    push_str(&mut r, b);
    push_str(&mut r, c);
    r
}

/// Character-wise equality of two strings.
pub fn str_eq(a: &str, b: &str) -> (r: bool)
    ensures
        r == (a@ == b@),
{
    let va = str_chars(a);
    let vb = str_chars(b);
    chars_eq(va.as_slice(), vb.as_slice())
}

pub fn chars_eq(a: &[char], b: &[char]) -> (r: bool)
    ensures
        r == (a@ == b@),
{
    if a.len() != b.len() {
        return false;
    }
    let mut i: usize = 0;
    while i < a.len()
        invariant
            i <= a.len(),
            a.len() == b.len(),
            forall|j: int| 0 <= j < i ==> a@[j] == b@[j],
        decreases a.len() - i,
    {
        if a[i] != b[i] {
            return false;
        }
        i += 1;
    }
    assert(a@ =~= b@);
    true
}

/// Whether `needle` occurs in `hay` starting at `pos`.
pub fn chars_occur_at(hay: &[char], needle: &[char], pos: usize) -> (r: bool)
    ensures
        r == occurs_at(hay@, needle@, pos as int),
{
    if pos > hay.len() || needle.len() > hay.len() - pos {
        return false;
    }
    let mut k: usize = 0;
    while k < needle.len()
        invariant
            pos + needle.len() <= hay.len(),
            k <= needle.len(),
            forall|j: int| 0 <= j < k ==> hay@[pos + j] == needle@[j],
        decreases needle.len() - k,
    {
        if hay[pos + k] != needle[k] {
            assert(hay@.subrange(pos as int, pos + needle.len())[k as int] != needle@[k as int]);
            return false;
        }
        k += 1;
    }
    assert(hay@.subrange(pos as int, pos + needle.len()) =~= needle@);
    true
}

/// Whether `needle` occurs anywhere in `hay`.
pub fn chars_contains(hay: &[char], needle: &[char]) -> (r: bool)
    ensures
        r == seq_contains(hay@, needle@),
{
    if needle.len() > hay.len() {
        assert(!seq_contains(hay@, needle@));
        return false;
    }
    let mut pos: usize = 0;
    while pos <= hay.len() - needle.len()
        invariant
            needle.len() <= hay.len(),
            pos <= hay.len() - needle.len() + 1,
            forall|p: int| 0 <= p < pos ==> !occurs_at(hay@, needle@, p),
        decreases hay.len() - needle.len() + 1 - pos,
    {
        if chars_occur_at(hay, needle, pos) {
            return true;
        }
        pos += 1;
    }
    assert forall|p: int| !occurs_at(hay@, needle@, p) by {
        if 0 <= p < pos {
        }
    }
    false
}

/// Whether `needle` occurs anywhere in `hay` (`str::contains` on a string
/// needle).
pub fn str_contains(hay: &str, needle: &str) -> (r: bool)
    ensures
        r == seq_contains(hay@, needle@),
{
    let h = str_chars(hay);
    let n = str_chars(needle);
    chars_contains(h.as_slice(), n.as_slice())
}

pub fn chars_starts_with(s: &[char], prefix: &[char]) -> (r: bool)
    ensures
        r == starts_with(s@, prefix@),
{
    chars_occur_at(s, prefix, 0)
}

pub fn chars_ends_with(s: &[char], suffix: &[char]) -> (r: bool)
    ensures
        r == ends_with(s@, suffix@),
{
    if suffix.len() > s.len() {
        return false;
    }
    chars_occur_at(s, suffix, s.len() - suffix.len())
}

/// `str::trim` on a character vector: the bounds of the trimmed part.
pub fn trim_bounds(v: &[char]) -> (r: (usize, usize))
    ensures
        r.0 <= r.1 <= v.len(),
        v@.subrange(r.0 as int, r.1 as int) == trim_seq(v@),
{
    let mut e: usize = v.len();
    while e > 0 && char_is_whitespace(v[e - 1])
        invariant
            e <= v.len(),
            forall|i: int| e <= i < v.len() ==> is_unicode_whitespace(#[trigger] v@[i]),
        decreases e,
    {
        e -= 1;
    }
    proof {
        lemma_end_non_ws_unique(v@, e as int);
    }
    let mut b: usize = 0;
    while b < e && char_is_whitespace(v[b])
        invariant
            b <= e <= v.len(),
            forall|i: int| 0 <= i < b ==> is_unicode_whitespace(#[trigger] v@[i]),
        decreases e - b,
    {
        b += 1;
    }
    proof {
        let pre = v@.subrange(0, e as int);
        assert forall|i: int| 0 <= i < b implies is_unicode_whitespace(#[trigger] pre[i]) by {
            assert(pre[i] == v@[i]);
        }
        if b < e {
            assert(pre[b as int] == v@[b as int]);
        }
        lemma_first_non_ws_unique(pre, b as int);
    }
    (b, e)
}

/// `str::trim`, as a fresh vector of characters.
pub fn trim_chars(v: &[char]) -> (r: Vec<char>)
    ensures
        r@ == trim_seq(v@),
{
    let (b, e) = trim_bounds(v);
    slice_chars(v, b, e)
}

/// The characters `v[from..to]`.
pub fn slice_chars(v: &[char], from: usize, to: usize) -> (r: Vec<char>)
    requires
        from <= to <= v.len(),
    ensures
        r@ == v@.subrange(from as int, to as int),
{
    let mut r: Vec<char> = Vec::new();
    let mut i: usize = from;
    while i < to
        invariant
            from <= i <= to <= v.len(),
            r@ == v@.subrange(from as int, i as int),
        decreases to - i,
    {
        r.push(v[i]);
        i += 1;
        assert(r@ =~= v@.subrange(from as int, i as int));
    }
    r
}

// ---------------------------------------------------------------------------
// Decimal rendering of integers
// ---------------------------------------------------------------------------

pub open spec fn digit_char(d: nat) -> char {
    (('0' as u32) + d) as char
}

/// The decimal digits of `n`, most significant first, with no leading zeros.
pub open spec fn decimal(n: nat) -> Seq<char>
    decreases n,
{
    if n < 10 {
        seq![digit_char(n)]
    } else {
        decimal(n / 10).push(digit_char(n % 10))
    }
}

/// Decimal rendering of a signed integer (`-` before a negative value).
pub open spec fn decimal_int(n: int) -> Seq<char> {
    if n < 0 {
        seq!['-'] + decimal((-n) as nat)
    } else {
        decimal(n as nat)
    }
}

fn digit(d: u64) -> (c: char)
    requires
        d < 10,
    ensures
        c == digit_char(d as nat),
{
    let u: u32 = 48 + d as u32;
    char_from_ascii(u)
}

/// `n.to_string()` for an unsigned integer.
pub fn u64_to_decimal(n: u64) -> (s: String)
    ensures
        s@ == decimal(n as nat),
{
    let r = decimal_chars(n);
    string_from_chars(r.as_slice())
}

fn decimal_chars(n: u64) -> (r: Vec<char>)
    ensures
        r@ == decimal(n as nat),
    decreases n,
{
    if n < 10 {
        let mut v: Vec<char> = Vec::new();
        v.push(digit(n));
        assert(v@ =~= seq![digit_char(n as nat)]);
        v
    } else {
        let mut v = decimal_chars(n / 10);
        v.push(digit(n % 10));
        v
    }
}

/// `n.to_string()` for a signed integer.
pub fn i64_to_decimal(n: i64) -> (s: String)
    ensures
        s@ == decimal_int(n as int),
{
    if n < 0 {
        let m: u64 = if n == i64::MIN {
            9223372036854775808u64
        } else {
            (-n) as u64
        };
        let mut s = owned("-");
        let d = u64_to_decimal(m);
        push_str(&mut s, d.as_str());
        proof {
            reveal_strlit("-");
        }
        s
    } else {
        u64_to_decimal(n as u64)
    }
}


// ---------------------------------------------------------------------------
// Parsing decimal integers (`str::parse` for integer types)
// ---------------------------------------------------------------------------

pub open spec fn all_digits(d: Seq<char>) -> bool {
    forall|i: int| 0 <= i < d.len() ==> is_ascii_digit(#[trigger] d[i])
}

pub open spec fn digits_value(d: Seq<char>) -> nat
    decreases d.len(),
{
    if d.len() == 0 {
        0
    } else {
        digits_value(d.drop_last()) * 10 + ((d.last() as u32) - ('0' as u32)) as nat
    }
}

/// The value of an unsigned decimal literal: an optional `+`, then one or more
/// ASCII digits.
pub open spec fn unsigned_literal(s: Seq<char>) -> Option<nat> {
    let d = if s.len() > 0 && s[0] == '+' {
        s.drop_first()
    } else {
        s
    };
    if d.len() > 0 && all_digits(d) {
        Some(digits_value(d))
    } else {
        None
    }
}

/// The value of a signed decimal literal: an optional `+` or `-`, then one or
/// more ASCII digits.
pub open spec fn signed_literal(s: Seq<char>) -> Option<int> {
    if s.len() > 0 && s[0] == '-' {
        let d = s.drop_first();
        if d.len() > 0 && all_digits(d) {
            Some(-(digits_value(d) as int))
        } else {
            None
        }
    } else {
        match unsigned_literal(s) {
            Some(v) => Some(v as int),
            None => None,
        }
    }
}

pub open spec fn min_nat(a: nat, b: nat) -> nat {
    if a < b {
        a
    } else {
        b
    }
}

/// Reads a run of digits, saturating its value at `cap`.
fn digits_capped(d: &[char], cap: u64) -> (r: (bool, u64))
    requires
        cap < 0x1000_0000_0000_0000,
    ensures
        r.0 == all_digits(d@),
        r.0 ==> r.1 == min_nat(digits_value(d@), cap as nat),
{
    let mut acc: u64 = 0;
    let mut i: usize = 0;
    while i < d.len()
        invariant
            i <= d.len(),
            cap < 0x1000_0000_0000_0000,
            acc <= cap,
            all_digits(d@.subrange(0, i as int)),
            acc == min_nat(digits_value(d@.subrange(0, i as int)), cap as nat),
        decreases d.len() - i,
    {
        let c = d[i];
        if !char_is_ascii_digit(c) {
            assert(!all_digits(d@)) by {
                assert(!is_ascii_digit(d@[i as int]));
            }
            return (false, 0);
        }
        let dv: u64 = (c as u32 - '0' as u32) as u64;
        let next: u64 = acc * 10 + dv;
        let ghost pre = d@.subrange(0, i as int);
        let ghost cur = d@.subrange(0, i + 1);
        proof {
            assert(cur.drop_last() =~= pre);
            assert(cur.last() == c);
            assert(digits_value(cur) == digits_value(pre) * 10 + dv);
            assert forall|k: int| 0 <= k < cur.len() implies is_ascii_digit(#[trigger] cur[k]) by {
                if k < i {
                    assert(cur[k] == pre[k]);
                }
            }
        }
        acc = if next > cap {
            cap
        } else {
            next
        };
        i += 1;
    }
    assert(d@.subrange(0, d.len() as int) =~= d@);
    (true, acc)
}

/// `s.parse::<u8>()`, keeping only whether it succeeded and its value.
pub fn parse_u8(s: &[char]) -> (r: Option<u8>)
    ensures
        r == (match unsigned_literal(s@) {
            Some(v) => if v <= 255 {
                Some(v as u8)
            } else {
                None
            },
            None => None,
        }),
{
    let start: usize = if s.len() > 0 && s[0] == '+' {
        1
    } else {
        0
    };
    let d = slice_chars(s, start, s.len());
    assert(start == 1 ==> d@ =~= s@.drop_first());
    assert(start == 0 ==> d@ =~= s@);
    if d.len() == 0 {
        return None;
    }
    let (ok, v) = digits_capped(d.as_slice(), 256);
    if !ok || v > 255 {
        None
    } else {
        Some(v as u8)
    }
}

/// `s.parse::<i32>()`, keeping only whether it succeeded and its value.
pub fn parse_i32(s: &[char]) -> (r: Option<i32>)
    ensures
        r == (match signed_literal(s@) {
            Some(v) => if i32::MIN <= v <= i32::MAX {
                Some(v as i32)
            } else {
                None
            },
            None => None,
        }),
{
    let neg = s.len() > 0 && s[0] == '-';
    let start: usize = if s.len() > 0 && (s[0] == '+' || s[0] == '-') {
        1
    } else {
        0
    };
    let d = slice_chars(s, start, s.len());
    assert(start == 1 ==> d@ =~= s@.drop_first());
    assert(start == 0 ==> d@ =~= s@);
    if d.len() == 0 {
        return None;
    }
    let (ok, v) = digits_capped(d.as_slice(), 2147483649);
    if !ok {
        return None;
    }
    if neg {
        if v > 2147483648 {
            None
        } else {
            let w: i64 = -(v as i64);
            Some(w as i32)
        }
    } else {
        if v > 2147483647 {
            None
        } else {
            Some(v as i32)
        }
    }
}

// ---------------------------------------------------------------------------
// Lists of strings
// ---------------------------------------------------------------------------

pub open spec fn strings_view(v: Seq<String>) -> Seq<Seq<char>> {
    v.map_values(|s: String| s@)
}

/// `v` without the entries equal to `x`, in order.
pub open spec fn without(v: Seq<Seq<char>>, x: Seq<char>) -> Seq<Seq<char>>
    decreases v.len(),
{
    if v.len() == 0 {
        v
    } else if v.last() == x {
        without(v.drop_last(), x)
    } else {
        without(v.drop_last(), x).push(v.last())
    }
}

/// What `without` leaves: no `x`, nothing new, nothing longer.
pub proof fn lemma_without_excludes(v: Seq<Seq<char>>, x: Seq<char>)
    ensures
        !without(v, x).contains(x),
        without(v, x).len() <= v.len(),
        forall|y: Seq<char>| #[trigger] without(v, x).contains(y) ==> v.contains(y),
    decreases v.len(),
{
    if v.len() > 0 {
        lemma_without_excludes(v.drop_last(), x);
        let w = without(v.drop_last(), x);
        if v.last() != x {
            assert forall|y: Seq<char>| #[trigger] w.push(v.last()).contains(y) implies v.contains(y) by {
                let k = choose|k: int| 0 <= k < w.push(v.last()).len() && w.push(v.last())[k] == y;
                if k == w.len() {
                    assert(v[v.len() - 1] == y);
                } else {
                    assert(w.contains(y));
                    assert(v.drop_last().contains(y));
                    let q = choose|q: int| 0 <= q < v.drop_last().len() && v.drop_last()[q] == y;
                    assert(v[q] == y);
                }
            }
            assert forall|k: int| 0 <= k < w.push(v.last()).len() implies w.push(v.last())[k] != x by {
                if k < w.len() {
                    assert(w[k] != x);
                }
            }
        } else {
            assert forall|y: Seq<char>| #[trigger] w.contains(y) implies v.contains(y) by {
                assert(v.drop_last().contains(y));
                let q = choose|q: int| 0 <= q < v.drop_last().len() && v.drop_last()[q] == y;
                assert(v[q] == y);
            }
        }
    }
}

} // verus!
