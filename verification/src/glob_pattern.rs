//! Custom glob patterns with `<field>` and `<field:type>` placeholders.
//!
//! `parse_custom_glob` turns `**/mission_<id>/*.csv` into the plain glob
//! `**/mission_*/*.csv` plus the list of placeholders, and
//! `extract_field_values` reads the placeholder values back out of a path
//! that the plain glob matched.
use vstd::prelude::*;
use crate::text::{chars_eq, char_is_ascii_digit, char_is_ascii_lower, is_ascii_digit, is_ascii_lower, owned, push_str, slice_chars, str_chars, str_eq, string_from_chars, to_lowercase, unicode_lower, decimal, u64_to_decimal};
use crate::extraction::FieldType;

verus! {

// ---------------------------------------------------------------------------
// Types
// ---------------------------------------------------------------------------

/// A placeholder extracted from a custom glob pattern.
#[derive(Debug, Clone)]
pub struct FieldPlaceholder {
    /// Field name (e.g., "mission_id")
    pub name: String,
    /// Optional type hint (e.g., "date", "int")
    pub type_hint: Option<String>,
    /// Character position of the opening `<` in the original pattern
    pub position: usize,
    /// Segment index in the matched path; computed after matching, starts at 0
    pub segment_index: i32,
}

/// Result of parsing a custom glob pattern.
#[derive(Debug, Clone)]
pub struct ParsedGlobPattern {
    /// Standard glob pattern (placeholders replaced with `*`)
    pub glob_pattern: String,
    /// Extracted field placeholders, in pattern order
    pub placeholders: Vec<FieldPlaceholder>,
}

/// Error from parsing a custom glob pattern.
#[derive(Debug, Clone)]
pub struct GlobParseError {
    pub message: String,
    /// Character position in the pattern where the error occurred
    pub position: usize,
    /// Recovery hint for the user
    pub hint: Option<String>,
}

/// Mathematical content of a placeholder.
pub struct PlaceholderSpec {
    pub name: Seq<char>,
    pub type_hint: Option<Seq<char>>,
    pub position: nat,
}

/// The ways a pattern can be rejected, each with the position it reports.
pub enum GlobErrorSpec {
    Nested(nat),
    Unclosed(nat),
    EmptyName(nat),
    InvalidName(Seq<char>, nat),
    DuplicateName(Seq<char>, nat),
    UnknownType(Seq<char>, nat),
}

pub open spec fn opt_string_view(o: Option<String>) -> Option<Seq<char>> {
    match o {
        Some(s) => Some(s@),
        None => None,
    }
}

impl FieldPlaceholder {
    pub open spec fn spec(&self) -> PlaceholderSpec {
        PlaceholderSpec {
            name: self.name@,
            type_hint: opt_string_view(self.type_hint),
            position: self.position as nat,
        }
    }
}

pub open spec fn placeholders_view(v: Seq<FieldPlaceholder>) -> Seq<PlaceholderSpec> {
    v.map_values(|p: FieldPlaceholder| p.spec())
}

// ---------------------------------------------------------------------------
// Specification of the parser
// ---------------------------------------------------------------------------

/// `[a-z_][a-z0-9_]*`
pub open spec fn valid_field_name(s: Seq<char>) -> bool {
    &&& s.len() > 0
    &&& (is_ascii_lower(s[0]) || s[0] == '_')
    &&& forall|i: int|
        1 <= i < s.len() ==> (is_ascii_lower(#[trigger] s[i]) || is_ascii_digit(s[i]) || s[i]
            == '_')
}

/// One of the known type names (in lower case).
pub open spec fn known_type_name(l: Seq<char>) -> bool {
    l == "string"@ || l == "str"@ || l == "int"@ || l == "integer"@ || l == "date"@ || l
        == "uuid"@
}

/// A type hint is one of the known names once lowercased.
pub open spec fn valid_type_hint(h: Seq<char>) -> bool {
    known_type_name(unicode_lower(h))
}

/// Index of the first `<` or `>` at or after `j` (the length if there is none).
pub open spec fn first_angle_from(c: Seq<char>, j: nat) -> nat
    decreases c.len() - j,
{
    if j >= c.len() {
        c.len()
    } else if c[j as int] == '<' || c[j as int] == '>' {
        j
    } else {
        first_angle_from(c, j + 1)
    }
}

/// Index of the first occurrence of `x` in `s` (the length if there is none).
pub open spec fn index_of_char(s: Seq<char>, x: char) -> nat
    decreases s.len(),
{
    if s.len() == 0 {
        0
    } else if s[0] == x {
        0
    } else {
        1 + index_of_char(s.drop_first(), x)
    }
}

pub open spec fn name_taken(phs: Seq<PlaceholderSpec>, name: Seq<char>) -> bool {
    exists|k: int| 0 <= k < phs.len() && (#[trigger] phs[k]).name == name
}

/// The content between `<` and `>`, split at its first `:` into name and hint.
pub open spec fn split_content(content: Seq<char>) -> (Seq<char>, Option<Seq<char>>) {
    let k = index_of_char(content, ':');
    if k < content.len() {
        (content.subrange(0, k as int), Some(content.subrange(k as int + 1, content.len() as int)))
    } else {
        (content, None)
    }
}

/// The parser from character `i` on, given the glob text and placeholders
/// produced so far.
pub open spec fn parse_from(
    c: Seq<char>,
    i: nat,
    glob: Seq<char>,
    phs: Seq<PlaceholderSpec>,
) -> Result<(Seq<char>, Seq<PlaceholderSpec>), GlobErrorSpec>
    decreases c.len() - i,
{
    if i >= c.len() {
        Ok((glob, phs))
    } else if c[i as int] == '\\' && i + 1 < c.len() {
        let next = c[i as int + 1];
        if next == '<' || next == '>' {
            parse_from(c, i + 2, glob.push(next), phs)
        } else {
            parse_from(c, i + 2, glob.push('\\').push(next), phs)
        }
    } else if c[i as int] == '<' {
        let j = first_angle_from(c, i + 1);
        if j >= c.len() {
            Err(GlobErrorSpec::Unclosed(i))
        } else if c[j as int] == '<' {
            Err(GlobErrorSpec::Nested(j))
        } else {
            let content = c.subrange(i as int + 1, j as int);
            let (name, hint) = split_content(content);
            if content.len() == 0 {
                Err(GlobErrorSpec::EmptyName(i))
            } else if !valid_field_name(name) {
                Err(GlobErrorSpec::InvalidName(name, i))
            } else if name_taken(phs, name) {
                Err(GlobErrorSpec::DuplicateName(name, i))
            } else if hint is Some && !valid_type_hint(hint->0) {
                Err(GlobErrorSpec::UnknownType(hint->0, i))
            } else {
                proof {
                    lemma_first_angle_bounds(c, i + 1);
                }
                parse_from(
                    c,
                    j + 1,
                    glob.push('*'),
                    phs.push(PlaceholderSpec { name, type_hint: hint, position: i }),
                )
            }
        }
    } else {
        parse_from(c, i + 1, glob.push(c[i as int]), phs)
    }
}

/// What `parse_custom_glob` computes for a pattern.
pub open spec fn parse_spec(pattern: Seq<char>) -> Result<
    (Seq<char>, Seq<PlaceholderSpec>),
    GlobErrorSpec,
> {
    parse_from(pattern, 0, Seq::empty(), Seq::empty())
}

/// The message, position and hint that each error reports.
pub open spec fn error_message(e: GlobErrorSpec) -> Seq<char> {
    match e {
        GlobErrorSpec::Nested(_) => "Nested placeholders not supported"@,
        GlobErrorSpec::Unclosed(p) => "Unclosed placeholder at position "@ + decimal(p),
        GlobErrorSpec::EmptyName(_) => "Empty field name"@,
        GlobErrorSpec::InvalidName(n, _) => "Invalid field name: '"@ + n + "'"@,
        GlobErrorSpec::DuplicateName(n, _) => "Duplicate field name: '"@ + n + "'"@,
        GlobErrorSpec::UnknownType(h, _) => "Unknown type hint: '"@ + h + "'"@,
    }
}

pub open spec fn error_position(e: GlobErrorSpec) -> nat {
    match e {
        GlobErrorSpec::Nested(p) => p,
        GlobErrorSpec::Unclosed(p) => p,
        GlobErrorSpec::EmptyName(p) => p,
        GlobErrorSpec::InvalidName(_, p) => p,
        GlobErrorSpec::DuplicateName(_, p) => p,
        GlobErrorSpec::UnknownType(_, p) => p,
    }
}

pub open spec fn error_hint(e: GlobErrorSpec) -> Seq<char> {
    match e {
        GlobErrorSpec::Nested(_) => "Close the current placeholder before starting a new one"@,
        GlobErrorSpec::Unclosed(_) => "Add matching '>' or escape with '\\<'"@,
        GlobErrorSpec::EmptyName(_) => "Provide a field name (e.g., '<year>')"@,
        GlobErrorSpec::InvalidName(_, _) => "Use lowercase letters and underscores (e.g., 'mission_id')"@,
        GlobErrorSpec::DuplicateName(_, _) => "Each field name must be unique"@,
        GlobErrorSpec::UnknownType(_, _) => "Valid types: string, int, integer, date, uuid"@,
    }
}

impl GlobParseError {
    /// This error is the report of `e`.
    pub open spec fn reports(&self, e: GlobErrorSpec) -> bool {
        &&& self.message@ == error_message(e)
        &&& self.position == error_position(e)
        &&& self.hint is Some
        &&& self.hint->0@ == error_hint(e)
    }

    fn unclosed_placeholder(pos: usize) -> (r: Self)
        ensures
            r.reports(GlobErrorSpec::Unclosed(pos as nat)),
    {
        let mut message = owned("Unclosed placeholder at position ");
        let n = u64_to_decimal(pos as u64);
        push_str(&mut message, n.as_str());
        let hint = owned("Add matching '>' or escape with '\\<'");
        Self { message, position: pos, hint: Some(hint) }
    }

    fn invalid_field_name(name: &str, pos: usize) -> (r: Self)
        ensures
            r.reports(GlobErrorSpec::InvalidName(name@, pos as nat)),
    {
        let mut message = owned("Invalid field name: '");
        push_str(&mut message, name);
        push_str(&mut message, "'");
        let hint = owned("Use lowercase letters and underscores (e.g., 'mission_id')");
        Self { message, position: pos, hint: Some(hint) }
    }

    fn empty_field_name(pos: usize) -> (r: Self)
        ensures
            r.reports(GlobErrorSpec::EmptyName(pos as nat)),
    {
        let message = owned("Empty field name");
        let hint = owned("Provide a field name (e.g., '<year>')");
        Self { message, position: pos, hint: Some(hint) }
    }

    fn duplicate_field_name(name: &str, pos: usize) -> (r: Self)
        ensures
            r.reports(GlobErrorSpec::DuplicateName(name@, pos as nat)),
    {
        let mut message = owned("Duplicate field name: '");
        push_str(&mut message, name);
        push_str(&mut message, "'");
        let hint = owned("Each field name must be unique");
        Self { message, position: pos, hint: Some(hint) }
    }

    fn unknown_type_hint(hint_text: &str, pos: usize) -> (r: Self)
        ensures
            r.reports(GlobErrorSpec::UnknownType(hint_text@, pos as nat)),
    {
        let mut message = owned("Unknown type hint: '");
        push_str(&mut message, hint_text);
        push_str(&mut message, "'");
        let hint = owned("Valid types: string, int, integer, date, uuid");
        Self { message, position: pos, hint: Some(hint) }
    }

    fn nested_placeholder(pos: usize) -> (r: Self)
        ensures
            r.reports(GlobErrorSpec::Nested(pos as nat)),
    {
        let message = owned("Nested placeholders not supported");
        let hint = owned("Close the current placeholder before starting a new one");
        Self { message, position: pos, hint: Some(hint) }
    }
}

// ---------------------------------------------------------------------------
// Validation helpers
// ---------------------------------------------------------------------------

fn chars_valid_field_name(s: &[char]) -> (r: bool)
    ensures
        r == valid_field_name(s@),
{
    if s.len() == 0 {
        return false;
    }
    let first = s[0];
    if !char_is_ascii_lower(first) && first != '_' {
        return false;
    }
    let mut i: usize = 1;
    while i < s.len()
        invariant
            1 <= i <= s.len(),
            forall|k: int|
                1 <= k < i ==> (is_ascii_lower(#[trigger] s@[k]) || is_ascii_digit(s@[k]) || s@[k]
                    == '_'),
        decreases s.len() - i,
    {
        let c = s[i];
        if !(char_is_ascii_lower(c) || char_is_ascii_digit(c) || c == '_') {
            return false;
        }
        i += 1;
    }
    true
}

/// Check if a field name is valid: `[a-z_][a-z0-9_]*`.
pub fn is_valid_field_name(name: &str) -> (r: bool)
    ensures
        r == valid_field_name(name@),
{
    let v = str_chars(name);
    chars_valid_field_name(v.as_slice())
}

/// Check if a type hint names a known type (case-insensitively).
pub fn is_valid_type_hint(hint: &str) -> (r: bool)
    ensures
        r == valid_type_hint(hint@),
{
    let l = to_lowercase(hint);
    is_known_type_name(l.as_str())
}

/// Whether lowercased text is one of the known type names: string, str,
/// int, integer, date, uuid.
pub fn is_known_type_name(s: &str) -> (r: bool)
    ensures
        r == known_type_name(s@),
{
    str_eq(s, "string") || str_eq(s, "str") || str_eq(s, "int") || str_eq(s, "integer") || str_eq(
        s,
        "date",
    ) || str_eq(s, "uuid")
}

/// The field type a hint stands for; anything unknown is a string.
pub open spec fn type_hint_field_type(hint: Seq<char>) -> FieldType {
    lowered_hint_field_type(unicode_lower(hint))
}

/// The field type a lowercased hint stands for.
pub open spec fn lowered_hint_field_type(l: Seq<char>) -> FieldType {
    if l == "int"@ || l == "integer"@ {
        FieldType::Integer
    } else if l == "date"@ {
        FieldType::Date
    } else if l == "uuid"@ {
        FieldType::Uuid
    } else {
        FieldType::String
    }
}

/// Normalize a type hint to a field type.
pub fn normalize_type_hint(hint: &str) -> (r: FieldType)
    ensures
        r == type_hint_field_type(hint@),
{
    let l = to_lowercase(hint);
    field_type_for_lowered_hint(l.as_str())
}

/// The field type a lowercased hint stands for: int or integer, date, uuid;
/// anything else is a string.
pub fn field_type_for_lowered_hint(s: &str) -> (r: FieldType)
    ensures
        r == lowered_hint_field_type(s@),
{
    if str_eq(s, "int") || str_eq(s, "integer") {
        FieldType::Integer
    } else if str_eq(s, "date") {
        FieldType::Date
    } else if str_eq(s, "uuid") {
        FieldType::Uuid
    } else {
        FieldType::String
    }
}

fn find_char(s: &[char], x: char) -> (r: usize)
    ensures
        r == index_of_char(s@, x),
        r <= s.len(),
{
    let mut i: usize = 0;
    assert(s@.subrange(0, s.len() as int) =~= s@);
    while i < s.len() && s[i] != x
        invariant
            i <= s.len(),
            index_of_char(s@, x) == i + index_of_char(s@.subrange(i as int, s.len() as int), x),
        decreases s.len() - i,
    {
        proof {
            let rest = s@.subrange(i as int, s.len() as int);
            assert(rest.drop_first() =~= s@.subrange(i + 1, s.len() as int));
        }
        i += 1;
    }
    proof {
        let rest = s@.subrange(i as int, s.len() as int);
        if i < s.len() {
            assert(rest[0] == s@[i as int]);
        } else {
            assert(rest.len() == 0);
        }
    }
    i
}

fn name_in(phs: &Vec<FieldPlaceholder>, name: &[char]) -> (r: bool)
    ensures
        r == name_taken(placeholders_view(phs@), name@),
{
    let ghost view = placeholders_view(phs@);
    let mut k: usize = 0;
    while k < phs.len()
        invariant
            k <= phs.len(),
            view == placeholders_view(phs@),
            forall|m: int| 0 <= m < k ==> (#[trigger] view[m]).name != name@,
        decreases phs.len() - k,
    {
        let existing = str_chars(phs[k].name.as_str());
        if chars_eq(existing.as_slice(), name) {
            assert(view[k as int].name == name@);
            return true;
        }
        k += 1;
    }
    false
}

// ---------------------------------------------------------------------------
// The parser
// ---------------------------------------------------------------------------

proof fn lemma_first_angle_skip(c: Seq<char>, j: nat)
    requires
        j < c.len(),
        c[j as int] != '<',
        c[j as int] != '>',
    ensures
        first_angle_from(c, j) == first_angle_from(c, j + 1),
{
}

pub proof fn lemma_first_angle_bounds(c: Seq<char>, j: nat)
    ensures
        j <= c.len() ==> j <= first_angle_from(c, j) <= c.len(),
        first_angle_from(c, j) < c.len() ==> (c[first_angle_from(c, j) as int] == '<' || c[first_angle_from(c, j) as int] == '>'),
    decreases c.len() - j,
{
    if j < c.len() && !(c[j as int] == '<' || c[j as int] == '>') {
        lemma_first_angle_bounds(c, j + 1);
    }
}

/// Parse a custom glob pattern with `<field>` placeholders.
pub fn parse_custom_glob(pattern: &str) -> (r: Result<ParsedGlobPattern, GlobParseError>)
    ensures
        match parse_spec(pattern@) {
            Ok((glob, phs)) => r matches Ok(p) && p.glob_pattern@ == glob && placeholders_view(
                p.placeholders@,
            ) == phs && forall|k: int|
                0 <= k < p.placeholders@.len() ==> (#[trigger] p.placeholders@[k]).segment_index
                    == 0,
            Err(e) => r matches Err(err) && err.reports(e),
        },
{
    let c = str_chars(pattern);
    let mut glob: Vec<char> = Vec::new();
    let mut placeholders: Vec<FieldPlaceholder> = Vec::new();
    let mut i: usize = 0;
    assert(placeholders_view(placeholders@) =~= Seq::<PlaceholderSpec>::empty());
    assert(glob@ =~= Seq::<char>::empty());
    while i < c.len()
        invariant
            i <= c.len(),
            c@ == pattern@,
            parse_spec(c@) == parse_from(c@, i as nat, glob@, placeholders_view(placeholders@)),
            forall|k: int|
                0 <= k < placeholders@.len() ==> (#[trigger] placeholders@[k]).segment_index == 0,
        decreases c.len() - i,
    {
        let ch = c[i];
        if ch == '\\' && i + 1 < c.len() {
            let next = c[i + 1];
            if next == '<' || next == '>' {
                glob.push(next);
            } else {
                glob.push(ch);
                glob.push(next);
            }
            i += 2;
        } else if ch == '<' {
            let start = i;
            let mut j: usize = i + 1;
            while j < c.len() && c[j] != '<' && c[j] != '>'
                invariant
                    start + 1 <= j <= c.len(),
                    first_angle_from(c@, (start + 1) as nat) == first_angle_from(c@, j as nat),
                decreases c.len() - j,
            {
                proof {
                    lemma_first_angle_skip(c@, j as nat);
                }
                j += 1;
            }
            if j == c.len() {
                return Err(GlobParseError::unclosed_placeholder(start));
            }
            if c[j] == '<' {
                return Err(GlobParseError::nested_placeholder(j));
            }
            let content = slice_chars(c.as_slice(), start + 1, j);
            if content.len() == 0 {
                return Err(GlobParseError::empty_field_name(start));
            }
            let colon = find_char(content.as_slice(), ':');
            let name_v: Vec<char>;
            let hint_v: Option<Vec<char>>;
            if colon < content.len() {
                name_v = slice_chars(content.as_slice(), 0, colon);
                hint_v = Some(slice_chars(content.as_slice(), colon + 1, content.len()));
            } else {
                name_v = content;
                hint_v = None;
            }
            let name = string_from_chars(name_v.as_slice());
            if !chars_valid_field_name(name_v.as_slice()) {
                return Err(GlobParseError::invalid_field_name(name.as_str(), start));
            }
            if name_in(&placeholders, name_v.as_slice()) {
                return Err(GlobParseError::duplicate_field_name(name.as_str(), start));
            }
            let type_hint: Option<String> = match &hint_v {
                Some(h) => {
                    let hs = string_from_chars(h.as_slice());
                    if !is_valid_type_hint(hs.as_str()) {
                        return Err(GlobParseError::unknown_type_hint(hs.as_str(), start));
                    }
                    Some(hs)
                },
                None => None,
            };
            let ph = FieldPlaceholder { name, type_hint, position: start, segment_index: 0 };
            let ghost before = placeholders@;
            placeholders.push(ph);
            proof {
                assert(placeholders_view(placeholders@) =~= placeholders_view(before).push(
                    ph.spec(),
                ));
            }
            glob.push('*');
            i = j + 1;
        } else {
            glob.push(ch);
            i += 1;
        }
    }
    let glob_pattern = string_from_chars(glob.as_slice());
    Ok(ParsedGlobPattern { glob_pattern, placeholders })
}


// ---------------------------------------------------------------------------
// Reading placeholder values back out of a matched path
// ---------------------------------------------------------------------------

/// Field values read from a path, by field name. When a name is set twice the
/// later value wins.
#[derive(Debug, Clone)]
pub struct FieldValues {
    entries: Vec<(String, String)>,
}

pub open spec fn entries_map(e: Seq<(String, String)>) -> Map<Seq<char>, Seq<char>>
    decreases e.len(),
{
    if e.len() == 0 {
        Map::empty()
    } else {
        entries_map(e.drop_last()).insert(e.last().0@, e.last().1@)
    }
}

/// Index of the last entry whose key is `k` (or -1).
pub open spec fn last_index_of_key(e: Seq<(String, String)>, k: Seq<char>) -> int
    decreases e.len(),
{
    if e.len() == 0 {
        -1
    } else if e.last().0@ == k {
        e.len() - 1
    } else {
        last_index_of_key(e.drop_last(), k)
    }
}

proof fn lemma_entries_map_lookup(e: Seq<(String, String)>, k: Seq<char>)
    ensures
        -1 <= last_index_of_key(e, k) < e.len(),
        entries_map(e).contains_key(k) <==> last_index_of_key(e, k) >= 0,
        last_index_of_key(e, k) >= 0 ==> e[last_index_of_key(e, k)].0@ == k
            && entries_map(e)[k] == e[last_index_of_key(e, k)].1@,
    decreases e.len(),
{
    if e.len() > 0 {
        lemma_entries_map_lookup(e.drop_last(), k);
        if e.last().0@ != k {
            let i = last_index_of_key(e.drop_last(), k);
            if i >= 0 {
                assert(e[i] == e.drop_last()[i]);
            }
        }
    }
}

impl FieldValues {
    pub closed spec fn view(&self) -> Map<Seq<char>, Seq<char>> {
        entries_map(self.entries@)
    }

    pub fn new() -> (r: Self)
        ensures
            r.view() == Map::<Seq<char>, Seq<char>>::empty(),
    {
        FieldValues { entries: Vec::new() }
    }

    /// Sets `name` to `value`, replacing any earlier value.
    pub fn insert(&mut self, name: String, value: String)
        ensures
            final(self).view() == old(self).view().insert(name@, value@),
    {
        self.entries.push((name, value));
        proof {
            assert(self.entries@.drop_last() =~= old(self).entries@);
        }
    }

    /// The value set for `name`, if any.
    pub fn get(&self, name: &str) -> (r: Option<&String>)
        ensures
            match r {
                Some(v) => self.view().contains_key(name@) && self.view()[name@] == v@,
                None => !self.view().contains_key(name@),
            },
    {
        let key = str_chars(name);
        let mut i: usize = self.entries.len();
        assert(self.entries@.subrange(0, i as int) =~= self.entries@);
        while i > 0
            invariant
                i <= self.entries@.len(),
                key@ == name@,
                last_index_of_key(self.entries@, key@) == last_index_of_key(
                    self.entries@.subrange(0, i as int),
                    key@,
                ),
            decreases i,
        {
            let k = str_chars(self.entries[i - 1].0.as_str());
            if chars_eq(k.as_slice(), key.as_slice()) {
                proof {
                    lemma_entries_map_lookup(self.entries@, key@);
                    let sub = self.entries@.subrange(0, i as int);
                    assert(sub.last() == self.entries@[i - 1]);
                    assert(k@ == key@);
                    assert(last_index_of_key(sub, key@) == i - 1);
                }
                return Some(&self.entries[i - 1].1);
            }
            proof {
                let sub = self.entries@.subrange(0, i as int);
                assert(sub.drop_last() =~= self.entries@.subrange(0, i - 1));
            }
            i -= 1;
        }
        proof {
            lemma_entries_map_lookup(self.entries@, key@);
            assert(self.entries@.subrange(0, 0) =~= Seq::<(String, String)>::empty());
        }
        None
    }

}

/// `str::split(sep)`: the pieces between separators, empty pieces included.
pub open spec fn split_on(s: Seq<char>, sep: char) -> Seq<Seq<char>>
    decreases s.len(),
{
    let k = index_of_char(s, sep);
    if k >= s.len() {
        seq![s]
    } else {
        seq![s.subrange(0, k as int)] + split_on(s.subrange(k as int + 1, s.len() as int), sep)
    }
}

pub proof fn lemma_index_of_char_bounds(s: Seq<char>, x: char)
    ensures
        index_of_char(s, x) <= s.len(),
        index_of_char(s, x) < s.len() ==> s[index_of_char(s, x) as int] == x,
        forall|i: int| 0 <= i < index_of_char(s, x) ==> s[i] != x,
    decreases s.len(),
{
    if s.len() > 0 && s[0] != x {
        lemma_index_of_char_bounds(s.drop_first(), x);
        assert forall|i: int| 0 <= i < index_of_char(s, x) implies s[i] != x by {
            if i > 0 {
                assert(s[i] == s.drop_first()[i - 1]);
            }
        }
    }
}

pub open spec fn seqs_view(v: Seq<Vec<char>>) -> Seq<Seq<char>> {
    v.map_values(|x: Vec<char>| x@)
}

/// Splits a character sequence at every `sep`.
pub fn split_chars(v: &[char], sep: char) -> (r: Vec<Vec<char>>)
    ensures
        seqs_view(r@) == split_on(v@, sep),
{
    let mut out: Vec<Vec<char>> = Vec::new();
    let mut start: usize = 0;
    assert(v@.subrange(0, v.len() as int) =~= v@);
    loop
        invariant
            start <= v.len(),
            split_on(v@, sep) == seqs_view(out@) + split_on(
                v@.subrange(start as int, v.len() as int),
                sep,
            ),
        ensures
            seqs_view(out@) == split_on(v@, sep),
        decreases v.len() - start,
    {
        let rest = slice_chars(v, start, v.len());
        let k = find_char(rest.as_slice(), sep);
        proof {
            lemma_index_of_char_bounds(rest@, sep);
        }
        if k >= rest.len() {
            let ghost before = out@;
            out.push(rest);
            proof {
                assert(seqs_view(out@) =~= seqs_view(before).push(rest@));
                assert(split_on(rest@, sep) =~= seq![rest@]);
                assert(seqs_view(before) + seq![rest@] =~= seqs_view(before).push(rest@));
            }
            return out;
        }
        let piece = slice_chars(rest.as_slice(), 0, k);
        let ghost before = out@;
        out.push(piece);
        proof {
            assert(seqs_view(out@) =~= seqs_view(before).push(piece@));
            assert(rest@.subrange(k as int + 1, rest@.len() as int) =~= v@.subrange(
                start + k + 1,
                v.len() as int,
            ));
            assert(seqs_view(before) + (seq![piece@] + split_on(
                v@.subrange(start + k + 1, v.len() as int),
                sep,
            )) =~= seqs_view(out@) + split_on(v@.subrange(start + k + 1, v.len() as int), sep));
        }
        start = start + k + 1;
    }
}

/// Number of leading `**` segments.
pub open spec fn leading_globstars(gs: Seq<Seq<char>>) -> nat
    decreases gs.len(),
{
    if gs.len() > 0 && gs[0] == "**"@ {
        1 + leading_globstars(gs.drop_first())
    } else {
        0
    }
}

pub open spec fn has_star(s: Seq<char>) -> bool {
    index_of_char(s, '*') < s.len()
}

/// The path segment that glob segment `gidx` lines up with. When the glob
/// starts with `**`, segments are aligned from the end of the path.
pub open spec fn matched_index(gs_len: nat, segs_len: nat, lead: nat, gidx: nat) -> int {
    if lead > 0 {
        (segs_len - (gs_len - lead)) + (gidx - lead)
    } else {
        gidx as int
    }
}

/// The part of a matched segment that the first `*` of the glob segment stood
/// for; the whole segment when the glob segment is `*` or does not fit.
pub open spec fn placeholder_value(g: Seq<char>, m: Seq<char>) -> Seq<char> {
    if g == seq!['*'] {
        m
    } else {
        let k = index_of_char(g, '*');
        if k < g.len() {
            let pre = g.subrange(0, k as int);
            let suf = g.subrange(k as int + 1, g.len() as int);
            if crate::text::starts_with(m, pre) && crate::text::ends_with(m, suf) && pre.len()
                <= m.len() - suf.len() {
                m.subrange(pre.len() as int, m.len() - suf.len())
            } else {
                m
            }
        } else {
            m
        }
    }
}

/// The value read for a placeholder segment `pre*suf` (`pre` holding no `*`,
/// either part possibly empty) from the matched segment `pre + mid + suf` is
/// `mid`: the prefix is taken off the front and the suffix off the back.
/// A matched segment that does not start with `pre` is taken whole.
pub proof fn law_placeholder_strips_prefix_and_suffix(
    pre: Seq<char>,
    suf: Seq<char>,
    mid: Seq<char>,
    m: Seq<char>,
)
    requires
        !pre.contains('*'),
    ensures
        placeholder_value(pre + seq!['*'] + suf, pre + mid + suf) == mid,
        !crate::text::starts_with(m, pre) ==> placeholder_value(pre + seq!['*'] + suf, m) == m,
{
    let g = pre + seq!['*'] + suf;
    let v = pre + mid + suf;
    lemma_index_of_char_bounds(g, '*');
    let k = index_of_char(g, '*');
    assert(g[pre.len() as int] == '*');
    if k < pre.len() {
        assert(g[k as int] == pre[k as int]);
    }
    assert(k == pre.len());
    assert(g.subrange(0, k as int) =~= pre);
    assert(g.subrange(k as int + 1, g.len() as int) =~= suf);
    assert(v.subrange(0, pre.len() as int) =~= pre);
    assert(v.subrange(v.len() - suf.len(), v.len() as int) =~= suf);
    assert(v.subrange(pre.len() as int, v.len() - suf.len()) =~= mid);
    if g == seq!['*'] {
        assert(g.len() == 1);
        assert(pre.len() == 0 && suf.len() == 0);
        assert(v =~= mid);
    }
}

/// Walks the glob segments from `gidx` on, with `k` the next placeholder to
/// fill and `acc` the values found so far.
pub open spec fn extract_from(
    gs: Seq<Seq<char>>,
    segs: Seq<Seq<char>>,
    phs: Seq<PlaceholderSpec>,
    gidx: nat,
    k: nat,
    acc: Map<Seq<char>, Seq<char>>,
) -> Map<Seq<char>, Seq<char>>
    decreases gs.len() - gidx,
{
    if gidx >= gs.len() {
        acc
    } else if gs[gidx as int] == "**"@ {
        extract_from(gs, segs, phs, gidx + 1, k, acc)
    } else if k < phs.len() && has_star(gs[gidx as int]) {
        let mi = matched_index(gs.len(), segs.len(), leading_globstars(gs), gidx);
        let acc2 = if 0 <= mi < segs.len() {
            acc.insert(phs[k as int].name, placeholder_value(gs[gidx as int], segs[mi]))
        } else {
            acc
        };
        extract_from(gs, segs, phs, gidx + 1, k + 1, acc2)
    } else {
        extract_from(gs, segs, phs, gidx + 1, k, acc)
    }
}

/// What `extract_field_values` computes.
pub open spec fn extract_spec(path: Seq<char>, glob: Seq<char>, phs: Seq<PlaceholderSpec>) -> Map<
    Seq<char>,
    Seq<char>,
> {
    if phs.len() == 0 {
        Map::empty()
    } else {
        extract_from(split_on(glob, '/'), split_on(path, '/'), phs, 0, 0, Map::empty())
    }
}

/// The inputs on which the segment alignment stays in range: when the glob
/// starts with `**` and a placeholder segment is reached, the path has at
/// least as many segments as the glob has after its leading `**`s.
pub open spec fn alignment_in_range(path: Seq<char>, glob: Seq<char>, n_phs: nat) -> bool {
    let gs = split_on(glob, '/');
    let segs = split_on(path, '/');
    let lead = leading_globstars(gs);
    ||| n_phs == 0
    ||| lead == 0
    ||| segs.len() + lead >= gs.len()
    ||| forall|g: int| 0 <= g < gs.len() && gs[g] != "**"@ ==> !has_star(#[trigger] gs[g])
}

fn is_globstar(s: &[char]) -> (r: bool)
    ensures
        r == (s@ == "**"@),
{
    proof {
        reveal_strlit("**");
    }
    if s.len() == 2 && s[0] == '*' && s[1] == '*' {
        assert(s@ =~= "**"@);
        true
    } else {
        false
    }
}

fn count_leading_globstars(gs: &Vec<Vec<char>>) -> (r: usize)
    ensures
        r == leading_globstars(seqs_view(gs@)),
        r <= gs.len(),
        forall|g: int| 0 <= g < r ==> seqs_view(gs@)[g] == "**"@,
{
    let ghost v = seqs_view(gs@);
    let mut n: usize = 0;
    assert(v.subrange(0, v.len() as int) =~= v);
    while n < gs.len() && is_globstar(gs[n].as_slice())
        invariant
            n <= gs.len(),
            v == seqs_view(gs@),
            leading_globstars(v) == n + leading_globstars(v.subrange(n as int, v.len() as int)),
            forall|g: int| 0 <= g < n ==> v[g] == "**"@,
        decreases gs.len() - n,
    {
        proof {
            let rest = v.subrange(n as int, v.len() as int);
            assert(rest[0] == v[n as int]);
            assert(rest.drop_first() =~= v.subrange(n + 1, v.len() as int));
        }
        n += 1;
    }
    proof {
        let rest = v.subrange(n as int, v.len() as int);
        if n < gs.len() {
            assert(rest[0] == v[n as int]);
        }
    }
    n
}

fn chars_placeholder_value(g: &[char], m: &[char]) -> (r: Vec<char>)
    ensures
        r@ == placeholder_value(g@, m@),
{
    if g.len() == 1 && g[0] == '*' {
        assert(g@ =~= seq!['*']);
        return slice_chars(m, 0, m.len());
    }
    assert(g@ != seq!['*']);
    let k = find_char(g, '*');
    assert(m@.subrange(0, m.len() as int) =~= m@);
    if k < g.len() {
        let pre = slice_chars(g, 0, k);
        let suf = slice_chars(g, k + 1, g.len());
        if crate::text::chars_starts_with(m, pre.as_slice()) && crate::text::chars_ends_with(
            m,
            suf.as_slice(),
        ) && pre.len() <= m.len() - suf.len() {
            return slice_chars(m, pre.len(), m.len() - suf.len());
        }
    }
    slice_chars(m, 0, m.len())
}

/// Extract field values from a matched path using the placeholder layout.
pub fn extract_field_values(matched_path: &str, parsed: &ParsedGlobPattern) -> (r: FieldValues)
    requires
        matched_path@.len() < 0x7fff_ffff,
        alignment_in_range(
            matched_path@,
            parsed.glob_pattern@,
            parsed.placeholders@.len(),
        ),
    ensures
        r.view() == extract_spec(
            matched_path@,
            parsed.glob_pattern@,
            placeholders_view(parsed.placeholders@),
        ),
{
    let mut result = FieldValues::new();
    if parsed.placeholders.len() == 0 {
        return result;
    }
    let path = str_chars(matched_path);
    let glob = str_chars(parsed.glob_pattern.as_str());
    let segments = split_chars(path.as_slice(), '/');
    let glob_segments = split_chars(glob.as_slice(), '/');
    let ghost segs = seqs_view(segments@);
    let ghost gs = seqs_view(glob_segments@);
    let ghost phs = placeholders_view(parsed.placeholders@);
    let lead = count_leading_globstars(&glob_segments);
    let mut k: usize = 0;
    let mut glob_idx: usize = 0;
    while glob_idx < glob_segments.len()
        invariant
            glob_idx <= glob_segments.len(),
            k <= parsed.placeholders@.len(),
            segs == seqs_view(segments@),
            gs == seqs_view(glob_segments@),
            phs == placeholders_view(parsed.placeholders@),
            segs == split_on(matched_path@, '/'),
            gs == split_on(parsed.glob_pattern@, '/'),
            lead == leading_globstars(gs),
            lead <= gs.len(),
            forall|g: int| 0 <= g < lead ==> gs[g] == "**"@,
            phs.len() > 0,
            alignment_in_range(matched_path@, parsed.glob_pattern@, phs.len()),
            extract_spec(matched_path@, parsed.glob_pattern@, phs) == extract_from(
                gs,
                segs,
                phs,
                glob_idx as nat,
                k as nat,
                result.view(),
            ),
        decreases glob_segments.len() - glob_idx,
    {
        let gseg = &glob_segments[glob_idx];
        if is_globstar(gseg.as_slice()) {
            glob_idx += 1;
        } else if k < parsed.placeholders.len() && find_char(gseg.as_slice(), '*') < gseg.len() {
            assert(gs[glob_idx as int] == gseg@);
            let matched_idx: usize = if lead > 0 {
                let fixed = glob_segments.len() - lead;
                assert(!(forall|g: int|
                    0 <= g < gs.len() && gs[g] != "**"@ ==> !has_star(#[trigger] gs[g])));
                let offset = segments.len() - fixed;
                if glob_idx < lead {
                    assert(gs[glob_idx as int] == "**"@);
                }
                offset + (glob_idx - lead)
            } else {
                glob_idx
            };
            if matched_idx < segments.len() {
                let value = chars_placeholder_value(gseg.as_slice(), segments[matched_idx].as_slice());
                let name = owned(parsed.placeholders[k].name.as_str());
                let v = string_from_chars(value.as_slice());
                assert(segs[matched_idx as int] == segments@[matched_idx as int]@);
                result.insert(name, v);
            }
            k += 1;
            glob_idx += 1;
        } else {
            glob_idx += 1;
        }
    }
    result
}

} // verus!
