//! Extraction rules: drafts, field definitions, and the state of testing and
//! publishing a rule from the TUI.
use vstd::prelude::*;
use std::collections::HashMap;
use crate::text::{concat2, concat3, decimal, decimal_int, i64_to_decimal, is_ascii_digit, owned, parse_i32, push_char, push_str, signed_literal, slice_chars, str_chars, str_eq, string_from_chars, trim_chars, trim_seq, u64_to_decimal};
use vstd::utf8::{encode_utf8, is_char_boundary};

verus! {

// ---------------------------------------------------------------------------
// Rule drafts
// ---------------------------------------------------------------------------

/// Working draft of a rule, editable in the UI before it is saved.
///
/// Identifiers are UUIDs held as their 128-bit value.
#[derive(Debug, Clone)]
pub struct RuleDraft {
    /// UUID of an existing rule, None for a new one
    pub id: Option<u128>,
    /// Scoped to a source, or None for global
    pub source_id: Option<u128>,
    /// Rule name (required for save)
    pub name: String,
    /// Glob pattern for matching files
    pub glob_pattern: String,
    /// Extraction fields
    pub fields: Vec<FieldDraft>,
    /// Base tag applied to all matching files
    pub base_tag: String,
    /// Conditional tag assignments
    pub tag_conditions: Vec<TagConditionDraft>,
    /// Rule priority (higher = matched first)
    pub priority: i32,
    /// Whether rule is enabled
    pub enabled: bool,
}

impl RuleDraft {
    /// A new draft for a glob pattern: unnamed, no fields, priority 100, enabled.
    pub fn from_pattern(pattern: &str, source_id: Option<u128>) -> (r: Self)
        ensures
            r.id is None,
            r.source_id == source_id,
            r.name@ == Seq::<char>::empty(),
            r.glob_pattern@ == pattern@,
            r.fields@.len() == 0,
            r.base_tag@ == Seq::<char>::empty(),
            r.tag_conditions@.len() == 0,
            r.priority == 100,
            r.enabled,
    {
        RuleDraft {
            id: None,
            source_id,
            name: String::new(),
            glob_pattern: owned(pattern),
            fields: Vec::new(),
            base_tag: String::new(),
            tag_conditions: Vec::new(),
            priority: 100,
            enabled: true,
        }
    }

    /// The draft has a name that is not only whitespace (required for save).
    pub fn has_name(&self) -> (r: bool)
        ensures
            r == (trim_seq(self.name@).len() > 0),
    {
        let v = str_chars(self.name.as_str());
        let t = trim_chars(v.as_slice());
        t.len() > 0
    }

    /// A draft can be tested once it has a pattern.
    pub fn is_valid_for_test(&self) -> (r: bool)
        ensures
            r == (self.glob_pattern@.len() > 0),
    {
        let v = str_chars(self.glob_pattern.as_str());
        v.len() > 0
    }

    /// A draft can be published once it has a name and a pattern.
    pub fn is_valid_for_publish(&self) -> (r: bool)
        ensures
            r == (trim_seq(self.name@).len() > 0 && self.glob_pattern@.len() > 0),
    {
        self.has_name() && self.is_valid_for_test()
    }
}

/// Field extraction definition.
#[derive(Debug, Clone)]
pub struct FieldDraft {
    /// Field name (column name in output)
    pub name: String,
    /// Where to extract value from
    pub source: FieldSource,
    /// Regex pattern for extraction (optional)
    pub pattern: Option<String>,
    /// Type hint for parsing
    pub type_hint: FieldType,
    /// Optional normalizer
    pub normalizer: Option<Normalizer>,
    /// Default value if extraction fails
    pub default_value: Option<String>,
}

impl FieldDraft {
    /// An unnamed string field taken from the file name.
    pub fn default_field() -> (r: Self)
        ensures
            r.name@ == Seq::<char>::empty(),
            r.source == FieldSource::Filename,
            r.pattern is None,
            r.type_hint == FieldType::String,
            r.normalizer is None,
            r.default_value is None,
    {
        FieldDraft {
            name: String::new(),
            source: FieldSource::Filename,
            pattern: None,
            type_hint: FieldType::String,
            normalizer: None,
            default_value: None,
        }
    }
}

/// Source of field value extraction.
#[derive(Debug, Clone, Copy, PartialEq, Eq, Structural)]
pub enum FieldSource {
    /// Path segment at index (negative = from end)
    Segment(i32),
    /// File name only
    Filename,
    /// Full path
    FullPath,
    /// Relative path
    RelPath,
}

/// Database form of a field source: a type name and, for segments, the
/// index as decimal text.
pub open spec fn source_to_db(s: FieldSource) -> (Seq<char>, Option<Seq<char>>) {
    match s {
        FieldSource::Segment(n) => ("segment"@, Some(decimal_int(n as int))),
        FieldSource::Filename => ("filename"@, None),
        FieldSource::FullPath => ("full_path"@, None),
        FieldSource::RelPath => ("rel_path"@, None),
    }
}

/// Reading a database form back: `None` for an unknown type name, or a
/// segment whose index is missing or not an `i32` literal.
pub open spec fn source_from_db(t: Seq<char>, v: Option<Seq<char>>) -> Option<FieldSource> {
    if t == "segment"@ {
        match v {
            Some(v) => match signed_literal(v) {
                Some(n) => if i32::MIN <= n <= i32::MAX {
                    Some(FieldSource::Segment(n as i32))
                } else {
                    None
                },
                None => None,
            },
            None => None,
        }
    } else if t == "filename"@ {
        Some(FieldSource::Filename)
    } else if t == "full_path"@ {
        Some(FieldSource::FullPath)
    } else if t == "rel_path"@ {
        Some(FieldSource::RelPath)
    } else {
        None
    }
}

/// Law: reading back the database form of a field source gives the same
/// source, a segment at any `i32` index included.
pub proof fn law_field_source_db_round_trip(s: FieldSource)
    ensures
        source_from_db(source_to_db(s).0, source_to_db(s).1) == Some(s),
{
    reveal_strlit("segment");
    reveal_strlit("filename");
    reveal_strlit("full_path");
    reveal_strlit("rel_path");
    assert("segment"@.len() == 7 && "filename"@.len() == 8 && "full_path"@.len() == 9 && "rel_path"@.len() == 8);
    assert("filename"@[0] != "rel_path"@[0]);
    match s {
        FieldSource::Segment(n) => {
            let t = decimal_int(n as int);
            if n < 0 {
                crate::flow_laws::lemma_decimal_digits((-(n as int)) as nat);
                let d = decimal((-(n as int)) as nat);
                assert(t.drop_first() =~= d);
                assert(signed_literal(t) == Some(n as int));
            } else {
                crate::flow_laws::lemma_decimal_digits(n as nat);
                let d = decimal(n as nat);
                assert(is_ascii_digit(d[0]));
                assert(signed_literal(t) == Some(n as int));
            }
        },
        _ => {},
    }
}

impl FieldSource {
    /// Database form: a type name and, for segments, the index as text.
    pub fn to_db_format(&self) -> (r: (&'static str, Option<String>))
        ensures
            (r.0@, match r.1 {
                Some(v) => Some(v@),
                None => None,
            }) == source_to_db(*self),
    {
        match self {
            FieldSource::Segment(n) => ("segment", Some(i64_to_decimal(*n as i64))),
            FieldSource::Filename => ("filename", None),
            FieldSource::FullPath => ("full_path", None),
            FieldSource::RelPath => ("rel_path", None),
        }
    }

    /// Reads the database form back; `None` for an unknown type name or a
    /// segment whose index is missing or not an `i32`.
    pub fn from_db_format(source_type: &str, source_value: Option<&str>) -> (r: Option<Self>)
        ensures
            r == source_from_db(
                source_type@,
                match source_value {
                    Some(v) => Some(v@),
                    None => None,
                },
            ),
    {
        if str_eq(source_type, "segment") {
            match source_value {
                Some(v) => {
                    let chars = str_chars(v);
                    match parse_i32(chars.as_slice()) {
                        Some(n) => Some(FieldSource::Segment(n)),
                        None => None,
                    }
                },
                None => None,
            }
        } else if str_eq(source_type, "filename") {
            Some(FieldSource::Filename)
        } else if str_eq(source_type, "full_path") {
            Some(FieldSource::FullPath)
        } else if str_eq(source_type, "rel_path") {
            Some(FieldSource::RelPath)
        } else {
            None
        }
    }

    /// Display name for the UI, e.g. `segment(-2)`.
    pub fn display_name(&self) -> (r: String)
        ensures
            r@ == (match *self {
                FieldSource::Segment(n) => "segment("@ + decimal_int(n as int) + ")"@,
                FieldSource::Filename => "filename"@,
                FieldSource::FullPath => "full_path"@,
                FieldSource::RelPath => "rel_path"@,
            }),
    {
        match self {
            FieldSource::Segment(n) => {
                let d = i64_to_decimal(*n as i64);
                concat3("segment(", d.as_str(), ")")
            },
            FieldSource::Filename => owned("filename"),
            FieldSource::FullPath => owned("full_path"),
            FieldSource::RelPath => owned("rel_path"),
        }
    }
}

/// Type hint for field parsing.
#[derive(Debug, Clone, Copy, PartialEq, Eq, Structural)]
pub enum FieldType {
    String,
    Integer,
    Date,
    Uuid,
}

impl FieldType {
    pub open spec fn db_name(self) -> Seq<char> {
        match self {
            FieldType::String => "string"@,
            FieldType::Integer => "integer"@,
            FieldType::Date => "date"@,
            FieldType::Uuid => "uuid"@,
        }
    }

    pub fn to_db_string(&self) -> (r: &'static str)
        ensures
            r@ == self.db_name(),
    {
        match self {
            FieldType::String => "string",
            FieldType::Integer => "integer",
            FieldType::Date => "date",
            FieldType::Uuid => "uuid",
        }
    }

    /// Reads a database name; anything unknown is `String`.
    pub fn from_db_string(s: &str) -> (r: Self)
        ensures
            r == (if s@ == "integer"@ {
                FieldType::Integer
            } else if s@ == "date"@ {
                FieldType::Date
            } else if s@ == "uuid"@ {
                FieldType::Uuid
            } else {
                FieldType::String
            }),
    {
        if str_eq(s, "integer") {
            FieldType::Integer
        } else if str_eq(s, "date") {
            FieldType::Date
        } else if str_eq(s, "uuid") {
            FieldType::Uuid
        } else {
            FieldType::String
        }
    }

    pub fn display_name(&self) -> (r: &'static str)
        ensures
            r@ == self.db_name(),
    {
        match self {
            FieldType::String => "string",
            FieldType::Integer => "integer",
            FieldType::Date => "date",
            FieldType::Uuid => "uuid",
        }
    }
}

/// Reading back what `to_db_string` wrote gives the same field type.
pub proof fn law_field_type_db_round_trip(t: FieldType)
    ensures
        (if t.db_name() == "integer"@ {
            FieldType::Integer
        } else if t.db_name() == "date"@ {
            FieldType::Date
        } else if t.db_name() == "uuid"@ {
            FieldType::Uuid
        } else {
            FieldType::String
        }) == t,
{
    reveal_strlit("string");
    reveal_strlit("integer");
    reveal_strlit("date");
    reveal_strlit("uuid");
    assert("string"@.len() == 6 && "integer"@.len() == 7 && "date"@.len() == 4);
    assert("uuid"@.len() == 4 && "date"@[0] == 'd' && "uuid"@[0] == 'u');
}

/// Value normalizer.
#[derive(Debug, Clone, Copy, PartialEq, Eq, Structural)]
pub enum Normalizer {
    Lowercase,
    Uppercase,
    StripLeadingZeros,
}

impl Normalizer {
    pub open spec fn db_name(self) -> Seq<char> {
        match self {
            Normalizer::Lowercase => "lowercase"@,
            Normalizer::Uppercase => "uppercase"@,
            Normalizer::StripLeadingZeros => "strip_leading_zeros"@,
        }
    }

    pub fn to_db_string(&self) -> (r: &'static str)
        ensures
            r@ == self.db_name(),
    {
        match self {
            Normalizer::Lowercase => "lowercase",
            Normalizer::Uppercase => "uppercase",
            Normalizer::StripLeadingZeros => "strip_leading_zeros",
        }
    }

    pub fn from_db_string(s: &str) -> (r: Option<Self>)
        ensures
            r == (if s@ == "lowercase"@ {
                Some(Normalizer::Lowercase)
            } else if s@ == "uppercase"@ {
                Some(Normalizer::Uppercase)
            } else if s@ == "strip_leading_zeros"@ {
                Some(Normalizer::StripLeadingZeros)
            } else {
                None
            }),
    {
        if str_eq(s, "lowercase") {
            Some(Normalizer::Lowercase)
        } else if str_eq(s, "uppercase") {
            Some(Normalizer::Uppercase)
        } else if str_eq(s, "strip_leading_zeros") {
            Some(Normalizer::StripLeadingZeros)
        } else {
            None
        }
    }
}

/// Reading back what `Normalizer::to_db_string` wrote gives the same normalizer.
pub proof fn law_normalizer_db_round_trip(n: Normalizer)
    ensures
        (if n.db_name() == "lowercase"@ {
            Some(Normalizer::Lowercase)
        } else if n.db_name() == "uppercase"@ {
            Some(Normalizer::Uppercase)
        } else if n.db_name() == "strip_leading_zeros"@ {
            Some(Normalizer::StripLeadingZeros)
        } else {
            None
        }) == Some(n),
{
    reveal_strlit("lowercase");
    reveal_strlit("uppercase");
    reveal_strlit("strip_leading_zeros");
    assert("lowercase"@[0] == 'l' && "uppercase"@[0] == 'u');
    assert("strip_leading_zeros"@[0] == 's');
}

/// Conditional tag assignment.
#[derive(Debug, Clone)]
pub struct TagConditionDraft {
    pub field: String,
    pub operator: CompareOp,
    pub value: String,
    pub tag: String,
    /// Priority (higher = checked first)
    pub priority: i32,
}

impl TagConditionDraft {
    /// An empty equality condition with priority 100.
    pub fn default_condition() -> (r: Self)
        ensures
            r.field@ == Seq::<char>::empty(),
            r.operator == CompareOp::Eq,
            r.value@ == Seq::<char>::empty(),
            r.tag@ == Seq::<char>::empty(),
            r.priority == 100,
    {
        TagConditionDraft {
            field: String::new(),
            operator: CompareOp::Eq,
            value: String::new(),
            tag: String::new(),
            priority: 100,
        }
    }
}

/// Comparison operator for tag conditions.
#[derive(Debug, Clone, Copy, PartialEq, Eq, Structural)]
pub enum CompareOp {
    Eq,
    NotEq,
    Lt,
    Gt,
    LtEq,
    GtEq,
    Contains,
    Matches,
}

impl CompareOp {
    pub open spec fn symbol_spec(self) -> Seq<char> {
        match self {
            CompareOp::Eq => "="@,
            CompareOp::NotEq => "!="@,
            CompareOp::Lt => "<"@,
            CompareOp::Gt => ">"@,
            CompareOp::LtEq => "<="@,
            CompareOp::GtEq => ">="@,
            CompareOp::Contains => "contains"@,
            CompareOp::Matches => "matches"@,
        }
    }

    pub fn to_db_string(&self) -> (r: &'static str)
        ensures
            r@ == self.symbol_spec(),
    {
        match self {
            CompareOp::Eq => "=",
            CompareOp::NotEq => "!=",
            CompareOp::Lt => "<",
            CompareOp::Gt => ">",
            CompareOp::LtEq => "<=",
            CompareOp::GtEq => ">=",
            CompareOp::Contains => "contains",
            CompareOp::Matches => "matches",
        }
    }

    pub open spec fn from_db_spec(s: Seq<char>) -> CompareOp {
        if s == "!="@ {
            CompareOp::NotEq
        } else if s == "<"@ {
            CompareOp::Lt
        } else if s == ">"@ {
            CompareOp::Gt
        } else if s == "<="@ {
            CompareOp::LtEq
        } else if s == ">="@ {
            CompareOp::GtEq
        } else if s == "contains"@ {
            CompareOp::Contains
        } else if s == "matches"@ {
            CompareOp::Matches
        } else {
            CompareOp::Eq
        }
    }

    /// Reads a database operator; anything unknown is `Eq`.
    pub fn from_db_string(s: &str) -> (r: Self)
        ensures
            r == Self::from_db_spec(s@),
    {
        proof {
            reveal_strlit("=");
            reveal_strlit("!=");
            reveal_strlit("<");
            reveal_strlit(">");
            reveal_strlit("<=");
            reveal_strlit(">=");
            reveal_strlit("contains");
            reveal_strlit("matches");
            assert("="@[0] == '=' && "!="@[0] == '!' && "<"@[0] == '<' && ">"@[0] == '>');
            assert("<="@[0] == '<' && ">="@[0] == '>' && "contains"@[0] == 'c');
            assert("matches"@[0] == 'm');
            assert("="@.len() == 1 && "<"@.len() == 1 && ">"@.len() == 1 && "<="@.len() == 2);
            assert(">="@.len() == 2 && "!="@.len() == 2);
        }
        if str_eq(s, "=") {
            CompareOp::Eq
        } else if str_eq(s, "!=") {
            CompareOp::NotEq
        } else if str_eq(s, "<") {
            CompareOp::Lt
        } else if str_eq(s, ">") {
            CompareOp::Gt
        } else if str_eq(s, "<=") {
            CompareOp::LtEq
        } else if str_eq(s, ">=") {
            CompareOp::GtEq
        } else if str_eq(s, "contains") {
            CompareOp::Contains
        } else if str_eq(s, "matches") {
            CompareOp::Matches
        } else {
            CompareOp::Eq
        }
    }

    pub fn display_name(&self) -> (r: &'static str)
        ensures
            r@ == self.symbol_spec(),
    {
        self.to_db_string()
    }
}

/// Reading back what `CompareOp::to_db_string` wrote gives the same operator.
pub proof fn law_compare_op_db_round_trip(op: CompareOp)
    ensures
        CompareOp::from_db_spec(op.symbol_spec()) == op,
{
    reveal_strlit("=");
    reveal_strlit("!=");
    reveal_strlit("<");
    reveal_strlit(">");
    reveal_strlit("<=");
    reveal_strlit(">=");
    reveal_strlit("contains");
    reveal_strlit("matches");
    assert("="@[0] == '=' && "!="@[0] == '!' && "<"@[0] == '<' && ">"@[0] == '>');
    assert("<="@[0] == '<' && ">="@[0] == '>' && "contains"@[0] == 'c');
    assert("matches"@[0] == 'm');
    assert("="@.len() == 1 && "<"@.len() == 1 && ">"@.len() == 1 && "<="@.len() == 2);
    assert(">="@.len() == 2 && "!="@.len() == 2);
}

// ---------------------------------------------------------------------------
// Rule editor focus
// ---------------------------------------------------------------------------

/// Focus in the four-section rule editor.
#[derive(Debug, Clone, Copy, PartialEq, Eq, Structural)]
pub enum RuleEditorFocus {
    GlobPattern,
    FieldList,
    BaseTag,
    Conditions,
}

impl RuleEditorFocus {
    /// Section number shown to the user (1-4).
    pub open spec fn section(self) -> int {
        match self {
            RuleEditorFocus::GlobPattern => 1,
            RuleEditorFocus::FieldList => 2,
            RuleEditorFocus::BaseTag => 3,
            RuleEditorFocus::Conditions => 4,
        }
    }

    /// Next section (Tab), wrapping from 4 to 1.
    pub fn next(self) -> (r: Self)
        ensures
            r.section() == self.section() % 4 + 1,
    {
        match self {
            RuleEditorFocus::GlobPattern => RuleEditorFocus::FieldList,
            RuleEditorFocus::FieldList => RuleEditorFocus::BaseTag,
            RuleEditorFocus::BaseTag => RuleEditorFocus::Conditions,
            RuleEditorFocus::Conditions => RuleEditorFocus::GlobPattern,
        }
    }

    /// Previous section (Shift+Tab), wrapping from 1 to 4.
    pub fn prev(self) -> (r: Self)
        ensures
            r.section() == (self.section() + 2) % 4 + 1,
    {
        match self {
            RuleEditorFocus::GlobPattern => RuleEditorFocus::Conditions,
            RuleEditorFocus::FieldList => RuleEditorFocus::GlobPattern,
            RuleEditorFocus::BaseTag => RuleEditorFocus::FieldList,
            RuleEditorFocus::Conditions => RuleEditorFocus::BaseTag,
        }
    }

    pub fn section_number(self) -> (r: u8)
        ensures
            r == self.section(),
    {
        match self {
            RuleEditorFocus::GlobPattern => 1,
            RuleEditorFocus::FieldList => 2,
            RuleEditorFocus::BaseTag => 3,
            RuleEditorFocus::Conditions => 4,
        }
    }
}

/// Each section of the rule editor has its own number.
pub proof fn law_sections_have_distinct_numbers(a: RuleEditorFocus, b: RuleEditorFocus)
    requires
        a.section() == b.section(),
    ensures
        a == b,
{
}

/// Tab then Shift+Tab (or the reverse) returns to the same section.
pub proof fn law_rule_editor_next_prev_inverse(f: RuleEditorFocus, n: RuleEditorFocus, p: RuleEditorFocus)
    requires
        n.section() == f.section() % 4 + 1,
        p.section() == (n.section() + 2) % 4 + 1,
    ensures
        p == f,
{
}

/// Sub-focus when editing a field.
#[derive(Debug, Clone, Copy, PartialEq, Eq, Structural)]
pub enum FieldEditFocus {
    Source,
    Pattern,
    TypeHint,
}

// ---------------------------------------------------------------------------
// Test state
// ---------------------------------------------------------------------------

/// Phase of a test run.
#[derive(Debug, Clone)]
pub enum TestPhase {
    Running { files_processed: usize, files_total: usize, current_file: Option<String> },
    Complete,
    Cancelled { files_processed: usize },
    Error(String),
}

/// Results collected during a test run.
#[derive(Debug, Clone)]
pub struct TestResults {
    pub total_files: usize,
    pub complete: usize,
    pub partial: usize,
    pub failed: usize,
    pub field_metrics: HashMap<String, FieldMetrics>,
    pub tag_counts: HashMap<String, usize>,
    pub sample_extractions: Vec<SampleExtraction>,
    pub failed_files: Vec<String>,
}

/// Metrics for a single field.
#[derive(Debug, Clone)]
pub struct FieldMetrics {
    pub field_name: String,
    pub unique_count: usize,
    /// Top values with counts (max 5)
    pub top_values: Vec<(String, usize)>,
    pub min_value: Option<String>,
    pub max_value: Option<String>,
    pub null_count: usize,
}

/// Sample extraction for preview.
#[derive(Debug, Clone)]
pub struct SampleExtraction {
    pub file_path: String,
    pub fields: HashMap<String, String>,
    pub tags: Vec<String>,
}

/// Category filter for test results.
#[derive(Debug, Clone, Copy, PartialEq, Eq, Structural)]
pub enum TestCategory {
    Summary,
    Complete,
    Partial,
    Failed,
    FieldMetrics,
}

impl TestCategory {
    pub fn display_name(&self) -> (r: &'static str)
        ensures
            r@ == (match *self {
                TestCategory::Summary => "Summary"@,
                TestCategory::Complete => "Complete"@,
                TestCategory::Partial => "Partial"@,
                TestCategory::Failed => "Failed"@,
                TestCategory::FieldMetrics => "Metrics"@,
            }),
    {
        match self {
            TestCategory::Summary => "Summary",
            TestCategory::Complete => "Complete",
            TestCategory::Partial => "Partial",
            TestCategory::Failed => "Failed",
            TestCategory::FieldMetrics => "Metrics",
        }
    }
}

/// Phase of a publish operation.
#[derive(Debug, Clone, Copy, PartialEq, Eq, Structural)]
pub enum PublishPhase {
    Confirming,
    Validating,
    Saving,
    StartingJob,
}

/// Error during publishing.
#[derive(Debug, Clone)]
pub enum PublishError {
    DatabaseConnection(String),
    RuleNameConflict { existing_rule_id: String, existing_created_at: String },
    PatternConflict { existing_rule_id: String, existing_rule_name: String },
    DatabaseWrite(String),
    JobCreation(String),
    Cancelled,
}

impl PublishError {
    pub open spec fn message_spec(&self) -> Seq<char> {
        match self {
            PublishError::DatabaseConnection(m) => "Database connection failed: "@ + m@,
            PublishError::RuleNameConflict { .. } => "Rule name already exists"@,
            PublishError::PatternConflict { existing_rule_name, .. } => "Pattern conflicts with rule '"@
                + existing_rule_name@ + "'"@,
            PublishError::DatabaseWrite(m) => "Failed to save rule: "@ + m@,
            PublishError::JobCreation(m) => "Failed to create job: "@ + m@,
            PublishError::Cancelled => "Publishing cancelled"@,
        }
    }

    pub fn message(&self) -> (r: String)
        ensures
            r@ == self.message_spec(),
    {
        match self {
            PublishError::DatabaseConnection(msg) => concat2(
                "Database connection failed: ",
                msg.as_str(),
            ),
            PublishError::RuleNameConflict { .. } => owned("Rule name already exists"),
            PublishError::PatternConflict { existing_rule_name, .. } => concat3(
                "Pattern conflicts with rule '",
                existing_rule_name.as_str(),
                "'",
            ),
            PublishError::DatabaseWrite(msg) => concat2("Failed to save rule: ", msg.as_str()),
            PublishError::JobCreation(msg) => concat2("Failed to create job: ", msg.as_str()),
            PublishError::Cancelled => owned("Publishing cancelled"),
        }
    }

    /// The recovery choices offered for each error, in display order.
    pub fn recovery_options(&self) -> (r: Vec<RecoveryOption>)
        ensures
            match self {
                PublishError::DatabaseConnection(_) | PublishError::DatabaseWrite(_) => r@
                    == seq![RecoveryOption::Retry, RecoveryOption::EditRule, RecoveryOption::Cancel],
                PublishError::RuleNameConflict { existing_rule_id, .. } => r@.len() == 3
                    && r@[0] == RecoveryOption::EditRule && r@[2] == RecoveryOption::Cancel
                    && (r@[1] matches RecoveryOption::Overwrite { existing_id }
                    && existing_id@ == existing_rule_id@),
                PublishError::PatternConflict { existing_rule_id, .. } => r@.len() == 3
                    && r@[0] == RecoveryOption::EditRule && r@[2] == RecoveryOption::Cancel
                    && (r@[1] matches RecoveryOption::Overwrite { existing_id }
                    && existing_id@ == existing_rule_id@),
                PublishError::JobCreation(_) => r@ == seq![
                    RecoveryOption::Retry,
                    RecoveryOption::Cancel,
                ],
                PublishError::Cancelled => r@ == seq![
                    RecoveryOption::EditRule,
                    RecoveryOption::Cancel,
                ],
            },
    {
        let mut v: Vec<RecoveryOption> = Vec::new();
        match self {
            PublishError::DatabaseConnection(_) | PublishError::DatabaseWrite(_) => {
                v.push(RecoveryOption::Retry);
                v.push(RecoveryOption::EditRule);
                v.push(RecoveryOption::Cancel);
            },
            PublishError::RuleNameConflict { existing_rule_id, .. } => {
                v.push(RecoveryOption::EditRule);
                v.push(RecoveryOption::Overwrite { existing_id: owned(existing_rule_id.as_str()) });
                v.push(RecoveryOption::Cancel);
            },
            PublishError::PatternConflict { existing_rule_id, .. } => {
                v.push(RecoveryOption::EditRule);
                v.push(RecoveryOption::Overwrite { existing_id: owned(existing_rule_id.as_str()) });
                v.push(RecoveryOption::Cancel);
            },
            PublishError::JobCreation(_) => {
                v.push(RecoveryOption::Retry);
                v.push(RecoveryOption::Cancel);
            },
            PublishError::Cancelled => {
                v.push(RecoveryOption::EditRule);
                v.push(RecoveryOption::Cancel);
            },
        }
        assert(v@.len() >= 2);
        v
    }
}

/// Recovery option for publish errors.
#[derive(Debug, Clone, PartialEq, Eq)]
pub enum RecoveryOption {
    Retry,
    EditRule,
    Overwrite { existing_id: String },
    Cancel,
}

impl RecoveryOption {
    pub fn key(&self) -> (r: char)
        ensures
            r == (match *self {
                RecoveryOption::Retry => 'r',
                RecoveryOption::EditRule => 'e',
                RecoveryOption::Overwrite { .. } => 'o',
                RecoveryOption::Cancel => 'c',
            }),
    {
        match self {
            RecoveryOption::Retry => 'r',
            RecoveryOption::EditRule => 'e',
            RecoveryOption::Overwrite { .. } => 'o',
            RecoveryOption::Cancel => 'c',
        }
    }

    pub fn display_name(&self) -> (r: &'static str)
        ensures
            r@ == (match *self {
                RecoveryOption::Retry => "Retry"@,
                RecoveryOption::EditRule => "Edit rule"@,
                RecoveryOption::Overwrite { .. } => "Overwrite"@,
                RecoveryOption::Cancel => "Cancel"@,
            }),
    {
        match self {
            RecoveryOption::Retry => "Retry",
            RecoveryOption::EditRule => "Edit rule",
            RecoveryOption::Overwrite { .. } => "Overwrite",
            RecoveryOption::Cancel => "Cancel",
        }
    }
}

/// Configuration for histogram rendering.
#[derive(Debug, Clone)]
pub struct HistogramConfig {
    /// Maximum bar width in characters
    pub bar_width: usize,
    /// Maximum number of values to show per field
    pub max_values: usize,
    /// Maximum characters for a value label before truncation
    pub max_label_width: usize,
    /// Character for the filled portion of a bar
    pub filled_char: char,
    /// Character for the empty portion of a bar
    pub empty_char: char,
}

impl HistogramConfig {
    /// Bars 12 wide, 5 values, labels up to 15 characters, `█` and `░`.
    pub fn default_config() -> (r: Self)
        ensures
            r.bar_width == 12,
            r.max_values == 5,
            r.max_label_width == 15,
            r.filled_char == '\u{2588}',
            r.empty_char == '\u{2591}',
    {
        HistogramConfig {
            bar_width: 12,
            max_values: 5,
            max_label_width: 15,
            filled_char: '\u{2588}',
            empty_char: '\u{2591}',
        }
    }
}

/// `n` copies of a character.
pub open spec fn repeated(c: char, n: nat) -> Seq<char> {
    Seq::new(n, |i: int| c)
}

fn push_repeated(s: &mut String, c: char, n: usize)
    ensures
        final(s)@ == old(s)@ + repeated(c, n as nat),
{
    let ghost start = s@;
    let mut k: usize = 0;
    while k < n
        invariant
            k <= n,
            s@ == start + repeated(c, k as nat),
        decreases n - k,
    {
        push_char(s, c);
        k += 1;
        proof {
            assert(s@ =~= start + repeated(c, k as nat));
        }
    }
}

impl HistogramConfig {
    /// A label fitted to the column, counted in characters: one of at most
    /// the maximum width is padded with spaces to that width; a longer one
    /// is cut to the maximum less 3 characters, followed by "...".
    pub fn truncate_label(&self, value: &str) -> (r: String)
        requires
            value@.len() > self.max_label_width ==> self.max_label_width >= 3,
        ensures
            value@.len() <= self.max_label_width ==> r@ == value@ + repeated(
                ' ',
                (self.max_label_width - value@.len()) as nat,
            ),
            value@.len() > self.max_label_width ==> r@ == value@.subrange(
                0,
                self.max_label_width - 3,
            ) + "..."@,
    {
        let chars = str_chars(value);
        let n = chars.len();
        if n <= self.max_label_width {
            let mut r = owned(value);
            push_repeated(&mut r, ' ', self.max_label_width - n);
            r
        } else {
            let head = slice_chars(chars.as_slice(), 0, self.max_label_width - 3);
            let mut r = string_from_chars(head.as_slice());
            push_str(&mut r, "...");
            r
        }
    }

    /// A bar with `filled` filled cells and the rest empty.
    pub fn bar(&self, filled: usize) -> (r: String)
        requires
            filled <= self.bar_width,
        ensures
            r@ == repeated(self.filled_char, filled as nat) + repeated(
                self.empty_char,
                (self.bar_width - filled) as nat,
            ),
    {
        let mut r = String::new();
        push_repeated(&mut r, self.filled_char, filled);
        push_repeated(&mut r, self.empty_char, self.bar_width - filled);
        proof {
            assert(r@ =~= repeated(self.filled_char, filled as nat) + repeated(
                self.empty_char,
                (self.bar_width - filled) as nat,
            ));
        }
        r
    }
}

/// Full state of the testing phase.
#[derive(Debug, Clone)]
pub struct TestState {
    pub rule: RuleDraft,
    pub phase: TestPhase,
    pub results: Option<TestResults>,
    pub selected_category: TestCategory,
    pub scroll_offset: usize,
    pub cancel_requested: bool,
}

impl TestState {
    /// A test of `rule` over `files_total` files, running from the first file.
    pub fn new(rule: RuleDraft, files_total: usize) -> (r: Self)
        ensures
            r.rule == rule,
            r.phase matches TestPhase::Running { files_processed, files_total: t, current_file }
                && files_processed == 0 && t == files_total && current_file is None,
            r.results is None,
            r.selected_category == TestCategory::Summary,
            r.scroll_offset == 0,
            !r.cancel_requested,
    {
        TestState {
            rule,
            phase: TestPhase::Running { files_processed: 0, files_total, current_file: None },
            results: None,
            selected_category: TestCategory::Summary,
            scroll_offset: 0,
            cancel_requested: false,
        }
    }

    pub fn is_running(&self) -> (r: bool)
        ensures
            r == (self.phase is Running),
    {
        match self.phase {
            TestPhase::Running { .. } => true,
            _ => false,
        }
    }

    pub fn is_complete(&self) -> (r: bool)
        ensures
            r == (self.phase is Complete),
    {
        match self.phase {
            TestPhase::Complete => true,
            _ => false,
        }
    }
}

/// Full state of the publishing phase.
#[derive(Debug, Clone)]
pub struct PublishState {
    pub rule: RuleDraft,
    pub phase: PublishPhase,
    pub job_id: Option<String>,
    pub error: Option<PublishError>,
    pub matching_files_count: usize,
}

impl PublishState {
    pub fn new(rule: RuleDraft, matching_files_count: usize) -> (r: Self)
        ensures
            r.rule == rule,
            r.phase == PublishPhase::Confirming,
            r.job_id is None,
            r.error is None,
            r.matching_files_count == matching_files_count,
    {
        PublishState {
            rule,
            phase: PublishPhase::Confirming,
            job_id: None,
            error: None,
            matching_files_count,
        }
    }
}

// ---------------------------------------------------------------------------
// Rule Builder
// ---------------------------------------------------------------------------

/// Filter for displaying test results (cycles a, p, f).
#[derive(Debug, Clone, Copy, PartialEq, Eq, Structural)]
pub enum ResultFilter {
    All,
    PassOnly,
    FailOnly,
}

impl ResultFilter {
    pub open spec fn next_spec(self) -> ResultFilter {
        match self {
            ResultFilter::All => ResultFilter::PassOnly,
            ResultFilter::PassOnly => ResultFilter::FailOnly,
            ResultFilter::FailOnly => ResultFilter::All,
        }
    }

    /// Cycle a, p, f, a.
    pub fn next(self) -> (r: Self)
        ensures
            r == self.next_spec(),
    {
        match self {
            ResultFilter::All => ResultFilter::PassOnly,
            ResultFilter::PassOnly => ResultFilter::FailOnly,
            ResultFilter::FailOnly => ResultFilter::All,
        }
    }

    pub fn label(&self) -> (r: &'static str)
        ensures
            r@ == (match *self {
                ResultFilter::All => "All"@,
                ResultFilter::PassOnly => "Pass"@,
                ResultFilter::FailOnly => "Fail"@,
            }),
    {
        match self {
            ResultFilter::All => "All",
            ResultFilter::PassOnly => "Pass",
            ResultFilter::FailOnly => "Fail",
        }
    }

    pub fn key_hint(&self) -> (r: &'static str)
        ensures
            r@ == (match *self {
                ResultFilter::All => "a"@,
                ResultFilter::PassOnly => "p"@,
                ResultFilter::FailOnly => "f"@,
            }),
    {
        match self {
            ResultFilter::All => "a",
            ResultFilter::PassOnly => "p",
            ResultFilter::FailOnly => "f",
        }
    }
}

/// Cycling the result filter three times returns to where it started.
pub proof fn law_result_filter_cycle(f: ResultFilter)
    ensures
        f.next_spec().next_spec().next_spec() == f,
{
}

/// Phase of the file results panel.
#[derive(Debug, Clone, Copy, PartialEq, Eq, Structural)]
pub enum FileResultsPhase {
    Exploration,
    ExtractionPreview,
    BacktestResults,
}

/// A folder with match count and sample file name.
#[derive(Debug, Clone)]
pub struct FolderMatch {
    pub path: String,
    pub count: usize,
    pub sample_filename: String,
    pub files: Vec<String>,
}

/// File with extraction preview.
#[derive(Debug, Clone)]
pub struct ExtractionPreviewFile {
    pub path: String,
    pub relative_path: String,
    /// Field values read from the path, by field name
    pub extractions: crate::glob_pattern::FieldValues,
    pub warnings: Vec<String>,
}

/// Test result status for a single file.
#[derive(Debug, Clone, PartialEq, Eq)]
pub enum FileTestResult {
    NotTested,
    Pass,
    Fail { error: String, hint: Option<String> },
    Excluded { pattern: String },
}

impl FileTestResult {
    pub fn is_pass(&self) -> (r: bool)
        ensures
            r == (*self is Pass),
    {
        match self {
            FileTestResult::Pass => true,
            _ => false,
        }
    }

    pub fn is_fail(&self) -> (r: bool)
        ensures
            r == (*self is Fail),
    {
        match self {
            FileTestResult::Fail { .. } => true,
            _ => false,
        }
    }

    pub fn is_excluded(&self) -> (r: bool)
        ensures
            r == (*self is Excluded),
    {
        match self {
            FileTestResult::Excluded { .. } => true,
            _ => false,
        }
    }

    pub fn indicator(&self) -> (r: &'static str)
        ensures
            r@ == (match *self {
                FileTestResult::NotTested => " "@,
                FileTestResult::Pass => "\u{2713}"@,
                FileTestResult::Fail { .. } => "\u{2717}"@,
                FileTestResult::Excluded { .. } => "\u{25cb}"@,
            }),
    {
        match self {
            FileTestResult::NotTested => " ",
            FileTestResult::Pass => "\u{2713}",
            FileTestResult::Fail { .. } => "\u{2717}",
            FileTestResult::Excluded { .. } => "\u{25cb}",
        }
    }
}

/// Whether a test result is shown under a filter: `All` hides excluded files,
/// the others show only passes or only failures.
pub open spec fn result_passes_filter(t: FileTestResult, filter: ResultFilter) -> bool {
    match filter {
        ResultFilter::All => !(t is Excluded),
        ResultFilter::PassOnly => t is Pass,
        ResultFilter::FailOnly => t is Fail,
    }
}

/// Extended file info for the Rule Builder, with test status.
#[derive(Debug, Clone)]
pub struct MatchedFileInfo {
    pub rel_path: String,
    pub size: u64,
    /// Modification time (unix timestamp)
    pub mtime: i64,
    pub test_result: FileTestResult,
    pub extracted_fields: Option<HashMap<String, String>>,
}

impl MatchedFileInfo {
    pub fn new(rel_path: String, size: u64, mtime: i64) -> (r: Self)
        ensures
            r.rel_path == rel_path,
            r.size == size,
            r.mtime == mtime,
            r.test_result == FileTestResult::NotTested,
            r.extracted_fields is None,
    {
        MatchedFileInfo {
            rel_path,
            size,
            mtime,
            test_result: FileTestResult::NotTested,
            extracted_fields: None,
        }
    }

    pub fn passes_filter(&self, filter: ResultFilter) -> (r: bool)
        ensures
            r == result_passes_filter(self.test_result, filter),
    {
        match filter {
            ResultFilter::All => !self.test_result.is_excluded(),
            ResultFilter::PassOnly => self.test_result.is_pass(),
            ResultFilter::FailOnly => self.test_result.is_fail(),
        }
    }
}

/// Backtest summary statistics.
#[derive(Debug, Clone)]
pub struct BacktestSummary {
    pub total_matched: usize,
    pub pass_count: usize,
    pub fail_count: usize,
    pub excluded_count: usize,
    pub is_running: bool,
}

impl BacktestSummary {
    pub fn empty() -> (r: Self)
        ensures
            r.total_matched == 0 && r.pass_count == 0 && r.fail_count == 0 && r.excluded_count == 0
                && !r.is_running,
    {
        BacktestSummary {
            total_matched: 0,
            pass_count: 0,
            fail_count: 0,
            excluded_count: 0,
            is_running: false,
        }
    }

    /// `Pass: {pass}  Fail: {fail}  Skip: {excluded}`
    pub fn status_line(&self) -> (r: String)
        ensures
            r@ == "Pass: "@ + decimal(self.pass_count as nat) + "  Fail: "@ + decimal(
                self.fail_count as nat,
            ) + "  Skip: "@ + decimal(self.excluded_count as nat),
    {
        let mut s = owned("Pass: ");
        let p = u64_to_decimal(self.pass_count as u64);
        push_str(&mut s, p.as_str());
        push_str(&mut s, "  Fail: ");
        let f = u64_to_decimal(self.fail_count as u64);
        push_str(&mut s, f.as_str());
        push_str(&mut s, "  Skip: ");
        let e = u64_to_decimal(self.excluded_count as u64);
        push_str(&mut s, e.as_str());
        s
    }
}


// ---------------------------------------------------------------------------
// Glob traversal progress
// ---------------------------------------------------------------------------

/// Progress of a glob traversal over folders.
#[derive(Debug, Clone)]
pub struct GlobProgress {
    /// Folder currently being scanned
    pub current_folder: String,
    /// Files matched so far
    pub files_found: usize,
    /// Folders discovered (denominator for progress)
    pub folders_discovered: usize,
    /// Folders scanned (numerator for progress)
    pub folders_scanned: usize,
    /// Whether the glob is in progress
    pub is_active: bool,
    /// When the glob started
    pub started_at: Option<std::time::Instant>,
}

impl GlobProgress {
    /// Progress that has not started.
    pub fn idle() -> (r: Self)
        ensures
            r.current_folder@ == Seq::<char>::empty(),
            r.files_found == 0,
            r.folders_discovered == 0,
            r.folders_scanned == 0,
            !r.is_active,
            r.started_at is None,
    {
        GlobProgress {
            current_folder: String::new(),
            files_found: 0,
            folders_discovered: 0,
            folders_scanned: 0,
            is_active: false,
            started_at: None,
        }
    }

    /// Starts tracking now, with all counts at zero.
    pub fn start() -> (r: Self)
        ensures
            r.current_folder@ == Seq::<char>::empty(),
            r.files_found == 0,
            r.folders_discovered == 0,
            r.folders_scanned == 0,
            r.is_active,
            r.started_at is Some,
    {
        GlobProgress {
            current_folder: String::new(),
            files_found: 0,
            folders_discovered: 0,
            folders_scanned: 0,
            is_active: true,
            started_at: Some(crate::clock::instant_now()),
        }
    }

    /// Whether the folder can be shortened where the status line cuts it: a
    /// folder longer than 30 bytes keeps its last 27, which must start on a
    /// character boundary.
    pub open spec fn folder_cut_ok(&self) -> bool {
        let b = encode_utf8(self.current_folder@);
        b.len() > 30 ==> is_char_boundary(b, b.len() - 27)
    }

    /// The status line for a given percentage: "Scanning... (2,450 files,
    /// 45%)" with no folder, else "Scanning logs/2024/... (2,450 files, 45%)"
    /// with the folder (shortened to "..." and its last 27 bytes when longer
    /// than 30 bytes) without trailing slashes.
    pub fn status_line_with(&self, pct: u8) -> (r: String)
        requires
            self.folder_cut_ok(),
            encode_utf8(self.current_folder@).len() <= usize::MAX,
        ensures
            ({
                let b = encode_utf8(self.current_folder@);
                let tail = " ("@ + group_thousands(decimal(self.files_found as nat)) + " files, "@
                    + decimal(pct as nat) + "%)"@;
                &&& b.len() == 0 ==> r@ == "Scanning..."@ + tail
                &&& 0 < b.len() <= 30 ==> r@ == "Scanning "@ + without_trailing_slashes(
                    self.current_folder@,
                ) + "/..."@ + tail
                &&& b.len() > 30 ==> exists|t: Seq<char>|
                    #[trigger] encode_utf8(t) == b.subrange(b.len() - 27, b.len() as int) && r@
                        == "Scanning "@ + without_trailing_slashes("..."@ + t) + "/..."@ + tail
            }),
    {
        let name = self.current_folder.as_str();
        let n = name.len();
        let folder: String = if n > 30 {
            let (_, t) = name.split_at(n - 27);
            let mut f = owned("...");
            push_str(&mut f, t);
            f
        } else {
            owned(name)
        };
        let files_str = format_with_commas(self.files_found);
        let pct_str = u64_to_decimal(pct as u64);
        let fc = str_chars(folder.as_str());
        let mut r: String;
        if fc.len() == 0 {
            r = owned("Scanning...");
        } else {
            let trimmed = trim_trailing_slashes(fc.as_slice());
            r = owned("Scanning ");
            let ts = crate::text::string_from_chars(trimmed.as_slice());
            push_str(&mut r, ts.as_str());
            push_str(&mut r, "/...");
        }
        push_str(&mut r, " (");
        push_str(&mut r, files_str.as_str());
        push_str(&mut r, " files, ");
        push_str(&mut r, pct_str.as_str());
        push_str(&mut r, "%)");
        proof {
            reveal_strlit("...");
            let b = encode_utf8(self.current_folder@);
            if self.current_folder@.len() > 0 {
                assert(vstd::utf8::encode_scalar(self.current_folder@[0] as u32).len() >= 1);
                assert(b.len() > 0);
            }
        }
        r
    }

    /// Marks the traversal finished; the counts stay as they are.
    pub fn complete(&mut self)
        ensures
            !final(self).is_active,
            final(self).current_folder == old(self).current_folder,
            final(self).files_found == old(self).files_found,
            final(self).folders_discovered == old(self).folders_discovered,
            final(self).folders_scanned == old(self).folders_scanned,
            final(self).started_at == old(self).started_at,
    {
        self.is_active = false;
    }
}

/// `s` without its trailing `/` characters.
pub open spec fn without_trailing_slashes(s: Seq<char>) -> Seq<char>
    decreases s.len(),
{
    if s.len() > 0 && s.last() == '/' {
        without_trailing_slashes(s.drop_last())
    } else {
        s
    }
}

fn trim_trailing_slashes(v: &[char]) -> (r: Vec<char>)
    ensures
        r@ == without_trailing_slashes(v@),
{
    let mut e: usize = v.len();
    proof {
        assert(v@.subrange(0, e as int) =~= v@);
    }
    while e > 0 && v[e - 1] == '/'
        invariant
            e <= v@.len(),
            without_trailing_slashes(v@) == without_trailing_slashes(v@.subrange(0, e as int)),
        decreases e,
    {
        proof {
            assert(v@.subrange(0, e as int).drop_last() =~= v@.subrange(0, e - 1));
        }
        e -= 1;
    }
    crate::text::slice_chars(v, 0, e)
}

/// Groups decimal digits in threes from the right with commas.
pub open spec fn group_thousands(d: Seq<char>) -> Seq<char>
    decreases d.len(),
{
    if d.len() <= 3 {
        d
    } else {
        group_thousands(d.subrange(0, d.len() - 3)) + seq![','] + d.subrange(
            d.len() - 3,
            d.len() as int,
        )
    }
}

fn group_thousands_chars(d: &[char]) -> (r: Vec<char>)
    ensures
        r@ == group_thousands(d@),
    decreases d.len(),
{
    if d.len() <= 3 {
        return crate::text::slice_chars(d, 0, d.len());
    }
    let head = crate::text::slice_chars(d, 0, d.len() - 3);
    let mut r = group_thousands_chars(head.as_slice());
    r.push(',');
    let mut i: usize = d.len() - 3;
    let ghost base = r@;
    while i < d.len()
        invariant
            3 < d.len(),
            d.len() - 3 <= i <= d.len(),
            r@ == base + d@.subrange(d.len() - 3, i as int),
        decreases d.len() - i,
    {
        r.push(d[i]);
        i += 1;
        assert(r@ =~= base + d@.subrange(d.len() - 3, i as int));
    }
    assert(head@ =~= d@.subrange(0, d.len() - 3));
    r
}

/// `n` in decimal with comma thousands separators, e.g. `2,450`.
pub fn format_with_commas(n: usize) -> (r: String)
    ensures
        r@ == group_thousands(decimal(n as nat)),
{
    let s = u64_to_decimal(n as u64);
    let d = str_chars(s.as_str());
    let g = group_thousands_chars(d.as_slice());
    crate::text::string_from_chars(g.as_slice())
}

} // verus!
