use casparian_tui::extraction::{FieldType, RuleDraft};
use casparian_tui::rule_builder::RuleBuilderState;
use casparian_tui::glob_pattern::{
    extract_field_values, is_valid_field_name, is_valid_type_hint, normalize_type_hint,
    parse_custom_glob, GlobParseError,
};

#[test]
fn test_parse_simple_placeholder() {
    let result = parse_custom_glob("**/mission_<id>/*.csv").unwrap();
    assert_eq!(result.glob_pattern, "**/mission_*/*.csv");
    assert_eq!(result.placeholders.len(), 1);
    assert_eq!(result.placeholders[0].name, "id");
    assert_eq!(result.placeholders[0].type_hint, None);
}

#[test]
fn test_parse_multiple_placeholders() {
    let result = parse_custom_glob("**/mission_<id>/<date>/*.csv").unwrap();
    assert_eq!(result.glob_pattern, "**/mission_*/*/*.csv");
    assert_eq!(result.placeholders.len(), 2);
    assert_eq!(result.placeholders[0].name, "id");
    assert_eq!(result.placeholders[1].name, "date");
}

#[test]
fn test_parse_placeholder_with_type() {
    let result = parse_custom_glob("**/<year:int>/<month:int>/*.csv").unwrap();
    assert_eq!(result.placeholders[0].type_hint, Some("int".into()));
    assert_eq!(result.placeholders[1].type_hint, Some("int".into()));
}

#[test]
fn test_parse_escaped_brackets() {
    let result = parse_custom_glob(r"**/\<notfield\>/*.csv").unwrap();
    assert_eq!(result.glob_pattern, "**/<notfield>/*.csv");
    assert!(result.placeholders.is_empty());
}

#[test]
fn test_error_unclosed_placeholder() {
    let result = parse_custom_glob("**/mission_<id/*.csv");
    assert!(matches!(
        result,
        Err(GlobParseError { message, .. }) if message.contains("Unclosed")
    ));
}

#[test]
fn test_error_empty_field_name() {
    let result = parse_custom_glob("**/mission_<>/*.csv");
    assert!(matches!(
        result,
        Err(GlobParseError { message, .. }) if message.contains("Empty")
    ));
}

#[test]
fn test_error_invalid_field_name() {
    let result = parse_custom_glob("**/mission_<ID>/*.csv");
    assert!(matches!(
        result,
        Err(GlobParseError { message, .. }) if message.contains("Invalid")
    ));
}

#[test]
fn test_error_duplicate_field_name() {
    let result = parse_custom_glob("**/<id>/<id>/*.csv");
    assert!(matches!(
        result,
        Err(GlobParseError { message, .. }) if message.contains("Duplicate")
    ));
}

#[test]
fn test_error_unknown_type() {
    let result = parse_custom_glob("**/<field:unknown>/*.csv");
    assert!(matches!(
        result,
        Err(GlobParseError { message, .. }) if message.contains("Unknown type")
    ));
}

#[test]
fn test_no_placeholders() {
    let result = parse_custom_glob("**/*.csv").unwrap();
    assert_eq!(result.glob_pattern, "**/*.csv");
    assert!(result.placeholders.is_empty());
}

#[test]
fn test_extract_simple_value() {
    let parsed = parse_custom_glob("**/mission_<id>/*.csv").unwrap();
    let values = extract_field_values("/data/mission_42/report.csv", &parsed);
    assert_eq!(values.get("id"), Some(&"42".to_string()));
}

#[test]
fn test_extract_multiple_values() {
    let parsed = parse_custom_glob("**/<year>/<month>/*.csv").unwrap();
    let values = extract_field_values("/data/2024/01/report.csv", &parsed);
    assert_eq!(values.get("year"), Some(&"2024".to_string()));
    assert_eq!(values.get("month"), Some(&"01".to_string()));
}

#[test]
fn test_valid_field_names() {
    assert!(is_valid_field_name("id"));
    assert!(is_valid_field_name("mission_id"));
    assert!(is_valid_field_name("_private"));
    assert!(is_valid_field_name("field123"));
    assert!(!is_valid_field_name("ID"));
    assert!(!is_valid_field_name("123field"));
    assert!(!is_valid_field_name("field-name"));
    assert!(!is_valid_field_name(""));
}

#[test]
fn error_positions_and_hints_are_reported() {
    let err = parse_custom_glob("**/mission_<id/*.csv").unwrap_err();
    assert_eq!(err.message, "Unclosed placeholder at position 11");
    assert_eq!(err.position, 11);
    assert_eq!(err.hint.as_deref(), Some("Add matching '>' or escape with '\\<'"));

    let err = parse_custom_glob("a<b<c>").unwrap_err();
    assert_eq!(err.message, "Nested placeholders not supported");
    assert_eq!(err.position, 3);

    let err = parse_custom_glob("<Bad>").unwrap_err();
    assert_eq!(err.message, "Invalid field name: 'Bad'");
    assert_eq!(err.position, 0);

    let err = parse_custom_glob("<x:float>").unwrap_err();
    assert_eq!(err.message, "Unknown type hint: 'float'");
}

#[test]
fn placeholder_positions_and_other_escapes() {
    let parsed = parse_custom_glob(r"a\*b/<x:DATE>").unwrap();
    assert_eq!(parsed.glob_pattern, r"a\*b/*");
    assert_eq!(parsed.placeholders[0].position, 5);
    assert_eq!(parsed.placeholders[0].type_hint.as_deref(), Some("DATE"));
    assert_eq!(parsed.placeholders[0].segment_index, 0);
}

#[test]
fn type_hints_are_case_insensitive() {
    assert!(is_valid_type_hint("Int"));
    assert!(is_valid_type_hint("uuid"));
    assert!(!is_valid_type_hint("float"));
    assert_eq!(normalize_type_hint("INTEGER"), FieldType::Integer);
    assert_eq!(normalize_type_hint("date"), FieldType::Date);
    assert_eq!(normalize_type_hint("whatever"), FieldType::String);
}

#[test]
fn extraction_without_placeholders_is_empty() {
    let parsed = parse_custom_glob("**/*.csv").unwrap();
    let values = extract_field_values("/data/x.csv", &parsed);
    assert_eq!(values.get("anything"), None);
}

#[test]
fn extraction_with_prefix_and_suffix() {
    let parsed = parse_custom_glob("logs/run_<n>.txt").unwrap();
    let values = extract_field_values("logs/run_7.txt", &parsed);
    assert_eq!(values.get("n"), Some(&"7".to_string()));
    // A segment that does not fit the prefix yields the whole segment.
    let values = extract_field_values("logs/other.txt", &parsed);
    assert_eq!(values.get("n"), Some(&"other.txt".to_string()));
}

#[test]
fn rule_ids_as_uuid_text() {
    let mut draft = RuleDraft::from_pattern("**/*.csv", None);
    draft.id = Some(0x0123_4567_89ab_cdef_0123_4567_89ab_cdef);
    let builder = RuleBuilderState::from_draft(&draft, Some("fedcba98-7654-3210-fedc-ba9876543210".to_string()));
    assert_eq!(builder.editing_rule_id.as_deref(), Some("01234567-89ab-cdef-0123-456789abcdef"));
    let back = builder.to_draft();
    assert_eq!(back.id, draft.id);
    assert_eq!(back.source_id, Some(0xfedc_ba98_7654_3210_fedc_ba98_7654_3210));
    let mut bad = RuleBuilderState::from_draft(&draft, Some("not-a-uuid".to_string()));
    bad.editing_rule_id = None;
    assert_eq!(bad.to_draft().source_id, None);
    assert_eq!(bad.to_draft().id, None);
}
