use casparian_tui::flow::{
    FlowAssertion, FlowEnv, FlowError, FlowKey, FlowKeyCode, FlowModifiers, FlowStep,
    KeyParseError, StepError, TerminalSize, TuiFlow,
};
use casparian_tui::flow_assert::{assert_flow, pattern_failure, FlowAssertError};

#[test]
fn parse_flow_key_ctrl() {
    let key = FlowKey::parse("Ctrl+u").expect("parse ctrl+u");
    assert!(key.modifiers.ctrl);
    match key.code {
        FlowKeyCode::Char(ch) => assert_eq!(ch, 'u'),
        _ => panic!("expected char"),
    }
}

#[test]
fn parse_flow_key_named() {
    let key = FlowKey::parse("Enter").expect("parse enter");
    assert!(matches!(key.code, FlowKeyCode::Enter));
}

#[test]
fn parse_flow_key_backtab() {
    let key = FlowKey::parse("Shift+Tab").expect("parse shift+tab");
    assert!(matches!(key.code, FlowKeyCode::BackTab));
}

#[test]
fn assert_flow_plain_contains() {
    let mut assertion = FlowAssertion::default();
    assertion.plain_contains = vec!["hello".to_string()];
    assert!(assert_flow(&assertion, "hello world", "", "", "").is_ok());
}

#[test]
fn parse_key_modifier_spellings_and_case() {
    let key = FlowKey::parse("  control-ALT-s-x  ").unwrap();
    assert_eq!(
        key,
        FlowKey { code: FlowKeyCode::Char('X'), modifiers: FlowModifiers { ctrl: true, alt: true, shift: true } }
    );
    let key = FlowKey::parse("C+a").unwrap();
    assert!(key.modifiers.ctrl && !key.modifiers.alt && !key.modifiers.shift);
    assert_eq!(key.code, FlowKeyCode::Char('a'));
}

#[test]
fn parse_key_names_and_function_keys() {
    assert_eq!(FlowKeyCode::parse("page_down").unwrap(), FlowKeyCode::PageDown);
    assert_eq!(FlowKeyCode::parse("PgUp").unwrap(), FlowKeyCode::PageUp);
    assert_eq!(FlowKeyCode::parse("Return").unwrap(), FlowKeyCode::Enter);
    assert_eq!(FlowKeyCode::parse("space").unwrap(), FlowKeyCode::Char(' '));
    assert_eq!(FlowKeyCode::parse("F12").unwrap(), FlowKeyCode::F(12));
    assert_eq!(FlowKeyCode::parse("f05").unwrap(), FlowKeyCode::F(5));
    assert_eq!(FlowKeyCode::parse("ff3").unwrap(), FlowKeyCode::F(3));
    assert_eq!(FlowKeyCode::parse("x").unwrap(), FlowKeyCode::Char('x'));
}

#[test]
fn parse_key_errors() {
    assert_eq!(FlowKey::parse("   "), Err(KeyParseError::EmptyKey));
    assert_eq!(FlowKey::parse("Hyper+x"), Err(KeyParseError::UnknownModifier("Hyper".to_string())));
    assert_eq!(FlowKey::parse("Ctrl+"), Err(KeyParseError::EmptyToken));
    assert_eq!(FlowKey::parse("Ctrl+Banana"), Err(KeyParseError::UnknownToken("Banana".to_string())));
    assert_eq!(FlowKeyCode::parse("F25"), Err(KeyParseError::UnknownToken("F25".to_string())));
    assert_eq!(FlowKeyCode::parse("F0"), Err(KeyParseError::UnknownToken("F0".to_string())));
    assert_eq!(
        KeyParseError::UnknownModifier("Hyper".to_string()).message(),
        "unknown key modifier 'Hyper'"
    );
    assert_eq!(KeyParseError::EmptyKey.message(), "key cannot be empty");
}

#[test]
fn key_display_reads_back() {
    let keys = vec![
        FlowKey { code: FlowKeyCode::Char('u'), modifiers: FlowModifiers { ctrl: true, alt: false, shift: false } },
        FlowKey { code: FlowKeyCode::BackTab, modifiers: FlowModifiers { ctrl: false, alt: false, shift: true } },
        FlowKey { code: FlowKeyCode::F(7), modifiers: FlowModifiers { ctrl: false, alt: true, shift: false } },
        FlowKey { code: FlowKeyCode::Char(' '), modifiers: FlowModifiers::default() },
        FlowKey { code: FlowKeyCode::PageDown, modifiers: FlowModifiers { ctrl: true, alt: true, shift: true } },
    ];
    for key in keys {
        let text = key.to_display_string();
        assert_eq!(FlowKey::parse(&text), Ok(key), "{}", text);
    }
    let key = FlowKey { code: FlowKeyCode::Char('u'), modifiers: FlowModifiers { ctrl: true, alt: false, shift: false } };
    assert_eq!(key.to_display_string(), "Ctrl+u");
    assert_eq!(FlowKeyCode::Char(' ').to_display_string(), "Space");
    assert_eq!(FlowKeyCode::F(12).to_display_string(), "F12");
}

#[test]
fn shifted_tab_is_not_canonical() {
    // Shift+Tab prints as "Shift+Tab" but reads back as BackTab.
    let key = FlowKey { code: FlowKeyCode::Tab, modifiers: FlowModifiers { ctrl: false, alt: false, shift: true } };
    let back = FlowKey::parse(&key.to_display_string()).unwrap();
    assert_eq!(back.code, FlowKeyCode::BackTab);
}

#[test]
fn recorded_text_chars() {
    let plain = FlowKey { code: FlowKeyCode::Char('a'), modifiers: FlowModifiers::default() };
    assert_eq!(plain.text_char(), Some('a'));
    let ctrl = FlowKey { code: FlowKeyCode::Char('a'), modifiers: FlowModifiers { ctrl: true, alt: false, shift: false } };
    assert_eq!(ctrl.text_char(), None);
    let enter = FlowKey { code: FlowKeyCode::Enter, modifiers: FlowModifiers::default() };
    assert_eq!(enter.text_char(), None);
}

fn key_step() -> FlowStep {
    FlowStep::Key { key: FlowKey::parse("Enter").unwrap(), label: Some("go".to_string()) }
}

#[test]
fn flow_validation() {
    let ok = TuiFlow { version: 1, env: FlowEnv::default(), steps: vec![key_step()] };
    assert_eq!(ok.validate(), Ok(()));

    let bad_version = TuiFlow { version: 2, env: FlowEnv::default(), steps: vec![key_step()] };
    assert_eq!(bad_version.validate(), Err(FlowError::UnsupportedVersion(2)));
    assert_eq!(FlowError::UnsupportedVersion(2).message(), "Unsupported TUI flow version 2");

    let empty = TuiFlow { version: 1, env: FlowEnv::default(), steps: vec![] };
    assert_eq!(empty.validate(), Err(FlowError::NoSteps));

    let wait = FlowStep::Wait { ticks: Some(0), ms: None, until: None, label: None };
    let bad_step = TuiFlow { version: 1, env: FlowEnv::default(), steps: vec![key_step(), wait] };
    assert_eq!(bad_step.validate(), Err(FlowError::InvalidStep(1, StepError::WaitWithoutCondition)));
    assert_eq!(
        FlowError::InvalidStep(1, StepError::WaitWithoutCondition).message(),
        "invalid step 1: wait step must set ticks/ms or an until assertion"
    );

    let mut env = FlowEnv::default();
    env.terminal = Some(TerminalSize { width: 0, height: 40 });
    let bad_terminal = TuiFlow { version: 1, env, steps: vec![key_step()] };
    assert_eq!(bad_terminal.validate(), Err(FlowError::BadTerminalSize(0, 40)));
    assert_eq!(FlowError::BadTerminalSize(0, 40).message(), "terminal size must be > 0 (got 0x40)");
}

#[test]
fn step_validation_and_names() {
    let wait_ms = FlowStep::Wait { ticks: None, ms: Some(10), until: None, label: None };
    assert_eq!(wait_ms.validate(), Ok(()));
    let wait_empty_until =
        FlowStep::Wait { ticks: Some(3), ms: None, until: Some(FlowAssertion::default()), label: None };
    assert_eq!(wait_empty_until.validate(), Err(StepError::EmptyUntil));
    let assert_empty = FlowStep::Assert { assert: FlowAssertion::default(), label: None };
    assert_eq!(assert_empty.validate(), Err(StepError::EmptyAssert));
    assert_eq!(assert_empty.kind(), "assert");
    assert_eq!(key_step().kind(), "key");
    assert_eq!(key_step().label(), Some("go"));
    assert_eq!(assert_empty.label(), None);
    let mut a = FlowAssertion::default();
    assert!(a.is_empty());
    a.ui_signature_key = Some("k".to_string());
    assert!(!a.is_empty());
}

#[test]
fn assert_flow_reports_each_failure_in_order() {
    let mut assertion = FlowAssertion::default();
    assertion.plain_contains = vec!["hello".to_string(), "absent".to_string()];
    assertion.plain_not_contains = vec!["wor.d".to_string()];
    assertion.mask_contains = vec!["(".to_string()];
    assertion.ui_signature_key = Some("home".to_string());
    let err: FlowAssertError = assert_flow(&assertion, "hello world", "", "", "jobs").unwrap_err();
    assert_eq!(err.failures.len(), 4);
    assert_eq!(err.failures[0], "plain_contains missing /absent/");
    assert_eq!(err.failures[1], "plain_not_contains matched /wor.d/");
    assert!(err.failures[2].starts_with("invalid regex mask_contains: "));
    assert_eq!(err.failures[3], "ui_signature_key expected 'home' got 'jobs'");
}

#[test]
fn pattern_failure_from_outcome() {
    assert_eq!(pattern_failure("plain_contains", "x", &Ok(true), true), None);
    assert_eq!(
        pattern_failure("plain_contains", "x", &Ok(false), true),
        Some("plain_contains missing /x/".to_string())
    );
    assert_eq!(
        pattern_failure("layout_not_contains", "y", &Ok(true), false),
        Some("layout_not_contains matched /y/".to_string())
    );
    assert_eq!(
        pattern_failure("mask_contains", "(", &Err("bad".to_string()), true),
        Some("invalid regex mask_contains: bad".to_string())
    );
}
