use casparian_tui::flow::{FlowFixture, FlowKeyCode, FlowStep};
use casparian_tui::flow_assert::FlowAssertError;
use casparian_tui::flow_steps::{
    after_assert_check, after_wait_check, build_failure, compute_wait_ticks, replace_str,
    resolve_text, text_keys, WaitDecision,
};

fn wait_step(label: Option<&str>) -> FlowStep {
    FlowStep::Wait {
        ticks: None,
        ms: None,
        until: None,
        label: label.map(|l| l.to_string()),
    }
}

#[test]
fn wait_ticks_prefer_ticks() {
    assert_eq!(compute_wait_ticks(Some(7), Some(1000)), 7);
    assert_eq!(compute_wait_ticks(Some(0), None), 1);
}

#[test]
fn wait_ticks_round_ms_up() {
    assert_eq!(compute_wait_ticks(None, Some(120)), 3);
    assert_eq!(compute_wait_ticks(None, Some(100)), 2);
    assert_eq!(compute_wait_ticks(None, Some(1)), 1);
    assert_eq!(compute_wait_ticks(None, Some(0)), 1);
    assert_eq!(compute_wait_ticks(None, None), 1);
}

#[test]
fn text_becomes_keys() {
    let keys = text_keys("a\n\tb");
    assert_eq!(keys.len(), 4);
    assert!(matches!(keys[0].code, FlowKeyCode::Char('a')));
    assert!(matches!(keys[1].code, FlowKeyCode::Enter));
    assert!(matches!(keys[2].code, FlowKeyCode::Tab));
    assert!(matches!(keys[3].code, FlowKeyCode::Char('b')));
    assert!(!keys[0].modifiers.ctrl && !keys[0].modifiers.alt && !keys[0].modifiers.shift);
}

#[test]
fn replace_matches_std() {
    assert_eq!(replace_str("aXbXXc", "X", "yy"), "aXbXXc".replace("X", "yy"));
    assert_eq!(replace_str("aaaa", "aa", "b"), "bb");
    assert_eq!(replace_str("abc", "zz", "q"), "abc");
}

#[test]
fn resolve_text_fills_placeholders() {
    let out = resolve_text(
        "{{CASPARIAN_HOME}}/x ${CASPARIAN_HOME} {{FLOW_DIR}}",
        "/home/c",
        "/flows",
        &None,
    );
    assert_eq!(out, "/home/c/x /home/c /flows");
    let fixture = Some(FlowFixture { name: "fx".to_string(), path: "/data/fx".to_string() });
    let out = resolve_text("{{FIXTURE_PATH}}:${FIXTURE_NAME}", "/h", "/f", &fixture);
    assert_eq!(out, "/data/fx:fx");
    let untouched = resolve_text("{{FIXTURE_PATH}}", "/h", "/f", &None);
    assert_eq!(untouched, "{{FIXTURE_PATH}}");
}

#[test]
fn failure_record_keeps_step_details() {
    let err = FlowAssertError::new(vec!["one".to_string(), "two".to_string()]);
    let f = build_failure(3, &wait_step(Some("waiting")), &err, "summary");
    assert_eq!(f.step_index, 3);
    assert_eq!(f.step_kind, "wait");
    assert_eq!(f.label.as_deref(), Some("waiting"));
    assert_eq!(f.error, "summary");
    assert_eq!(f.failures, vec!["one".to_string(), "two".to_string()]);
}

#[test]
fn wait_check_decisions() {
    let step = wait_step(None);
    let (d, left) = after_wait_check(0, &step, 5, &Ok(()));
    assert!(matches!(d, WaitDecision::Passed));
    assert_eq!(left, 5);
    let err = Err(FlowAssertError::new(vec!["missing".to_string()]));
    let (d, left) = after_wait_check(0, &step, 5, &err);
    assert!(matches!(d, WaitDecision::TickAndCheck));
    assert_eq!(left, 4);
    let (d, left) = after_wait_check(2, &step, 0, &err);
    assert_eq!(left, 0);
    match d {
        WaitDecision::Failed(f) => {
            assert_eq!(f.step_index, 2);
            assert_eq!(f.error, "wait condition not met");
            assert_eq!(f.failures, vec!["missing".to_string()]);
        }
        _ => panic!("expected failure"),
    }
}

#[test]
fn assert_check_decisions() {
    let step = wait_step(None);
    assert!(after_assert_check(1, &step, &Ok(())).is_none());
    let err = Err(FlowAssertError::new(vec!["bad".to_string()]));
    let f = after_assert_check(1, &step, &err).expect("failure");
    assert_eq!(f.error, "assertion failed");
    assert_eq!(f.label, None);
}

#[test]
fn replace_follows_str_replace() {
    assert_eq!(replace_str("abc", "", "X"), "abc".replace("", "X"));
    assert_eq!(replace_str("", "", "X"), "X");
    assert_eq!(replace_str("a**b**", "**", "%"), "a%b%");
    assert_eq!(replace_str("aaa", "aa", "b"), "aaa".replace("aa", "b"));
}
