use casparian_tui::flow::{FlowKey, FlowKeyCode, FlowModifiers, FlowStep, RecordRedaction, TerminalSize};
use casparian_tui::flow_record::FlowRecorder;

fn key(code: FlowKeyCode) -> Option<FlowKey> {
    Some(FlowKey { code, modifiers: FlowModifiers { ctrl: false, alt: false, shift: false } })
}

fn recorder(redaction: RecordRedaction, every: Option<u64>) -> FlowRecorder {
    FlowRecorder::new(
        "out/flow.json".to_string(),
        redaction,
        TerminalSize { width: 120, height: 40 },
        None,
        every,
        "/home/u/.casparian".to_string(),
    )
}

fn type_text(r: &mut FlowRecorder, text: &str) {
    for c in text.chars() {
        r.record_key(true, key(FlowKeyCode::Char(c)), "Home");
    }
}

fn text_step(s: &FlowStep) -> (String, Option<String>) {
    match s {
        FlowStep::Text { text, label } => (text.clone(), label.clone()),
        other => panic!("expected text step, got {:?}", other),
    }
}

#[test]
fn plaintext_recording() {
    let mut r = recorder(RecordRedaction::Plaintext, None);
    type_text(&mut r, "ab");
    r.record_key(true, key(FlowKeyCode::Enter), "Home");
    r.record_key(false, key(FlowKeyCode::Down), "Home");
    let flow = r.finish("Home").expect("flow");
    assert_eq!(flow.version, 1);
    assert_eq!(flow.env.casparian_home.as_deref(), Some("/home/u/.casparian"));
    assert_eq!(flow.steps.len(), 2);
    assert_eq!(text_step(&flow.steps[0]), ("ab".to_string(), None));
    assert!(matches!(&flow.steps[1], FlowStep::Key { key, label: None } if key.code == FlowKeyCode::Enter));
}

#[test]
fn hash_recording_masks_text() {
    let mut r = recorder(RecordRedaction::Hash, None);
    type_text(&mut r, "pw1");
    let flow = r.finish("Home").expect("flow");
    let expected = format!("redacted=hash len=3 blake3={}", blake3::hash(b"pw1").to_hex());
    assert_eq!(text_step(&flow.steps[0]), ("***".to_string(), Some(expected)));
}

#[test]
fn omit_recording_keeps_length_only() {
    let mut r = recorder(RecordRedaction::Omit, None);
    type_text(&mut r, "secret");
    r.record_key(true, key(FlowKeyCode::Tab), "Home");
    let flow = r.finish("Home").expect("flow");
    assert_eq!(text_step(&flow.steps[0]), (String::new(), Some("redacted=omit len=6".to_string())));
}

#[test]
fn nothing_recorded_writes_nothing() {
    let r = recorder(RecordRedaction::Plaintext, Some(1000));
    assert!(r.finish("Home").is_none());
}

#[test]
fn checkpoints_assert_the_view() {
    let mut r = recorder(RecordRedaction::Plaintext, Some(500));
    assert_eq!(r.checkpoint_every_ms, Some(500));
    r.record_key_at(true, key(FlowKeyCode::Char('x')), true, "Run/Jobs");
    assert_eq!(r.flow.steps.len(), 2);
    assert_eq!(text_step(&r.flow.steps[0]), ("x".to_string(), None));
    match &r.flow.steps[1] {
        FlowStep::Assert { assert, label } => {
            assert_eq!(assert.plain_contains, vec!["View: Run/Jobs".to_string()]);
            assert_eq!(label.as_deref(), Some("checkpoint"));
        }
        other => panic!("expected assertion, got {:?}", other),
    }
    let flow = r.finish("Query").expect("flow");
    match flow.steps.last().unwrap() {
        FlowStep::Assert { label, .. } => assert_eq!(label.as_deref(), Some("final")),
        other => panic!("expected assertion, got {:?}", other),
    }
    let off = recorder(RecordRedaction::Plaintext, Some(0));
    assert_eq!(off.checkpoint_every_ms, None);
}

#[test]
fn ctrl_keys_are_steps() {
    let mut r = recorder(RecordRedaction::Plaintext, None);
    type_text(&mut r, "q");
    r.record_key(true, Some(FlowKey { code: FlowKeyCode::Char('c'), modifiers: FlowModifiers { ctrl: true, alt: false, shift: false } }), "Home");
    r.record_key(true, None, "Home");
    assert_eq!(r.flow.steps.len(), 2);
    assert!(matches!(&r.flow.steps[1], FlowStep::Key { key, .. } if key.modifiers.ctrl));
}
