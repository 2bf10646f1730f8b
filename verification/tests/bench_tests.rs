use casparian_tui::flow::{FlowKey, FlowKeyCode, FlowModifiers};
use casparian_tui::parser_bench::BenchEffect;
use casparian_tui::shell::{ParserBenchState, ParserBenchView, ParserHealth, ParserInfo};

fn plain(code: FlowKeyCode) -> FlowKey {
    FlowKey { code, modifiers: FlowModifiers { ctrl: false, alt: false, shift: false } }
}

fn parser(name: &str, broken: bool) -> ParserInfo {
    ParserInfo {
        path: format!("/parsers/{}.py", name),
        name: name.to_string(),
        version: None,
        topics: vec![],
        modified: 0,
        health: if broken { ParserHealth::BrokenLink } else { ParserHealth::Unknown },
        is_symlink: broken,
        symlink_broken: broken,
    }
}

fn bench(n: usize) -> ParserBenchState {
    ParserBenchState {
        view: ParserBenchView::ParserList,
        focus_mode: false,
        parsers: (0..n).map(|i| parser(&format!("p{}", i), i == 2)).collect(),
        selected_parser: 0,
        parsers_loaded: true,
        quick_test_path: None,
        bound_files: vec![],
        selected_file: 0,
        test_result: None,
        test_running: false,
        last_test_file: None,
        filter: String::new(),
        is_filtering: false,
    }
}

#[test]
fn bench_down_and_up_wrap_over_shown_parsers() {
    let mut b = bench(4);
    let shown = vec![1, 3];
    // the selection is first kept among the shown parsers
    assert_eq!(b.handle_key(&plain(FlowKeyCode::Down), &shown), BenchEffect::Nothing);
    assert_eq!(b.selected_parser, 3);
    b.handle_key(&plain(FlowKeyCode::Down), &shown);
    assert_eq!(b.selected_parser, 1);
    b.handle_key(&plain(FlowKeyCode::Up), &shown);
    assert_eq!(b.selected_parser, 3);
}

#[test]
fn bench_esc_clears_filter_then_leaves() {
    let mut b = bench(2);
    b.filter = "csv".to_string();
    assert_eq!(b.handle_key(&plain(FlowKeyCode::Esc), &vec![0, 1]), BenchEffect::Nothing);
    assert_eq!(b.filter, "");
    assert_eq!(b.handle_key(&plain(FlowKeyCode::Esc), &vec![0, 1]), BenchEffect::GoHome);
}

#[test]
fn bench_d_removes_only_broken_links() {
    let mut b = bench(3);
    assert_eq!(b.handle_key(&plain(FlowKeyCode::Char('d')), &vec![0, 1, 2]), BenchEffect::Nothing);
    assert!(b.parsers_loaded);
    b.selected_parser = 2;
    assert_eq!(
        b.handle_key(&plain(FlowKeyCode::Char('d')), &vec![0, 1, 2]),
        BenchEffect::RemoveBrokenLink("/parsers/p2.py".to_string())
    );
    assert!(!b.parsers_loaded);
}

#[test]
fn bench_filter_typing_then_settling() {
    let mut b = bench(3);
    b.handle_key(&plain(FlowKeyCode::Char('/')), &vec![0, 1, 2]);
    assert!(b.is_filtering);
    b.filter_key(&plain(FlowKeyCode::Char('p')));
    b.filter_key(&plain(FlowKeyCode::Char('2')));
    assert_eq!(b.filter, "p2");
    b.settle_selection(&vec![2]);
    assert_eq!(b.selected_parser, 2);
    b.filter_key(&plain(FlowKeyCode::Esc));
    assert!(!b.is_filtering);
    assert_eq!(b.filter, "");
    b.settle_selection(&vec![]);
    assert_eq!(b.selected_parser, 0);
}

#[test]
fn bench_r_asks_for_reload() {
    let mut b = bench(1);
    b.handle_key(&plain(FlowKeyCode::Char('r')), &vec![0]);
    assert!(!b.parsers_loaded);
}
