use ime_caret::editability::{
    console_cell_anchor, scale_between_dpi, utf16_console_columns, CaretAnchor, Editability,
};
use ime_caret::events::full_refresh_recent;
use ime_caret::focus::{
    focus_probe_start, focus_probe_step, FocusCacheAction, FocusCheck, FocusProbe, FocusReading,
    FocusStep, WindowReading,
};
use ime_caret::ime::ImeWindowQuery;
use ime_caret::ime_scan::{
    live_source_to_reuse, ImeAnswer, ImeRead, ImeScan, ImeTargets, LiveSource, LiveTarget,
};
use ime_caret::text::decode_ini_text;
use ime_caret::win::POINT;

fn probe(check: FocusCheck) -> FocusProbe {
    FocusProbe { check, saw_read_only: false, office_word: None }
}

fn ask(step: FocusStep) -> FocusProbe {
    match step {
        FocusStep::Ask(p) => p,
        other => panic!("expected another check, got {:?}", other),
    }
}

#[test]
fn focus_checks_start_with_the_console_and_clear_without_a_foreground() {
    assert_eq!(
        focus_probe_start(false),
        FocusStep::Verdict { result: Editability::Unknown, cache: FocusCacheAction::Clear }
    );
    assert_eq!(focus_probe_start(true), FocusStep::Ask(probe(FocusCheck::Console)));
    let editable = FocusStep::Verdict { result: Editability::Editable, cache: FocusCacheAction::Remember };
    assert_eq!(focus_probe_step(probe(FocusCheck::Console), FocusReading::Flag(true)), editable);
    assert_eq!(focus_probe_step(probe(FocusCheck::Excel), FocusReading::Flag(true)), editable);
    assert_eq!(focus_probe_step(probe(FocusCheck::WordDocument), FocusReading::Flag(true)), editable);
}

#[test]
fn focus_checks_run_in_order_and_reuse_the_cache() {
    let mut p = ask(focus_probe_start(true));
    let mut order = vec![p.check];
    for reading in [FocusReading::Flag(false), FocusReading::Flag(false), FocusReading::Flag(false)] {
        p = ask(focus_probe_step(p, reading));
        order.push(p.check);
    }
    assert_eq!(
        order,
        vec![FocusCheck::Console, FocusCheck::Excel, FocusCheck::WordDocument, FocusCheck::Cache]
    );
    assert_eq!(
        focus_probe_step(p, FocusReading::Cached(Some(Editability::ReadOnly))),
        FocusStep::Verdict { result: Editability::ReadOnly, cache: FocusCacheAction::Keep }
    );
    let p = ask(focus_probe_step(p, FocusReading::Cached(None)));
    assert_eq!(p.check, FocusCheck::Window(0));
    let p = ask(focus_probe_step(p, FocusReading::Window(WindowReading::Absent)));
    assert_eq!(p.check, FocusCheck::Window(1));
    let p = ask(focus_probe_step(p, FocusReading::Window(WindowReading::Absent)));
    assert_eq!(p.check, FocusCheck::OfficeAccessibleCaret);
    let p = ask(focus_probe_step(p, FocusReading::Flag(false)));
    assert_eq!(p.check, FocusCheck::Uia);
    assert_eq!(
        focus_probe_step(p, FocusReading::Uia(Editability::Editable)),
        FocusStep::Verdict { result: Editability::Editable, cache: FocusCacheAction::Remember }
    );
}

#[test]
fn standard_windows_decide_or_mark_read_only() {
    let p = probe(FocusCheck::Window(0));
    assert_eq!(
        focus_probe_step(p, FocusReading::Window(WindowReading::Standard(Some(Editability::Editable)))),
        FocusStep::Verdict { result: Editability::Editable, cache: FocusCacheAction::Remember }
    );
    let p = ask(focus_probe_step(
        p,
        FocusReading::Window(WindowReading::Standard(Some(Editability::ReadOnly))),
    ));
    assert!(p.saw_read_only);
    let p = ask(focus_probe_step(p, FocusReading::Window(WindowReading::Standard(None))));
    let p = ask(focus_probe_step(p, FocusReading::Flag(false)));
    assert_eq!(
        focus_probe_step(p, FocusReading::Uia(Editability::Unknown)),
        FocusStep::Verdict { result: Editability::ReadOnly, cache: FocusCacheAction::Remember }
    );
}

#[test]
fn outlook_verdict_on_a_word_window_skips_ui_automation() {
    let p = probe(FocusCheck::Window(0));
    let p = ask(focus_probe_step(
        p,
        FocusReading::Window(WindowReading::WordDocument { outlook: Some(Editability::ReadOnly) }),
    ));
    assert_eq!(p.office_word, Some(Editability::ReadOnly));
    // A later Word window does not replace the first verdict.
    let p = ask(focus_probe_step(
        p,
        FocusReading::Window(WindowReading::WordDocument { outlook: Some(Editability::Editable) }),
    ));
    assert_eq!(p.office_word, Some(Editability::ReadOnly));
    assert_eq!(
        focus_probe_step(p, FocusReading::Flag(false)),
        FocusStep::Verdict { result: Editability::ReadOnly, cache: FocusCacheAction::Remember }
    );
}

fn query(mode: u32) -> ImeWindowQuery {
    ImeWindowQuery { is_open: true, conversion_mode: mode, conversion_valid: true }
}

#[test]
fn ime_scan_asks_the_ime_window_then_the_input_context() {
    let candidates = vec![10usize, 20, 30];
    let (mut scan, read) = ImeScan::start(&candidates);
    assert_eq!(read, ImeRead::DefaultImeWindow { window: 10 });
    let read = scan.step(&candidates, ImeAnswer::DefaultImeWindow(99));
    assert_eq!(read, ImeRead::ImeWindow { window: 10, ime_window: 99 });
    let read = scan.step(&candidates, ImeAnswer::Query(None));
    assert_eq!(read, ImeRead::InputContext { window: 10 });
    let read = scan.step(&candidates, ImeAnswer::Query(None));
    assert_eq!(read, ImeRead::DefaultImeWindow { window: 20 });
    // The same IME window is not asked twice.
    let read = scan.step(&candidates, ImeAnswer::DefaultImeWindow(99));
    assert_eq!(read, ImeRead::InputContext { window: 20 });
    let read = scan.step(&candidates, ImeAnswer::Query(None));
    assert_eq!(read, ImeRead::DefaultImeWindow { window: 30 });
    let read = scan.step(&candidates, ImeAnswer::DefaultImeWindow(0));
    assert_eq!(read, ImeRead::InputContext { window: 30 });
    let read = scan.step(&candidates, ImeAnswer::Query(Some(query(9))));
    assert_eq!(
        read,
        ImeRead::Found { source: LiveSource::InputContext { window: 30 }, query: query(9) }
    );
    assert_eq!(scan.queried, vec![99]);
}

#[test]
fn ime_scan_finds_an_ime_window_or_runs_out() {
    let candidates = vec![10usize];
    let (mut scan, _) = ImeScan::start(&candidates);
    scan.step(&candidates, ImeAnswer::DefaultImeWindow(5));
    assert_eq!(
        scan.step(&candidates, ImeAnswer::Query(Some(query(1)))),
        ImeRead::Found { source: LiveSource::ImeWindow { window: 10, ime_window: 5 }, query: query(1) }
    );

    let (mut scan, _) = ImeScan::start(&candidates);
    scan.step(&candidates, ImeAnswer::DefaultImeWindow(0));
    assert_eq!(scan.step(&candidates, ImeAnswer::Query(None)), ImeRead::Exhausted);
    let (_, read) = ImeScan::start(&Vec::new());
    assert_eq!(read, ImeRead::Exhausted);
}

#[test]
fn live_source_is_reused_only_for_the_same_focus() {
    let targets = ImeTargets {
        foreground: 1,
        focus: 2,
        caret: 3,
        active: 1,
        host_process_id: 0,
        host_window: 0,
    };
    let source = LiveSource::InputContext { window: 2 };
    let last = Some(LiveTarget { targets, source });
    assert_eq!(live_source_to_reuse(last, targets), Some(source));
    assert_eq!(live_source_to_reuse(last, ImeTargets { focus: 4, ..targets }), None);
    assert_eq!(live_source_to_reuse(None, targets), None);
}

fn le_bytes(text: &str) -> Vec<u8> {
    let mut bytes = vec![0xff, 0xfe];
    for unit in text.encode_utf16() {
        bytes.extend_from_slice(&unit.to_le_bytes());
    }
    bytes
}

fn be_bytes(text: &str) -> Vec<u8> {
    let mut bytes = vec![0xfe, 0xff];
    for unit in text.encode_utf16() {
        bytes.extend_from_slice(&unit.to_be_bytes());
    }
    bytes
}

#[test]
fn settings_text_round_trips_through_utf16_and_utf8() {
    let text = "[Settings]\r\nPlayKoreanSound=0\r\n; 한글 🎹\r\n";
    assert_eq!(decode_ini_text(&le_bytes(text)), text);
    assert_eq!(decode_ini_text(&be_bytes(text)), text);
    assert_eq!(decode_ini_text(text.as_bytes()), text);
}

fn columns(text: &str) -> i32 {
    let units: Vec<u16> = text.encode_utf16().collect();
    utf16_console_columns(&units)
}

#[test]
fn console_columns_add_up_over_joined_texts() {
    let (s, t) = ("ab한", "가😀x");
    assert_eq!(columns(&format!("{}{}", s, t)), columns(s) + columns(t));
    assert_eq!(columns(s), 4);
    assert_eq!(columns(t), 5);
    assert!(3 <= columns(s) && columns(s) <= 6);
}

#[test]
fn dpi_scaling_rounds_halves_away_from_zero() {
    assert_eq!(scale_between_dpi(100, 96, 144), 150);
    assert_eq!(scale_between_dpi(-1, 96, 144), -2);
    assert_eq!(scale_between_dpi(1, 96, 144), 2);
    assert_eq!(scale_between_dpi(1, 96, 48), 1);
    assert_eq!(scale_between_dpi(-1, 96, 48), -1);
    assert_eq!(scale_between_dpi(5, 96, 120), 6);
    assert_eq!(scale_between_dpi(-5, 96, 120), -6);
}

#[test]
fn console_cell_anchor_takes_a_column_near_the_end_of_i32() {
    let origin = POINT { x: 0, y: 0 };
    let anchor = console_cell_anchor(origin, i32::MAX - 1, 0, 1, 16, 1);
    assert_eq!(anchor, CaretAnchor { x: i32::MAX, top: 0, bottom: 16 });
}

#[test]
fn refresh_interval_may_be_any_number_of_milliseconds() {
    assert!(full_refresh_recent(Some(0), u64::MAX, u64::MAX));
    assert!(!full_refresh_recent(Some(0), 2_000_000, 1));
    assert!(full_refresh_recent(Some(1_000_000), 1_500_000, 1));
}
