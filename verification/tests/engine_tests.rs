use ime_caret::badge::{apply_task_manager_override, console_cell_span, korean_open_from_kind, ImeKind};
use ime_caret::editability::{Editability, NodeEvidence};
use ime_caret::events::{
    activation_retry, delayed_surface_retry, full_refresh_recent, keyboard_action,
    keyboard_timer_refresh, plan_win_events, timer_refresh, EventAction, KeyboardAction, Refresh,
    RetryStep,
};
use ime_caret::activity::{WIN_EVENT_FLAG_CARET, WIN_EVENT_FLAG_FOCUS, WIN_EVENT_FLAG_WINDOW_LOCATION};
use ime_caret::focus::{
    cached_focus_result, classify_evidence_chain, first_caret_source, focus_verdict,
    foreground_facts, next_caret_source, standard_windows_verdict, CachedFocusProbe, CaretSource,
    FocusTargets, ProbeOutcome,
};
use ime_caret::ime::{CacheKey, ImeSnapshot, ImeWindowQuery, Validity};
use ime_caret::ime_cache::{add_window_candidate, target_thread, CachedIme, ImeStateCache};

fn state(mode: u32, tick_ns: u64) -> CachedIme {
    CachedIme { mode, is_open: true, language_id: 0x0412, tick_ns }
}

#[test]
fn cache_gives_back_what_was_recorded() {
    let mut cache = ImeStateCache::new();
    assert_eq!(cache.len(), 0);
    cache.insert(CacheKey::Thread(7), state(1, 10));
    cache.insert(CacheKey::Window(9), state(0, 20));
    cache.insert(CacheKey::Thread(7), state(9, 30));
    assert_eq!(cache.len(), 2);
    assert_eq!(cache.get(CacheKey::Thread(7)), Some(state(9, 30)));
    assert_eq!(cache.get(CacheKey::Window(9)), Some(state(0, 20)));
    assert_eq!(cache.get(CacheKey::Window(7)), None);
}

#[test]
fn pruning_drops_only_stale_states_of_a_large_cache() {
    let mut cache = ImeStateCache::new();
    for thread in 1..=129u32 {
        cache.insert(CacheKey::Thread(thread), state(1, if thread % 2 == 0 { 0 } else { 15_000_000_000 }));
    }
    let mut small = ImeStateCache::new();
    small.insert(CacheKey::Thread(1), state(1, 0));
    small.prune(20_000_000_000);
    assert_eq!(small.len(), 1);

    cache.prune(20_000_000_000);
    assert_eq!(cache.len(), 65);
    assert_eq!(cache.get(CacheKey::Thread(2)), None);
    assert_eq!(cache.get(CacheKey::Thread(3)), Some(state(1, 15_000_000_000)));
}

#[test]
fn recorded_states_bridge_a_focus_change_briefly() {
    let mut cache = ImeStateCache::new();
    let query = ImeWindowQuery { is_open: true, conversion_mode: 0, conversion_valid: false };
    let live = cache.record_live(5, 0x100, query, 0x0412, 1_000_000_000);
    assert_eq!(live, ImeSnapshot { validity: Validity::Live, conversion_mode: 1, language_id: 0x0412, is_open: true });
    let keys = vec![CacheKey::Window(0x200), CacheKey::Thread(5)];
    let bridged = cache.bridge(&keys, 1_300_000_000);
    assert_eq!(bridged, Some(ImeSnapshot { validity: Validity::Cached, conversion_mode: 1, language_id: 0x0412, is_open: true }));
    assert_eq!(cache.bridge(&keys, 1_400_000_001), None);
    assert_eq!(cache.bridge(&keys, 999_999_999), None);
    let unknown_thread = cache.record_live(0, 0x300, query, 0x0409, 5);
    assert_eq!(unknown_thread.conversion_mode, 0);
    assert_eq!(cache.get(CacheKey::Window(0x300)).map(|s| s.language_id), Some(0x0409));
}

#[test]
fn candidate_windows_are_listed_once_and_never_null() {
    let mut candidates = Vec::new();
    add_window_candidate(&mut candidates, 0);
    add_window_candidate(&mut candidates, 3);
    add_window_candidate(&mut candidates, 4);
    add_window_candidate(&mut candidates, 3);
    assert_eq!(candidates, vec![3, 4]);
    assert_eq!(target_thread(8, &[1, 2]), 8);
    assert_eq!(target_thread(0, &[0, 2, 3]), 2);
    assert_eq!(target_thread(0, &[0, 0]), 0);
}

#[test]
fn element_chains_are_editable_only_below_any_code() {
    assert_eq!(classify_evidence_chain(&vec![NodeEvidence::Unknown, NodeEvidence::EditableField]), Editability::Editable);
    assert_eq!(classify_evidence_chain(&vec![NodeEvidence::CodeLikeText, NodeEvidence::EditableField]), Editability::ReadOnly);
    assert_eq!(classify_evidence_chain(&vec![NodeEvidence::SelectableText, NodeEvidence::EditableDocument]), Editability::Editable);
    assert_eq!(classify_evidence_chain(&vec![NodeEvidence::Unknown, NodeEvidence::SelectableText]), Editability::ReadOnly);
    assert_eq!(classify_evidence_chain(&vec![NodeEvidence::ReadOnly, NodeEvidence::EditableField]), Editability::Editable);
    assert_eq!(classify_evidence_chain(&vec![NodeEvidence::Unknown, NodeEvidence::Unknown]), Editability::Unknown);
    assert_eq!(classify_evidence_chain(&Vec::new()), Editability::Unknown);
}

#[test]
fn focus_verdicts_are_cached_briefly_for_the_same_windows() {
    let targets = FocusTargets { foreground: 1, focus: 2, caret: 3 };
    let cached = Some(CachedFocusProbe { targets, result: Editability::Editable, tick_ns: 100 });
    assert_eq!(cached_focus_result(cached, targets, 250_000_100), Some(Editability::Editable));
    assert_eq!(cached_focus_result(cached, targets, 250_000_101), None);
    assert_eq!(cached_focus_result(cached, FocusTargets { caret: 4, ..targets }, 200), None);
    assert_eq!(cached_focus_result(cached, targets, 50), None);
    assert_eq!(cached_focus_result(None, targets, 200), None);
}

#[test]
fn focus_verdicts_combine_word_uia_and_standard_windows() {
    assert_eq!(standard_windows_verdict(&vec![Some(Editability::ReadOnly), Some(Editability::Editable)]), (true, false));
    assert_eq!(standard_windows_verdict(&vec![None, Some(Editability::ReadOnly)]), (false, true));
    assert_eq!(standard_windows_verdict(&vec![None, None]), (false, false));
    assert_eq!(focus_verdict(Some(Editability::ReadOnly), Editability::Editable, false), Editability::ReadOnly);
    assert_eq!(focus_verdict(None, Editability::Unknown, true), Editability::ReadOnly);
    assert_eq!(focus_verdict(None, Editability::Unknown, false), Editability::Unknown);
    assert_eq!(focus_verdict(None, Editability::Editable, true), Editability::Editable);
}

#[test]
fn caret_sources_follow_the_foreground_application() {
    let chrome = foreground_facts("Chrome_WidgetWin_1");
    assert!(chrome.uia_preferred && chrome.exact_uia_geometry && !chrome.console_like);
    assert_eq!(first_caret_source(chrome), CaretSource::BrowserAccessible);
    assert_eq!(next_caret_source(chrome, CaretSource::BrowserAccessible, ProbeOutcome::Missing), Some(CaretSource::BrowserUia));
    assert_eq!(next_caret_source(chrome, CaretSource::BrowserUia, ProbeOutcome::Missing), None);

    let console = foreground_facts("ConsoleWindowClass");
    assert!(console.classic_console && console.console_like);
    assert_eq!(first_caret_source(console), CaretSource::ClassicConsole);
    assert_eq!(next_caret_source(console, CaretSource::ClassicConsole, ProbeOutcome::Found), None);
    assert_eq!(next_caret_source(console, CaretSource::ClassicConsole, ProbeOutcome::Missing), Some(CaretSource::ConsoleUia));

    let terminal = foreground_facts("CASCADIA_HOSTING_WINDOW_CLASS");
    assert_eq!(first_caret_source(terminal), CaretSource::ConsoleUia);

    let powerpoint = foreground_facts("PPTFrameClass");
    assert_eq!(first_caret_source(powerpoint), CaretSource::OfficeEditors);
    assert_eq!(next_caret_source(powerpoint, CaretSource::OfficeEditors, ProbeOutcome::Missing), Some(CaretSource::PresentationUia));
    assert_eq!(next_caret_source(powerpoint, CaretSource::PresentationUia, ProbeOutcome::Suppress), None);
    assert_eq!(next_caret_source(powerpoint, CaretSource::PresentationUia, ProbeOutcome::Missing), Some(CaretSource::PresentationAccessible));

    let notepad = foreground_facts("Notepad");
    assert_eq!(first_caret_source(notepad), CaretSource::OfficeEditors);
    assert_eq!(next_caret_source(notepad, CaretSource::OfficeEditors, ProbeOutcome::Suppress), None);
    assert_eq!(next_caret_source(notepad, CaretSource::OfficeEditors, ProbeOutcome::Missing), Some(CaretSource::Win32Caret));
    assert_eq!(next_caret_source(notepad, CaretSource::Win32Caret, ProbeOutcome::Missing), Some(CaretSource::GenericUia));
    assert_eq!(next_caret_source(notepad, CaretSource::GenericUia, ProbeOutcome::Missing), None);
}

#[test]
fn poll_ticks_refresh_fully_unless_recent() {
    assert_eq!(timer_refresh(true, true, true, true, true), Refresh::Full);
    assert_eq!(timer_refresh(false, true, true, true, true), Refresh::CaretOnly);
    assert_eq!(timer_refresh(false, false, true, true, true), Refresh::ImeStateOnly);
    assert_eq!(timer_refresh(false, false, true, true, false), Refresh::Full);
    assert!(full_refresh_recent(Some(1_000), 500_000_999, 500));
    assert!(!full_refresh_recent(Some(1_000), 500_001_000, 500));
    assert!(!full_refresh_recent(None, 5, 500));
    assert!(!full_refresh_recent(Some(10), 5, 500));
}

#[test]
fn focus_events_refresh_at_once_and_caret_events_may_only_move() {
    let focus = plan_win_events(WIN_EVENT_FLAG_FOCUS, true, true, true, false, false, false);
    assert_eq!(focus.action, EventAction::RefreshNow);
    assert!(focus.activation && focus.reset_shell);

    let caret = plan_win_events(WIN_EVENT_FLAG_CARET, true, true, true, false, true, true);
    assert_eq!(caret.action, EventAction::CaretNow);
    assert!(!caret.activation && !caret.reset_shell && caret.covers_keyboard_activity);

    let soon = plan_win_events(WIN_EVENT_FLAG_WINDOW_LOCATION, true, true, true, false, true, false);
    assert_eq!(soon.action, EventAction::CaretLater);
    assert!(!soon.covers_keyboard_activity);

    let hidden = plan_win_events(WIN_EVENT_FLAG_CARET, false, false, false, false, false, true);
    assert_eq!(hidden.action, EventAction::RefreshNow);
    assert!(hidden.activation);
    let owed = plan_win_events(WIN_EVENT_FLAG_CARET, true, true, true, true, false, false);
    assert_eq!(owed.action, EventAction::FullLater);
}

#[test]
fn keyboard_activity_refreshes_after_ime_keys() {
    assert_eq!(keyboard_action(true, true, false, false, false), KeyboardAction::Ignore);
    assert_eq!(keyboard_action(false, false, true, true, false), KeyboardAction::Reschedule);
    assert_eq!(keyboard_action(false, false, true, true, true), KeyboardAction::StartTimer);
    assert_eq!(keyboard_action(false, true, true, true, false), KeyboardAction::StartTimer);
    assert_eq!(keyboard_timer_refresh(true, false, true, true), None);
    assert_eq!(keyboard_timer_refresh(true, true, true, true), Some(Refresh::Full));
    assert_eq!(keyboard_timer_refresh(false, false, true, true), Some(Refresh::ImeStateOnly));
    assert_eq!(keyboard_timer_refresh(false, false, false, true), Some(Refresh::Full));
}

#[test]
fn activation_retries_are_bounded() {
    assert_eq!(activation_retry(true, true, 3), RetryStep { remaining: 2, reassert_topmost: true, refresh_again: true });
    assert_eq!(activation_retry(true, true, 1), RetryStep { remaining: 0, reassert_topmost: true, refresh_again: false });
    assert_eq!(activation_retry(true, false, 3), RetryStep { remaining: 0, reassert_topmost: false, refresh_again: false });
    assert_eq!(activation_retry(false, false, 2), RetryStep { remaining: 1, reassert_topmost: false, refresh_again: true });
    assert_eq!(activation_retry(false, false, 0), RetryStep { remaining: 0, reassert_topmost: false, refresh_again: false });
    assert_eq!(delayed_surface_retry(true, 0), None);
    assert_eq!(delayed_surface_retry(true, 2), Some(RetryStep { remaining: 1, reassert_topmost: true, refresh_again: true }));
    assert_eq!(delayed_surface_retry(false, 1), Some(RetryStep { remaining: 0, reassert_topmost: false, refresh_again: false }));
}

#[test]
fn task_manager_search_uses_the_taskbar_korean_state() {
    let korean = ImeSnapshot { validity: Validity::Live, conversion_mode: 1, language_id: 0x0412, is_open: true };
    let off = apply_task_manager_override(korean, true, Some(false));
    assert_eq!(off, ImeSnapshot { conversion_mode: 0, is_open: false, ..korean });
    assert_eq!(apply_task_manager_override(korean, false, Some(false)), korean);
    assert_eq!(apply_task_manager_override(korean, true, None), korean);
    let japanese = ImeSnapshot { language_id: 0x0411, ..korean };
    assert_eq!(apply_task_manager_override(japanese, true, Some(false)), japanese);
    assert_eq!(korean_open_from_kind(Some(ImeKind::Korean)), Some(true));
    assert_eq!(korean_open_from_kind(Some(ImeKind::English)), Some(false));
    assert_eq!(korean_open_from_kind(None), None);
    assert_eq!(console_cell_span(ImeKind::JapaneseKatakana), 2);
    assert_eq!(console_cell_span(ImeKind::English), 1);
}
