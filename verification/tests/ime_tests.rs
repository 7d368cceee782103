use ime_caret::badge::{classify_ime, ImeKind};
use ime_caret::ime::{
    cache_key, executable_name, first_non_null, is_modern_shell_focus_process,
    is_modern_shell_overlay_process, live_snapshot, modern_input_host_priority,
    normalized_conversion_mode, rank_shell_input_processes, snapshot_without_ime, CacheKey,
    ImeSnapshot, ImeWindowQuery, Validity, LANG_JAPANESE, LANG_KOREAN,
};

fn executable_name_buffer(value: &str) -> [u16; 260] {
    let mut result = [0u16; 260];
    for (index, character) in value.encode_utf16().take(259).enumerate() {
        result[index] = character;
    }
    result
}

#[test]
fn language_masks_use_primary_language_bits() {
    assert_eq!(0x0412u16 & 0x03ff, LANG_KOREAN);
    assert_eq!(0x0411u16 & 0x03ff, LANG_JAPANESE);
}

#[test]
fn modern_windows_input_hosts_are_narrowly_identified() {
    assert!(is_modern_shell_focus_process("searchhost.exe"));
    assert!(is_modern_shell_focus_process("startmenuexperiencehost.exe"));
    assert_eq!(modern_input_host_priority("textinputhost.exe"), Some(0));
    assert_eq!(modern_input_host_priority("notepad.exe"), None);
    assert!(!is_modern_shell_focus_process("notepad.exe"));
    assert!(is_modern_shell_overlay_process("searchhost.exe"));
    assert!(!is_modern_shell_overlay_process("explorer.exe"));
}

#[test]
fn process_snapshot_names_are_normalized() {
    assert_eq!(executable_name(&executable_name_buffer("SearchHost.EXE")), "searchhost.exe");
}

#[test]
fn executable_names_stop_at_the_terminator_and_replace_broken_surrogates() {
    let mut buffer = executable_name_buffer("A.exe");
    buffer[6] = 0x41;
    assert_eq!(executable_name(&buffer), "a.exe");
    let mut lone = [0u16; 260];
    lone[0] = 0xd800;
    lone[1] = 0x61;
    assert_eq!(executable_name(&lone), "\u{fffd}a");
    assert_eq!(executable_name(&[0x41u16; 260]), "a".repeat(260));
}

#[test]
fn missing_conversion_modes_follow_the_language() {
    let open_unknown = ImeWindowQuery { is_open: true, conversion_mode: 0, conversion_valid: false };
    assert_eq!(normalized_conversion_mode(open_unknown, 0x0411), 9);
    assert_eq!(normalized_conversion_mode(open_unknown, 0x0412), 1);
    let valid = ImeWindowQuery { is_open: true, conversion_mode: 3, conversion_valid: true };
    assert_eq!(normalized_conversion_mode(valid, 0x0411), 3);
    let closed = ImeWindowQuery { is_open: false, conversion_mode: 7, conversion_valid: false };
    assert_eq!(normalized_conversion_mode(closed, 0x0412), 7);
}

#[test]
fn snapshots_without_an_ime_window() {
    let english = snapshot_without_ime(0x0409);
    assert_eq!(english.validity, Validity::Live);
    assert!(!english.is_open);
    assert_eq!(snapshot_without_ime(0x0412).validity, Validity::Invalid);
    assert_eq!(snapshot_without_ime(0).validity, Validity::Invalid);
    let live = live_snapshot(ImeWindowQuery { is_open: true, conversion_mode: 1, conversion_valid: true }, 0x0412);
    assert_eq!(live, ImeSnapshot { validity: Validity::Live, conversion_mode: 1, language_id: 0x0412, is_open: true });
    assert_eq!(ImeSnapshot::default().validity, Validity::Invalid);
}

#[test]
fn cache_keys_prefer_the_thread() {
    assert_eq!(cache_key(7, 9), CacheKey::Thread(7));
    assert_eq!(cache_key(0, 9), CacheKey::Window(9));
    assert_eq!(first_non_null(&[0, 0, 5, 6]), 5);
    assert_eq!(first_non_null(&[0, 0]), 0);
}

#[test]
fn shell_input_hosts_are_ranked_by_focus_then_priority() {
    let processes = vec![
        (30, "textinputhost.exe".to_string()),
        (20, "searchhost.exe".to_string()),
        (10, "notepad.exe".to_string()),
        (40, "textinputhost.exe".to_string()),
    ];
    assert_eq!(rank_shell_input_processes(&processes, 20, 20), vec![20, 30, 40]);
    assert!(rank_shell_input_processes(&processes, 10, 10).is_empty());
}

fn snapshot(language_id: u16, conversion_mode: u32, is_open: bool) -> ImeSnapshot {
    ImeSnapshot { validity: Validity::Live, conversion_mode, language_id, is_open }
}

#[test]
fn ime_states_are_classified_by_language_and_mode() {
    assert_eq!(classify_ime(snapshot(0x0412, 1, false)), ImeKind::English);
    assert_eq!(classify_ime(snapshot(0x0412, 1, true)), ImeKind::Korean);
    assert_eq!(classify_ime(snapshot(0x0412, 0, true)), ImeKind::English);
    assert_eq!(classify_ime(snapshot(0x0411, 9, true)), ImeKind::JapaneseHiragana);
    assert_eq!(classify_ime(snapshot(0x0411, 27, true)), ImeKind::JapaneseKatakana);
    assert_eq!(classify_ime(snapshot(0x0411, 1, true)), ImeKind::English);
    assert_eq!(classify_ime(snapshot(0x0804, 1, true)), ImeKind::Unsupported);
    assert_eq!(classify_ime(snapshot(0x0409, 25, true)), ImeKind::JapaneseHiragana);
    assert_eq!(classify_ime(snapshot(0x0409, 3, true)), ImeKind::JapaneseKatakana);
    assert_eq!(classify_ime(snapshot(0x0409, 1, true)), ImeKind::Korean);
    assert_eq!(classify_ime(snapshot(0x0409, 0, true)), ImeKind::English);
}
