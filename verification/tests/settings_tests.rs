use ime_caret::activity::{
    classify_raw_keyboard, opens_delayed_focus_surface, raw_keyboard_signal_needs_refresh,
    task_manager_search_is_active, RawKeyboardActivity, RawKeyboardSignal,
};
use ime_caret::config::{Config, IndicatorPosition, RgbaColor};
use ime_caret::settings::{
    apply_settings_form, command_action, event_source_relevant, settings_form_for,
    tray_message_action, ColorField, EventSource, SettingsForm, TrayAction, MENU_ABOUT, MENU_EXIT,
    MENU_SETTINGS, MENU_TOGGLE_SOUND, NIN_KEYSELECT, NIN_SELECT, WM_CONTEXTMENU, WM_LBUTTONDBLCLK,
    WM_LBUTTONUP, WM_RBUTTONUP,
};
use ime_caret::win::{EVENT_OBJECT_FOCUS, EVENT_OBJECT_LOCATIONCHANGE, EVENT_SYSTEM_FOREGROUND, OBJID_CARET, OBJID_WINDOW};

#[test]
fn default_settings_file_matches_the_documented_one() {
    let expected = "[Settings]\r\nPlayEnglishSound=1\r\nPlayJapaneseSound=1\r\nPlayKoreanSound=1\r\nPlaySounds=0\r\nIndicatorPosition=Below\r\nIndicatorTextColor=FFFFFFA5\r\nEnglishBackgroundColor=FF6262A5\r\nJapaneseBackgroundColor=62FF62A5\r\nKoreanBackgroundColor=6262FFA5\r\n";
    assert_eq!(Config::default().to_ini_text(), expected);
    assert_eq!(Config::from_ini_text(expected), Config::default());
}

#[test]
fn settings_form_applies_all_fields() {
    let config = Config::default();
    let form = SettingsForm {
        play_sounds: true,
        play_english_sound: false,
        play_japanese_sound: true,
        play_korean_sound: false,
        position_index: Some(0),
        indicator_text_color: Some("000000FF".to_string()),
        english_background_color: Some(" 11223344 ".to_string()),
        japanese_background_color: Some("aabbccdd".to_string()),
        korean_background_color: Some("FFFFFF00".to_string()),
    };
    let applied = apply_settings_form(&config, &form).unwrap();
    assert!(applied.play_sounds && !applied.play_english_sound && applied.play_japanese_sound && !applied.play_korean_sound);
    assert_eq!(applied.indicator_position, IndicatorPosition::Right);
    assert_eq!(applied.indicator_text_color, RgbaColor::new(0, 0, 0, 0xff));
    assert_eq!(applied.english_background_color, RgbaColor::new(0x11, 0x22, 0x33, 0x44));
    assert_eq!(applied.japanese_background_color, RgbaColor::new(0xaa, 0xbb, 0xcc, 0xdd));
    assert_eq!(applied.korean_background_color, RgbaColor::new(0xff, 0xff, 0xff, 0));
}

#[test]
fn settings_form_reports_the_first_invalid_colour() {
    let config = Config::default();
    let mut form = settings_form_for(&config);
    assert_eq!(apply_settings_form(&config, &form), Ok(config));
    form.japanese_background_color = Some("12345".to_string());
    form.korean_background_color = None;
    assert_eq!(apply_settings_form(&config, &form), Err(ColorField::JapaneseBackground));
    form.japanese_background_color = Some("12345678".to_string());
    assert_eq!(apply_settings_form(&config, &form), Err(ColorField::KoreanBackground));
    assert_eq!(ColorField::KoreanBackground.label(), "한글 배경색");
    form.korean_background_color = Some("12345678".to_string());
    form.position_index = None;
    assert_eq!(apply_settings_form(&config, &form).unwrap().indicator_position, IndicatorPosition::Below);
}

#[test]
fn tray_commands_and_clicks_map_to_actions() {
    assert_eq!(command_action(MENU_TOGGLE_SOUND), TrayAction::ToggleSounds);
    assert_eq!(command_action(MENU_SETTINGS), TrayAction::ShowSettings);
    assert_eq!(command_action(MENU_ABOUT), TrayAction::ShowAbout);
    assert_eq!(command_action(MENU_EXIT), TrayAction::Exit);
    assert_eq!(command_action(1), TrayAction::Nothing);
    assert_eq!(tray_message_action(WM_RBUTTONUP), TrayAction::ShowMenu { at_click: true });
    assert_eq!(tray_message_action(WM_CONTEXTMENU), TrayAction::ShowMenu { at_click: false });
    assert_eq!(tray_message_action(WM_LBUTTONUP), TrayAction::ShowHint { at_click: true });
    assert_eq!(tray_message_action(NIN_SELECT), TrayAction::ShowHint { at_click: true });
    assert_eq!(tray_message_action(NIN_KEYSELECT), TrayAction::ShowHint { at_click: false });
    assert_eq!(tray_message_action(WM_LBUTTONDBLCLK), TrayAction::ToggleSounds);
    assert_eq!(tray_message_action(0x0200), TrayAction::Nothing);
}

#[test]
fn events_are_followed_only_from_the_foreground_tree() {
    let source = EventSource { window: 5, foreground: 1, root: 1, root_owner: 1, allowed_process_id: 0, source_process_id: 9 };
    assert!(event_source_relevant(EVENT_OBJECT_FOCUS, 0, source));
    let stranger = EventSource { root: 6, root_owner: 6, ..source };
    assert!(!event_source_relevant(EVENT_OBJECT_FOCUS, 0, stranger));
    assert!(event_source_relevant(EVENT_OBJECT_FOCUS, 0, EventSource { allowed_process_id: 9, ..stranger }));
    assert!(event_source_relevant(EVENT_SYSTEM_FOREGROUND, 0, EventSource { window: 0, ..stranger }));
    assert!(!event_source_relevant(EVENT_OBJECT_FOCUS, 0, EventSource { window: 0, ..source }));
    assert!(event_source_relevant(EVENT_OBJECT_FOCUS, 0, EventSource { foreground: 0, ..stranger }));
    assert!(!event_source_relevant(EVENT_OBJECT_LOCATIONCHANGE, OBJID_WINDOW, source));
    assert!(event_source_relevant(EVENT_OBJECT_LOCATIONCHANGE, OBJID_WINDOW, EventSource { window: 1, ..source }));
    assert!(event_source_relevant(EVENT_OBJECT_LOCATIONCHANGE, OBJID_CARET, source));
}

#[test]
fn raw_keyboard_records_are_classified() {
    let key = RawKeyboardSignal { device: 3, make_code: 0x1e, flags: 0, virtual_key: 0x41 };
    assert_eq!(classify_raw_keyboard(true, 40, 40, 40, 1, 0, 0x41, 3, 0x1e), RawKeyboardActivity::KeyDown(key));
    assert_eq!(classify_raw_keyboard(false, 40, 40, 40, 1, 0, 0x41, 3, 0x1e), RawKeyboardActivity::Fallback);
    assert_eq!(classify_raw_keyboard(true, u32::MAX, 40, 40, 1, 0, 0x41, 3, 0x1e), RawKeyboardActivity::Fallback);
    assert_eq!(classify_raw_keyboard(true, 30, 40, 40, 1, 0, 0x41, 3, 0x1e), RawKeyboardActivity::Fallback);
    assert_eq!(classify_raw_keyboard(true, 40, 40, 40, 0, 0, 0x41, 3, 0x1e), RawKeyboardActivity::Ignore);
    assert_eq!(classify_raw_keyboard(true, 40, 40, 40, 1, 1, 0x41, 3, 0x1e), RawKeyboardActivity::Ignore);
    assert_eq!(classify_raw_keyboard(true, 40, 40, 40, 1, 2, 0xff, 3, 0x1e), RawKeyboardActivity::Ignore);
    assert!(raw_keyboard_signal_needs_refresh(RawKeyboardSignal { virtual_key: 0x15, ..key }, false));
    assert!(raw_keyboard_signal_needs_refresh(key, true));
    assert!(!raw_keyboard_signal_needs_refresh(key, false));
    assert!(opens_delayed_focus_surface(RawKeyboardSignal { virtual_key: 0x46, ..key }, true));
    assert!(!opens_delayed_focus_surface(RawKeyboardSignal { virtual_key: 0x46, ..key }, false));
    assert!(!opens_delayed_focus_surface(key, true));
}

#[test]
fn task_manager_search_is_recognized_by_its_classes() {
    assert!(task_manager_search_is_active(Some("TaskManagerWindow"), Some("Windows.UI.Input.InputSite.WindowClass")));
    assert!(task_manager_search_is_active(Some("taskmanagerwindow"), Some("WINDOWS.UI.INPUT.INPUTSITE.WINDOWCLASS")));
    assert!(!task_manager_search_is_active(Some("TaskManagerWindow"), None));
    assert!(!task_manager_search_is_active(None, Some("Windows.UI.Input.InputSite.WindowClass")));
    assert!(!task_manager_search_is_active(Some("Notepad"), Some("Windows.UI.Input.InputSite.WindowClass")));
}
