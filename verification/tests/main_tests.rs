use ime_caret::about::{about_message, about_title, tray_tooltip_text};
use ime_caret::activity::{
    activity_backoff_level, full_refresh_interval, is_relevant_win_event,
    keyboard_activity_refresh_needed, poll_interval_for_state, raw_keyboard_key_can_change_ime,
    raw_keyboard_signal_is_duplicate, win_event_flag, LastRawKeyboardSignal, RawKeyboardSignal,
    WIN_EVENT_FLAG_CARET, WIN_EVENT_FLAG_TEXT_SELECTION, WIN_EVENT_FLAG_WINDOW_LOCATION,
    WIN_EVENT_PRIORITY_FLAGS,
};
use ime_caret::config::IndicatorPosition;
use ime_caret::editability::CaretAnchor;
use ime_caret::layout::{
    calculate_tray_menu_placement, caret_indicator_position_avoiding_rect_in_bounds,
    caret_indicator_position_in_bounds, centered_window_position, settings_field_layout,
    settings_layout, settings_window_size, tray_hint_position, CARET_INDICATOR_HEIGHT,
    CARET_INDICATOR_WIDTH, SETTINGS_BOTTOM_MARGIN, SETTINGS_BUTTON_GAP, SETTINGS_CLIENT_HEIGHT,
    SETTINGS_CLIENT_WIDTH, SETTINGS_COLOR_EDIT_WIDTH, SETTINGS_CONTENT_INSET,
    SETTINGS_CONTENT_VERTICAL_MARGIN, SETTINGS_GROUP_BUTTON_GAP,
    SETTINGS_GROUP_CAPTION_VISUAL_INSET, SETTINGS_HORIZONTAL_MARGIN,
    SETTINGS_POSITION_COMBO_WIDTH, SETTINGS_POSITION_CONTROL_GAP, TRAY_HINT_DISPLAY_MS,
    TRAY_HINT_HORIZONTAL_PADDING, TRAY_HINT_MIN_HEIGHT, TRAY_HINT_MIN_WIDTH,
};
use ime_caret::text::decode_hex;
use ime_caret::win::{
    point_from_message, EVENT_OBJECT_FOCUS, EVENT_OBJECT_LOCATIONCHANGE,
    EVENT_OBJECT_TEXTSELECTIONCHANGED, EVENT_SYSTEM_FOREGROUND, OBJID_CARET, OBJID_WINDOW, POINT,
    RECT, TPM_BOTTOMALIGN, TPM_RIGHTALIGN, VK_CAPITAL, VK_LWIN,
};

#[test]
fn caret_indicator_is_small_bottom_aligned_and_offset() {
    let anchor = CaretAnchor { x: 120, top: 200, bottom: 222 };
    let bounds = RECT { left: 0, top: 0, right: 1920, bottom: 1080 };
    assert_eq!(
        caret_indicator_position_in_bounds(
            anchor,
            CARET_INDICATOR_WIDTH,
            CARET_INDICATOR_HEIGHT,
            bounds,
            IndicatorPosition::Right,
        ),
        (124, 207)
    );
}

#[test]
fn caret_indicator_moves_left_at_the_screen_edge() {
    let anchor = CaretAnchor { x: 1918, top: 200, bottom: 222 };
    let bounds = RECT { left: 0, top: 0, right: 1920, bottom: 1080 };
    assert_eq!(
        caret_indicator_position_in_bounds(
            anchor,
            CARET_INDICATOR_WIDTH,
            CARET_INDICATOR_HEIGHT,
            bounds,
            IndicatorPosition::Right,
        ),
        (1899, 207)
    );
}

#[test]
fn caret_indicator_can_be_placed_above_or_below_the_caret() {
    let anchor = CaretAnchor { x: 120, top: 200, bottom: 222 };
    let bounds = RECT { left: 0, top: 0, right: 1920, bottom: 1080 };

    assert_eq!(
        caret_indicator_position_in_bounds(
            anchor,
            CARET_INDICATOR_WIDTH,
            CARET_INDICATOR_HEIGHT,
            bounds,
            IndicatorPosition::Above,
        ),
        (124, 183)
    );
    assert_eq!(
        caret_indicator_position_in_bounds(
            anchor,
            CARET_INDICATOR_WIDTH,
            CARET_INDICATOR_HEIGHT,
            bounds,
            IndicatorPosition::Below,
        ),
        (124, 224)
    );
}

#[test]
fn settings_window_is_centered_in_screen_bounds() {
    assert_eq!(
        centered_window_position(430, 326, RECT { left: 0, top: 0, right: 1920, bottom: 1080 }),
        (745, 377)
    );
}

#[test]
fn shell_overlay_moves_indicator_to_nearest_visible_edge() {
    let anchor = CaretAnchor { x: 96, top: 537, bottom: 556 };
    let bounds = RECT { left: 0, top: 0, right: 1920, bottom: 1080 };
    let shell = RECT { left: 0, top: 502, right: 858, bottom: 1080 };
    assert_eq!(
        caret_indicator_position_avoiding_rect_in_bounds(
            anchor,
            CARET_INDICATOR_WIDTH,
            CARET_INDICATOR_HEIGHT,
            bounds,
            IndicatorPosition::Right,
            Some(shell),
        ),
        (100, 487)
    );
}

#[test]
fn settings_layout_keeps_equal_outer_and_group_content_margins() {
    let layout = settings_layout(SETTINGS_CLIENT_WIDTH, SETTINGS_CLIENT_HEIGHT);
    let visual_group_top = layout.group.top + SETTINGS_GROUP_CAPTION_VISUAL_INSET;
    let first_control_top = visual_group_top + SETTINGS_CONTENT_VERTICAL_MARGIN;
    let position_y = first_control_top + 4 * 29 + 5;
    let position = settings_field_layout(layout, position_y, SETTINGS_POSITION_COMBO_WIDTH);
    let last_color = settings_field_layout(layout, position_y + 4 * 29, SETTINGS_COLOR_EDIT_WIDTH);

    assert_eq!(layout.group.left, SETTINGS_HORIZONTAL_MARGIN);
    assert_eq!(SETTINGS_CLIENT_WIDTH - layout.group.right, SETTINGS_HORIZONTAL_MARGIN);
    assert_eq!(SETTINGS_CLIENT_HEIGHT - layout.cancel_button.bottom, SETTINGS_BOTTOM_MARGIN);
    assert_eq!(layout.cancel_button.left - layout.ok_button.right, SETTINGS_BUTTON_GAP);
    assert_eq!(layout.ok_button.top - layout.group.bottom, SETTINGS_GROUP_BUTTON_GAP);
    assert_eq!(position.label.left - layout.group.left, SETTINGS_CONTENT_INSET);
    assert_eq!(layout.group.right - position.control.right, SETTINGS_CONTENT_INSET);
    assert_eq!(position.control.left - position.label.right, SETTINGS_POSITION_CONTROL_GAP);
    assert_eq!(
        first_control_top - visual_group_top,
        layout.group.bottom - last_color.label.bottom
    );
    assert_eq!(position.control.right, last_color.control.right);
}

#[test]
fn tray_tooltip_contains_program_name_and_version() {
    assert_eq!(tray_tooltip_text(), "IME Caret 2.4");
}

#[test]
fn about_box_names_the_program_and_its_settings_file() {
    assert_eq!(about_title(), "IME Caret 정보");
    assert_eq!(about_message("C:\\a.ini"), "IME Caret 2.4\n\n설정 파일: C:\\a.ini");
}

#[test]
fn activity_backoff_preserves_fast_paths_and_slows_idle_fallbacks() {
    assert_eq!(poll_interval_for_state(true, false, false, 0), 100);
    assert_eq!(poll_interval_for_state(true, false, true, 0), 500);
    assert_eq!(poll_interval_for_state(true, false, true, 1), 2_000);
    assert_eq!(poll_interval_for_state(true, false, true, 2), 5_000);
    assert_eq!(poll_interval_for_state(false, true, true, 2), 100);
    assert_eq!(poll_interval_for_state(false, false, true, 0), 500);
    assert_eq!(poll_interval_for_state(false, false, true, 1), 2_000);
    assert_eq!(poll_interval_for_state(false, false, true, 2), 5_000);
    assert_eq!(full_refresh_interval(false, 0), 500);
    assert_eq!(full_refresh_interval(true, 0), 1_000);
    assert_eq!(full_refresh_interval(true, 1), 2_000);
    assert_eq!(full_refresh_interval(true, 2), 5_000);
    assert_eq!(activity_backoff_level(false, 30_000), 0);
    assert_eq!(activity_backoff_level(true, 2_000), 0);
    assert_eq!(activity_backoff_level(true, 3_000), 1);
    assert_eq!(activity_backoff_level(true, 15_000), 2);
}

#[test]
fn raw_keyboard_duplicate_filter_is_device_and_time_scoped() {
    let now: u64 = 5_000_000_000;
    let signal = RawKeyboardSignal { device: 1, make_code: 30, flags: 0, virtual_key: 0x41 };
    let previous = Some(LastRawKeyboardSignal { signal, tick_ns: now });

    assert!(raw_keyboard_signal_is_duplicate(previous, signal, now));
    assert!(!raw_keyboard_signal_is_duplicate(
        previous,
        RawKeyboardSignal { device: 2, ..signal },
        now
    ));
    assert!(!raw_keyboard_signal_is_duplicate(previous, signal, now + 3_000_000));
}

#[test]
fn raw_keyboard_duplicates_need_a_previous_signal_from_the_past() {
    let signal = RawKeyboardSignal { device: 1, make_code: 30, flags: 0, virtual_key: 0x41 };
    let previous = Some(LastRawKeyboardSignal { signal, tick_ns: 1_000 });
    assert!(raw_keyboard_signal_is_duplicate(previous, signal, 2_001_000));
    assert!(!raw_keyboard_signal_is_duplicate(previous, signal, 2_001_001));
    assert!(!raw_keyboard_signal_is_duplicate(previous, signal, 999));
    assert!(!raw_keyboard_signal_is_duplicate(None, signal, 1_000));
}

#[test]
fn raw_keyboard_refresh_filter_keeps_ime_switch_keys() {
    assert!(raw_keyboard_key_can_change_ime(VK_CAPITAL));
    assert!(raw_keyboard_key_can_change_ime(0x15));
    assert!(raw_keyboard_key_can_change_ime(0x20));
    assert!(raw_keyboard_key_can_change_ime(VK_LWIN));
    assert!(raw_keyboard_key_can_change_ime(0xe5));
    assert!(!raw_keyboard_key_can_change_ime(0x41));
    assert!(!raw_keyboard_key_can_change_ime(0x31));
}

#[test]
fn caret_event_coalescing_preserves_pending_full_refreshes() {
    assert!(keyboard_activity_refresh_needed(false, false));
    assert!(!keyboard_activity_refresh_needed(true, false));
    assert!(keyboard_activity_refresh_needed(true, true));
}

#[test]
fn win_event_filter_accepts_focus_and_caret_activity_only() {
    assert!(is_relevant_win_event(EVENT_SYSTEM_FOREGROUND, 0));
    assert!(is_relevant_win_event(EVENT_OBJECT_FOCUS, 0));
    assert!(is_relevant_win_event(EVENT_OBJECT_LOCATIONCHANGE, OBJID_CARET));
    assert!(is_relevant_win_event(EVENT_OBJECT_TEXTSELECTIONCHANGED, 0));
    assert!(is_relevant_win_event(EVENT_OBJECT_LOCATIONCHANGE, OBJID_WINDOW));
    assert!(!is_relevant_win_event(0, 0));
    assert_eq!(
        win_event_flag(EVENT_SYSTEM_FOREGROUND, 0) | win_event_flag(EVENT_OBJECT_FOCUS, 0),
        WIN_EVENT_PRIORITY_FLAGS
    );
}

#[test]
fn win_event_flags_are_distinct_bits() {
    assert_eq!(win_event_flag(EVENT_OBJECT_LOCATIONCHANGE, OBJID_CARET), WIN_EVENT_FLAG_CARET);
    assert_eq!(win_event_flag(EVENT_OBJECT_LOCATIONCHANGE, OBJID_WINDOW), WIN_EVENT_FLAG_WINDOW_LOCATION);
    assert_eq!(win_event_flag(EVENT_OBJECT_TEXTSELECTIONCHANGED, 5), WIN_EVENT_FLAG_TEXT_SELECTION);
    assert_eq!(win_event_flag(EVENT_OBJECT_LOCATIONCHANGE, 3), 0);
    assert!(!is_relevant_win_event(EVENT_OBJECT_LOCATIONCHANGE, -4));
}

#[test]
fn tray_click_hint_is_placed_above_the_taskbar_icon() {
    assert_eq!(
        tray_hint_position(
            RECT { left: 1850, top: 1048, right: 1874, bottom: 1072 },
            TRAY_HINT_MIN_WIDTH,
            TRAY_HINT_MIN_HEIGHT,
            RECT { left: 0, top: 0, right: 1920, bottom: 1080 },
        ),
        (1675, 1016)
    );
    assert_eq!(TRAY_HINT_DISPLAY_MS, 2_000);
    assert_eq!(TRAY_HINT_HORIZONTAL_PADDING, 32);
}

#[test]
fn tray_menu_uses_work_area_above_bottom_taskbar() {
    let monitor = RECT { left: 0, top: 0, right: 1920, bottom: 1080 };
    let work = RECT { left: 0, top: 0, right: 1920, bottom: 1040 };
    let icon = RECT { left: 1850, top: 1048, right: 1874, bottom: 1072 };
    let placement = calculate_tray_menu_placement(Some(icon), POINT::default(), monitor, work);

    assert_eq!(placement.anchor.y, work.bottom);
    assert_ne!(placement.flags & TPM_BOTTOMALIGN, 0);
    assert_ne!(placement.flags & TPM_RIGHTALIGN, 0);
    let exclude = placement.exclude.expect("taskbar exclusion");
    assert_eq!(exclude.top, work.bottom);
    assert_eq!(exclude.bottom, monitor.bottom);
}

#[test]
fn tray_menu_supports_top_and_side_taskbars() {
    let monitor = RECT { left: -1600, top: 0, right: 0, bottom: 900 };

    let top_work = RECT { left: -1600, top: 48, right: 0, bottom: 900 };
    let top_icon = RECT { left: -80, top: 10, right: -56, bottom: 34 };
    let top = calculate_tray_menu_placement(Some(top_icon), POINT::default(), monitor, top_work);
    assert_eq!(top.anchor.y, top_work.top);
    assert_eq!(top.flags & TPM_BOTTOMALIGN, 0);

    let right_work = RECT { left: -1600, top: 0, right: -52, bottom: 900 };
    let right_icon = RECT { left: -42, top: 830, right: -18, bottom: 854 };
    let right = calculate_tray_menu_placement(Some(right_icon), POINT::default(), monitor, right_work);
    assert_eq!(right.anchor.x, right_work.right);
    assert_ne!(right.flags & TPM_RIGHTALIGN, 0);
    assert_ne!(right.flags & TPM_BOTTOMALIGN, 0);
}

#[test]
fn notification_coordinates_keep_negative_monitor_values() {
    let packed = ((-120i16 as u16 as usize) << 16) | (-640i16 as u16 as usize);
    let point = point_from_message(packed);
    assert_eq!(point.x, -640);
    assert_eq!(point.y, -120);
}

#[test]
fn hex_resources_decode_two_digits_per_byte() {
    assert_eq!(decode_hex("00ff7Fa0"), Some(vec![0x00, 0xff, 0x7f, 0xa0]));
    assert_eq!(decode_hex(""), Some(Vec::new()));
    assert_eq!(decode_hex("abc"), None);
    assert_eq!(decode_hex("0g"), None);
}

#[test]
fn settings_window_size_falls_back_when_the_frame_is_unknown() {
    assert_eq!(settings_window_size(None), (430, 451));
    assert_eq!(
        settings_window_size(Some(RECT { left: -8, top: -31, right: 422, bottom: 410 })),
        (430, 441)
    );
}
