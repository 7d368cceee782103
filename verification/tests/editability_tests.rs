use ime_caret::editability::{anchor_in_window_rect, editor_bounds_anchor, element_requires_exact_caret_geometry};
use ime_caret::console::{console_client_candidates, console_cursor_anchor, console_process_priority};
use ime_caret::editability::{
    accessible_caret_rect_anchor, best_composition_columns, classify_element,
    classify_standard_window, composition_columns, console_cell_anchor, evidence_accepts_caret_probe,
    iid_iaccessible, iid_iuiautomation_text_edit_pattern, iid_iuiautomation_text_pattern,
    iid_iuiautomation_text_pattern2, is_chromium_widget_class, is_code_like_aria_role,
    is_console_like_class, is_excel_dialog_class, is_excel_editor_class, is_excel_host_class,
    is_office_uia_preferred_caret_class, is_office_word_editor_class, is_text_entry_aria_role,
    is_uia_preferred_caret_class, scale_between_dpi, standard_window_class,
    text_entry_role_accepts_focus, utf16_console_columns, win32_caret_anchor, CaretAnchor,
    Editability, ElementProperties, NodeEvidence, StandardClass, MAX_UIA_CARET_DESCENDANT_DEPTH,
    MAX_UIA_CARET_DESCENDANT_NODES, OBJID_CARET, STATE_SYSTEM_READONLY, STATE_SYSTEM_UNAVAILABLE,
    UIA_COMBO_BOX_CONTROL_TYPE_ID, UIA_DOCUMENT_CONTROL_TYPE_ID, UIA_EDIT_CONTROL_TYPE_ID,
    UIA_TEXT_CONTROL_TYPE_ID, UIA_TEXT_EDIT_PATTERN_ID, UIA_TEXT_PATTERN2_ID, UIA_TEXT_PATTERN_ID,
};
use ime_caret::win::{CONSOLE_FONT_INFOEX, CONSOLE_SCREEN_BUFFER_INFO, COORD, POINT, RECT, SMALL_RECT};

#[test]
fn readonly_and_unavailable_states_are_distinct_bits() {
    assert_eq!(STATE_SYSTEM_READONLY, 0x40);
    assert_eq!(STATE_SYSTEM_UNAVAILABLE, 0x01);
}

#[test]
fn only_positive_editable_evidence_accepts_text_input() {
    assert!(Editability::Editable.accepts_text_input());
    assert!(!Editability::ReadOnly.accepts_text_input());
    assert!(!Editability::Unknown.accepts_text_input());
}

#[test]
fn inline_code_roles_are_never_text_entry_evidence() {
    assert!(is_code_like_aria_role("code"));
    assert!(is_code_like_aria_role("doc-code"));
    assert!(!is_text_entry_aria_role("code"));
}

#[test]
fn only_explicit_text_entry_roles_are_accepted() {
    assert!(is_text_entry_aria_role("textbox"));
    assert!(is_text_entry_aria_role("searchbox"));
    assert!(!is_text_entry_aria_role("document"));
    assert!(!is_text_entry_aria_role("generic"));
}

#[test]
fn chromium_searchbox_accepts_missing_focusable_property() {
    assert!(text_entry_role_accepts_focus(None, None));
    assert!(text_entry_role_accepts_focus(Some(true), Some(false)));
    assert!(!text_entry_role_accepts_focus(Some(false), Some(false)));
}

#[test]
fn caret_descendant_search_is_bounded() {
    assert_eq!(MAX_UIA_CARET_DESCENDANT_DEPTH, 4);
    assert_eq!(MAX_UIA_CARET_DESCENDANT_NODES, 64);
}

#[test]
fn browser_exact_mode_rejects_editable_documents() {
    assert!(evidence_accepts_caret_probe(NodeEvidence::EditableField, false, true));
    assert!(!evidence_accepts_caret_probe(NodeEvidence::EditableDocument, false, true));
    assert!(evidence_accepts_caret_probe(NodeEvidence::EditableDocument, false, false));
}

#[test]
fn console_cell_coordinates_are_converted_to_screen_pixels() {
    assert_eq!(
        console_cell_anchor(POINT { x: 100, y: 200 }, 3, 2, 8, 16, 1),
        CaretAnchor { x: 132, top: 232, bottom: 248 }
    );
    assert_eq!(
        console_cell_anchor(POINT { x: 100, y: 200 }, 3, 2, 8, 16, 2),
        CaretAnchor { x: 140, top: 232, bottom: 248 }
    );
}

#[test]
fn korean_composition_uses_double_width_console_columns() {
    assert_eq!(utf16_console_columns(&"가".encode_utf16().collect::<Vec<_>>()), 2);
    assert_eq!(utf16_console_columns(&"ab".encode_utf16().collect::<Vec<_>>()), 2);
    assert_eq!(utf16_console_columns(&"가a".encode_utf16().collect::<Vec<_>>()), 3);
}

#[test]
fn console_window_classes_are_recognized() {
    assert!(is_console_like_class("ConsoleWindowClass"));
    assert!(is_console_like_class("CASCADIA_HOSTING_WINDOW_CLASS"));
    assert!(!is_console_like_class("Chrome_WidgetWin_1"));
}

#[test]
fn chromium_and_firefox_use_uia_as_the_authoritative_caret_source() {
    assert!(is_uia_preferred_caret_class("Chrome_WidgetWin_1"));
    assert!(is_uia_preferred_caret_class("MozillaWindowClass"));
    assert!(!is_uia_preferred_caret_class("Notepad"));
}

#[test]
fn office_word_document_window_is_recognized() {
    assert!(is_office_word_editor_class("_WwG"));
    assert!(is_office_word_editor_class("_wwg"));
    assert!(!is_office_word_editor_class("_WwB"));
    assert!(!is_office_word_editor_class("rctrl_renwnd32"));
}

#[test]
fn editable_combobox_role_is_supported() {
    assert!(is_text_entry_aria_role("combobox"));
}

#[test]
fn text_pattern_identifiers_match_windows_headers() {
    assert_eq!(UIA_TEXT_PATTERN_ID, 10014);
    assert_eq!(iid_iuiautomation_text_pattern().Data1, 0x32eba289);
    assert_eq!(UIA_TEXT_PATTERN2_ID, 10024);
    assert_eq!(iid_iuiautomation_text_pattern2().Data1, 0x506a921a);
    assert_eq!(UIA_TEXT_EDIT_PATTERN_ID, 10032);
    assert_eq!(iid_iuiautomation_text_edit_pattern().Data1, 0x17e21576);
    assert_eq!(iid_iaccessible().Data1, 0x618736e0);
    assert_eq!(OBJID_CARET, 0xffff_fff8);
}

#[test]
fn accessibility_caret_location_uses_the_narrow_caret_right_edge() {
    assert_eq!(
        accessible_caret_rect_anchor(100, 20, 1, 18),
        Some(CaretAnchor { x: 101, top: 20, bottom: 38 })
    );
    assert_eq!(
        accessible_caret_rect_anchor(100, 20, 0, 18),
        Some(CaretAnchor { x: 101, top: 20, bottom: 38 })
    );
    assert_eq!(accessible_caret_rect_anchor(100, 20, 40, 18), None);
}

#[test]
fn cmd_is_prioritized_when_resolving_a_console_client() {
    fn executable_name(value: &str) -> [u16; 260] {
        let mut output = [0u16; 260];
        for (index, character) in value.encode_utf16().enumerate() {
            output[index] = character;
        }
        output
    }

    assert_eq!(console_process_priority(&executable_name("cmd.exe")), 0);
    assert_eq!(console_process_priority(&executable_name("pwsh.exe")), 1);
    assert_eq!(console_process_priority(&executable_name("python.exe")), 2);
    assert_eq!(console_process_priority(&executable_name("conhost.exe")), 3);
}

fn name_buffer(value: &str) -> [u16; 260] {
    let mut output = [0u16; 260];
    for (index, character) in value.encode_utf16().enumerate() {
        output[index] = character;
    }
    output
}

#[test]
fn console_priority_ignores_ascii_case_and_knows_every_shell() {
    assert_eq!(console_process_priority(&name_buffer("CMD.EXE")), 0);
    assert_eq!(console_process_priority(&name_buffer("PowerShell.exe")), 1);
    assert_eq!(console_process_priority(&name_buffer("wsl.exe")), 1);
    assert_eq!(console_process_priority(&name_buffer("bash.exe")), 1);
    assert_eq!(console_process_priority(&name_buffer("OpenConsole.exe")), 3);
    assert_eq!(console_process_priority(&name_buffer("")), 2);
}

#[test]
fn console_clients_are_ordered_by_priority_then_id() {
    let processes = vec![
        (40, "conhost.exe".to_string(), true),
        (30, "python.exe".to_string(), true),
        (20, "cmd.exe".to_string(), true),
        (10, "pwsh.exe".to_string(), true),
        (0, "cmd.exe".to_string(), true),
        (99, "cmd.exe".to_string(), true),
        (77, "cmd.exe".to_string(), true),
        (25, "cmd.exe".to_string(), false),
        (5, "notepad.exe".to_string(), true),
    ];
    assert_eq!(console_client_candidates(&processes, 99, 77), vec![20, 10, 5, 30, 40]);
}

#[test]
fn console_clients_are_listed_once() {
    let processes = vec![(8, "cmd.exe".to_string(), true), (8, "cmd.exe".to_string(), true)];
    assert_eq!(console_client_candidates(&processes, 1, 2), vec![8]);
    assert!(console_client_candidates(&Vec::new(), 1, 2).is_empty());
}

fn screen_buffer(x: i16, y: i16, window: SMALL_RECT) -> CONSOLE_SCREEN_BUFFER_INFO {
    CONSOLE_SCREEN_BUFFER_INFO {
        dwSize: COORD { X: 120, Y: 9000 },
        dwCursorPosition: COORD { X: x, Y: y },
        wAttributes: 0,
        srWindow: window,
        dwMaximumWindowSize: COORD { X: 120, Y: 40 },
    }
}

#[test]
fn console_cursor_is_placed_from_the_font_cell() {
    let window = SMALL_RECT { Left: 0, Top: 100, Right: 79, Bottom: 124 };
    let mut font = CONSOLE_FONT_INFOEX::default();
    font.dwFontSize = COORD { X: 8, Y: 16 };
    let client = RECT { left: 0, top: 0, right: 640, bottom: 400 };
    let anchor = console_cursor_anchor(
        screen_buffer(3, 102, window),
        client,
        POINT { x: 100, y: 200 },
        Some(font),
        None,
        1,
    );
    assert_eq!(anchor, Some(CaretAnchor { x: 132, top: 232, bottom: 248 }));
    let composing = console_cursor_anchor(
        screen_buffer(3, 102, window),
        client,
        POINT { x: 100, y: 200 },
        Some(font),
        Some(2),
        1,
    );
    assert_eq!(composing, Some(CaretAnchor { x: 140, top: 232, bottom: 248 }));
}

#[test]
fn console_cursor_without_font_divides_the_client_area() {
    let window = SMALL_RECT { Left: 0, Top: 0, Right: 79, Bottom: 24 };
    let client = RECT { left: 0, top: 0, right: 800, bottom: 500 };
    let anchor = console_cursor_anchor(screen_buffer(0, 0, window), client, POINT { x: 0, y: 0 }, None, Some(0), 20);
    assert_eq!(anchor, Some(CaretAnchor { x: 80, top: 0, bottom: 20 }));
}

#[test]
fn console_cursor_outside_the_visible_window_has_no_anchor() {
    let window = SMALL_RECT { Left: 0, Top: 100, Right: 79, Bottom: 124 };
    let client = RECT { left: 0, top: 0, right: 640, bottom: 400 };
    assert_eq!(console_cursor_anchor(screen_buffer(3, 99, window), client, POINT { x: 0, y: 0 }, None, None, 1), None);
    assert_eq!(console_cursor_anchor(screen_buffer(80, 100, window), client, POINT { x: 0, y: 0 }, None, None, 1), None);
}

#[test]
fn composition_columns_stop_at_the_cursor() {
    let text: Vec<u16> = "가나a".encode_utf16().collect();
    assert_eq!(composition_columns(&text, 1), Some(2));
    assert_eq!(composition_columns(&text, 0), Some(5));
    assert_eq!(composition_columns(&text, 99), Some(5));
    assert_eq!(composition_columns(&Vec::new(), 0), None);
    assert_eq!(best_composition_columns(&vec![None, Some(3), Some(5), Some(0)]), Some(5));
    assert_eq!(best_composition_columns(&vec![None, Some(0)]), None);
}

#[test]
fn dpi_scaling_rounds_half_away_from_zero() {
    assert_eq!(scale_between_dpi(10, 96, 144), 15);
    assert_eq!(scale_between_dpi(-10, 96, 144), -15);
    assert_eq!(scale_between_dpi(1, 96, 144), 2);
    assert_eq!(scale_between_dpi(-1, 96, 144), -2);
    assert_eq!(scale_between_dpi(7, 0, 144), 7);
    assert_eq!(scale_between_dpi(7, 120, 120), 7);
    assert_eq!(scale_between_dpi(i32::MAX, 96, 192), i32::MAX);
    assert_eq!(scale_between_dpi(i32::MIN, 96, 192), i32::MIN);
}

#[test]
fn win32_caret_is_scaled_to_its_monitor() {
    let caret = RECT { left: 10, top: 20, right: 12, bottom: 40 };
    let anchor = win32_caret_anchor(caret, POINT { x: 1000, y: 500 }, 96, Some(192));
    assert_eq!(anchor, CaretAnchor { x: 1024, top: 540, bottom: 580 });
    let same = win32_caret_anchor(caret, POINT { x: 1000, y: 500 }, 0, None);
    assert_eq!(same, CaretAnchor { x: 1012, top: 520, bottom: 540 });
    let flat = RECT { left: 10, top: 20, right: 40, bottom: 20 };
    assert_eq!(win32_caret_anchor(flat, POINT { x: 0, y: 0 }, 96, None), CaretAnchor { x: 18, top: 20, bottom: 21 });
}

fn properties() -> ElementProperties {
    ElementProperties {
        is_enabled: None,
        control_type: None,
        has_keyboard_focus: None,
        keyboard_focusable: None,
        legacy_state: None,
        aria_role: None,
        value_pattern_available: None,
        value_is_read_only: None,
        text_edit_pattern_available: None,
    }
}

#[test]
fn element_evidence_follows_roles_before_control_types() {
    let mut code = properties();
    code.aria_role = Some("  Code ".to_string());
    code.control_type = Some(UIA_EDIT_CONTROL_TYPE_ID);
    code.has_keyboard_focus = Some(true);
    assert_eq!(classify_element(&code), NodeEvidence::CodeLikeText);

    let mut search = properties();
    search.aria_role = Some("searchbox".to_string());
    assert_eq!(classify_element(&search), NodeEvidence::EditableField);
    search.keyboard_focusable = Some(false);
    assert_eq!(classify_element(&search), NodeEvidence::ReadOnly);
}

#[test]
fn element_evidence_for_control_types() {
    let mut edit = properties();
    edit.control_type = Some(UIA_EDIT_CONTROL_TYPE_ID);
    assert_eq!(classify_element(&edit), NodeEvidence::Unknown);
    edit.value_pattern_available = Some(true);
    edit.value_is_read_only = Some(false);
    assert_eq!(classify_element(&edit), NodeEvidence::EditableField);
    edit.value_is_read_only = Some(true);
    assert_eq!(classify_element(&edit), NodeEvidence::ReadOnly);

    let mut hidden_value = properties();
    hidden_value.control_type = Some(UIA_EDIT_CONTROL_TYPE_ID);
    hidden_value.value_is_read_only = Some(true);
    hidden_value.keyboard_focusable = Some(false);
    assert_eq!(classify_element(&hidden_value), NodeEvidence::ReadOnly);

    let mut combo = properties();
    combo.control_type = Some(UIA_COMBO_BOX_CONTROL_TYPE_ID);
    combo.keyboard_focusable = Some(true);
    assert_eq!(classify_element(&combo), NodeEvidence::Unknown);
    combo.text_edit_pattern_available = Some(true);
    assert_eq!(classify_element(&combo), NodeEvidence::EditableField);

    let mut document = properties();
    document.control_type = Some(UIA_DOCUMENT_CONTROL_TYPE_ID);
    assert_eq!(classify_element(&document), NodeEvidence::SelectableText);
    document.text_edit_pattern_available = Some(true);
    document.has_keyboard_focus = Some(true);
    assert_eq!(classify_element(&document), NodeEvidence::EditableDocument);

    let mut text = properties();
    text.control_type = Some(UIA_TEXT_CONTROL_TYPE_ID);
    assert_eq!(classify_element(&text), NodeEvidence::SelectableText);

    let mut disabled = properties();
    disabled.is_enabled = Some(false);
    disabled.aria_role = Some("textbox".to_string());
    assert_eq!(classify_element(&disabled), NodeEvidence::ReadOnly);

    let mut legacy = properties();
    legacy.control_type = Some(UIA_EDIT_CONTROL_TYPE_ID);
    legacy.has_keyboard_focus = Some(true);
    legacy.legacy_state = Some(STATE_SYSTEM_READONLY);
    assert_eq!(classify_element(&legacy), NodeEvidence::ReadOnly);
}

#[test]
fn standard_windows_are_classified_by_class_and_style() {
    assert_eq!(standard_window_class("Edit"), StandardClass::Edit);
    assert_eq!(standard_window_class("RichEdit20W"), StandardClass::Edit);
    assert_eq!(standard_window_class("RICHEDIT50W"), StandardClass::Edit);
    assert_eq!(standard_window_class("Scintilla"), StandardClass::Scintilla);
    assert_eq!(standard_window_class("Static"), StandardClass::Static);
    assert_eq!(standard_window_class("Button"), StandardClass::Other);
    assert_eq!(standard_window_class("EditX"), StandardClass::Other);

    assert_eq!(classify_standard_window(false, Some(StandardClass::Edit), 0, None), Some(Editability::ReadOnly));
    assert_eq!(classify_standard_window(true, Some(StandardClass::Edit), 0x0800, None), Some(Editability::ReadOnly));
    assert_eq!(classify_standard_window(true, Some(StandardClass::Edit), 0x50010000, None), Some(Editability::Editable));
    assert_eq!(classify_standard_window(true, Some(StandardClass::Scintilla), 0, Some(false)), Some(Editability::Editable));
    assert_eq!(classify_standard_window(true, Some(StandardClass::Scintilla), 0, None), None);
    assert_eq!(classify_standard_window(true, Some(StandardClass::Static), 0, None), Some(Editability::ReadOnly));
    assert_eq!(classify_standard_window(true, None, 0, None), None);
}

#[test]
fn office_and_browser_classes_are_recognized() {
    assert!(is_chromium_widget_class("chrome_widgetwin_0"));
    assert!(!is_chromium_widget_class("MozillaWindowClass"));
    assert!(is_office_uia_preferred_caret_class("PPTFrameClass"));
    assert!(is_excel_host_class("XLMAIN"));
    assert!(is_excel_editor_class("EXCEL6"));
    assert!(is_excel_editor_class("excel<"));
    assert!(is_excel_editor_class("EDTBX"));
    assert!(is_excel_dialog_class("bosa_sdm_XL9"));
    assert!(!is_excel_dialog_class("bosa"));
}

#[test]
fn anchors_belong_to_windows_within_a_tolerance() {
    let window = RECT { left: 100, top: 100, right: 300, bottom: 200 };
    assert!(anchor_in_window_rect(CaretAnchor { x: 84, top: 150, bottom: 170 }, window));
    assert!(!anchor_in_window_rect(CaretAnchor { x: 83, top: 150, bottom: 170 }, window));
    assert!(anchor_in_window_rect(CaretAnchor { x: 150, top: 216, bottom: 230 }, window));
    assert!(!anchor_in_window_rect(CaretAnchor { x: 150, top: 217, bottom: 230 }, window));
    assert!(!anchor_in_window_rect(CaretAnchor { x: 150, top: 40, bottom: 83 }, window));
}

#[test]
fn editor_bounds_give_an_inset_caret() {
    assert_eq!(
        editor_bounds_anchor(RECT { left: 10, top: 20, right: 200, bottom: 44 }),
        Some(CaretAnchor { x: 14, top: 24, bottom: 40 })
    );
    assert_eq!(
        editor_bounds_anchor(RECT { left: 10, top: 20, right: 200, bottom: 26 }),
        Some(CaretAnchor { x: 14, top: 22, bottom: 24 })
    );
    assert_eq!(
        editor_bounds_anchor(RECT { left: 10, top: 0, right: 200, bottom: 120 }),
        Some(CaretAnchor { x: 14, top: 6, bottom: 114 })
    );
    assert_eq!(editor_bounds_anchor(RECT { left: 10, top: 20, right: 10, bottom: 44 }), None);
}

#[test]
fn browser_address_boxes_need_exact_geometry() {
    assert!(element_requires_exact_caret_geometry("OmniboxViewViews", ""));
    assert!(element_requires_exact_caret_geometry("", "Address and search bar"));
    assert!(element_requires_exact_caret_geometry("", "주소 및 검색창"));
    assert!(element_requires_exact_caret_geometry("MozAddressBar", ""));
    assert!(!element_requires_exact_caret_geometry("Chrome_RenderWidgetHostHWND", "Search"));
}
