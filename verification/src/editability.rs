use vstd::prelude::*;

use crate::arith::{sat, sat_add, sat_mul};
use crate::text::{
    decode_utf16_lossy, decode_utf16_lossy_chars, encode_utf16, eq_ignore_case,
    lemma_decode_encode_utf16, has_any_token, has_token, is_word,
    starts_with_ignore_case, str_eq_ignore_case, str_starts_with_ignore_case,
};
use crate::win::{GUID, POINT, RECT};

verus! {

/// What the focused element reveals about accepting text.
#[derive(Clone, Copy, Debug, PartialEq, Eq, Structural)]
pub enum Editability {
    Editable,
    ReadOnly,
    Unknown,
}

impl Editability {
    /// Returns true only when the focused element exposes positive evidence
    /// that it accepts text input. Ambiguous selectable text stays excluded.
    pub fn accepts_text_input(self) -> (r: bool)
        ensures
            r == (self == Editability::Editable),
    {
        match self {
            Editability::Editable => true,
            _ => false,
        }
    }
}

/// Screen-space geometry for the active insertion caret. `x` is the edge
/// immediately to the right of the caret; `top` and `bottom` preserve the
/// caret height so the IME indicator can align to its lower edge.
#[derive(Clone, Copy, Debug, PartialEq, Eq, Structural)]
pub struct CaretAnchor {
    pub x: i32,
    pub top: i32,
    pub bottom: i32,
}

} // verus!

verus! {

pub const MAX_UIA_PARENT_DEPTH: usize = 12;

pub const MAX_UIA_CARET_PARENT_DEPTH: usize = 12;

pub const MAX_UIA_CARET_DESCENDANT_DEPTH: usize = 4;

pub const MAX_UIA_CARET_DESCENDANT_NODES: usize = 64;

pub const STATE_SYSTEM_UNAVAILABLE: i32 = 0x0000_0001;

pub const STATE_SYSTEM_READONLY: i32 = 0x0000_0040;

pub const UIA_COMBO_BOX_CONTROL_TYPE_ID: i32 = 50003;

pub const UIA_EDIT_CONTROL_TYPE_ID: i32 = 50004;

pub const UIA_TEXT_CONTROL_TYPE_ID: i32 = 50020;

pub const UIA_DOCUMENT_CONTROL_TYPE_ID: i32 = 50030;

pub const UIA_TEXT_PATTERN_ID: i32 = 10014;

pub const UIA_TEXT_PATTERN2_ID: i32 = 10024;

pub const UIA_TEXT_EDIT_PATTERN_ID: i32 = 10032;

pub const OBJID_CARET: u32 = 0xffff_fff8;

pub const MAX_ACCESSIBLE_CARET_WIDTH: i32 = 8;

pub const MAX_ACCESSIBLE_CARET_HEIGHT: i32 = 256;

/// The text-pattern interface identifier of UI Automation.
pub fn iid_iuiautomation_text_pattern() -> (g: GUID)
    ensures
        g == (GUID {
            Data1: 0x32eba289,
            Data2: 0x3583,
            Data3: 0x42c9,
            Data4: [0x9c, 0x59, 0x3b, 0x6d, 0x9a, 0x1e, 0x9b, 0x6a],
        }),
{
    GUID {
        Data1: 0x32eba289,
        Data2: 0x3583,
        Data3: 0x42c9,
        Data4: [0x9c, 0x59, 0x3b, 0x6d, 0x9a, 0x1e, 0x9b, 0x6a],
    }
}

/// The second text-pattern interface identifier of UI Automation.
pub fn iid_iuiautomation_text_pattern2() -> (g: GUID)
    ensures
        g == (GUID {
            Data1: 0x506a921a,
            Data2: 0xfcc9,
            Data3: 0x409f,
            Data4: [0xb2, 0x3b, 0x37, 0xeb, 0x74, 0x10, 0x68, 0x72],
        }),
{
    GUID {
        Data1: 0x506a921a,
        Data2: 0xfcc9,
        Data3: 0x409f,
        Data4: [0xb2, 0x3b, 0x37, 0xeb, 0x74, 0x10, 0x68, 0x72],
    }
}

/// The text-edit-pattern interface identifier of UI Automation.
pub fn iid_iuiautomation_text_edit_pattern() -> (g: GUID)
    ensures
        g == (GUID {
            Data1: 0x17e21576,
            Data2: 0x996c,
            Data3: 0x4870,
            Data4: [0x99, 0xd9, 0xbf, 0xf3, 0x23, 0x38, 0x0c, 0x06],
        }),
{
    GUID {
        Data1: 0x17e21576,
        Data2: 0x996c,
        Data3: 0x4870,
        Data4: [0x99, 0xd9, 0xbf, 0xf3, 0x23, 0x38, 0x0c, 0x06],
    }
}

/// The `IAccessible` interface identifier.
pub fn iid_iaccessible() -> (g: GUID)
    ensures
        g == (GUID {
            Data1: 0x618736e0,
            Data2: 0x3c3d,
            Data3: 0x11cf,
            Data4: [0x81, 0x0c, 0x00, 0xaa, 0x00, 0x38, 0x9b, 0x71],
        }),
{
    GUID {
        Data1: 0x618736e0,
        Data2: 0x3c3d,
        Data3: 0x11cf,
        Data4: [0x81, 0x0c, 0x00, 0xaa, 0x00, 0x38, 0x9b, 0x71],
    }
}

/// What one node of the UI Automation tree shows of accepting text.
#[derive(Clone, Copy, Debug, PartialEq, Eq, Structural)]
pub enum NodeEvidence {
    EditableField,
    EditableDocument,
    ReadOnly,
    SelectableText,
    CodeLikeText,
    Unknown,
}

/// Whether a node's evidence lets the caret probe run: console windows
/// always, editable fields always, editable documents only when exact caret
/// geometry is not required.
pub open spec fn accepts_caret_probe_spec(evidence: NodeEvidence, console_like: bool, exact_geometry_only: bool) -> bool {
    console_like || evidence == NodeEvidence::EditableField || (!exact_geometry_only && evidence
        == NodeEvidence::EditableDocument)
}

/// Whether a node's evidence lets the caret probe run.
pub fn evidence_accepts_caret_probe(
    evidence: NodeEvidence,
    console_like: bool,
    exact_geometry_only: bool,
) -> (r: bool)
    ensures
        r == accepts_caret_probe_spec(evidence, console_like, exact_geometry_only),
{
    console_like || match evidence {
        NodeEvidence::EditableField => true,
        NodeEvidence::EditableDocument => !exact_geometry_only,
        _ => false,
    }
}

/// A text-entry role is accepted unless the element says that it can neither
/// hold nor take the keyboard focus.
pub fn text_entry_role_accepts_focus(
    has_keyboard_focus: Option<bool>,
    keyboard_focusable: Option<bool>,
) -> (r: bool)
    ensures
        r == (has_keyboard_focus == Some(true) || keyboard_focusable != Some(false)),
{
    has_keyboard_focus == Some(true) || keyboard_focusable != Some(false)
}

/// The caret anchor for an accessible caret location: only a caret at most 8
/// pixels wide and 1 to 256 pixels tall is believed; its right edge is at
/// least one pixel from its left edge.
pub open spec fn accessible_caret_spec(left: i32, top: i32, width: i32, height: i32) -> Option<CaretAnchor> {
    if !(0 <= width <= MAX_ACCESSIBLE_CARET_WIDTH) || !(1 <= height
        <= MAX_ACCESSIBLE_CARET_HEIGHT) {
        None
    } else {
        Some(
            CaretAnchor {
                x: sat(left + if width < 1 {
                    1
                } else {
                    width as int
                }),
                top,
                bottom: if sat(top + height) < sat(top + 1) {
                    sat(top + 1)
                } else {
                    sat(top + height)
                },
            },
        )
    }
}

/// The caret anchor for an accessible caret location.
pub fn accessible_caret_rect_anchor(left: i32, top: i32, width: i32, height: i32) -> (r: Option<
    CaretAnchor,
>)
    ensures
        r == accessible_caret_spec(left, top, width, height),
{
    if !(0 <= width && width <= MAX_ACCESSIBLE_CARET_WIDTH) || !(1 <= height && height
        <= MAX_ACCESSIBLE_CARET_HEIGHT) {
        return None;
    }
    let w = if width < 1 {
        1
    } else {
        width
    };
    let b = sat_add(top, height);
    let b1 = sat_add(top, 1);
    Some(
        CaretAnchor {
            x: sat_add(left, w),
            top,
            bottom: if b < b1 {
                b1
            } else {
                b
            },
        },
    )
}

/// The cells of the cursor that the caret stands after: the visual span,
/// clamped to 1 through 8.
pub open spec fn clamped_cell_span(visual_cell_span: i32) -> int {
    if visual_cell_span < 1 {
        1
    } else if visual_cell_span > 8 {
        8
    } else {
        visual_cell_span as int
    }
}

/// The caret anchor at a console cell: `column` and `row` count cells from
/// the console window's client origin; the anchor stands after
/// `visual_cell_span` cells (1 to 8) of the cursor's column.
pub open spec fn console_cell_spec(
    origin: POINT,
    column: i32,
    row: i32,
    cell_width: i32,
    cell_height: i32,
    visual_cell_span: i32,
) -> CaretAnchor {
    let span = clamped_cell_span(visual_cell_span);
    let top = sat(origin.y + sat(row * cell_height));
    CaretAnchor {
        x: sat(origin.x + sat((column + span) * cell_width)),
        top,
        bottom: sat(top + cell_height),
    }
}

/// The caret anchor at a console cell.
pub fn console_cell_anchor(
    origin: POINT,
    column: i32,
    row: i32,
    cell_width: i32,
    cell_height: i32,
    visual_cell_span: i32,
) -> (anchor: CaretAnchor)
    requires
        column + clamped_cell_span(visual_cell_span) <= i32::MAX,
    ensures
        anchor == console_cell_spec(origin, column, row, cell_width, cell_height, visual_cell_span),
{
    let span = if visual_cell_span < 1 {
        1
    } else if visual_cell_span > 8 {
        8
    } else {
        visual_cell_span
    };
    let top = sat_add(origin.y, sat_mul(row, cell_height));
    CaretAnchor {
        x: sat_add(origin.x, sat_mul(column + span, cell_width)),
        top,
        bottom: sat_add(top, cell_height),
    }
}

/// The console columns a character takes: two for wide East Asian
/// characters (Hangul, CJK, full-width forms, emoji blocks), else one.
pub open spec fn console_columns_spec(c: char) -> i32 {
    let v = c as u32;
    if (0x1100 <= v <= 0x11ff) || (0x2e80 <= v <= 0xa4cf) || (0xac00 <= v <= 0xd7af) || (0xf900
        <= v <= 0xfaff) || (0xfe10 <= v <= 0xfe6f) || (0xff01 <= v <= 0xff60) || (0xffe0 <= v
        <= 0xffe6) || (0x1f300 <= v <= 0x1faff) {
        2
    } else {
        1
    }
}

/// The console columns a character takes.
pub fn console_character_columns(character: char) -> (r: i32)
    ensures
        r == console_columns_spec(character),
{
    let value = character as u32;
    if (0x1100 <= value && value <= 0x11ff) || (0x2e80 <= value && value <= 0xa4cf) || (0xac00
        <= value && value <= 0xd7af) || (0xf900 <= value && value <= 0xfaff) || (0xfe10 <= value
        && value <= 0xfe6f) || (0xff01 <= value && value <= 0xff60) || (0xffe0 <= value && value
        <= 0xffe6) || (0x1f300 <= value && value <= 0x1faff) {
        2
    } else {
        1
    }
}

/// The console columns of a character sequence.
pub open spec fn columns_of(s: Seq<char>) -> int
    decreases s.len(),
{
    if s.len() == 0 {
        0
    } else {
        columns_of(s.drop_last()) + console_columns_spec(s.last())
    }
}

/// The console columns that UTF-16 `text` takes, unpaired surrogates counted
/// as U+FFFD.
pub open spec fn utf16_columns_spec(text: Seq<u16>) -> int {
    columns_of(decode_utf16_lossy(text))
}

proof fn lemma_columns_bounds(s: Seq<char>)
    ensures
        s.len() <= columns_of(s) <= 2 * s.len(),
    decreases s.len(),
{
    if s.len() > 0 {
        lemma_columns_bounds(s.drop_last());
    }
}

proof fn lemma_columns_concat(a: Seq<char>, b: Seq<char>)
    ensures
        columns_of(a + b) == columns_of(a) + columns_of(b),
    decreases b.len(),
{
    if b.len() == 0 {
        assert(a + b =~= a);
    } else {
        assert((a + b).drop_last() =~= a + b.drop_last());
        assert((a + b).last() == b.last());
        lemma_columns_concat(a, b.drop_last());
    }
}

/// The console columns of UTF-16 text add up over joined texts, and a text
/// takes at least one and at most two columns per character.
pub proof fn lemma_utf16_columns_add_up(s: Seq<char>, t: Seq<char>)
    ensures
        utf16_columns_spec(encode_utf16(s + t)) == utf16_columns_spec(encode_utf16(s))
            + utf16_columns_spec(encode_utf16(t)),
        s.len() <= utf16_columns_spec(encode_utf16(s)) <= 2 * s.len(),
{
    lemma_decode_encode_utf16(s);
    lemma_decode_encode_utf16(t);
    lemma_decode_encode_utf16(s + t);
    lemma_columns_concat(s, t);
    lemma_columns_bounds(s);
}

/// The console columns that UTF-16 `text` takes.
pub fn utf16_console_columns(text: &[u16]) -> (r: i32)
    requires
        utf16_columns_spec(text@) <= i32::MAX,
    ensures
        r == utf16_columns_spec(text@),
{
    let chars = decode_utf16_lossy_chars(text);
    let mut total: i32 = 0;
    let mut i: usize = 0;
    while i < chars.len()
        invariant
            i <= chars@.len(),
            total == columns_of(chars@.take(i as int)),
            columns_of(chars@) <= i32::MAX,
        decreases chars@.len() - i,
    {
        assert(chars@.take(i + 1).drop_last() =~= chars@.take(i as int));
        proof {
            lemma_columns_prefix(chars@, i as int + 1);
        }
        total = total + console_character_columns(chars[i]);
        i = i + 1;
    }
    assert(chars@.take(chars@.len() as int) =~= chars@);
    total
}

proof fn lemma_columns_prefix(s: Seq<char>, k: int)
    requires
        0 <= k <= s.len(),
    ensures
        columns_of(s.take(k)) <= columns_of(s),
    decreases s.len() - k,
{
    if k < s.len() {
        lemma_columns_prefix(s, k + 1);
        assert(s.take(k + 1).drop_last() =~= s.take(k));
    } else {
        assert(s.take(k) =~= s);
    }
}

/// The console columns of an IME composition string up to the composition
/// cursor; a cursor at zero (some Korean IMEs while composing) counts the
/// whole string. Nothing when the string is empty.
pub open spec fn composition_columns_spec(text: Seq<u16>, cursor_position: i32) -> Option<int> {
    if text.len() == 0 {
        None
    } else {
        let units = if cursor_position > 0 {
            if cursor_position < text.len() {
                cursor_position as int
            } else {
                text.len() as int
            }
        } else {
            text.len() as int
        };
        Some(utf16_columns_spec(text.take(units)))
    }
}

/// The console columns of an IME composition string up to its cursor.
pub fn composition_columns(text: &Vec<u16>, cursor_position: i32) -> (r: Option<i32>)
    requires
        text@.len() <= 0x3fff_ffff,
    ensures
        r matches Some(c) ==> composition_columns_spec(text@, cursor_position) == Some(c as int),
        r is None ==> composition_columns_spec(text@, cursor_position) is None,
{
    if text.len() == 0 {
        return None;
    }
    let units = if cursor_position > 0 {
        if (cursor_position as usize) < text.len() {
            cursor_position as usize
        } else {
            text.len()
        }
    } else {
        text.len()
    };
    let mut prefix: Vec<u16> = Vec::new();
    let mut i: usize = 0;
    while i < units
        invariant
            units <= text@.len(),
            i <= units,
            prefix@ == text@.take(i as int),
        decreases units - i,
    {
        prefix.push(text[i]);
        assert(text@.take(i + 1) =~= text@.take(i as int).push(text@[i as int]));
        i = i + 1;
    }
    proof {
        lemma_columns_bounds(decode_utf16_lossy(prefix@));
        crate::text::lemma_decode_utf16_len(prefix@);
    }
    Some(utf16_console_columns(prefix.as_slice()))
}

/// The widest composition among the IME windows asked: `Some` only when it
/// takes at least one column.
pub fn best_composition_columns(columns: &Vec<Option<i32>>) -> (r: Option<i32>)
    ensures
        r matches Some(b) ==> b > 0 && (exists|i: int|
            0 <= i < columns@.len() && columns@[i] == Some(b)) && (forall|i: int|
            0 <= i < columns@.len() && columns@[i] is Some ==> columns@[i]->0 <= b),
        r is None ==> forall|i: int|
            0 <= i < columns@.len() && columns@[i] is Some ==> columns@[i]->0 <= 0,
{
    let mut best: i32 = 0;
    let mut i: usize = 0;
    while i < columns.len()
        invariant
            i <= columns@.len(),
            best >= 0,
            best > 0 ==> exists|j: int| 0 <= j < i && columns@[j] == Some(best),
            forall|j: int| 0 <= j < i && columns@[j] is Some ==> columns@[j]->0 <= best,
        decreases columns@.len() - i,
    {
        match columns[i] {
            Some(c) => {
                if c > best {
                    best = c;
                }
            },
            None => {},
        }
        i = i + 1;
    }
    if best > 0 {
        Some(best)
    } else {
        None
    }
}

} // verus!

verus! {

/// The UI Automation class identifier.
pub fn clsid_cuiautomation() -> (g: GUID)
    ensures
        g == (GUID {
            Data1: 0xff48dba4,
            Data2: 0x60ef,
            Data3: 0x4201,
            Data4: [0xaa, 0x87, 0x54, 0x10, 0x3e, 0xef, 0x59, 0x4e],
        }),
{
    GUID {
        Data1: 0xff48dba4,
        Data2: 0x60ef,
        Data3: 0x4201,
        Data4: [0xaa, 0x87, 0x54, 0x10, 0x3e, 0xef, 0x59, 0x4e],
    }
}

/// The UI Automation interface identifier.
pub fn iid_iuiautomation() -> (g: GUID)
    ensures
        g == (GUID {
            Data1: 0x30cbe57d,
            Data2: 0xd9d0,
            Data3: 0x452a,
            Data4: [0xab, 0x13, 0x7a, 0xc5, 0xac, 0x48, 0x25, 0xee],
        }),
{
    GUID {
        Data1: 0x30cbe57d,
        Data2: 0xd9d0,
        Data3: 0x452a,
        Data4: [0xab, 0x13, 0x7a, 0xc5, 0xac, 0x48, 0x25, 0xee],
    }
}

pub open spec fn class_consolewindowclass() -> Seq<char> {
    seq!['c', 'o', 'n', 's', 'o', 'l', 'e', 'w', 'i', 'n', 'd', 'o', 'w', 'c', 'l', 'a', 's', 's']
}

pub open spec fn class_cascadia_hosting_window_class() -> Seq<char> {
    seq!['c', 'a', 's', 'c', 'a', 'd', 'i', 'a', '_', 'h', 'o', 's', 't', 'i', 'n', 'g', '_', 'w', 'i', 'n', 'd', 'o', 'w', '_', 'c', 'l', 'a', 's', 's']
}

pub open spec fn class_virtualconsoleclass() -> Seq<char> {
    seq!['v', 'i', 'r', 't', 'u', 'a', 'l', 'c', 'o', 'n', 's', 'o', 'l', 'e', 'c', 'l', 'a', 's', 's']
}

pub open spec fn class_chrome_widgetwin() -> Seq<char> {
    seq!['c', 'h', 'r', 'o', 'm', 'e', '_', 'w', 'i', 'd', 'g', 'e', 't', 'w', 'i', 'n', '_']
}

pub open spec fn class_mozillawindowclass() -> Seq<char> {
    seq!['m', 'o', 'z', 'i', 'l', 'l', 'a', 'w', 'i', 'n', 'd', 'o', 'w', 'c', 'l', 'a', 's', 's']
}

pub open spec fn class_pptframeclass() -> Seq<char> {
    seq!['p', 'p', 't', 'f', 'r', 'a', 'm', 'e', 'c', 'l', 'a', 's', 's']
}

pub open spec fn class_xlmain() -> Seq<char> {
    seq!['x', 'l', 'm', 'a', 'i', 'n']
}

pub open spec fn class_bosa_sdm_xl() -> Seq<char> {
    seq!['b', 'o', 's', 'a', '_', 's', 'd', 'm', '_', 'x', 'l']
}

pub open spec fn class_excel6() -> Seq<char> {
    seq!['e', 'x', 'c', 'e', 'l', '6']
}

pub open spec fn class_excel_lt() -> Seq<char> {
    seq!['e', 'x', 'c', 'e', 'l', '<']
}

pub open spec fn class_edtbx() -> Seq<char> {
    seq!['e', 'd', 't', 'b', 'x']
}

pub open spec fn class__wwg() -> Seq<char> {
    seq!['_', 'w', 'w', 'g']
}

/// Whether a window class, compared without ASCII case, names console windows (the classic console, Windows Terminal and the virtual console).
pub open spec fn is_console_like_class_spec(class_name: Seq<char>) -> bool {
    eq_ignore_case(class_name, class_consolewindowclass()) || eq_ignore_case(class_name, class_cascadia_hosting_window_class()) || eq_ignore_case(class_name, class_virtualconsoleclass())
}

/// Whether a window class, compared without ASCII case, names windows whose caret UI Automation reports best: Chromium and Firefox.
pub open spec fn is_uia_preferred_caret_class_spec(class_name: Seq<char>) -> bool {
    starts_with_ignore_case(class_name, class_chrome_widgetwin()) || eq_ignore_case(class_name, class_mozillawindowclass())
}

/// Whether a window class, compared without ASCII case, names Chromium widget windows.
pub open spec fn is_chromium_widget_class_spec(class_name: Seq<char>) -> bool {
    starts_with_ignore_case(class_name, class_chrome_widgetwin())
}

/// Whether a window class, compared without ASCII case, names the PowerPoint frame.
pub open spec fn is_office_uia_preferred_caret_class_spec(class_name: Seq<char>) -> bool {
    eq_ignore_case(class_name, class_pptframeclass())
}

/// Whether a window class, compared without ASCII case, names Excel's main window and its dialogs.
pub open spec fn is_excel_host_class_spec(class_name: Seq<char>) -> bool {
    eq_ignore_case(class_name, class_xlmain()) || starts_with_ignore_case(class_name, class_bosa_sdm_xl())
}

/// Whether a window class, compared without ASCII case, names Excel's cell and formula editors.
pub open spec fn is_excel_editor_class_spec(class_name: Seq<char>) -> bool {
    eq_ignore_case(class_name, class_excel6()) || eq_ignore_case(class_name, class_excel_lt()) || eq_ignore_case(class_name, class_edtbx())
}

/// Whether a window class, compared without ASCII case, names Excel's dialogs.
pub open spec fn is_excel_dialog_class_spec(class_name: Seq<char>) -> bool {
    starts_with_ignore_case(class_name, class_bosa_sdm_xl())
}

/// Whether a window class, compared without ASCII case, names Word's document window.
pub open spec fn is_office_word_editor_class_spec(class_name: Seq<char>) -> bool {
    eq_ignore_case(class_name, class__wwg())
}

/// Whether a window class, compared without ASCII case, names console windows (the classic console, Windows Terminal and the virtual console).
pub fn is_console_like_class(class_name: &str) -> (r: bool)
    ensures
        r == is_console_like_class_spec(class_name@),
{
    let p0 = ['c', 'o', 'n', 's', 'o', 'l', 'e', 'w', 'i', 'n', 'd', 'o', 'w', 'c', 'l', 'a', 's', 's'];
    assert(p0@ == class_consolewindowclass());
    let p1 = ['c', 'a', 's', 'c', 'a', 'd', 'i', 'a', '_', 'h', 'o', 's', 't', 'i', 'n', 'g', '_', 'w', 'i', 'n', 'd', 'o', 'w', '_', 'c', 'l', 'a', 's', 's'];
    assert(p1@ == class_cascadia_hosting_window_class());
    let p2 = ['v', 'i', 'r', 't', 'u', 'a', 'l', 'c', 'o', 'n', 's', 'o', 'l', 'e', 'c', 'l', 'a', 's', 's'];
    assert(p2@ == class_virtualconsoleclass());
    str_eq_ignore_case(class_name, &p0) || str_eq_ignore_case(class_name, &p1) || str_eq_ignore_case(class_name, &p2)
}

/// Whether a window class, compared without ASCII case, names windows whose caret UI Automation reports best: Chromium and Firefox.
pub fn is_uia_preferred_caret_class(class_name: &str) -> (r: bool)
    ensures
        r == is_uia_preferred_caret_class_spec(class_name@),
{
    let p0 = ['c', 'h', 'r', 'o', 'm', 'e', '_', 'w', 'i', 'd', 'g', 'e', 't', 'w', 'i', 'n', '_'];
    assert(p0@ == class_chrome_widgetwin());
    let p1 = ['m', 'o', 'z', 'i', 'l', 'l', 'a', 'w', 'i', 'n', 'd', 'o', 'w', 'c', 'l', 'a', 's', 's'];
    assert(p1@ == class_mozillawindowclass());
    str_starts_with_ignore_case(class_name, &p0) || str_eq_ignore_case(class_name, &p1)
}

/// Whether a window class, compared without ASCII case, names Chromium widget windows.
pub fn is_chromium_widget_class(class_name: &str) -> (r: bool)
    ensures
        r == is_chromium_widget_class_spec(class_name@),
{
    let p0 = ['c', 'h', 'r', 'o', 'm', 'e', '_', 'w', 'i', 'd', 'g', 'e', 't', 'w', 'i', 'n', '_'];
    assert(p0@ == class_chrome_widgetwin());
    str_starts_with_ignore_case(class_name, &p0)
}

/// Whether a window class, compared without ASCII case, names the PowerPoint frame.
pub fn is_office_uia_preferred_caret_class(class_name: &str) -> (r: bool)
    ensures
        r == is_office_uia_preferred_caret_class_spec(class_name@),
{
    let p0 = ['p', 'p', 't', 'f', 'r', 'a', 'm', 'e', 'c', 'l', 'a', 's', 's'];
    assert(p0@ == class_pptframeclass());
    str_eq_ignore_case(class_name, &p0)
}

/// Whether a window class, compared without ASCII case, names Excel's main window and its dialogs.
pub fn is_excel_host_class(class_name: &str) -> (r: bool)
    ensures
        r == is_excel_host_class_spec(class_name@),
{
    let p0 = ['x', 'l', 'm', 'a', 'i', 'n'];
    assert(p0@ == class_xlmain());
    let p1 = ['b', 'o', 's', 'a', '_', 's', 'd', 'm', '_', 'x', 'l'];
    assert(p1@ == class_bosa_sdm_xl());
    str_eq_ignore_case(class_name, &p0) || str_starts_with_ignore_case(class_name, &p1)
}

/// Whether a window class, compared without ASCII case, names Excel's cell and formula editors.
pub fn is_excel_editor_class(class_name: &str) -> (r: bool)
    ensures
        r == is_excel_editor_class_spec(class_name@),
{
    let p0 = ['e', 'x', 'c', 'e', 'l', '6'];
    assert(p0@ == class_excel6());
    let p1 = ['e', 'x', 'c', 'e', 'l', '<'];
    assert(p1@ == class_excel_lt());
    let p2 = ['e', 'd', 't', 'b', 'x'];
    assert(p2@ == class_edtbx());
    str_eq_ignore_case(class_name, &p0) || str_eq_ignore_case(class_name, &p1) || str_eq_ignore_case(class_name, &p2)
}

/// Whether a window class, compared without ASCII case, names Excel's dialogs.
pub fn is_excel_dialog_class(class_name: &str) -> (r: bool)
    ensures
        r == is_excel_dialog_class_spec(class_name@),
{
    let p0 = ['b', 'o', 's', 'a', '_', 's', 'd', 'm', '_', 'x', 'l'];
    assert(p0@ == class_bosa_sdm_xl());
    str_starts_with_ignore_case(class_name, &p0)
}

/// Whether a window class, compared without ASCII case, names Word's document window.
pub fn is_office_word_editor_class(class_name: &str) -> (r: bool)
    ensures
        r == is_office_word_editor_class_spec(class_name@),
{
    let p0 = ['_', 'w', 'w', 'g'];
    assert(p0@ == class__wwg());
    str_eq_ignore_case(class_name, &p0)
}

/// Whether an ARIA role (already trimmed and lowercase) has a token that
/// marks display code rather than an input: `code`, `doc-code`, `pre` or
/// `presentation`.
pub open spec fn is_code_like_role_spec(role: Seq<char>) -> bool {
    has_token(role, seq!['c', 'o', 'd', 'e']) || has_token(role, seq!['d', 'o', 'c', '-', 'c', 'o', 'd', 'e']) || has_token(role, seq!['p', 'r', 'e']) || has_token(role, seq!['p', 'r', 'e', 's', 'e', 'n', 't', 'a', 't', 'i', 'o', 'n'])
}

/// Whether an ARIA role has a token that marks a text-entry control:
/// `textbox`, `searchbox`, `spinbutton` or `combobox`.
pub open spec fn is_text_entry_role_spec(role: Seq<char>) -> bool {
    has_token(role, seq!['t', 'e', 'x', 't', 'b', 'o', 'x']) || has_token(role, seq!['s', 'e', 'a', 'r', 'c', 'h', 'b', 'o', 'x']) || has_token(role, seq!['s', 'p', 'i', 'n', 'b', 'u', 't', 't', 'o', 'n']) || has_token(role, seq!['c', 'o', 'm', 'b', 'o', 'b', 'o', 'x'])
}

/// Whether an ARIA role has a token that marks display code rather than an input.
pub fn is_code_like_aria_role(role: &str) -> (r: bool)
    ensures
        r == is_code_like_role_spec(role@),
{
    let mut words: Vec<Vec<char>> = Vec::new();
    words.push(vec!['c', 'o', 'd', 'e']);
    words.push(vec!['d', 'o', 'c', '-', 'c', 'o', 'd', 'e']);
    words.push(vec!['p', 'r', 'e']);
    words.push(vec!['p', 'r', 'e', 's', 'e', 'n', 't', 'a', 't', 'i', 'o', 'n']);
    let ghost expected = seq![seq!['c', 'o', 'd', 'e'], seq!['d', 'o', 'c', '-', 'c', 'o', 'd', 'e'], seq!['p', 'r', 'e'], seq!['p', 'r', 'e', 's', 'e', 'n', 't', 'a', 't', 'i', 'o', 'n']];
    assert forall|k: int| 0 <= k < words@.len() implies #[trigger] words@[k]@ == expected[k] by {
    }
    assert forall|k: int| 0 <= k < words@.len() implies is_word(#[trigger] words@[k]@) by {
        assert(words@[k]@ == expected[k]);
    }
    let r = has_any_token(role, &words);
    proof {
        assert(words@[0]@ == expected[0]);
        assert(words@[1]@ == expected[1]);
        assert(words@[2]@ == expected[2]);
        assert(words@[3]@ == expected[3]);
        if r {
            let k = choose|k: int| 0 <= k < words@.len() && has_token(role@, #[trigger] words@[k]@);
            assert(words@[k]@ == expected[k]);
            assert(k == 0 || k == 1 || k == 2 || k == 3);
        } else {
            assert(!has_token(role@, words@[0]@));
            assert(!has_token(role@, words@[1]@));
            assert(!has_token(role@, words@[2]@));
            assert(!has_token(role@, words@[3]@));
        }
    }
    r
}

/// Whether an ARIA role has a token that marks a text-entry control.
pub fn is_text_entry_aria_role(role: &str) -> (r: bool)
    ensures
        r == is_text_entry_role_spec(role@),
{
    let mut words: Vec<Vec<char>> = Vec::new();
    words.push(vec!['t', 'e', 'x', 't', 'b', 'o', 'x']);
    words.push(vec!['s', 'e', 'a', 'r', 'c', 'h', 'b', 'o', 'x']);
    words.push(vec!['s', 'p', 'i', 'n', 'b', 'u', 't', 't', 'o', 'n']);
    words.push(vec!['c', 'o', 'm', 'b', 'o', 'b', 'o', 'x']);
    let ghost expected = seq![seq!['t', 'e', 'x', 't', 'b', 'o', 'x'], seq!['s', 'e', 'a', 'r', 'c', 'h', 'b', 'o', 'x'], seq!['s', 'p', 'i', 'n', 'b', 'u', 't', 't', 'o', 'n'], seq!['c', 'o', 'm', 'b', 'o', 'b', 'o', 'x']];
    assert forall|k: int| 0 <= k < words@.len() implies #[trigger] words@[k]@ == expected[k] by {
    }
    assert forall|k: int| 0 <= k < words@.len() implies is_word(#[trigger] words@[k]@) by {
        assert(words@[k]@ == expected[k]);
    }
    let r = has_any_token(role, &words);
    proof {
        assert(words@[0]@ == expected[0]);
        assert(words@[1]@ == expected[1]);
        assert(words@[2]@ == expected[2]);
        assert(words@[3]@ == expected[3]);
        if r {
            let k = choose|k: int| 0 <= k < words@.len() && has_token(role@, #[trigger] words@[k]@);
            assert(words@[k]@ == expected[k]);
            assert(k == 0 || k == 1 || k == 2 || k == 3);
        } else {
            assert(!has_token(role@, words@[0]@));
            assert(!has_token(role@, words@[1]@));
            assert(!has_token(role@, words@[2]@));
            assert(!has_token(role@, words@[3]@));
        }
    }
    r
}

} // verus!

verus! {

/// `value`, measured at `from_dpi`, measured at `to_dpi` instead: rounded to
/// nearest with halves away from zero, and kept within `i32`. Unchanged when
/// the two agree or the source DPI is unknown (0).
pub open spec fn scale_between_dpi_spec(value: i32, from_dpi: u32, to_dpi: u32) -> i32 {
    if from_dpi == 0 || from_dpi == to_dpi {
        value
    } else {
        let numerator = value * to_dpi;
        let half = from_dpi / 2;
        let rounded = if numerator >= 0 {
            numerator + half
        } else {
            numerator - half
        };
        sat(crate::arith::div_trunc(rounded, from_dpi as int))
    }
}

/// Converts a coordinate between two DPI scales.
pub fn scale_between_dpi(value: i32, from_dpi: u32, to_dpi: u32) -> (r: i32)
    ensures
        r == scale_between_dpi_spec(value, from_dpi, to_dpi),
{
    if from_dpi == 0 || from_dpi == to_dpi {
        return value;
    }
    let v = value as i64;
    let t = to_dpi as i64;
    assert(-0x8000_0000 * 0xffff_ffff <= v * t <= 0x7fff_ffff * 0xffff_ffff) by (nonlinear_arith)
        requires
            -0x8000_0000 <= v <= 0x7fff_ffff,
            0 <= t <= 0xffff_ffff,
    ;
    let numerator: i64 = v * t;
    let half: i64 = from_dpi as i64 / 2;
    let rounded: i64 = if numerator >= 0 {
        numerator + half
    } else {
        numerator - half
    };
    let quotient: i64 = rounded / from_dpi as i64;
    if quotient < i32::MIN as i64 {
        i32::MIN
    } else if quotient > i32::MAX as i64 {
        i32::MAX
    } else {
        quotient as i32
    }
}

/// `value` kept within `1..=8`.
pub open spec fn caret_width_spec(value: i32) -> i32 {
    if value < 1 {
        1
    } else if value > 8 {
        8
    } else {
        value
    }
}

/// The screen anchor of a Win32 system caret. `caret_rect` is in the caret
/// window's client coordinates at its own (logical) DPI, `reported_dpi`, 0
/// meaning 96; `client_origin` is the client origin on the screen and
/// `monitor_dpi` the DPI of the caret's monitor, the logical one when it is
/// unknown. The caret is 1 to 8 pixels wide and at least one pixel tall; the
/// anchor stands at its right edge.
pub open spec fn win32_caret_anchor_spec(
    caret_rect: RECT,
    client_origin: POINT,
    reported_dpi: u32,
    monitor_dpi: Option<u32>,
) -> CaretAnchor {
    let caret_width = caret_width_spec(sat(caret_rect.right - caret_rect.left));
    let logical_dpi: u32 = if reported_dpi == 0 {
        96
    } else {
        reported_dpi
    };
    let physical_dpi = match monitor_dpi {
        Some(d) => d,
        None => logical_dpi,
    };
    let right = sat(caret_rect.left + caret_width);
    let raised = sat(caret_rect.top + 1);
    let bottom = if caret_rect.bottom >= raised {
        caret_rect.bottom
    } else {
        raised
    };
    let x = sat(client_origin.x + scale_between_dpi_spec(right, logical_dpi, physical_dpi));
    let top = sat(client_origin.y + scale_between_dpi_spec(caret_rect.top, logical_dpi, physical_dpi));
    let bottom_y = sat(client_origin.y + scale_between_dpi_spec(bottom, logical_dpi, physical_dpi));
    let lowest = sat(top + 1);
    CaretAnchor {
        x,
        top,
        bottom: if bottom_y >= lowest {
            bottom_y
        } else {
            lowest
        },
    }
}

/// The screen anchor of a Win32 system caret, converted explicitly from the
/// caret window's DPI to its monitor's.
pub fn win32_caret_anchor(
    caret_rect: RECT,
    client_origin: POINT,
    reported_dpi: u32,
    monitor_dpi: Option<u32>,
) -> (anchor: CaretAnchor)
    ensures
        anchor == win32_caret_anchor_spec(caret_rect, client_origin, reported_dpi, monitor_dpi),
        anchor.top <= anchor.bottom,
        anchor.top < i32::MAX ==> anchor.top < anchor.bottom,
{
    let raw_width = crate::arith::sat_sub(caret_rect.right, caret_rect.left);
    let caret_width = if raw_width < 1 {
        1
    } else if raw_width > 8 {
        8
    } else {
        raw_width
    };
    let logical_dpi: u32 = if reported_dpi == 0 {
        96
    } else {
        reported_dpi
    };
    let physical_dpi = match monitor_dpi {
        Some(d) => d,
        None => logical_dpi,
    };
    let right = sat_add(caret_rect.left, caret_width);
    let raised = sat_add(caret_rect.top, 1);
    let bottom = if caret_rect.bottom >= raised {
        caret_rect.bottom
    } else {
        raised
    };
    let x = sat_add(client_origin.x, scale_between_dpi(right, logical_dpi, physical_dpi));
    let top = sat_add(client_origin.y, scale_between_dpi(caret_rect.top, logical_dpi, physical_dpi));
    let bottom_y = sat_add(client_origin.y, scale_between_dpi(bottom, logical_dpi, physical_dpi));
    let lowest = sat_add(top, 1);
    CaretAnchor {
        x,
        top,
        bottom: if bottom_y >= lowest {
            bottom_y
        } else {
            lowest
        },
    }
}

/// `n / d` rounded to the nearest integer, halves away from zero (`d > 0`).
pub open spec fn round_half_away_from_zero(n: int, d: int) -> int {
    if n >= 0 {
        (2 * n + d) / (2 * d)
    } else {
        -((-2 * n + d) / (2 * d))
    }
}

proof fn lemma_half_up_division(n: int, d: int)
    requires
        n >= 0,
        d > 0,
    ensures
        (n + d / 2) / d == (2 * n + d) / (2 * d),
{
    let h = d / 2;
    let e = d % 2;
    vstd::arithmetic::div_mod::lemma_fundamental_div_mod(d, 2);
    let q = (n + h) / d;
    let r = (n + h) % d;
    vstd::arithmetic::div_mod::lemma_fundamental_div_mod(n + h, d);
    vstd::arithmetic::div_mod::lemma_mod_bound(n + h, d);
    assert(2 * n + d == q * (2 * d) + (2 * r + e)) by (nonlinear_arith)
        requires
            n + h == d * q + r,
            d == 2 * h + e,
    ;
    assert(0 <= 2 * r + e < 2 * d);
    vstd::arithmetic::div_mod::lemma_fundamental_div_mod_converse(2 * n + d, 2 * d, q, 2 * r + e);
}

/// Converting a coordinate between DPIs rounds `value * to_dpi / from_dpi`
/// to the nearest integer with halves away from zero, kept within `i32`; it
/// changes nothing when the DPIs agree or the source DPI is unknown (0). The
/// conversion is odd: converting `-value` gives the negated result, except
/// where one of the two results is cut off at the ends of `i32`.
pub proof fn lemma_scale_rounds_half_away_from_zero(value: i32, from_dpi: u32, to_dpi: u32)
    ensures
        from_dpi == 0 || from_dpi == to_dpi ==> scale_between_dpi_spec(value, from_dpi, to_dpi)
            == value,
        from_dpi != 0 && from_dpi != to_dpi ==> scale_between_dpi_spec(value, from_dpi, to_dpi)
            == sat(round_half_away_from_zero(value * to_dpi, from_dpi as int)),
        value != i32::MIN && (from_dpi != 0 && from_dpi != to_dpi ==> -i32::MAX
            <= round_half_away_from_zero(value * to_dpi, from_dpi as int) <= i32::MAX)
            ==> scale_between_dpi_spec((-value) as i32, from_dpi, to_dpi) == -scale_between_dpi_spec(
            value,
            from_dpi,
            to_dpi,
        ),
{
    if from_dpi != 0 && from_dpi != to_dpi {
        let d = from_dpi as int;
        let n = value * to_dpi;
        if n >= 0 {
            lemma_half_up_division(n, d);
        } else {
            lemma_half_up_division(-n, d);
            assert(crate::arith::div_trunc(n - d / 2, d) == -((-n + d / 2) / d));
        }
        if value != i32::MIN {
            let m = ((-value) as i32) * to_dpi;
            assert(m == -n) by (nonlinear_arith)
                requires
                    m == ((-value) as i32) * to_dpi,
                    n == value * to_dpi,
                    (-value) as i32 == -value,
            ;
            if m >= 0 {
                lemma_half_up_division(m, d);
            } else {
                lemma_half_up_division(-m, d);
                assert(crate::arith::div_trunc(m - d / 2, d) == -((-m + d / 2) / d));
            }
            if n == 0 {
                vstd::arithmetic::div_mod::lemma_fundamental_div_mod_converse(d, 2 * d, 0, d);
            }
            assert(round_half_away_from_zero(m, d) == -round_half_away_from_zero(n, d));
        }
    } else if value != i32::MIN {
        assert((-value) as i32 == -value);
    }
}

/// Converting between equal DPIs, or from an unknown DPI, changes nothing.
pub proof fn lemma_scale_same_dpi_is_identity(value: i32, dpi: u32)
    ensures
        scale_between_dpi_spec(value, dpi, dpi) == value,
        scale_between_dpi_spec(value, 0, dpi) == value,
{
}

} // verus!

verus! {

/// The UI Automation properties of an element that decide whether it takes
/// text. Each is `None` when the element did not report it.
#[derive(Clone, Debug)]
pub struct ElementProperties {
    pub is_enabled: Option<bool>,
    pub control_type: Option<i32>,
    pub has_keyboard_focus: Option<bool>,
    pub keyboard_focusable: Option<bool>,
    pub legacy_state: Option<i32>,
    pub aria_role: Option<String>,
    pub value_pattern_available: Option<bool>,
    pub value_is_read_only: Option<bool>,
    pub text_edit_pattern_available: Option<bool>,
}

/// The ARIA role as compared: trimmed and in ASCII lowercase.
pub open spec fn normalized_role(role: Seq<char>) -> Seq<char> {
    crate::text::lower_seq(crate::text::trim(role))
}

/// Whether the legacy accessibility state says unavailable or read-only.
pub open spec fn legacy_blocks_input(state: i32) -> bool {
    state % 2 == 1 || (state / 64) % 2 == 1
}

/// What an element's properties reveal about it taking text:
/// - disabled, unavailable or read-only (by legacy state, or by a Value
///   pattern that says so) elements are read-only;
/// - an ARIA role with a code token is display code;
/// - an ARIA text-entry role is an editable field when the element can take
///   the focus, else read-only;
/// - an Edit control is editable with any positive evidence (focus,
///   focusable, a writable Value, a TextEdit pattern), read-only when it says
///   it cannot be focused, and unknown otherwise;
/// - a ComboBox is editable only when focusable and writable;
/// - a Document is an editable document only with a TextEdit pattern and the
///   focus, else selectable text; a Text control is selectable text;
/// - anything else is unknown.
pub open spec fn element_evidence_spec(
    is_enabled: Option<bool>,
    control_type: Option<i32>,
    has_keyboard_focus: Option<bool>,
    keyboard_focusable: Option<bool>,
    legacy_state: Option<i32>,
    aria_role: Option<Seq<char>>,
    value_pattern_available: Option<bool>,
    value_is_read_only: Option<bool>,
    text_edit_pattern_available: Option<bool>,
) -> NodeEvidence {
    let state = match legacy_state {
        Some(s) => s,
        None => 0,
    };
    let read_only_value = if value_pattern_available == Some(true) {
        value_is_read_only
    } else {
        None
    };
    let text_edit = text_edit_pattern_available == Some(true);
    let focus = has_keyboard_focus == Some(true) || keyboard_focusable == Some(true);
    if is_enabled == Some(false) {
        NodeEvidence::ReadOnly
    } else if legacy_blocks_input(state) {
        NodeEvidence::ReadOnly
    } else if read_only_value == Some(true) {
        NodeEvidence::ReadOnly
    } else if aria_role is Some && is_code_like_role_spec(normalized_role(aria_role->0)) {
        NodeEvidence::CodeLikeText
    } else if aria_role is Some && is_text_entry_role_spec(normalized_role(aria_role->0)) {
        if has_keyboard_focus == Some(true) || keyboard_focusable != Some(false) {
            NodeEvidence::EditableField
        } else {
            NodeEvidence::ReadOnly
        }
    } else if control_type == Some(UIA_EDIT_CONTROL_TYPE_ID) {
        if focus || read_only_value == Some(false) || text_edit {
            NodeEvidence::EditableField
        } else if keyboard_focusable == Some(false) {
            NodeEvidence::ReadOnly
        } else {
            NodeEvidence::Unknown
        }
    } else if control_type == Some(UIA_COMBO_BOX_CONTROL_TYPE_ID) {
        if focus && (read_only_value == Some(false) || text_edit) {
            NodeEvidence::EditableField
        } else {
            NodeEvidence::Unknown
        }
    } else if control_type == Some(UIA_DOCUMENT_CONTROL_TYPE_ID) {
        if text_edit && focus {
            NodeEvidence::EditableDocument
        } else {
            NodeEvidence::SelectableText
        }
    } else if control_type == Some(UIA_TEXT_CONTROL_TYPE_ID) {
        NodeEvidence::SelectableText
    } else {
        NodeEvidence::Unknown
    }
}

/// The role with surrounding white space removed and ASCII letters lowered.
fn normalize_role(role: &String) -> (r: String)
    ensures
        r@ == normalized_role(role@),
{
    let chars = crate::text::chars_of(role.as_str());
    let (lo, hi) = crate::text::trim_range(&chars, 0, chars.len());
    assert(chars@.subrange(0, chars@.len() as int) =~= chars@);
    let trimmed = crate::text::copy_range(&chars, lo, hi);
    let lowered = crate::text::lower_chars(&trimmed);
    crate::text::string_from_chars(&lowered)
}

/// Classifies an element by its UI Automation properties.
pub fn classify_element(props: &ElementProperties) -> (r: NodeEvidence)
    ensures
        r == element_evidence_spec(
            props.is_enabled,
            props.control_type,
            props.has_keyboard_focus,
            props.keyboard_focusable,
            props.legacy_state,
            match props.aria_role {
                Some(s) => Some(s@),
                None => None,
            },
            props.value_pattern_available,
            props.value_is_read_only,
            props.text_edit_pattern_available,
        ),
{
    if props.is_enabled == Some(false) {
        return NodeEvidence::ReadOnly;
    }
    let state: i32 = match props.legacy_state {
        Some(s) => s,
        None => 0,
    };
    let blocked = state & (STATE_SYSTEM_UNAVAILABLE | STATE_SYSTEM_READONLY);
    assert((blocked != 0) == (state % 2 == 1 || (state / 64) % 2 == 1)) by (bit_vector)
        requires
            blocked == state & (1i32 | 64i32),
    ;
    if blocked != 0 {
        return NodeEvidence::ReadOnly;
    }
    let read_only_value: Option<bool> = if props.value_pattern_available == Some(true) {
        props.value_is_read_only
    } else {
        None
    };
    if read_only_value == Some(true) {
        return NodeEvidence::ReadOnly;
    }
    let text_edit = props.text_edit_pattern_available == Some(true);
    let has_focus = props.has_keyboard_focus == Some(true);
    let focusable = props.keyboard_focusable;
    let focus = has_focus || focusable == Some(true);
    match &props.aria_role {
        Some(role) => {
            let normalized = normalize_role(role);
            if is_code_like_aria_role(normalized.as_str()) {
                return NodeEvidence::CodeLikeText;
            }
            if is_text_entry_aria_role(normalized.as_str()) {
                return if text_entry_role_accepts_focus(props.has_keyboard_focus, focusable) {
                    NodeEvidence::EditableField
                } else {
                    NodeEvidence::ReadOnly
                };
            }
        },
        None => {},
    }
    match props.control_type {
        Some(control_type) => {
            if control_type == UIA_EDIT_CONTROL_TYPE_ID {
                if focus || read_only_value == Some(false) || text_edit {
                    NodeEvidence::EditableField
                } else if focusable == Some(false) {
                    NodeEvidence::ReadOnly
                } else {
                    NodeEvidence::Unknown
                }
            } else if control_type == UIA_COMBO_BOX_CONTROL_TYPE_ID {
                if focus && (read_only_value == Some(false) || text_edit) {
                    NodeEvidence::EditableField
                } else {
                    NodeEvidence::Unknown
                }
            } else if control_type == UIA_DOCUMENT_CONTROL_TYPE_ID {
                if text_edit && focus {
                    NodeEvidence::EditableDocument
                } else {
                    NodeEvidence::SelectableText
                }
            } else if control_type == UIA_TEXT_CONTROL_TYPE_ID {
                NodeEvidence::SelectableText
            } else {
                NodeEvidence::Unknown
            }
        },
        None => NodeEvidence::Unknown,
    }
}

/// A code role wins over every control type: an element whose role names
/// code is never taken for an input, whatever else it reports, unless it is
/// disabled or read-only outright.
pub proof fn lemma_code_roles_are_never_inputs(
    is_enabled: Option<bool>,
    control_type: Option<i32>,
    has_keyboard_focus: Option<bool>,
    keyboard_focusable: Option<bool>,
    legacy_state: Option<i32>,
    role: Seq<char>,
    value_pattern_available: Option<bool>,
    value_is_read_only: Option<bool>,
    text_edit_pattern_available: Option<bool>,
)
    requires
        is_code_like_role_spec(normalized_role(role)),
    ensures
        ({
            let e = element_evidence_spec(
                is_enabled,
                control_type,
                has_keyboard_focus,
                keyboard_focusable,
                legacy_state,
                Some(role),
                value_pattern_available,
                value_is_read_only,
                text_edit_pattern_available,
            );
            e == NodeEvidence::CodeLikeText || e == NodeEvidence::ReadOnly
        }),
{
}

/// A disabled element is read-only whatever else it reports.
pub proof fn lemma_disabled_elements_are_read_only(
    control_type: Option<i32>,
    has_keyboard_focus: Option<bool>,
    keyboard_focusable: Option<bool>,
    legacy_state: Option<i32>,
    aria_role: Option<Seq<char>>,
    value_pattern_available: Option<bool>,
    value_is_read_only: Option<bool>,
    text_edit_pattern_available: Option<bool>,
)
    ensures
        element_evidence_spec(
            Some(false),
            control_type,
            has_keyboard_focus,
            keyboard_focusable,
            legacy_state,
            aria_role,
            value_pattern_available,
            value_is_read_only,
            text_edit_pattern_available,
        ) == NodeEvidence::ReadOnly,
{
}

/// The kinds of standard window class that say whether they take text.
#[derive(Clone, Copy, Debug, PartialEq, Eq, Structural)]
pub enum StandardClass {
    /// `Edit` or a `RichEdit` class: the window style says.
    Edit,
    /// `Scintilla`: the control answers whether it is read-only.
    Scintilla,
    /// `Static`: never takes text.
    Static,
    /// Any other class says nothing.
    Other,
}

pub open spec fn class_edit() -> Seq<char> {
    seq!['e', 'd', 'i', 't']
}

pub open spec fn class_richedit() -> Seq<char> {
    seq!['r', 'i', 'c', 'h', 'e', 'd', 'i', 't']
}

pub open spec fn class_scintilla() -> Seq<char> {
    seq!['s', 'c', 'i', 'n', 't', 'i', 'l', 'l', 'a']
}

pub open spec fn class_static() -> Seq<char> {
    seq!['s', 't', 'a', 't', 'i', 'c']
}

/// The standard class kind of a window class name, compared without ASCII
/// case.
pub open spec fn standard_class_spec(class_name: Seq<char>) -> StandardClass {
    if eq_ignore_case(class_name, class_edit()) || starts_with_ignore_case(class_name, class_richedit()) {
        StandardClass::Edit
    } else if eq_ignore_case(class_name, class_scintilla()) {
        StandardClass::Scintilla
    } else if eq_ignore_case(class_name, class_static()) {
        StandardClass::Static
    } else {
        StandardClass::Other
    }
}

/// The standard class kind of a window class name.
pub fn standard_window_class(class_name: &str) -> (r: StandardClass)
    ensures
        r == standard_class_spec(class_name@),
{
    let edit = ['e', 'd', 'i', 't'];
    assert(edit@ == class_edit());
    let richedit = ['r', 'i', 'c', 'h', 'e', 'd', 'i', 't'];
    assert(richedit@ == class_richedit());
    let scintilla = ['s', 'c', 'i', 'n', 't', 'i', 'l', 'l', 'a'];
    assert(scintilla@ == class_scintilla());
    let static_class = ['s', 't', 'a', 't', 'i', 'c'];
    assert(static_class@ == class_static());
    if str_eq_ignore_case(class_name, &edit) || str_starts_with_ignore_case(class_name, &richedit) {
        StandardClass::Edit
    } else if str_eq_ignore_case(class_name, &scintilla) {
        StandardClass::Scintilla
    } else if str_eq_ignore_case(class_name, &static_class) {
        StandardClass::Static
    } else {
        StandardClass::Other
    }
}

/// What a standard window's class and state say about taking text: a
/// disabled window is read-only; an edit class follows its `ES_READONLY`
/// style bit; a Scintilla control follows its answer, and says nothing when
/// it did not answer; a static control is read-only; others say nothing.
pub open spec fn standard_window_spec(
    enabled: bool,
    class: Option<StandardClass>,
    style: u32,
    scintilla_read_only: Option<bool>,
) -> Option<Editability> {
    if !enabled {
        Some(Editability::ReadOnly)
    } else {
        match class {
            None => None,
            Some(StandardClass::Edit) => if (style / 0x800) % 2 == 1 {
                Some(Editability::ReadOnly)
            } else {
                Some(Editability::Editable)
            },
            Some(StandardClass::Scintilla) => match scintilla_read_only {
                Some(true) => Some(Editability::ReadOnly),
                Some(false) => Some(Editability::Editable),
                None => None,
            },
            Some(StandardClass::Static) => Some(Editability::ReadOnly),
            Some(StandardClass::Other) => None,
        }
    }
}

/// An enabled Edit or RichEdit window is read-only exactly when its
/// `ES_READONLY` style bit (0x800) is set, whatever its other style bits:
/// setting the bit always makes it read-only, clearing it always editable.
/// A disabled window is read-only whatever it is.
pub proof fn lemma_edit_read_only_bit(style: u32, scintilla_read_only: Option<bool>)
    ensures
        standard_window_spec(true, Some(StandardClass::Edit), style, scintilla_read_only) == if style
            & 0x800 != 0 {
            Some(Editability::ReadOnly)
        } else {
            Some(Editability::Editable)
        },
        standard_window_spec(true, Some(StandardClass::Edit), style | 0x800, scintilla_read_only)
            == Some(Editability::ReadOnly),
        standard_window_spec(true, Some(StandardClass::Edit), style & !0x800u32, scintilla_read_only)
            == Some(Editability::Editable),
        forall|class: Option<StandardClass>|
            standard_window_spec(false, class, style, scintilla_read_only) == Some(
                Editability::ReadOnly,
            ),
{
    assert(((style & 0x800) != 0) == ((style / 0x800) % 2 == 1)) by (bit_vector);
    assert(((style | 0x800) / 0x800) % 2 == 1) by (bit_vector);
    assert(((style & !0x800u32) / 0x800) % 2 == 0) by (bit_vector);
}

/// Classifies a standard window from whether it is enabled, its class kind
/// (`None` when the class name could not be read), its style and, for
/// Scintilla, its read-only answer.
pub fn classify_standard_window(
    enabled: bool,
    class: Option<StandardClass>,
    style: u32,
    scintilla_read_only: Option<bool>,
) -> (r: Option<Editability>)
    ensures
        r == standard_window_spec(enabled, class, style, scintilla_read_only),
{
    if !enabled {
        return Some(Editability::ReadOnly);
    }
    match class {
        None => None,
        Some(StandardClass::Edit) => {
            let bit = style & crate::win::ES_READONLY;
            assert((bit != 0) == ((style / 0x800) % 2 == 1)) by (bit_vector)
                requires
                    bit == style & 0x800u32,
            ;
            if bit != 0 {
                Some(Editability::ReadOnly)
            } else {
                Some(Editability::Editable)
            }
        },
        Some(StandardClass::Scintilla) => match scintilla_read_only {
            Some(true) => Some(Editability::ReadOnly),
            Some(false) => Some(Editability::Editable),
            None => None,
        },
        Some(StandardClass::Static) => Some(Editability::ReadOnly),
        Some(StandardClass::Other) => None,
    }
}

} // verus!

verus! {

/// How far (in pixels) an anchor may lie outside a window and still count
/// as inside it.
pub const WINDOW_ANCHOR_TOLERANCE: i32 = 16;

/// Whether an anchor lies within a window's rectangle, widened by the
/// tolerance on every side (saturating at the edges of `i32`).
pub open spec fn anchor_in_window_spec(anchor: CaretAnchor, rect: RECT) -> bool {
    anchor.x >= sat(rect.left - WINDOW_ANCHOR_TOLERANCE) && anchor.x <= sat(rect.right + WINDOW_ANCHOR_TOLERANCE)
        && anchor.bottom >= sat(rect.top - WINDOW_ANCHOR_TOLERANCE) && anchor.top <= sat(
        rect.bottom + WINDOW_ANCHOR_TOLERANCE,
    )
}

/// Whether a caret anchor belongs to a window with this rectangle.
pub fn anchor_in_window_rect(anchor: CaretAnchor, rect: RECT) -> (r: bool)
    ensures
        r == anchor_in_window_spec(anchor, rect),
{
    anchor.x >= crate::arith::sat_sub(rect.left, WINDOW_ANCHOR_TOLERANCE) && anchor.x
        <= sat_add(rect.right, WINDOW_ANCHOR_TOLERANCE) && anchor.bottom >= crate::arith::sat_sub(
        rect.top,
        WINDOW_ANCHOR_TOLERANCE,
    ) && anchor.top <= sat_add(rect.bottom, WINDOW_ANCHOR_TOLERANCE)
}

/// The caret assumed for an Excel editor whose caret cannot be read: 4
/// pixels into its left edge, inset vertically by a sixth of its height
/// (2 to 6 pixels). Nothing for an empty rectangle.
pub open spec fn editor_bounds_anchor_spec(rect: RECT) -> Option<CaretAnchor> {
    if rect.right <= rect.left || rect.bottom <= rect.top {
        None
    } else {
        let sixth = (rect.bottom - rect.top) / 6;
        let inset = if sixth < 2 {
            2
        } else if sixth > 6 {
            6
        } else {
            sixth
        };
        Some(
            CaretAnchor {
                x: sat(rect.left + 4),
                top: sat(rect.top + inset),
                bottom: sat(rect.bottom - inset),
            },
        )
    }
}

/// The caret assumed for an editor from its window rectangle.
pub fn editor_bounds_anchor(rect: RECT) -> (r: Option<CaretAnchor>)
    ensures
        r == editor_bounds_anchor_spec(rect),
{
    if rect.right <= rect.left || rect.bottom <= rect.top {
        return None;
    }
    let height = rect.bottom as i64 - rect.top as i64;
    let sixth = height / 6;
    let inset: i32 = if sixth < 2 {
        2
    } else if sixth > 6 {
        6
    } else {
        sixth as i32
    };
    Some(
        CaretAnchor {
            x: sat_add(rect.left, 4),
            top: sat_add(rect.top, inset),
            bottom: crate::arith::sat_sub(rect.bottom, inset),
        },
    )
}

/// Whether `pattern` occurs in `s`.
pub open spec fn contains_seq(s: Seq<char>, pattern: Seq<char>) -> bool {
    exists|i: int| 0 <= i <= s.len() - pattern.len() && #[trigger] s.subrange(i, i + pattern.len()) == pattern
}

/// Whether `pattern` occurs in `s`.
pub fn chars_contain(s: &Vec<char>, pattern: &[char]) -> (r: bool)
    ensures
        r == contains_seq(s@, pattern@),
{
    if pattern.len() > s.len() {
        return false;
    }
    let last = s.len() - pattern.len();
    let mut i: usize = 0;
    while i <= last
        invariant
            pattern@.len() <= s@.len(),
            last == s@.len() - pattern@.len(),
            i <= last,
            last < s@.len() + 1,
            forall|j: int| 0 <= j < i ==> #[trigger] s@.subrange(j, j + pattern@.len()) != pattern@,
        decreases last + 1 - i,
    {
        let mut k: usize = 0;
        let mut same = true;
        while k < pattern.len()
            invariant
                pattern@.len() <= s@.len(),
                i <= last,
                last == s@.len() - pattern@.len(),
                s@.len() == s.len(),
                k <= pattern@.len(),
                same == forall|m: int| 0 <= m < k ==> s@[i + m] == pattern@[m],
            decreases pattern@.len() - k,
        {
            if s[i + k] != pattern[k] {
                same = false;
            }
            k = k + 1;
        }
        if same {
            assert(s@.subrange(i as int, i + pattern@.len()) =~= pattern@);
            return true;
        }
        proof {
            let m = choose|m: int| 0 <= m < pattern@.len() && s@[i + m] != pattern@[m];
            assert(s@.subrange(i as int, i + pattern@.len())[m] != pattern@[m]);
        }
        if i == last {
            return false;
        }
        i = i + 1;
    }
    false
}

pub open spec fn geometry_omnibox() -> Seq<char> {
    seq!['o', 'm', 'n', 'i', 'b', 'o', 'x']
}

pub open spec fn geometry_addressbar() -> Seq<char> {
    seq!['a', 'd', 'd', 'r', 'e', 's', 's', 'b', 'a', 'r']
}

pub open spec fn geometry_address_and_search() -> Seq<char> {
    seq!['a', 'd', 'd', 'r', 'e', 's', 's', ' ', 'a', 'n', 'd', ' ', 's', 'e', 'a', 'r', 'c', 'h']
}

pub open spec fn geometry_address_and_search_ko() -> Seq<char> {
    seq!['주', '소', ' ', '및', ' ', '검', '색']
}

/// Whether a browser element needs exact caret geometry: its class names an
/// omnibox or address bar, or its name is the address-and-search box (in
/// English or Korean), compared in ASCII lowercase.
pub open spec fn exact_geometry_spec(class_name: Seq<char>, name: Seq<char>) -> bool {
    let class_lower = crate::text::lower_seq(class_name);
    let name_lower = crate::text::lower_seq(name);
    contains_seq(class_lower, geometry_omnibox()) || contains_seq(class_lower, geometry_addressbar())
        || contains_seq(name_lower, geometry_address_and_search()) || contains_seq(
        name_lower,
        geometry_address_and_search_ko(),
    )
}

/// Whether an element (by its UI Automation class name and name, empty when
/// unknown) is a browser address box, where only exact caret geometry is
/// believed.
pub fn element_requires_exact_caret_geometry(class_name: &str, name: &str) -> (r: bool)
    ensures
        r == exact_geometry_spec(class_name@, name@),
{
    let class_chars = crate::text::chars_of(class_name);
    let class_lower = crate::text::lower_chars(&class_chars);
    let name_chars = crate::text::chars_of(name);
    let name_lower = crate::text::lower_chars(&name_chars);
    let omnibox = ['o', 'm', 'n', 'i', 'b', 'o', 'x'];
    assert(omnibox@ == geometry_omnibox());
    let addressbar = ['a', 'd', 'd', 'r', 'e', 's', 's', 'b', 'a', 'r'];
    assert(addressbar@ == geometry_addressbar());
    let address = ['a', 'd', 'd', 'r', 'e', 's', 's', ' ', 'a', 'n', 'd', ' ', 's', 'e', 'a', 'r', 'c', 'h'];
    assert(address@ == geometry_address_and_search());
    let address_ko = ['주', '소', ' ', '및', ' ', '검', '색'];
    assert(address_ko@ == geometry_address_and_search_ko());
    chars_contain(&class_lower, &omnibox) || chars_contain(&class_lower, &addressbar) || chars_contain(
        &name_lower,
        &address,
    ) || chars_contain(&name_lower, &address_ko)
}

} // verus!
