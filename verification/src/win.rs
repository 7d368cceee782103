//! Plain Win32 data layouts and constants that the library's logic reads.
use vstd::prelude::*;

verus! {

#[allow(non_camel_case_types)]
#[derive(Clone, Copy, Default, Debug, PartialEq, Eq, Structural)]
pub struct POINT {
    pub x: i32,
    pub y: i32,
}

#[allow(non_camel_case_types, non_snake_case)]
#[derive(Clone, Copy, Default, Debug, PartialEq, Eq, Structural)]
pub struct COORD {
    pub X: i16,
    pub Y: i16,
}

#[allow(non_camel_case_types, non_snake_case)]
#[derive(Clone, Copy, Default, Debug, PartialEq, Eq, Structural)]
pub struct SMALL_RECT {
    pub Left: i16,
    pub Top: i16,
    pub Right: i16,
    pub Bottom: i16,
}

#[allow(non_camel_case_types, non_snake_case)]
#[derive(Clone, Copy, Default, Debug)]
pub struct CONSOLE_SCREEN_BUFFER_INFO {
    pub dwSize: COORD,
    pub dwCursorPosition: COORD,
    pub wAttributes: u16,
    pub srWindow: SMALL_RECT,
    pub dwMaximumWindowSize: COORD,
}

#[allow(non_camel_case_types, non_snake_case)]
#[derive(Clone, Copy, Default, Debug)]
pub struct CONSOLE_FONT_INFOEX {
    pub cbSize: u32,
    pub nFont: u32,
    pub dwFontSize: COORD,
    pub FontFamily: u32,
    pub FontWeight: u32,
    pub FaceName: [u16; 32],
}

#[allow(non_camel_case_types, non_snake_case)]
#[derive(Clone, Copy)]
pub struct PROCESSENTRY32W {
    pub dwSize: u32,
    pub cntUsage: u32,
    pub th32ProcessID: u32,
    pub th32DefaultHeapID: usize,
    pub th32ModuleID: u32,
    pub cntThreads: u32,
    pub th32ParentProcessID: u32,
    pub pcPriClassBase: i32,
    pub dwFlags: u32,
    pub szExeFile: [u16; 260],
}

impl Default for PROCESSENTRY32W {
    fn default() -> (entry: Self)
        ensures
            entry.dwSize == 0,
            entry.th32ProcessID == 0,
            forall|i: int| 0 <= i < 260 ==> entry.szExeFile@[i] == 0,
    {
        PROCESSENTRY32W {
            dwSize: 0,
            cntUsage: 0,
            th32ProcessID: 0,
            th32DefaultHeapID: 0,
            th32ModuleID: 0,
            cntThreads: 0,
            th32ParentProcessID: 0,
            pcPriClassBase: 0,
            dwFlags: 0,
            szExeFile: [0u16; 260],
        }
    }
}

#[allow(non_camel_case_types)]
#[derive(Clone, Copy, Default, Debug, PartialEq, Eq, Structural)]
pub struct RECT {
    pub left: i32,
    pub top: i32,
    pub right: i32,
    pub bottom: i32,
}

#[allow(non_camel_case_types, non_snake_case)]
#[derive(Clone, Copy, Default, Debug)]
pub struct RAWKEYBOARD {
    pub MakeCode: u16,
    pub Flags: u16,
    pub Reserved: u16,
    pub VKey: u16,
    pub Message: u32,
    pub ExtraInformation: u32,
}

#[allow(non_camel_case_types)]
#[derive(Clone, Copy, Default, Debug, PartialEq, Eq, Structural)]
pub struct SIZE {
    pub cx: i32,
    pub cy: i32,
}

#[allow(non_camel_case_types, non_snake_case)]
#[derive(Clone, Copy, Default, Debug)]
pub struct RGBQUAD {
    pub rgbBlue: u8,
    pub rgbGreen: u8,
    pub rgbRed: u8,
    pub rgbReserved: u8,
}

#[allow(non_camel_case_types, non_snake_case)]
#[derive(Clone, Copy, Default, Debug)]
pub struct BITMAPINFOHEADER {
    pub biSize: u32,
    pub biWidth: i32,
    pub biHeight: i32,
    pub biPlanes: u16,
    pub biBitCount: u16,
    pub biCompression: u32,
    pub biSizeImage: u32,
    pub biXPelsPerMeter: i32,
    pub biYPelsPerMeter: i32,
    pub biClrUsed: u32,
    pub biClrImportant: u32,
}

#[allow(non_camel_case_types, non_snake_case)]
#[derive(Clone, Copy, Default, Debug)]
pub struct BITMAPINFO {
    pub bmiHeader: BITMAPINFOHEADER,
    pub bmiColors: [RGBQUAD; 1],
}

#[allow(non_camel_case_types, non_snake_case)]
#[derive(Clone, Copy, Default, Debug)]
pub struct BLENDFUNCTION {
    pub BlendOp: u8,
    pub BlendFlags: u8,
    pub SourceConstantAlpha: u8,
    pub AlphaFormat: u8,
}

#[allow(non_camel_case_types, non_snake_case)]
#[derive(Clone, Copy, Default, Debug, PartialEq, Eq)]
pub struct GUID {
    pub Data1: u32,
    pub Data2: u16,
    pub Data3: u16,
    pub Data4: [u8; 8],
}

#[allow(non_camel_case_types, non_snake_case)]
#[derive(Clone, Copy, Default, Debug)]
pub struct MONITORINFO {
    pub cbSize: u32,
    pub rcMonitor: RECT,
    pub rcWork: RECT,
    pub dwFlags: u32,
}

#[allow(non_camel_case_types, non_snake_case)]
#[derive(Clone, Copy, Default, Debug)]
pub struct TPMPARAMS {
    pub cbSize: u32,
    pub rcExclude: RECT,
}

pub const EVENT_SYSTEM_FOREGROUND: u32 = 0x0003;

pub const EVENT_OBJECT_FOCUS: u32 = 0x8005;

pub const EVENT_OBJECT_LOCATIONCHANGE: u32 = 0x800B;

pub const EVENT_OBJECT_TEXTSELECTIONCHANGED: u32 = 0x8014;

pub const OBJID_WINDOW: i32 = 0;

pub const OBJID_CARET: i32 = -8;

pub const VK_SHIFT: i32 = 0x10;

pub const VK_CONTROL: i32 = 0x11;

pub const VK_MENU: i32 = 0x12;

pub const VK_CAPITAL: i32 = 0x14;

pub const VK_LWIN: i32 = 0x5b;

pub const VK_RWIN: i32 = 0x5c;

pub const TPM_LEFTALIGN: u32 = 0x0000;

pub const TPM_RIGHTALIGN: u32 = 0x0008;

pub const TPM_TOPALIGN: u32 = 0x0000;

pub const TPM_BOTTOMALIGN: u32 = 0x0020;

pub const CB_GETCURSEL: u32 = 0x0147;

pub const NIF_SHOWTIP: u32 = 0x0000_0080;

pub const ES_READONLY: u32 = 0x0000_0800;

/// The low word of a message parameter.
pub fn loword(value: usize) -> (w: u16)
    ensures
        w as int == value as int % 65536,
{
    let m = value & 0xffff;
    assert(m == value % 65536 && m < 65536) by (bit_vector)
        requires
            m == value & 0xffff,
    ;
    m as u16
}

/// The high word of the low 32 bits of a message parameter.
pub fn hiword(value: usize) -> (w: u16)
    ensures
        w as int == (value as int / 65536) % 65536,
{
    let m = (value >> 16) & 0xffff;
    assert(m == (value / 65536) % 65536 && m < 65536) by (bit_vector)
        requires
            m == (value >> 16) & 0xffff,
    ;
    m as u16
}

/// A `COLORREF` from red, green and blue.
pub fn rgb(r: u8, g: u8, b: u8) -> (color: u32)
    ensures
        color as int == r as int + 256 * g as int + 65536 * b as int,
{
    let (r32, g32, b32) = (r as u32, g as u32, b as u32);
    let color = r32 | (g32 << 8) | (b32 << 16);
    assert(color == r32 + 256 * g32 + 65536 * b32) by (bit_vector)
        requires
            color == r32 | (g32 << 8) | (b32 << 16),
            r32 < 256,
            g32 < 256,
            b32 < 256,
    ;
    color
}

} // verus!

verus! {

/// A 16-bit word read as a two's complement signed value.
pub open spec fn signed_word(w: u16) -> i32 {
    if w < 0x8000 {
        w as i32
    } else {
        (w as int - 0x10000) as i32
    }
}

fn word_as_signed(w: u16) -> (r: i32)
    ensures
        r == signed_word(w),
{
    let s = w as i16;
    assert(w < 0x8000 ==> s == w) by (bit_vector)
        requires
            s == w as i16,
    ;
    assert(w >= 0x8000 ==> s == w - 0x10000) by (bit_vector)
        requires
            s == w as i16,
    ;
    s as i32
}

/// The point packed into a notification's message parameter: x in the low
/// word and y in the high word, each signed, so that coordinates on monitors
/// left of or above the primary one stay negative.
pub fn point_from_message(value: usize) -> (p: POINT)
    ensures
        p.x == signed_word((value as int % 65536) as u16),
        p.y == signed_word(((value as int / 65536) % 65536) as u16),
{
    POINT { x: word_as_signed(loword(value)), y: word_as_signed(hiword(value)) }
}

} // verus!
