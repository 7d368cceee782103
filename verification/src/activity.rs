//! How often the indicator polls, how activity backs the polling off, and
//! which keyboard and accessibility events ask for a refresh.
//!
//! Durations are plain integers here: milliseconds for intervals and for the
//! age of the last activity, nanoseconds on a monotonic clock for the time at
//! which a raw keyboard signal arrived.
use vstd::prelude::*;

use crate::win::{
    EVENT_OBJECT_FOCUS, EVENT_OBJECT_LOCATIONCHANGE, EVENT_OBJECT_TEXTSELECTIONCHANGED,
    EVENT_SYSTEM_FOREGROUND, OBJID_CARET, OBJID_WINDOW, VK_LWIN, VK_RWIN,
};

verus! {

pub const ACTIVE_IME_POLL_INTERVAL_MS: u32 = 100;

pub const RAW_INPUT_ACTIVE_POLL_INTERVAL_MS: u32 = 500;

pub const FALLBACK_REFRESH_INTERVAL_MS: u32 = 500;

pub const IDLE_FALLBACK_INTERVAL_MS: u32 = 2_000;

pub const DEEP_IDLE_FALLBACK_INTERVAL_MS: u32 = 5_000;

pub const FULL_REFRESH_INTERVAL_MS: u64 = 500;

pub const RAW_INPUT_FULL_REFRESH_INTERVAL_MS: u64 = 1_000;

pub const IDLE_FULL_REFRESH_INTERVAL_MS: u64 = 2_000;

pub const DEEP_IDLE_FULL_REFRESH_INTERVAL_MS: u64 = 5_000;

/// Two identical raw keyboard signals this close together (in nanoseconds)
/// are one key press seen twice.
pub const RAW_INPUT_DUPLICATE_WINDOW_NS: u64 = 2_000_000;

pub const ACTIVITY_BACKOFF_DELAY_MS: u64 = 3_000;

pub const DEEP_IDLE_BACKOFF_DELAY_MS: u64 = 15_000;

pub const WIN_EVENT_FLAG_FOREGROUND: u32 = 1;

pub const WIN_EVENT_FLAG_FOCUS: u32 = 2;

pub const WIN_EVENT_FLAG_CARET: u32 = 4;

pub const WIN_EVENT_FLAG_TEXT_SELECTION: u32 = 8;

pub const WIN_EVENT_FLAG_WINDOW_LOCATION: u32 = 16;

pub const WIN_EVENT_PRIORITY_FLAGS: u32 = 3;

/// The fallback poll interval for the indicator's state.
pub open spec fn poll_interval_spec(
    badge_visible: bool,
    full_refresh_pending: bool,
    raw_keyboard_registered: bool,
    level: u8,
) -> u32 {
    if full_refresh_pending {
        ACTIVE_IME_POLL_INTERVAL_MS
    } else if badge_visible && raw_keyboard_registered {
        if level >= 2 {
            DEEP_IDLE_FALLBACK_INTERVAL_MS
        } else if level >= 1 {
            IDLE_FALLBACK_INTERVAL_MS
        } else {
            RAW_INPUT_ACTIVE_POLL_INTERVAL_MS
        }
    } else if badge_visible {
        ACTIVE_IME_POLL_INTERVAL_MS
    } else if level >= 2 {
        DEEP_IDLE_FALLBACK_INTERVAL_MS
    } else if level >= 1 {
        IDLE_FALLBACK_INTERVAL_MS
    } else {
        FALLBACK_REFRESH_INTERVAL_MS
    }
}

/// The poll interval in milliseconds: fast while a full refresh is pending
/// or while the badge shows without raw keyboard input, and otherwise slower
/// the longer the user has been idle.
pub fn poll_interval_for_state(
    badge_visible: bool,
    full_refresh_pending: bool,
    raw_keyboard_registered: bool,
    activity_backoff_level: u8,
) -> (r: u32)
    ensures
        r == poll_interval_spec(
            badge_visible,
            full_refresh_pending,
            raw_keyboard_registered,
            activity_backoff_level,
        ),
{
    if full_refresh_pending {
        ACTIVE_IME_POLL_INTERVAL_MS
    } else if badge_visible && raw_keyboard_registered {
        if activity_backoff_level >= 2 {
            DEEP_IDLE_FALLBACK_INTERVAL_MS
        } else if activity_backoff_level >= 1 {
            IDLE_FALLBACK_INTERVAL_MS
        } else {
            RAW_INPUT_ACTIVE_POLL_INTERVAL_MS
        }
    } else if badge_visible {
        ACTIVE_IME_POLL_INTERVAL_MS
    } else if activity_backoff_level >= 2 {
        DEEP_IDLE_FALLBACK_INTERVAL_MS
    } else if activity_backoff_level >= 1 {
        IDLE_FALLBACK_INTERVAL_MS
    } else {
        FALLBACK_REFRESH_INTERVAL_MS
    }
}

/// The backoff level for an activity age in milliseconds.
pub open spec fn backoff_level_spec(eligible: bool, activity_age_ms: u64) -> u8 {
    if !eligible {
        0
    } else if activity_age_ms >= DEEP_IDLE_BACKOFF_DELAY_MS {
        2
    } else if activity_age_ms >= ACTIVITY_BACKOFF_DELAY_MS {
        1
    } else {
        0
    }
}

/// How far polling backs off: 0 while there was recent activity, 1 after
/// three seconds of quiet and 2 after fifteen, and always 0 when backing off
/// is not allowed.
pub fn activity_backoff_level(eligible: bool, activity_age_ms: u64) -> (r: u8)
    ensures
        r == backoff_level_spec(eligible, activity_age_ms),
        r <= 2,
{
    if !eligible {
        0
    } else if activity_age_ms >= DEEP_IDLE_BACKOFF_DELAY_MS {
        2
    } else if activity_age_ms >= ACTIVITY_BACKOFF_DELAY_MS {
        1
    } else {
        0
    }
}

/// The full refresh interval in milliseconds.
pub open spec fn full_refresh_spec(raw_keyboard_registered: bool, level: u8) -> u64 {
    if level >= 2 {
        DEEP_IDLE_FULL_REFRESH_INTERVAL_MS
    } else if level >= 1 {
        IDLE_FULL_REFRESH_INTERVAL_MS
    } else if raw_keyboard_registered {
        RAW_INPUT_FULL_REFRESH_INTERVAL_MS
    } else {
        FULL_REFRESH_INTERVAL_MS
    }
}

/// How long, in milliseconds, a full refresh may wait.
pub fn full_refresh_interval(raw_keyboard_registered: bool, activity_backoff_level: u8) -> (r: u64)
    ensures
        r == full_refresh_spec(raw_keyboard_registered, activity_backoff_level),
{
    if activity_backoff_level >= 2 {
        DEEP_IDLE_FULL_REFRESH_INTERVAL_MS
    } else if activity_backoff_level >= 1 {
        IDLE_FULL_REFRESH_INTERVAL_MS
    } else if raw_keyboard_registered {
        RAW_INPUT_FULL_REFRESH_INTERVAL_MS
    } else {
        FULL_REFRESH_INTERVAL_MS
    }
}

/// A raw keyboard key-down as the input device reported it.
#[derive(Clone, Copy, Debug, PartialEq, Eq, Structural)]
pub struct RawKeyboardSignal {
    pub device: usize,
    pub make_code: u16,
    pub flags: u16,
    pub virtual_key: u16,
}

/// The last raw keyboard signal and when it arrived, in nanoseconds on a
/// monotonic clock.
#[derive(Clone, Copy, Debug, PartialEq, Eq, Structural)]
pub struct LastRawKeyboardSignal {
    pub signal: RawKeyboardSignal,
    pub tick_ns: u64,
}

/// Whether a signal repeats the previous one from the same device within the
/// duplicate window; a previous signal from the future never matches.
pub open spec fn is_duplicate_spec(
    previous: Option<LastRawKeyboardSignal>,
    signal: RawKeyboardSignal,
    now_ns: u64,
) -> bool {
    match previous {
        Some(p) => p.signal == signal && p.tick_ns <= now_ns && now_ns - p.tick_ns
            <= RAW_INPUT_DUPLICATE_WINDOW_NS,
        None => false,
    }
}

/// Whether `signal`, arriving at `now_ns`, repeats `previous`.
pub fn raw_keyboard_signal_is_duplicate(
    previous: Option<LastRawKeyboardSignal>,
    signal: RawKeyboardSignal,
    now_ns: u64,
) -> (r: bool)
    ensures
        r == is_duplicate_spec(previous, signal, now_ns),
{
    match previous {
        Some(p) => p.signal == signal && p.tick_ns <= now_ns && now_ns - p.tick_ns
            <= RAW_INPUT_DUPLICATE_WINDOW_NS,
        None => false,
    }
}

/// Keys that can switch the input language or the IME mode: Shift through
/// Space (modifiers, Caps Lock, the Korean and Japanese IME keys, conversion
/// keys, Escape and Space), both Windows keys, the left and right modifier
/// keys, and the IME's process key.
pub open spec fn key_can_change_ime_spec(virtual_key: i32) -> bool {
    (0x10 <= virtual_key <= 0x20) || virtual_key == VK_LWIN || virtual_key == VK_RWIN || (0xa0
        <= virtual_key <= 0xa5) || virtual_key == 0xe5
}

/// Whether a key press may have changed the IME state.
pub fn raw_keyboard_key_can_change_ime(virtual_key: i32) -> (r: bool)
    ensures
        r == key_can_change_ime_spec(virtual_key),
{
    (0x10 <= virtual_key && virtual_key <= 0x20) || virtual_key == VK_LWIN || virtual_key
        == VK_RWIN || (0xa0 <= virtual_key && virtual_key <= 0xa5) || virtual_key == 0xe5
}

/// Keyboard activity asks for its own refresh unless a caret event already
/// covers it, and always while a full refresh is pending.
pub fn keyboard_activity_refresh_needed(covered_by_caret_event: bool, full_refresh_pending: bool) -> (r: bool)
    ensures
        r == (!covered_by_caret_event || full_refresh_pending),
{
    !covered_by_caret_event || full_refresh_pending
}

/// The pending-event flag of an accessibility event, 0 for events that do
/// not matter.
pub open spec fn win_event_flag_spec(event: u32, object_id: i32) -> u32 {
    if event == EVENT_SYSTEM_FOREGROUND {
        WIN_EVENT_FLAG_FOREGROUND
    } else if event == EVENT_OBJECT_FOCUS {
        WIN_EVENT_FLAG_FOCUS
    } else if event == EVENT_OBJECT_LOCATIONCHANGE && object_id == OBJID_CARET {
        WIN_EVENT_FLAG_CARET
    } else if event == EVENT_OBJECT_LOCATIONCHANGE && object_id == OBJID_WINDOW {
        WIN_EVENT_FLAG_WINDOW_LOCATION
    } else if event == EVENT_OBJECT_TEXTSELECTIONCHANGED {
        WIN_EVENT_FLAG_TEXT_SELECTION
    } else {
        0
    }
}

/// The flag that an accessibility event sets among the pending events.
pub fn win_event_flag(event: u32, object_id: i32) -> (r: u32)
    ensures
        r == win_event_flag_spec(event, object_id),
{
    if event == EVENT_SYSTEM_FOREGROUND {
        WIN_EVENT_FLAG_FOREGROUND
    } else if event == EVENT_OBJECT_FOCUS {
        WIN_EVENT_FLAG_FOCUS
    } else if event == EVENT_OBJECT_LOCATIONCHANGE && object_id == OBJID_CARET {
        WIN_EVENT_FLAG_CARET
    } else if event == EVENT_OBJECT_LOCATIONCHANGE && object_id == OBJID_WINDOW {
        WIN_EVENT_FLAG_WINDOW_LOCATION
    } else if event == EVENT_OBJECT_TEXTSELECTIONCHANGED {
        WIN_EVENT_FLAG_TEXT_SELECTION
    } else {
        0
    }
}

/// Whether an accessibility event is one the indicator follows.
pub fn is_relevant_win_event(event: u32, object_id: i32) -> (r: bool)
    ensures
        r == (win_event_flag_spec(event, object_id) != 0),
        r <==> (event == EVENT_SYSTEM_FOREGROUND || event == EVENT_OBJECT_FOCUS || event
            == EVENT_OBJECT_TEXTSELECTIONCHANGED || (event == EVENT_OBJECT_LOCATIONCHANGE && (
        object_id == OBJID_CARET || object_id == OBJID_WINDOW))),
{
    win_event_flag(event, object_id) != 0
}

/// Backing off never shortens a poll or a full refresh: with everything
/// else equal, a higher backoff level gives an interval at least as long.
pub proof fn lemma_backoff_never_shortens_intervals(
    badge_visible: bool,
    full_refresh_pending: bool,
    raw_keyboard_registered: bool,
    lower: u8,
    higher: u8,
)
    requires
        lower <= higher,
    ensures
        poll_interval_spec(badge_visible, full_refresh_pending, raw_keyboard_registered, lower)
            <= poll_interval_spec(badge_visible, full_refresh_pending, raw_keyboard_registered, higher),
        full_refresh_spec(raw_keyboard_registered, lower) <= full_refresh_spec(
            raw_keyboard_registered,
            higher,
        ),
{
}

/// The fast paths survive any backoff: a pending full refresh, or a visible
/// badge without raw keyboard input, polls every 100 ms at every level.
pub proof fn lemma_backoff_keeps_fast_paths(
    badge_visible: bool,
    full_refresh_pending: bool,
    raw_keyboard_registered: bool,
    level: u8,
)
    requires
        full_refresh_pending || (badge_visible && !raw_keyboard_registered),
    ensures
        poll_interval_spec(badge_visible, full_refresh_pending, raw_keyboard_registered, level)
            == ACTIVE_IME_POLL_INTERVAL_MS,
{
}

/// The backoff level grows with the time since the last activity.
pub proof fn lemma_backoff_level_grows_with_age(eligible: bool, younger: u64, older: u64)
    requires
        younger <= older,
    ensures
        backoff_level_spec(eligible, younger) <= backoff_level_spec(eligible, older),
{
}

/// The duplicate filter is scoped to one device, one key and a short time:
/// a signal that differs from the previous one in any field, or that comes
/// later than the duplicate window, is never a duplicate.
pub proof fn lemma_duplicate_filter_is_scoped(
    previous: LastRawKeyboardSignal,
    signal: RawKeyboardSignal,
    now_ns: u64,
)
    requires
        previous.signal != signal || now_ns > previous.tick_ns + RAW_INPUT_DUPLICATE_WINDOW_NS,
    ensures
        !is_duplicate_spec(Some(previous), signal, now_ns),
{
}

} // verus!

verus! {

/// What a raw keyboard input message turned out to hold.
#[derive(Clone, Copy, Debug, PartialEq, Eq, Structural)]
pub enum RawKeyboardActivity {
    /// A key went down.
    KeyDown(RawKeyboardSignal),
    /// Not a key press: a key release, a fake key, or another device.
    Ignore,
    /// The input could not be read; treat it as unknown activity.
    Fallback,
}

/// The raw input type of a keyboard.
pub const RIM_TYPEKEYBOARD: u32 = 1;

/// The raw keyboard flag of a key release.
pub const RI_KEY_BREAK: u16 = 1;

/// The raw input data as read: whether the message carried a handle, how
/// many bytes were read (`u32::MAX` on failure), the size of a keyboard
/// record, and the record's header size, type, flags, virtual key, device
/// and scan code.
pub open spec fn raw_keyboard_spec(
    has_handle: bool,
    bytes_read: u32,
    record_size: u32,
    header_size: u32,
    header_type: u32,
    flags: u16,
    virtual_key: u16,
    device: usize,
    make_code: u16,
) -> RawKeyboardActivity {
    if !has_handle || bytes_read == u32::MAX || bytes_read < record_size || header_size < record_size {
        RawKeyboardActivity::Fallback
    } else if header_type != RIM_TYPEKEYBOARD {
        RawKeyboardActivity::Ignore
    } else if flags % 2 == 1 || virtual_key == 0xff {
        RawKeyboardActivity::Ignore
    } else {
        RawKeyboardActivity::KeyDown(RawKeyboardSignal { device, make_code, flags, virtual_key })
    }
}

/// Classifies a raw keyboard input record.
pub fn classify_raw_keyboard(
    has_handle: bool,
    bytes_read: u32,
    record_size: u32,
    header_size: u32,
    header_type: u32,
    flags: u16,
    virtual_key: u16,
    device: usize,
    make_code: u16,
) -> (r: RawKeyboardActivity)
    ensures
        r == raw_keyboard_spec(
            has_handle,
            bytes_read,
            record_size,
            header_size,
            header_type,
            flags,
            virtual_key,
            device,
            make_code,
        ),
{
    if !has_handle || bytes_read == u32::MAX || bytes_read < record_size || header_size < record_size {
        return RawKeyboardActivity::Fallback;
    }
    if header_type != RIM_TYPEKEYBOARD {
        return RawKeyboardActivity::Ignore;
    }
    let released = flags & RI_KEY_BREAK;
    assert((released != 0) == (flags % 2 == 1)) by (bit_vector)
        requires
            released == flags & 1u16,
    ;
    if released != 0 || virtual_key == 0xff {
        RawKeyboardActivity::Ignore
    } else {
        RawKeyboardActivity::KeyDown(RawKeyboardSignal { device, make_code, flags, virtual_key })
    }
}

/// Whether a key press may need a refresh: the key can change the IME, or
/// a modifier (Shift, Ctrl, Alt, a Windows key) is held.
pub fn raw_keyboard_signal_needs_refresh(signal: RawKeyboardSignal, modifier_down: bool) -> (r: bool)
    ensures
        r == (key_can_change_ime_spec(signal.virtual_key as i32) || modifier_down),
{
    raw_keyboard_key_can_change_ime(signal.virtual_key as i32) || modifier_down
}

/// Whether a key press opens a surface that takes the focus late: Ctrl+F,
/// Ctrl+H or Ctrl+P.
pub fn opens_delayed_focus_surface(signal: RawKeyboardSignal, control_down: bool) -> (r: bool)
    ensures
        r == ((signal.virtual_key == 0x46 || signal.virtual_key == 0x48 || signal.virtual_key == 0x50)
            && control_down),
{
    (signal.virtual_key == 0x46 || signal.virtual_key == 0x48 || signal.virtual_key == 0x50)
        && control_down
}

pub open spec fn class_task_manager_window() -> Seq<char> {
    seq!['T', 'a', 's', 'k', 'M', 'a', 'n', 'a', 'g', 'e', 'r', 'W', 'i', 'n', 'd', 'o', 'w']
}

pub open spec fn class_input_site_window() -> Seq<char> {
    seq!['W', 'i', 'n', 'd', 'o', 'w', 's', '.', 'U', 'I', '.', 'I', 'n', 'p', 'u', 't', '.', 'I', 'n', 'p', 'u', 't', 'S', 'i', 't', 'e', '.', 'W', 'i', 'n', 'd', 'o', 'w', 'C', 'l', 'a', 's', 's']
}

/// Whether Task Manager's search box has the focus: Task Manager's window is
/// in the foreground and an input site window has the focus, both compared
/// without ASCII case (a missing class never matches).
pub open spec fn task_manager_search_spec(foreground_class: Option<Seq<char>>, focus_class: Option<Seq<char>>) -> bool {
    &&& (foreground_class matches Some(f) && crate::text::eq_ignore_case(f, class_task_manager_window()))
    &&& (focus_class matches Some(c) && crate::text::eq_ignore_case(c, class_input_site_window()))
}

/// Whether Task Manager's search box has the focus, from the class names of
/// the foreground and focus windows.
pub fn task_manager_search_is_active(foreground_class: Option<&str>, focus_class: Option<&str>) -> (r: bool)
    ensures
        r == task_manager_search_spec(
            match foreground_class {
                Some(f) => Some(f@),
                None => None,
            },
            match focus_class {
                Some(c) => Some(c@),
                None => None,
            },
        ),
{
    let task_manager = ['T', 'a', 's', 'k', 'M', 'a', 'n', 'a', 'g', 'e', 'r', 'W', 'i', 'n', 'd', 'o', 'w'];
    assert(task_manager@ == class_task_manager_window());
    let input_site = ['W', 'i', 'n', 'd', 'o', 'w', 's', '.', 'U', 'I', '.', 'I', 'n', 'p', 'u', 't', '.', 'I', 'n', 'p', 'u', 't', 'S', 'i', 't', 'e', '.', 'W', 'i', 'n', 'd', 'o', 'w', 'C', 'l', 'a', 's', 's'];
    assert(input_site@ == class_input_site_window());
    let foreground_matches = match foreground_class {
        Some(f) => crate::text::str_eq_ignore_case(f, &task_manager),
        None => false,
    };
    let focus_matches = match focus_class {
        Some(c) => crate::text::str_eq_ignore_case(c, &input_site),
        None => false,
    };
    foreground_matches && focus_matches
}

} // verus!
