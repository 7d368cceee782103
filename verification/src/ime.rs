use vstd::prelude::*;

use crate::text::{
    chars_of, chars_equal, decode_utf16_lossy, decode_utf16_lossy_chars, lower_chars, lower_seq,
    string_from_chars,
};

verus! {

pub const LANG_CHINESE: u16 = 0x04;

pub const LANG_JAPANESE: u16 = 0x11;

pub const LANG_KOREAN: u16 = 0x12;

/// How current an IME state is.
#[derive(Clone, Copy, Debug, PartialEq, Eq, Structural)]
pub enum Validity {
    Invalid,
    Live,
    Cached,
}

/// The IME state of the focused input: its conversion mode, keyboard
/// language and open state.
#[derive(Clone, Copy, Debug, PartialEq, Eq, Structural)]
pub struct ImeSnapshot {
    pub validity: Validity,
    pub conversion_mode: u32,
    pub language_id: u16,
    pub is_open: bool,
}

impl Default for ImeSnapshot {
    fn default() -> (s: Self)
        ensures
            s == (ImeSnapshot {
                validity: Validity::Invalid,
                conversion_mode: 0,
                language_id: 0,
                is_open: false,
            }),
    {
        ImeSnapshot { validity: Validity::Invalid, conversion_mode: 0, language_id: 0, is_open: false }
    }
}

/// What the IME window or input context of a window reports.
#[derive(Clone, Copy, Debug, PartialEq, Eq, Structural)]
pub struct ImeWindowQuery {
    pub is_open: bool,
    pub conversion_mode: u32,
    pub conversion_valid: bool,
}

/// The primary language of a language identifier (its low ten bits).
pub open spec fn primary_language(language_id: u16) -> int {
    language_id as int % 1024
}

fn primary_language_exec(language_id: u16) -> (p: u16)
    ensures
        p as int == primary_language(language_id),
{
    let p = language_id & 0x03ff;
    assert(p == language_id % 1024) by (bit_vector)
        requires
            p == language_id & 0x03ff,
    ;
    p
}

/// The conversion mode to show: the reported one when the IME is closed or
/// reported it, else the native mode of the language (Japanese hiragana 9,
/// Korean 1, 0 otherwise), because some IMEs report only the open state.
pub open spec fn normalized_conversion_mode_spec(query: ImeWindowQuery, language_id: u16) -> u32 {
    if !query.is_open || query.conversion_valid {
        query.conversion_mode
    } else if primary_language(language_id) == LANG_JAPANESE {
        9
    } else if primary_language(language_id) == LANG_KOREAN {
        1
    } else {
        0
    }
}

/// The conversion mode to show for what the IME reported.
pub fn normalized_conversion_mode(query: ImeWindowQuery, language_id: u16) -> (mode: u32)
    ensures
        mode == normalized_conversion_mode_spec(query, language_id),
{
    if !query.is_open || query.conversion_valid {
        return query.conversion_mode;
    }
    let primary = primary_language_exec(language_id);
    if primary == LANG_JAPANESE {
        9
    } else if primary == LANG_KOREAN {
        1
    } else {
        0
    }
}

/// The state reported when no IME answered and no recent state is cached: a
/// keyboard language without an IME (not Chinese, Japanese or Korean) is a
/// live closed state; otherwise the state is unknown.
pub open spec fn snapshot_without_ime_spec(language_id: u16) -> ImeSnapshot {
    let p = primary_language(language_id);
    if language_id != 0 && p != LANG_CHINESE && p != LANG_JAPANESE && p != LANG_KOREAN {
        ImeSnapshot { validity: Validity::Live, conversion_mode: 0, language_id, is_open: false }
    } else {
        ImeSnapshot { validity: Validity::Invalid, conversion_mode: 0, language_id, is_open: false }
    }
}

/// The state reported when no IME answered and no recent state is cached.
pub fn snapshot_without_ime(language_id: u16) -> (s: ImeSnapshot)
    ensures
        s == snapshot_without_ime_spec(language_id),
{
    let p = primary_language_exec(language_id);
    if language_id != 0 && p != LANG_CHINESE && p != LANG_JAPANESE && p != LANG_KOREAN {
        ImeSnapshot { validity: Validity::Live, conversion_mode: 0, language_id, is_open: false }
    } else {
        ImeSnapshot { validity: Validity::Invalid, conversion_mode: 0, language_id, is_open: false }
    }
}

/// The snapshot recorded for a live answer of the IME.
pub fn live_snapshot(query: ImeWindowQuery, language_id: u16) -> (s: ImeSnapshot)
    ensures
        s == (ImeSnapshot {
            validity: Validity::Live,
            conversion_mode: normalized_conversion_mode_spec(query, language_id),
            language_id,
            is_open: query.is_open,
        }),
{
    ImeSnapshot {
        validity: Validity::Live,
        conversion_mode: normalized_conversion_mode(query, language_id),
        language_id,
        is_open: query.is_open,
    }
}

/// The key under which an IME state is cached: the UI thread when it is
/// known, else the window.
#[derive(Clone, Copy, Debug, PartialEq, Eq, Hash, Structural)]
pub enum CacheKey {
    Thread(u32),
    Window(usize),
}

/// The key under which an IME state is cached.
pub fn cache_key(thread_id: u32, window: usize) -> (k: CacheKey)
    ensures
        k == (if thread_id != 0 {
            CacheKey::Thread(thread_id)
        } else {
            CacheKey::Window(window)
        }),
{
    if thread_id != 0 {
        CacheKey::Thread(thread_id)
    } else {
        CacheKey::Window(window)
    }
}

/// The first window handle that is not null, or null.
pub fn first_non_null(values: &[usize]) -> (r: usize)
    ensures
        r == 0 ==> forall|i: int| 0 <= i < values@.len() ==> values@[i] == 0,
        r != 0 ==> exists|i: int|
            0 <= i < values@.len() && values@[i] == r && forall|j: int|
                0 <= j < i ==> values@[j] == 0,
{
    let mut i: usize = 0;
    while i < values.len()
        invariant
            i <= values@.len(),
            forall|j: int| 0 <= j < i ==> values@[j] == 0,
        decreases values@.len() - i,
    {
        if values[i] != 0 {
            return values[i];
        }
        i = i + 1;
    }
    0
}

pub open spec fn name_searchhost_exe() -> Seq<char> {
    seq!['s', 'e', 'a', 'r', 'c', 'h', 'h', 'o', 's', 't', '.', 'e', 'x', 'e']
}

pub open spec fn name_searchapp_exe() -> Seq<char> {
    seq!['s', 'e', 'a', 'r', 'c', 'h', 'a', 'p', 'p', '.', 'e', 'x', 'e']
}

pub open spec fn name_startmenuexperiencehost_exe() -> Seq<char> {
    seq!['s', 't', 'a', 'r', 't', 'm', 'e', 'n', 'u', 'e', 'x', 'p', 'e', 'r', 'i', 'e', 'n', 'c', 'e', 'h', 'o', 's', 't', '.', 'e', 'x', 'e']
}

pub open spec fn name_shellexperiencehost_exe() -> Seq<char> {
    seq!['s', 'h', 'e', 'l', 'l', 'e', 'x', 'p', 'e', 'r', 'i', 'e', 'n', 'c', 'e', 'h', 'o', 's', 't', '.', 'e', 'x', 'e']
}

pub open spec fn name_textinputhost_exe() -> Seq<char> {
    seq!['t', 'e', 'x', 't', 'i', 'n', 'p', 'u', 't', 'h', 'o', 's', 't', '.', 'e', 'x', 'e']
}

pub open spec fn name_explorer_exe() -> Seq<char> {
    seq!['e', 'x', 'p', 'l', 'o', 'r', 'e', 'r', '.', 'e', 'x', 'e']
}

/// Whether a process of this (lowercase) executable name hosts modern
/// Windows shell surfaces that can hold the keyboard focus: Search, Start,
/// the shell experience host, the text input host and Explorer.
pub open spec fn is_shell_focus_process_spec(name: Seq<char>) -> bool {
    name == name_searchhost_exe() || name == name_searchapp_exe() || name
        == name_startmenuexperiencehost_exe() || name == name_shellexperiencehost_exe() || name
        == name_textinputhost_exe() || name == name_explorer_exe()
}

/// Whether a process of this (lowercase) executable name draws shell
/// overlays over other windows: Search, Start and the shell experience host.
pub open spec fn is_shell_overlay_process_spec(name: Seq<char>) -> bool {
    name == name_searchhost_exe() || name == name_searchapp_exe() || name
        == name_startmenuexperiencehost_exe() || name == name_shellexperiencehost_exe()
}

/// The order in which modern input hosts are searched for the IME window:
/// the text input host first, then Search, Start, the shell experience host
/// and Explorer; other processes are not input hosts.
pub open spec fn input_host_priority_spec(name: Seq<char>) -> Option<u8> {
    if name == name_textinputhost_exe() {
        Some(0)
    } else if name == name_searchhost_exe() || name == name_searchapp_exe() {
        Some(1)
    } else if name == name_startmenuexperiencehost_exe() {
        Some(2)
    } else if name == name_shellexperiencehost_exe() {
        Some(3)
    } else if name == name_explorer_exe() {
        Some(4)
    } else {
        None
    }
}

struct ShellNames {
    searchhost_exe: bool,
    searchapp_exe: bool,
    startmenuexperiencehost_exe: bool,
    shellexperiencehost_exe: bool,
    textinputhost_exe: bool,
    explorer_exe: bool,
}

fn shell_names(name: &str) -> (r: ShellNames)
    ensures
        r.searchhost_exe == (name@ == name_searchhost_exe()),
        r.searchapp_exe == (name@ == name_searchapp_exe()),
        r.startmenuexperiencehost_exe == (name@ == name_startmenuexperiencehost_exe()),
        r.shellexperiencehost_exe == (name@ == name_shellexperiencehost_exe()),
        r.textinputhost_exe == (name@ == name_textinputhost_exe()),
        r.explorer_exe == (name@ == name_explorer_exe()),
{
    let chars = chars_of(name);
    let p_searchhost_exe = ['s', 'e', 'a', 'r', 'c', 'h', 'h', 'o', 's', 't', '.', 'e', 'x', 'e'];
    assert(p_searchhost_exe@ == name_searchhost_exe());
    let p_searchapp_exe = ['s', 'e', 'a', 'r', 'c', 'h', 'a', 'p', 'p', '.', 'e', 'x', 'e'];
    assert(p_searchapp_exe@ == name_searchapp_exe());
    let p_startmenuexperiencehost_exe = ['s', 't', 'a', 'r', 't', 'm', 'e', 'n', 'u', 'e', 'x', 'p', 'e', 'r', 'i', 'e', 'n', 'c', 'e', 'h', 'o', 's', 't', '.', 'e', 'x', 'e'];
    assert(p_startmenuexperiencehost_exe@ == name_startmenuexperiencehost_exe());
    let p_shellexperiencehost_exe = ['s', 'h', 'e', 'l', 'l', 'e', 'x', 'p', 'e', 'r', 'i', 'e', 'n', 'c', 'e', 'h', 'o', 's', 't', '.', 'e', 'x', 'e'];
    assert(p_shellexperiencehost_exe@ == name_shellexperiencehost_exe());
    let p_textinputhost_exe = ['t', 'e', 'x', 't', 'i', 'n', 'p', 'u', 't', 'h', 'o', 's', 't', '.', 'e', 'x', 'e'];
    assert(p_textinputhost_exe@ == name_textinputhost_exe());
    let p_explorer_exe = ['e', 'x', 'p', 'l', 'o', 'r', 'e', 'r', '.', 'e', 'x', 'e'];
    assert(p_explorer_exe@ == name_explorer_exe());
    ShellNames {
        searchhost_exe: chars_equal(&chars, &p_searchhost_exe),
        searchapp_exe: chars_equal(&chars, &p_searchapp_exe),
        startmenuexperiencehost_exe: chars_equal(&chars, &p_startmenuexperiencehost_exe),
        shellexperiencehost_exe: chars_equal(&chars, &p_shellexperiencehost_exe),
        textinputhost_exe: chars_equal(&chars, &p_textinputhost_exe),
        explorer_exe: chars_equal(&chars, &p_explorer_exe),
    }
}

/// Whether a process of this (lowercase) executable name hosts modern shell
/// surfaces that can hold the keyboard focus.
pub fn is_modern_shell_focus_process(name: &str) -> (r: bool)
    ensures
        r == is_shell_focus_process_spec(name@),
{
    let n = shell_names(name);
    n.searchhost_exe || n.searchapp_exe || n.startmenuexperiencehost_exe
        || n.shellexperiencehost_exe || n.textinputhost_exe || n.explorer_exe
}

/// Whether a process of this (lowercase) executable name draws shell
/// overlays over other windows.
pub fn is_modern_shell_overlay_process(name: &str) -> (r: bool)
    ensures
        r == is_shell_overlay_process_spec(name@),
{
    let n = shell_names(name);
    n.searchhost_exe || n.searchapp_exe || n.startmenuexperiencehost_exe
        || n.shellexperiencehost_exe
}

/// The order in which modern input hosts are searched for the IME window.
pub fn modern_input_host_priority(name: &str) -> (r: Option<u8>)
    ensures
        r == input_host_priority_spec(name@),
{
    let n = shell_names(name);
    if n.textinputhost_exe {
        Some(0)
    } else if n.searchhost_exe || n.searchapp_exe {
        Some(1)
    } else if n.startmenuexperiencehost_exe {
        Some(2)
    } else if n.shellexperiencehost_exe {
        Some(3)
    } else if n.explorer_exe {
        Some(4)
    } else {
        None
    }
}

/// The units of a NUL-terminated UTF-16 buffer up to its first NUL, or all
/// of them when there is none.
pub open spec fn units_before_nul(units: Seq<u16>) -> Seq<u16> {
    units.take(crate::text::find_unit(units, 0, 0))
}

/// The lowercase executable name held in a process entry's name buffer.
pub open spec fn executable_name_spec(value: Seq<u16>) -> Seq<char> {
    lower_seq(decode_utf16_lossy(units_before_nul(value)))
}

/// The lowercase executable name held in a process entry's name buffer,
/// undecodable units replaced by U+FFFD.
pub fn executable_name(value: &[u16; 260]) -> (name: String)
    ensures
        name@ == executable_name_spec(value@),
{
    let units = crate::text::units_until_nul(value);
    let chars = decode_utf16_lossy_chars(units.as_slice());
    let lowered = lower_chars(&chars);
    string_from_chars(&lowered)
}

} // verus!

verus! {

/// How close a process is to the focus: the focused process first, then the
/// foreground process, then any other.
pub open spec fn focus_rank(process_id: u32, foreground_process_id: u32, focused_process_id: u32) -> u8 {
    if process_id == focused_process_id {
        0
    } else if process_id == foreground_process_id {
        1
    } else {
        2
    }
}

/// Whether a modern shell surface holds the focus: the foreground or the
/// focused process is one of the shell's focus processes.
pub open spec fn shell_has_focus_spec(
    processes: Seq<(u32, String)>,
    foreground_process_id: u32,
    focused_process_id: u32,
) -> bool {
    exists|i: int|
        0 <= i < processes.len() && (processes[i].0 == foreground_process_id || processes[i].0
            == focused_process_id) && is_shell_focus_process_spec(#[trigger] processes[i].1@)
}

/// The input hosts among `processes`, ranked by closeness to the focus and
/// by input-host priority, in the order of `processes`.
pub open spec fn input_host_candidates(
    processes: Seq<(u32, String)>,
    foreground_process_id: u32,
    focused_process_id: u32,
) -> Seq<crate::order::Ranked>
    decreases processes.len(),
{
    if processes.len() == 0 {
        seq![]
    } else {
        let last = processes.last();
        let rest = input_host_candidates(
            processes.drop_last(),
            foreground_process_id,
            focused_process_id,
        );
        match input_host_priority_spec(last.1@) {
            Some(p) => rest.push(
                (focus_rank(last.0, foreground_process_id, focused_process_id), p, last.0),
            ),
            None => rest,
        }
    }
}

/// The processes whose windows are searched for the IME of a modern shell
/// surface: none unless a shell surface holds the focus; else the input hosts,
/// the focused process first, then the foreground one, then by input-host
/// priority and process id, each process once.
pub open spec fn shell_input_processes_spec(
    processes: Seq<(u32, String)>,
    foreground_process_id: u32,
    focused_process_id: u32,
) -> Seq<u32> {
    if shell_has_focus_spec(processes, foreground_process_id, focused_process_id) {
        crate::order::dedup_ids(
            input_host_candidates(
                processes,
                foreground_process_id,
                focused_process_id,
            ).sort_by(crate::order::ranked_order()),
        )
    } else {
        seq![]
    }
}

/// The processes whose windows are searched for the IME of a modern shell
/// surface, from the running processes as (process id, lowercase executable
/// name).
pub fn rank_shell_input_processes(
    processes: &Vec<(u32, String)>,
    foreground_process_id: u32,
    focused_process_id: u32,
) -> (r: Vec<u32>)
    ensures
        r@ == shell_input_processes_spec(processes@, foreground_process_id, focused_process_id),
{
    let mut has_focus = false;
    let mut i: usize = 0;
    while i < processes.len()
        invariant
            i <= processes@.len(),
            has_focus == exists|j: int|
                0 <= j < i && (processes@[j].0 == foreground_process_id || processes@[j].0
                    == focused_process_id) && is_shell_focus_process_spec(
                    #[trigger] processes@[j].1@,
                ),
        decreases processes@.len() - i,
    {
        let process_id = processes[i].0;
        if (process_id == foreground_process_id || process_id == focused_process_id)
            && is_modern_shell_focus_process(processes[i].1.as_str()) {
            has_focus = true;
        }
        i = i + 1;
    }
    if !has_focus {
        return Vec::new();
    }
    let mut candidates: Vec<crate::order::Ranked> = Vec::new();
    let mut k: usize = 0;
    while k < processes.len()
        invariant
            k <= processes@.len(),
            candidates@ == input_host_candidates(
                processes@.take(k as int),
                foreground_process_id,
                focused_process_id,
            ),
        decreases processes@.len() - k,
    {
        assert(processes@.take(k + 1).drop_last() =~= processes@.take(k as int));
        let process_id = processes[k].0;
        match modern_input_host_priority(processes[k].1.as_str()) {
            Some(priority) => {
                let rank: u8 = if process_id == focused_process_id {
                    0
                } else if process_id == foreground_process_id {
                    1
                } else {
                    2
                };
                candidates.push((rank, priority, process_id));
            },
            None => {},
        }
        k = k + 1;
    }
    assert(processes@.take(processes@.len() as int) =~= processes@);
    let sorted = crate::order::sort_ranked(&candidates);
    crate::order::dedup_ranked_ids(&sorted)
}

} // verus!
