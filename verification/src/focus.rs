//! Deciding whether the focused control takes text, and in which order the
//! caret sources of the foreground application are asked.
//!
//! The probes themselves (window classes, UI Automation, accessibility
//! objects, console buffers) are made by the caller; these functions decide
//! from their answers.
use vstd::prelude::*;

use crate::editability::{
    is_chromium_widget_class, is_console_like_class, is_office_uia_preferred_caret_class,
    is_uia_preferred_caret_class, Editability, NodeEvidence,
};
use crate::text::str_eq_ignore_case;

verus! {

/// What walking up from the focused element has seen so far.
#[derive(Clone, Copy, Debug, PartialEq, Eq, Structural)]
pub struct ChainState {
    pub saw_read_only: bool,
    pub saw_selectable_text: bool,
    pub saw_code_like_text: bool,
}

/// The next step of the walk up the element chain.
#[derive(Clone, Copy, Debug, PartialEq, Eq, Structural)]
pub enum ChainStep {
    /// The verdict is known; stop walking.
    Done(Editability),
    /// Go on to the parent element with this state.
    Continue(ChainState),
}

/// The state before any element was inspected.
pub open spec fn chain_start() -> ChainState {
    ChainState { saw_read_only: false, saw_selectable_text: false, saw_code_like_text: false }
}

/// One element's evidence folded into the walk: an editable field or
/// document decides, unless a code element below it was seen (code is never
/// an input, nor is what contains it); read-only, selectable and code
/// evidence are remembered.
pub open spec fn chain_step_spec(state: ChainState, evidence: NodeEvidence) -> ChainStep {
    match evidence {
        NodeEvidence::EditableField | NodeEvidence::EditableDocument => if !state.saw_code_like_text {
            ChainStep::Done(Editability::Editable)
        } else {
            ChainStep::Continue(state)
        },
        NodeEvidence::ReadOnly => ChainStep::Continue(ChainState { saw_read_only: true, ..state }),
        NodeEvidence::CodeLikeText => ChainStep::Continue(
            ChainState { saw_selectable_text: true, saw_code_like_text: true, ..state },
        ),
        NodeEvidence::SelectableText => ChainStep::Continue(
            ChainState { saw_selectable_text: true, ..state },
        ),
        NodeEvidence::Unknown => ChainStep::Continue(state),
    }
}

/// The verdict when the walk ends without an editable element: read-only
/// when anything read-only or merely selectable was seen, else unknown.
pub open spec fn chain_end_spec(state: ChainState) -> Editability {
    if state.saw_read_only || state.saw_selectable_text {
        Editability::ReadOnly
    } else {
        Editability::Unknown
    }
}

/// The verdict of a whole chain of evidence, from the focused element up.
pub open spec fn chain_verdict(state: ChainState, evidence: Seq<NodeEvidence>) -> Editability
    decreases evidence.len(),
{
    if evidence.len() == 0 {
        chain_end_spec(state)
    } else {
        match chain_step_spec(state, evidence[0]) {
            ChainStep::Done(e) => e,
            ChainStep::Continue(next) => chain_verdict(next, evidence.drop_first()),
        }
    }
}

/// The walk's first state.
pub fn chain_initial_state() -> (s: ChainState)
    ensures
        s == chain_start(),
{
    ChainState { saw_read_only: false, saw_selectable_text: false, saw_code_like_text: false }
}

/// Folds one element's evidence into the walk up the element chain.
pub fn evidence_chain_step(state: ChainState, evidence: NodeEvidence) -> (r: ChainStep)
    ensures
        r == chain_step_spec(state, evidence),
{
    match evidence {
        NodeEvidence::EditableField | NodeEvidence::EditableDocument => if !state.saw_code_like_text {
            ChainStep::Done(Editability::Editable)
        } else {
            ChainStep::Continue(state)
        },
        NodeEvidence::ReadOnly => ChainStep::Continue(ChainState { saw_read_only: true, ..state }),
        NodeEvidence::CodeLikeText => ChainStep::Continue(
            ChainState { saw_selectable_text: true, saw_code_like_text: true, ..state },
        ),
        NodeEvidence::SelectableText => ChainStep::Continue(
            ChainState { saw_selectable_text: true, ..state },
        ),
        NodeEvidence::Unknown => ChainStep::Continue(state),
    }
}

/// The verdict when the walk ended without finding an editable element.
pub fn evidence_chain_end(state: ChainState) -> (r: Editability)
    ensures
        r == chain_end_spec(state),
{
    if state.saw_read_only || state.saw_selectable_text {
        Editability::ReadOnly
    } else {
        Editability::Unknown
    }
}

/// The verdict of the evidence of an element chain, focused element first.
pub fn classify_evidence_chain(evidence: &Vec<NodeEvidence>) -> (r: Editability)
    ensures
        r == chain_verdict(chain_start(), evidence@),
{
    let mut state = chain_initial_state();
    let mut i: usize = 0;
    assert(evidence@.skip(0) =~= evidence@);
    while i < evidence.len()
        invariant
            i <= evidence@.len(),
            chain_verdict(chain_start(), evidence@) == chain_verdict(state, evidence@.skip(i as int)),
        decreases evidence@.len() - i,
    {
        assert(evidence@.skip(i as int).drop_first() =~= evidence@.skip(i + 1));
        match evidence_chain_step(state, evidence[i]) {
            ChainStep::Done(e) => {
                return e;
            },
            ChainStep::Continue(next) => {
                state = next;
            },
        }
        i = i + 1;
    }
    evidence_chain_end(state)
}

/// Once a code element was seen, nothing further up makes the chain
/// editable: it ends read-only.
pub proof fn lemma_code_shields_ancestors(state: ChainState, evidence: Seq<NodeEvidence>)
    requires
        state.saw_code_like_text,
        state.saw_selectable_text,
    ensures
        chain_verdict(state, evidence) == Editability::ReadOnly,
    decreases evidence.len(),
{
    if evidence.len() > 0 {
        match chain_step_spec(state, evidence[0]) {
            ChainStep::Done(e) => {},
            ChainStep::Continue(next) => {
                lemma_code_shields_ancestors(next, evidence.drop_first());
            },
        }
    }
}

/// A chain whose focused element is code is never editable: it reads as
/// read-only whatever its ancestors say.
pub proof fn lemma_code_element_is_never_editable(evidence: Seq<NodeEvidence>)
    requires
        evidence.len() > 0,
        evidence[0] == NodeEvidence::CodeLikeText,
    ensures
        chain_verdict(chain_start(), evidence) == Editability::ReadOnly,
{
    let next = ChainState { saw_read_only: false, saw_selectable_text: true, saw_code_like_text: true };
    assert(chain_step_spec(chain_start(), evidence[0]) == ChainStep::Continue(next));
    lemma_code_shields_ancestors(next, evidence.drop_first());
}

/// The windows that identify the focus: foreground, focus and caret owners.
#[derive(Clone, Copy, Debug, PartialEq, Eq, Structural)]
pub struct FocusTargets {
    pub foreground: usize,
    pub focus: usize,
    pub caret: usize,
}

/// A verdict on the focused control and when it was reached, in
/// nanoseconds on a monotonic clock.
#[derive(Clone, Copy, Debug, PartialEq, Eq, Structural)]
pub struct CachedFocusProbe {
    pub targets: FocusTargets,
    pub result: Editability,
    pub tick_ns: u64,
}

/// A verdict is reused for this long while the focus stays put.
pub const FOCUS_PROBE_CACHE_NS: u64 = 250_000_000;

/// The verdict to reuse: the last one, when it was reached for the same
/// windows at most the cache time ago.
pub open spec fn cached_focus_spec(cached: Option<CachedFocusProbe>, targets: FocusTargets, now_ns: u64) -> Option<
    Editability,
> {
    match cached {
        Some(c) => if c.targets == targets && c.tick_ns <= now_ns && now_ns - c.tick_ns
            <= FOCUS_PROBE_CACHE_NS {
            Some(c.result)
        } else {
            None
        },
        None => None,
    }
}

/// The last verdict, if it still holds for these windows at `now_ns`.
pub fn cached_focus_result(cached: Option<CachedFocusProbe>, targets: FocusTargets, now_ns: u64) -> (r:
    Option<Editability>)
    ensures
        r == cached_focus_spec(cached, targets, now_ns),
{
    match cached {
        Some(c) => if c.targets == targets && c.tick_ns <= now_ns && now_ns - c.tick_ns
            <= FOCUS_PROBE_CACHE_NS {
            Some(c.result)
        } else {
            None
        },
        None => None,
    }
}

/// What the standard windows (caret owner, then focus owner) say: editable
/// as soon as one of them is, and whether any said read-only.
pub open spec fn standard_windows_spec(verdicts: Seq<Option<Editability>>) -> (bool, bool)
    decreases verdicts.len(),
{
    if verdicts.len() == 0 {
        (false, false)
    } else if verdicts[0] == Some(Editability::Editable) {
        (true, false)
    } else {
        let rest = standard_windows_spec(verdicts.drop_first());
        if rest.0 {
            rest
        } else {
            (false, rest.1 || verdicts[0] == Some(Editability::ReadOnly))
        }
    }
}

/// Whether one of the standard windows' verdicts is editable (first), and
/// whether one is read-only (second).
pub fn standard_windows_verdict(verdicts: &Vec<Option<Editability>>) -> (r: (bool, bool))
    ensures
        r == standard_windows_spec(verdicts@),
        r.0 <==> exists|i: int| 0 <= i < verdicts@.len() && verdicts@[i] == Some(Editability::Editable),
{
    let mut i: usize = verdicts.len();
    let mut saw_read_only = false;
    let mut editable = false;
    while i > 0
        invariant
            i <= verdicts@.len(),
            (editable, saw_read_only) == standard_windows_spec(verdicts@.skip(i as int)),
            editable <==> exists|j: int| i <= j < verdicts@.len() && verdicts@[j] == Some(Editability::Editable),
        decreases i,
    {
        i = i - 1;
        assert(verdicts@.skip(i as int).drop_first() =~= verdicts@.skip(i + 1));
        if verdicts[i] == Some(Editability::Editable) {
            editable = true;
            saw_read_only = false;
        } else if !editable && verdicts[i] == Some(Editability::ReadOnly) {
            saw_read_only = true;
        }
    }
    assert(verdicts@.skip(0) =~= verdicts@);
    (editable, saw_read_only)
}

/// The final verdict on the focused control: what Word's own editor check
/// said when it was asked, else what UI Automation said, with an unknown
/// answer read as read-only when a standard window said so.
pub open spec fn focus_verdict_spec(
    office_word: Option<Editability>,
    uia: Editability,
    saw_read_only: bool,
) -> Editability {
    match office_word {
        Some(e) => e,
        None => if uia == Editability::Unknown && saw_read_only {
            Editability::ReadOnly
        } else {
            uia
        },
    }
}

/// Combines the answers about the focused control into one verdict.
pub fn focus_verdict(office_word: Option<Editability>, uia: Editability, saw_read_only: bool) -> (r:
    Editability)
    ensures
        r == focus_verdict_spec(office_word, uia, saw_read_only),
{
    match office_word {
        Some(e) => e,
        None => match uia {
            Editability::Unknown => if saw_read_only {
                Editability::ReadOnly
            } else {
                Editability::Unknown
            },
            other => other,
        },
    }
}

/// The checks on the focused control, in the order they are made.
#[derive(Clone, Copy, Debug, PartialEq, Eq, Structural)]
pub enum FocusCheck {
    /// Whether the foreground window is a console host.
    Console,
    /// Whether an Excel cell editor, or a field of an Excel dialog, has the
    /// focus.
    Excel,
    /// Whether Word's own document window (an enabled `_WwG` caret or focus
    /// window under an `OpusApp` foreground) has the focus.
    WordDocument,
    /// The last verdict, when it still holds (`cached_focus_result`).
    Cache,
    /// The caret owner's window (0), then the focus owner's (1).
    Window(u8),
    /// Whether a PowerPoint-like foreground shows an accessible caret.
    OfficeAccessibleCaret,
    /// UI Automation's verdict on the focused element.
    Uia,
}

/// What one of the windows checked by `FocusCheck::Window` is.
#[derive(Clone, Copy, Debug, PartialEq, Eq, Structural)]
pub enum WindowReading {
    /// There is no such window.
    Absent,
    /// A Word document window (`_WwG`). `outlook` is the verdict of Outlook's
    /// mail editor when the window is hosted in Outlook and no such verdict
    /// was taken yet (`FocusProbe::office_word` is `None`); else `None`.
    WordDocument { outlook: Option<Editability> },
    /// Any other window, with what its class and styles say
    /// (`classify_standard_window`).
    Standard(Option<Editability>),
}

/// The answer to a check.
#[derive(Clone, Copy, Debug, PartialEq, Eq, Structural)]
pub enum FocusReading {
    /// The answer to `Console`, `Excel`, `WordDocument` and
    /// `OfficeAccessibleCaret`.
    Flag(bool),
    /// The answer to `Cache`.
    Cached(Option<Editability>),
    /// The answer to `Window`.
    Window(WindowReading),
    /// The answer to `Uia`.
    Uia(Editability),
}

/// Where the checks stand: the next check, whether a standard window said
/// read-only, and Outlook's verdict on a Word document window, if one was
/// taken.
#[derive(Clone, Copy, Debug, PartialEq, Eq, Structural)]
pub struct FocusProbe {
    pub check: FocusCheck,
    pub saw_read_only: bool,
    pub office_word: Option<Editability>,
}

/// What to do with the focus cache once the verdict is known.
#[derive(Clone, Copy, Debug, PartialEq, Eq, Structural)]
pub enum FocusCacheAction {
    /// Remember the verdict for these windows, now.
    Remember,
    /// Leave the cache as it is (the verdict came from it).
    Keep,
    /// Forget the cached verdict (there is no foreground window).
    Clear,
}

/// The outcome of a check: the next check, or the verdict.
#[derive(Clone, Copy, Debug, PartialEq, Eq, Structural)]
pub enum FocusStep {
    Ask(FocusProbe),
    Verdict { result: Editability, cache: FocusCacheAction },
}

/// How the checks begin: with no foreground window the control is unknown
/// and the cache is cleared; otherwise the console check comes first.
pub open spec fn focus_probe_start_spec(foreground_present: bool) -> FocusStep {
    if foreground_present {
        FocusStep::Ask(FocusProbe { check: FocusCheck::Console, saw_read_only: false, office_word: None })
    } else {
        FocusStep::Verdict { result: Editability::Unknown, cache: FocusCacheAction::Clear }
    }
}

/// The first step of the checks on the focused control.
pub fn focus_probe_start(foreground_present: bool) -> (r: FocusStep)
    ensures
        r == focus_probe_start_spec(foreground_present),
{
    if foreground_present {
        FocusStep::Ask(FocusProbe { check: FocusCheck::Console, saw_read_only: false, office_word: None })
    } else {
        FocusStep::Verdict { result: Editability::Unknown, cache: FocusCacheAction::Clear }
    }
}

/// A reading taken as a flag; any other reading counts as `false`.
pub open spec fn reading_flag(reading: FocusReading) -> bool {
    reading == FocusReading::Flag(true)
}

/// A reading taken as a cached verdict; any other reading counts as none.
pub open spec fn reading_cached(reading: FocusReading) -> Option<Editability> {
    match reading {
        FocusReading::Cached(c) => c,
        _ => None,
    }
}

/// A reading taken as a window; any other reading counts as no window.
pub open spec fn reading_window(reading: FocusReading) -> WindowReading {
    match reading {
        FocusReading::Window(w) => w,
        _ => WindowReading::Absent,
    }
}

/// A reading taken as UI Automation's verdict; any other counts as unknown.
pub open spec fn reading_uia(reading: FocusReading) -> Editability {
    match reading {
        FocusReading::Uia(e) => e,
        _ => Editability::Unknown,
    }
}

/// The probe that asks `check` next, with the rest of `p` kept.
pub open spec fn ask_next(p: FocusProbe, check: FocusCheck) -> FocusStep {
    FocusStep::Ask(FocusProbe { check, ..p })
}

/// An editable verdict, remembered.
pub open spec fn editable_verdict() -> FocusStep {
    FocusStep::Verdict { result: Editability::Editable, cache: FocusCacheAction::Remember }
}

/// One check answered: a console host, an Excel editor or Word's document
/// window takes text at once; a verdict that still holds is reused; then the
/// caret and focus windows are classified (an editable one decides, a
/// read-only one is noted, a Word document window in Outlook gives
/// Outlook's verdict); then a PowerPoint-like accessible caret takes text;
/// then Outlook's verdict decides, when there is one, else UI Automation's,
/// read as read-only when it is unknown and a window said read-only.
pub open spec fn focus_probe_step_spec(p: FocusProbe, reading: FocusReading) -> FocusStep {
    match p.check {
        FocusCheck::Console => if reading_flag(reading) {
            editable_verdict()
        } else {
            ask_next(p, FocusCheck::Excel)
        },
        FocusCheck::Excel => if reading_flag(reading) {
            editable_verdict()
        } else {
            ask_next(p, FocusCheck::WordDocument)
        },
        FocusCheck::WordDocument => if reading_flag(reading) {
            editable_verdict()
        } else {
            ask_next(p, FocusCheck::Cache)
        },
        FocusCheck::Cache => match reading_cached(reading) {
            Some(e) => FocusStep::Verdict { result: e, cache: FocusCacheAction::Keep },
            None => ask_next(p, FocusCheck::Window(0)),
        },
        FocusCheck::Window(i) => {
            let next = if i == 0 {
                FocusCheck::Window(1)
            } else {
                FocusCheck::OfficeAccessibleCaret
            };
            match reading_window(reading) {
                WindowReading::Absent => ask_next(p, next),
                WindowReading::WordDocument { outlook } => FocusStep::Ask(
                    FocusProbe {
                        check: next,
                        office_word: if p.office_word is None {
                            outlook
                        } else {
                            p.office_word
                        },
                        ..p
                    },
                ),
                WindowReading::Standard(verdict) => if verdict == Some(Editability::Editable) {
                    editable_verdict()
                } else if verdict == Some(Editability::ReadOnly) {
                    FocusStep::Ask(FocusProbe { check: next, saw_read_only: true, ..p })
                } else {
                    ask_next(p, next)
                },
            }
        },
        FocusCheck::OfficeAccessibleCaret => if reading_flag(reading) {
            editable_verdict()
        } else {
            match p.office_word {
                Some(e) => FocusStep::Verdict { result: e, cache: FocusCacheAction::Remember },
                None => ask_next(p, FocusCheck::Uia),
            }
        },
        FocusCheck::Uia => FocusStep::Verdict {
            result: focus_verdict_spec(p.office_word, reading_uia(reading), p.saw_read_only),
            cache: FocusCacheAction::Remember,
        },
    }
}

/// Takes the answer to the current check and gives the next check or the
/// verdict.
pub fn focus_probe_step(p: FocusProbe, reading: FocusReading) -> (r: FocusStep)
    ensures
        r == focus_probe_step_spec(p, reading),
{
    let flag = match reading {
        FocusReading::Flag(b) => b,
        _ => false,
    };
    match p.check {
        FocusCheck::Console => if flag {
            FocusStep::Verdict { result: Editability::Editable, cache: FocusCacheAction::Remember }
        } else {
            FocusStep::Ask(FocusProbe { check: FocusCheck::Excel, ..p })
        },
        FocusCheck::Excel => if flag {
            FocusStep::Verdict { result: Editability::Editable, cache: FocusCacheAction::Remember }
        } else {
            FocusStep::Ask(FocusProbe { check: FocusCheck::WordDocument, ..p })
        },
        FocusCheck::WordDocument => if flag {
            FocusStep::Verdict { result: Editability::Editable, cache: FocusCacheAction::Remember }
        } else {
            FocusStep::Ask(FocusProbe { check: FocusCheck::Cache, ..p })
        },
        FocusCheck::Cache => {
            let cached = match reading {
                FocusReading::Cached(c) => c,
                _ => None,
            };
            match cached {
                Some(e) => FocusStep::Verdict { result: e, cache: FocusCacheAction::Keep },
                None => FocusStep::Ask(FocusProbe { check: FocusCheck::Window(0), ..p }),
            }
        },
        FocusCheck::Window(i) => {
            let next = if i == 0 {
                FocusCheck::Window(1)
            } else {
                FocusCheck::OfficeAccessibleCaret
            };
            let window = match reading {
                FocusReading::Window(w) => w,
                _ => WindowReading::Absent,
            };
            match window {
                WindowReading::Absent => FocusStep::Ask(FocusProbe { check: next, ..p }),
                WindowReading::WordDocument { outlook } => {
                    let office_word = if p.office_word.is_none() {
                        outlook
                    } else {
                        p.office_word
                    };
                    FocusStep::Ask(FocusProbe { check: next, office_word, ..p })
                },
                WindowReading::Standard(verdict) => match verdict {
                    Some(Editability::Editable) => FocusStep::Verdict {
                        result: Editability::Editable,
                        cache: FocusCacheAction::Remember,
                    },
                    Some(Editability::ReadOnly) => FocusStep::Ask(
                        FocusProbe { check: next, saw_read_only: true, ..p },
                    ),
                    _ => FocusStep::Ask(FocusProbe { check: next, ..p }),
                },
            }
        },
        FocusCheck::OfficeAccessibleCaret => if flag {
            FocusStep::Verdict { result: Editability::Editable, cache: FocusCacheAction::Remember }
        } else {
            match p.office_word {
                Some(e) => FocusStep::Verdict { result: e, cache: FocusCacheAction::Remember },
                None => FocusStep::Ask(FocusProbe { check: FocusCheck::Uia, ..p }),
            }
        },
        FocusCheck::Uia => {
            let uia = match reading {
                FocusReading::Uia(e) => e,
                _ => Editability::Unknown,
            };
            FocusStep::Verdict {
                result: focus_verdict(p.office_word, uia, p.saw_read_only),
                cache: FocusCacheAction::Remember,
            }
        },
    }
}

/// The position of a check in the order of checks.
pub open spec fn focus_check_rank(check: FocusCheck) -> int {
    match check {
        FocusCheck::Console => 0,
        FocusCheck::Excel => 1,
        FocusCheck::WordDocument => 2,
        FocusCheck::Cache => 3,
        FocusCheck::Window(i) => if i == 0 {
            4
        } else {
            5
        },
        FocusCheck::OfficeAccessibleCaret => 6,
        FocusCheck::Uia => 7,
    }
}

/// The checks run forward and end: every step asks a check later in the
/// order (so at most eight checks are made), the cached verdict is reused
/// only after the console, Excel and Word checks said no, and UI Automation
/// is asked only when no Outlook verdict on a Word document window was
/// taken.
pub proof fn lemma_focus_checks_run_forward(p: FocusProbe, reading: FocusReading)
    ensures
        focus_probe_step_spec(p, reading) matches FocusStep::Ask(q) ==> focus_check_rank(q.check)
            > focus_check_rank(p.check),
        focus_probe_step_spec(p, reading) matches FocusStep::Ask(q) ==> q.check == FocusCheck::Uia
            ==> q.office_word is None,
        focus_probe_step_spec(p, reading) matches FocusStep::Verdict { cache, .. } ==> cache
            == FocusCacheAction::Keep ==> p.check == FocusCheck::Cache,
        0 <= focus_check_rank(p.check) <= 7,
{
}

/// What the foreground window's class says about where its caret is read.
#[derive(Clone, Copy, Debug, PartialEq, Eq, Structural)]
pub struct ForegroundFacts {
    /// A console host (classic conhost or Windows Terminal).
    pub console_like: bool,
    /// Classic conhost, whose screen buffer gives the cursor.
    pub classic_console: bool,
    /// Chromium or Firefox: UI Automation is authoritative.
    pub uia_preferred: bool,
    /// PowerPoint: UI Automation first, then accessibility.
    pub office_uia_preferred: bool,
    /// Chromium: only exact caret geometry is believed.
    pub exact_uia_geometry: bool,
}

/// The facts for a foreground window class.
pub open spec fn foreground_facts_spec(class_name: Seq<char>) -> ForegroundFacts {
    let uia = crate::editability::is_uia_preferred_caret_class_spec(class_name);
    ForegroundFacts {
        console_like: crate::editability::is_console_like_class_spec(class_name),
        classic_console: crate::text::eq_ignore_case(class_name, crate::editability::class_consolewindowclass()),
        uia_preferred: uia,
        office_uia_preferred: crate::editability::is_office_uia_preferred_caret_class_spec(class_name),
        exact_uia_geometry: uia && crate::editability::is_chromium_widget_class_spec(class_name),
    }
}

/// The facts for a foreground window class name.
pub fn foreground_facts(class_name: &str) -> (f: ForegroundFacts)
    ensures
        f == foreground_facts_spec(class_name@),
{
    let console = [
        'c',
        'o',
        'n',
        's',
        'o',
        'l',
        'e',
        'w',
        'i',
        'n',
        'd',
        'o',
        'w',
        'c',
        'l',
        'a',
        's',
        's',
    ];
    assert(console@ == crate::editability::class_consolewindowclass());
    let uia = is_uia_preferred_caret_class(class_name);
    ForegroundFacts {
        console_like: is_console_like_class(class_name),
        classic_console: str_eq_ignore_case(class_name, &console),
        uia_preferred: uia,
        office_uia_preferred: is_office_uia_preferred_caret_class(class_name),
        exact_uia_geometry: uia && is_chromium_widget_class(class_name),
    }
}

/// The caret sources, in the order they can be asked.
#[derive(Clone, Copy, Debug, PartialEq, Eq, Structural)]
pub enum CaretSource {
    /// The classic console's screen buffer cursor.
    ClassicConsole,
    /// The browser's accessibility system caret, inside the focused element.
    BrowserAccessible,
    /// The browser's UI Automation text range.
    BrowserUia,
    /// A console host's UI Automation text provider.
    ConsoleUia,
    /// Excel's editors and dialogs, and Word or Outlook document windows.
    OfficeEditors,
    /// PowerPoint's UI Automation text range.
    PresentationUia,
    /// PowerPoint's accessibility caret.
    PresentationAccessible,
    /// The Win32 system caret of the focused thread.
    Win32Caret,
    /// The focused element's UI Automation text range.
    GenericUia,
}

/// What asking a caret source gave.
#[derive(Clone, Copy, Debug, PartialEq, Eq, Structural)]
pub enum ProbeOutcome {
    /// An anchor: it is the caret.
    Found,
    /// The source says there is no caret to show (a selection, say).
    Suppress,
    /// The source knows nothing.
    Missing,
}

/// The source to ask after the console (or first, without one).
pub open spec fn after_console_spec(facts: ForegroundFacts) -> CaretSource {
    if facts.uia_preferred {
        CaretSource::BrowserAccessible
    } else if facts.console_like {
        CaretSource::ConsoleUia
    } else {
        CaretSource::OfficeEditors
    }
}

/// The first caret source to ask.
pub open spec fn first_source_spec(facts: ForegroundFacts) -> CaretSource {
    if facts.classic_console {
        CaretSource::ClassicConsole
    } else {
        after_console_spec(facts)
    }
}

/// The source to ask next after `source` gave `outcome`, `None` to stop: a
/// found caret always stops; the browser and console paths never fall
/// through to other sources; a suppressing Office editor or PowerPoint
/// range stops too.
pub open spec fn next_source_spec(facts: ForegroundFacts, source: CaretSource, outcome: ProbeOutcome) -> Option<
    CaretSource,
> {
    if outcome == ProbeOutcome::Found {
        None
    } else {
        match source {
            CaretSource::ClassicConsole => Some(after_console_spec(facts)),
            CaretSource::BrowserAccessible => Some(CaretSource::BrowserUia),
            CaretSource::BrowserUia => None,
            CaretSource::ConsoleUia => None,
            CaretSource::OfficeEditors => if outcome == ProbeOutcome::Suppress {
                None
            } else if facts.office_uia_preferred {
                Some(CaretSource::PresentationUia)
            } else {
                Some(CaretSource::Win32Caret)
            },
            CaretSource::PresentationUia => if outcome == ProbeOutcome::Suppress {
                None
            } else {
                Some(CaretSource::PresentationAccessible)
            },
            CaretSource::PresentationAccessible => None,
            CaretSource::Win32Caret => Some(CaretSource::GenericUia),
            CaretSource::GenericUia => None,
        }
    }
}

/// The first caret source to ask for this foreground window.
pub fn first_caret_source(facts: ForegroundFacts) -> (s: CaretSource)
    ensures
        s == first_source_spec(facts),
{
    if facts.classic_console {
        CaretSource::ClassicConsole
    } else if facts.uia_preferred {
        CaretSource::BrowserAccessible
    } else if facts.console_like {
        CaretSource::ConsoleUia
    } else {
        CaretSource::OfficeEditors
    }
}

/// The caret source to ask after `source` gave `outcome`, if any.
pub fn next_caret_source(facts: ForegroundFacts, source: CaretSource, outcome: ProbeOutcome) -> (r:
    Option<CaretSource>)
    ensures
        r == next_source_spec(facts, source, outcome),
{
    if outcome == ProbeOutcome::Found {
        return None;
    }
    match source {
        CaretSource::ClassicConsole => Some(
            if facts.uia_preferred {
                CaretSource::BrowserAccessible
            } else if facts.console_like {
                CaretSource::ConsoleUia
            } else {
                CaretSource::OfficeEditors
            },
        ),
        CaretSource::BrowserAccessible => Some(CaretSource::BrowserUia),
        CaretSource::BrowserUia => None,
        CaretSource::ConsoleUia => None,
        CaretSource::OfficeEditors => if outcome == ProbeOutcome::Suppress {
            None
        } else if facts.office_uia_preferred {
            Some(CaretSource::PresentationUia)
        } else {
            Some(CaretSource::Win32Caret)
        },
        CaretSource::PresentationUia => if outcome == ProbeOutcome::Suppress {
            None
        } else {
            Some(CaretSource::PresentationAccessible)
        },
        CaretSource::PresentationAccessible => None,
        CaretSource::Win32Caret => Some(CaretSource::GenericUia),
        CaretSource::GenericUia => None,
    }
}

/// Which sources can be asked for a foreground window at all: the console
/// buffer only for classic consoles; the browser sources only for browsers;
/// the console provider only for non-browser consoles; everything else,
/// the Win32 caret among it, only for windows that are neither.
pub open spec fn source_allowed(facts: ForegroundFacts, source: CaretSource) -> bool {
    match source {
        CaretSource::ClassicConsole => facts.classic_console,
        CaretSource::BrowserAccessible | CaretSource::BrowserUia => facts.uia_preferred,
        CaretSource::ConsoleUia => facts.console_like && !facts.uia_preferred,
        CaretSource::PresentationUia | CaretSource::PresentationAccessible => !facts.uia_preferred
            && !facts.console_like && facts.office_uia_preferred,
        _ => !facts.uia_preferred && !facts.console_like,
    }
}

/// How many more sources can follow `source`, at most.
pub open spec fn sources_left(source: CaretSource) -> nat {
    match source {
        CaretSource::ClassicConsole => 4,
        CaretSource::BrowserAccessible => 1,
        CaretSource::BrowserUia => 0,
        CaretSource::ConsoleUia => 0,
        CaretSource::OfficeEditors => 2,
        CaretSource::PresentationUia => 1,
        CaretSource::PresentationAccessible => 0,
        CaretSource::Win32Caret => 1,
        CaretSource::GenericUia => 0,
    }
}

/// The caret sources are asked in a bounded, safe order: the first source
/// is allowed for the window, every next source is allowed when the one
/// before was, and each step leaves fewer sources to ask. In particular a
/// browser or console window never reaches the stale Win32 caret.
pub proof fn lemma_caret_sources_stay_allowed(
    facts: ForegroundFacts,
    source: CaretSource,
    outcome: ProbeOutcome,
)
    requires
        facts.classic_console ==> facts.console_like,
        source_allowed(facts, source),
    ensures
        source_allowed(facts, first_source_spec(facts)),
        next_source_spec(facts, source, outcome) matches Some(next) ==> source_allowed(facts, next)
            && sources_left(next) < sources_left(source),
        (facts.uia_preferred || facts.console_like) ==> next_source_spec(facts, source, outcome)
            != Some(CaretSource::Win32Caret),
{
}

/// A console window class is classic only when it is also console-like,
/// which the ordering law above asks of the facts.
pub proof fn lemma_classic_console_is_console_like(class_name: Seq<char>)
    ensures
        foreground_facts_spec(class_name).classic_console ==> foreground_facts_spec(
            class_name,
        ).console_like,
{
    let f = foreground_facts_spec(class_name);
}

} // verus!
