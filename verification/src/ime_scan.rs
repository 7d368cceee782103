//! The order in which the candidate windows of the focused input are asked
//! for their IME state: each candidate's default IME window first (each IME
//! window asked once), then the candidate's own input context; and when the
//! last live source found can be asked again directly.
//!
//! The caller makes each read and hands the answer back.
use vstd::prelude::*;

use crate::ime::ImeWindowQuery;

verus! {

/// Where a live IME state was read.
#[derive(Clone, Copy, Debug, PartialEq, Eq, Structural)]
pub enum LiveSource {
    /// The default IME window `ime_window` of the candidate `window`.
    ImeWindow { window: usize, ime_window: usize },
    /// The input context of the candidate `window`.
    InputContext { window: usize },
}

/// What the scan asks of the current candidate.
#[derive(Clone, Copy, Debug, PartialEq, Eq, Structural)]
pub enum ScanPhase {
    /// Its default IME window (`ImmGetDefaultIMEWnd`).
    DefaultImeWindow,
    /// The state held by this IME window of it.
    ImeWindow(usize),
    /// The state held by its own input context.
    InputContext,
}

/// What to read next, or how the scan ended.
#[derive(Clone, Copy, Debug, PartialEq, Eq, Structural)]
pub enum ImeRead {
    DefaultImeWindow { window: usize },
    ImeWindow { window: usize, ime_window: usize },
    InputContext { window: usize },
    /// A live state was read from `source`.
    Found { source: LiveSource, query: ImeWindowQuery },
    /// No candidate answered.
    Exhausted,
}

/// The answer to a read.
#[derive(Clone, Copy, Debug, PartialEq, Eq, Structural)]
pub enum ImeAnswer {
    /// The default IME window of the candidate (0 when it has none).
    DefaultImeWindow(usize),
    /// The state an IME window or input context holds, if it answered.
    Query(Option<ImeWindowQuery>),
}

/// The scan over the candidates: the current one, what is asked of it, and
/// the IME windows already asked.
pub struct ImeScan {
    pub index: usize,
    pub phase: ScanPhase,
    pub queried: Vec<usize>,
}

/// The read that the scan at (`index`, `phase`) asks for.
pub open spec fn scan_read_spec(candidates: Seq<usize>, index: int, phase: ScanPhase) -> ImeRead {
    if index < 0 || index >= candidates.len() {
        ImeRead::Exhausted
    } else {
        match phase {
            ScanPhase::DefaultImeWindow => ImeRead::DefaultImeWindow { window: candidates[index] },
            ScanPhase::ImeWindow(w) => ImeRead::ImeWindow { window: candidates[index], ime_window: w },
            ScanPhase::InputContext => ImeRead::InputContext { window: candidates[index] },
        }
    }
}

/// An answer taken as a default IME window; any other answer counts as none.
pub open spec fn answer_window(answer: ImeAnswer) -> usize {
    match answer {
        ImeAnswer::DefaultImeWindow(w) => w,
        _ => 0,
    }
}

/// An answer taken as a state; any other answer counts as no answer.
pub open spec fn answer_query(answer: ImeAnswer) -> Option<ImeWindowQuery> {
    match answer {
        ImeAnswer::Query(q) => q,
        _ => None,
    }
}

/// One answer taken: the next position, phase and asked IME windows, and
/// the live state found, if any. A default IME window that is new is asked
/// next (and noted); a null or already asked one passes to the candidate's
/// input context. An IME window that answers ends the scan; one that does
/// not passes to the input context. An input context that answers ends the
/// scan; one that does not passes to the next candidate.
pub open spec fn scan_step_spec(
    candidates: Seq<usize>,
    index: int,
    phase: ScanPhase,
    queried: Seq<usize>,
    answer: ImeAnswer,
) -> (int, ScanPhase, Seq<usize>, Option<(LiveSource, ImeWindowQuery)>) {
    if index < 0 || index >= candidates.len() {
        (index, phase, queried, None)
    } else {
        let window = candidates[index];
        match phase {
            ScanPhase::DefaultImeWindow => {
                let w = answer_window(answer);
                if w != 0 && !queried.contains(w) {
                    (index, ScanPhase::ImeWindow(w), queried.push(w), None)
                } else {
                    (index, ScanPhase::InputContext, queried, None)
                }
            },
            ScanPhase::ImeWindow(w) => match answer_query(answer) {
                Some(q) => (
                    index,
                    phase,
                    queried,
                    Some((LiveSource::ImeWindow { window, ime_window: w }, q)),
                ),
                None => (index, ScanPhase::InputContext, queried, None),
            },
            ScanPhase::InputContext => match answer_query(answer) {
                Some(q) => (index, phase, queried, Some((LiveSource::InputContext { window }, q))),
                None => (index + 1, ScanPhase::DefaultImeWindow, queried, None),
            },
        }
    }
}

/// The read that follows a step: the state found, else what the new
/// position asks for.
pub open spec fn scan_next_read_spec(
    candidates: Seq<usize>,
    index: int,
    phase: ScanPhase,
    queried: Seq<usize>,
    answer: ImeAnswer,
) -> ImeRead {
    let s = scan_step_spec(candidates, index, phase, queried, answer);
    match s.3 {
        Some((source, query)) => ImeRead::Found { source, query },
        None => scan_read_spec(candidates, s.0, s.1),
    }
}

fn contains_window(windows: &Vec<usize>, window: usize) -> (r: bool)
    ensures
        r == windows@.contains(window),
{
    let mut i: usize = 0;
    while i < windows.len()
        invariant
            i <= windows@.len(),
            forall|j: int| 0 <= j < i ==> windows@[j] != window,
        decreases windows@.len() - i,
    {
        if windows[i] == window {
            assert(windows@[i as int] == window);
            return true;
        }
        i = i + 1;
    }
    false
}

impl ImeScan {
    /// A scan from the first candidate, with no IME window asked yet, and
    /// its first read.
    pub fn start(candidates: &Vec<usize>) -> (r: (ImeScan, ImeRead))
        ensures
            r.0.index == 0,
            r.0.phase == ScanPhase::DefaultImeWindow,
            r.0.queried@ == Seq::<usize>::empty(),
            r.1 == scan_read_spec(candidates@, 0, ScanPhase::DefaultImeWindow),
    {
        let read = if candidates.len() == 0 {
            ImeRead::Exhausted
        } else {
            ImeRead::DefaultImeWindow { window: candidates[0] }
        };
        (ImeScan { index: 0, phase: ScanPhase::DefaultImeWindow, queried: Vec::new() }, read)
    }

    /// Takes the answer to the last read and gives the next read, the live
    /// state found, or the end of the scan.
    pub fn step(&mut self, candidates: &Vec<usize>, answer: ImeAnswer) -> (r: ImeRead)
        requires
            old(self).index <= candidates@.len(),
        ensures
            ({
                let s = scan_step_spec(
                    candidates@,
                    old(self).index as int,
                    old(self).phase,
                    old(self).queried@,
                    answer,
                );
                &&& final(self).index as int == s.0
                &&& final(self).phase == s.1
                &&& final(self).queried@ == s.2
            }),
            final(self).index <= candidates@.len(),
            r == scan_next_read_spec(
                candidates@,
                old(self).index as int,
                old(self).phase,
                old(self).queried@,
                answer,
            ),
    {
        if self.index >= candidates.len() {
            return ImeRead::Exhausted;
        }
        let window = candidates[self.index];
        match self.phase {
            ScanPhase::DefaultImeWindow => {
                let w = match answer {
                    ImeAnswer::DefaultImeWindow(w) => w,
                    _ => 0,
                };
                if w != 0 && !contains_window(&self.queried, w) {
                    self.queried.push(w);
                    self.phase = ScanPhase::ImeWindow(w);
                    ImeRead::ImeWindow { window, ime_window: w }
                } else {
                    self.phase = ScanPhase::InputContext;
                    ImeRead::InputContext { window }
                }
            },
            ScanPhase::ImeWindow(w) => {
                let q = match answer {
                    ImeAnswer::Query(q) => q,
                    _ => None,
                };
                match q {
                    Some(query) => ImeRead::Found {
                        source: LiveSource::ImeWindow { window, ime_window: w },
                        query,
                    },
                    None => {
                        self.phase = ScanPhase::InputContext;
                        ImeRead::InputContext { window }
                    },
                }
            },
            ScanPhase::InputContext => {
                let q = match answer {
                    ImeAnswer::Query(q) => q,
                    _ => None,
                };
                match q {
                    Some(query) => ImeRead::Found { source: LiveSource::InputContext { window }, query },
                    None => {
                        self.index = self.index + 1;
                        self.phase = ScanPhase::DefaultImeWindow;
                        if self.index < candidates.len() {
                            ImeRead::DefaultImeWindow { window: candidates[self.index] }
                        } else {
                            ImeRead::Exhausted
                        }
                    },
                }
            },
        }
    }
}

/// How much of the scan is left: three reads at most per candidate still
/// to come, fewer for the current one as it advances.
pub open spec fn scan_measure(candidates: Seq<usize>, index: int, phase: ScanPhase) -> int {
    3 * (candidates.len() - index) + match phase {
        ScanPhase::DefaultImeWindow => 0,
        ScanPhase::ImeWindow(_) => -1,
        ScanPhase::InputContext => -2,
    }
}

/// The scan asks each IME window at most once and always ends: a step that
/// asks an IME window asks one not asked before and notes it, the windows
/// noted are only ever added to, and every step that neither finds a state
/// nor ends leaves less of the scan to do, so at most three reads per
/// candidate are made.
pub proof fn lemma_ime_scan_asks_once_and_ends(
    candidates: Seq<usize>,
    index: int,
    phase: ScanPhase,
    queried: Seq<usize>,
    answer: ImeAnswer,
)
    requires
        0 <= index <= candidates.len(),
    ensures
        ({
            let s = scan_step_spec(candidates, index, phase, queried, answer);
            let read = scan_next_read_spec(candidates, index, phase, queried, answer);
            &&& (read matches ImeRead::ImeWindow { ime_window, .. } ==> !queried.contains(ime_window)
                && s.2 == queried.push(ime_window))
            &&& (s.2 == queried || s.2 == queried.push(s.2.last()))
            &&& (s.3 is None && index < candidates.len() ==> 0 <= scan_measure(candidates, s.0, s.1)
                < scan_measure(candidates, index, phase))
            &&& (read matches ImeRead::Exhausted ==> s.0 >= candidates.len())
        }),
{
    let s = scan_step_spec(candidates, index, phase, queried, answer);
    if s.2 != queried {
        assert(s.2 == queried.push(answer_window(answer)));
        assert(s.2.last() == answer_window(answer));
    }
}

/// The foreground and focus for which a live source was found: the
/// foreground, focus, caret and active windows, and the process and native
/// window of the focused UI Automation element.
#[derive(Clone, Copy, Debug, PartialEq, Eq, Structural)]
pub struct ImeTargets {
    pub foreground: usize,
    pub focus: usize,
    pub caret: usize,
    pub active: usize,
    pub host_process_id: u32,
    pub host_window: usize,
}

/// The live source found last, and for which targets.
#[derive(Clone, Copy, Debug, PartialEq, Eq, Structural)]
pub struct LiveTarget {
    pub targets: ImeTargets,
    pub source: LiveSource,
}

/// The source to ask again directly: the last live source, while the
/// foreground and focus are the same; otherwise none (and it is forgotten).
pub open spec fn live_source_to_reuse_spec(last: Option<LiveTarget>, targets: ImeTargets) -> Option<
    LiveSource,
> {
    match last {
        Some(t) => if t.targets == targets {
            Some(t.source)
        } else {
            None
        },
        None => None,
    }
}

/// The last live source, if it may be asked again for these targets.
pub fn live_source_to_reuse(last: Option<LiveTarget>, targets: ImeTargets) -> (r: Option<LiveSource>)
    ensures
        r == live_source_to_reuse_spec(last, targets),
{
    match last {
        Some(t) => if t.targets == targets {
            Some(t.source)
        } else {
            None
        },
        None => None,
    }
}

} // verus!
