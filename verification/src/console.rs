//! Classic console windows: which process to attach to for the console's
//! screen buffer, and where the buffer's cursor stands on the screen.
use vstd::prelude::*;

use crate::arith::sat;
use crate::editability::{console_cell_anchor, console_cell_spec, CaretAnchor};
use crate::ime::{executable_name, executable_name_spec};
use crate::order::{dedup_ids, dedup_ranked_ids, ranked_order, sort_ranked, Ranked};
use crate::text::chars_equal;
use crate::win::{CONSOLE_FONT_INFOEX, CONSOLE_SCREEN_BUFFER_INFO, POINT, RECT};

verus! {

pub open spec fn name_cmd() -> Seq<char> {
    seq!['c', 'm', 'd', '.', 'e', 'x', 'e']
}

pub open spec fn name_powershell() -> Seq<char> {
    seq!['p', 'o', 'w', 'e', 'r', 's', 'h', 'e', 'l', 'l', '.', 'e', 'x', 'e']
}

pub open spec fn name_pwsh() -> Seq<char> {
    seq!['p', 'w', 's', 'h', '.', 'e', 'x', 'e']
}

pub open spec fn name_wsl() -> Seq<char> {
    seq!['w', 's', 'l', '.', 'e', 'x', 'e']
}

pub open spec fn name_bash() -> Seq<char> {
    seq!['b', 'a', 's', 'h', '.', 'e', 'x', 'e']
}

pub open spec fn name_conhost() -> Seq<char> {
    seq!['c', 'o', 'n', 'h', 'o', 's', 't', '.', 'e', 'x', 'e']
}

pub open spec fn name_openconsole() -> Seq<char> {
    seq!['o', 'p', 'e', 'n', 'c', 'o', 'n', 's', 'o', 'l', 'e', '.', 'e', 'x', 'e']
}

/// The order in which processes are tried as the console's client, by
/// lowercase executable name: `cmd.exe` first, then the other shells, then
/// anything else, and console hosts last.
pub open spec fn console_priority_spec(name: Seq<char>) -> u8 {
    if name == name_cmd() {
        0
    } else if name == name_powershell() || name == name_pwsh() || name == name_wsl() || name
        == name_bash() {
        1
    } else if name == name_conhost() || name == name_openconsole() {
        3
    } else {
        2
    }
}

/// The console client priority of a lowercase executable name.
pub fn console_priority_for_name(name: &Vec<char>) -> (r: u8)
    ensures
        r == console_priority_spec(name@),
{
    let cmd = ['c', 'm', 'd', '.', 'e', 'x', 'e'];
    assert(cmd@ == name_cmd());
    let powershell = ['p', 'o', 'w', 'e', 'r', 's', 'h', 'e', 'l', 'l', '.', 'e', 'x', 'e'];
    assert(powershell@ == name_powershell());
    let pwsh = ['p', 'w', 's', 'h', '.', 'e', 'x', 'e'];
    assert(pwsh@ == name_pwsh());
    let wsl = ['w', 's', 'l', '.', 'e', 'x', 'e'];
    assert(wsl@ == name_wsl());
    let bash = ['b', 'a', 's', 'h', '.', 'e', 'x', 'e'];
    assert(bash@ == name_bash());
    let conhost = ['c', 'o', 'n', 'h', 'o', 's', 't', '.', 'e', 'x', 'e'];
    assert(conhost@ == name_conhost());
    let openconsole = ['o', 'p', 'e', 'n', 'c', 'o', 'n', 's', 'o', 'l', 'e', '.', 'e', 'x', 'e'];
    assert(openconsole@ == name_openconsole());
    if chars_equal(name, &cmd) {
        0
    } else if chars_equal(name, &powershell) || chars_equal(name, &pwsh) || chars_equal(name, &wsl)
        || chars_equal(name, &bash) {
        1
    } else if chars_equal(name, &conhost) || chars_equal(name, &openconsole) {
        3
    } else {
        2
    }
}

/// The console client priority of a process, from the executable name
/// buffer of its process entry, compared without ASCII case.
pub fn console_process_priority(executable_name_buffer: &[u16; 260]) -> (r: u8)
    ensures
        r == console_priority_spec(executable_name_spec(executable_name_buffer@)),
{
    let name = executable_name(executable_name_buffer);
    let chars = crate::text::chars_of(name.as_str());
    console_priority_for_name(&chars)
}

/// A running process as the console client search sees it: its id, its
/// lowercase executable name, and whether it runs in the console's session
/// (always true when the session could not be learned).
pub type ConsoleProcess = (u32, String, bool);

/// The ranked candidates among `processes`: every process other than the
/// idle process, this process and the console host itself, in the console's
/// session, ranked by executable name.
pub open spec fn console_ranked(
    processes: Seq<ConsoleProcess>,
    current_process_id: u32,
    preferred_process_id: u32,
) -> Seq<Ranked>
    decreases processes.len(),
{
    if processes.len() == 0 {
        seq![]
    } else {
        let last = processes.last();
        let rest = console_ranked(processes.drop_last(), current_process_id, preferred_process_id);
        if last.0 != 0 && last.0 != current_process_id && last.0 != preferred_process_id && last.2 {
            rest.push((console_priority_spec(last.1@), 0u8, last.0))
        } else {
            rest
        }
    }
}

/// The processes to try, in order, as the client of a console hosted by
/// `preferred_process_id`.
pub open spec fn console_candidates_spec(
    processes: Seq<ConsoleProcess>,
    current_process_id: u32,
    preferred_process_id: u32,
) -> Seq<u32> {
    dedup_ids(
        console_ranked(processes, current_process_id, preferred_process_id).sort_by(
            ranked_order(),
        ),
    )
}

/// The processes to try, in order, as the client of a console: by priority,
/// then by process id, each process once.
pub fn console_client_candidates(
    processes: &Vec<ConsoleProcess>,
    current_process_id: u32,
    preferred_process_id: u32,
) -> (r: Vec<u32>)
    ensures
        r@ == console_candidates_spec(processes@, current_process_id, preferred_process_id),
{
    let mut candidates: Vec<Ranked> = Vec::new();
    let mut k: usize = 0;
    while k < processes.len()
        invariant
            k <= processes@.len(),
            candidates@ == console_ranked(
                processes@.take(k as int),
                current_process_id,
                preferred_process_id,
            ),
        decreases processes@.len() - k,
    {
        assert(processes@.take(k + 1).drop_last() =~= processes@.take(k as int));
        let process_id = processes[k].0;
        if process_id != 0 && process_id != current_process_id && process_id
            != preferred_process_id && processes[k].2 {
            let chars = crate::text::chars_of(processes[k].1.as_str());
            let priority = console_priority_for_name(&chars);
            candidates.push((priority, 0u8, process_id));
        }
        k = k + 1;
    }
    assert(processes@.take(processes@.len() as int) =~= processes@);
    let sorted = sort_ranked(&candidates);
    dedup_ranked_ids(&sorted)
}

/// `v` but at least 1.
pub open spec fn at_least_one(v: int) -> int {
    if v < 1 {
        1
    } else {
        v
    }
}

/// The caret of a classic console: the buffer cursor's cell inside the
/// visible window, placed on the screen from the client origin, the cell
/// size taken from the console font or, without one, from the client area
/// divided among the visible cells, and moved right by the width of the IME
/// composition (or `default_cell_span` when none is measured), 1 to 8 cells.
/// Nothing when the cursor is outside the visible window.
pub open spec fn console_cursor_anchor_spec(
    info: CONSOLE_SCREEN_BUFFER_INFO,
    client_rect: RECT,
    origin: POINT,
    font: Option<CONSOLE_FONT_INFOEX>,
    measured_span: Option<i32>,
    default_cell_span: i32,
) -> Option<CaretAnchor> {
    let column = info.dwCursorPosition.X - info.srWindow.Left;
    let row = info.dwCursorPosition.Y - info.srWindow.Top;
    let columns = info.srWindow.Right - info.srWindow.Left + 1;
    let rows = info.srWindow.Bottom - info.srWindow.Top + 1;
    if column < 0 || row < 0 || column >= columns || row >= rows {
        None
    } else {
        let client_width = at_least_one(sat(client_rect.right - client_rect.left) as int);
        let client_height = at_least_one(sat(client_rect.bottom - client_rect.top) as int);
        let cell_width = match font {
            Some(f) => at_least_one(f.dwFontSize.X as int),
            None => at_least_one(client_width / columns),
        };
        let cell_height = match font {
            Some(f) => at_least_one(f.dwFontSize.Y as int),
            None => at_least_one(client_height / rows),
        };
        let span = match measured_span {
            Some(s) => if s > 0 {
                s
            } else {
                default_cell_span
            },
            None => default_cell_span,
        };
        Some(
            console_cell_spec(
                origin,
                column as i32,
                row as i32,
                cell_width as i32,
                cell_height as i32,
                span,
            ),
        )
    }
}

/// The screen anchor of a classic console's cursor, from what the console
/// reported: its screen buffer, the console window's client area and origin,
/// its font when it could be read, and the measured composition width.
pub fn console_cursor_anchor(
    info: CONSOLE_SCREEN_BUFFER_INFO,
    client_rect: RECT,
    origin: POINT,
    font: Option<CONSOLE_FONT_INFOEX>,
    measured_span: Option<i32>,
    default_cell_span: i32,
) -> (r: Option<CaretAnchor>)
    ensures
        r == console_cursor_anchor_spec(
            info,
            client_rect,
            origin,
            font,
            measured_span,
            default_cell_span,
        ),
{
    let column = info.dwCursorPosition.X as i32 - info.srWindow.Left as i32;
    let row = info.dwCursorPosition.Y as i32 - info.srWindow.Top as i32;
    let columns = info.srWindow.Right as i32 - info.srWindow.Left as i32 + 1;
    let rows = info.srWindow.Bottom as i32 - info.srWindow.Top as i32 + 1;
    if column < 0 || row < 0 || column >= columns || row >= rows {
        return None;
    }
    let raw_width = crate::arith::sat_sub(client_rect.right, client_rect.left);
    let client_width = if raw_width < 1 {
        1
    } else {
        raw_width
    };
    let raw_height = crate::arith::sat_sub(client_rect.bottom, client_rect.top);
    let client_height = if raw_height < 1 {
        1
    } else {
        raw_height
    };
    let (cell_width, cell_height) = match font {
        Some(f) => {
            let w = f.dwFontSize.X as i32;
            let h = f.dwFontSize.Y as i32;
            (if w < 1 {
                1
            } else {
                w
            }, if h < 1 {
                1
            } else {
                h
            })
        },
        None => {
            let w = client_width / columns;
            let h = client_height / rows;
            (if w < 1 {
                1
            } else {
                w
            }, if h < 1 {
                1
            } else {
                h
            })
        },
    };
    let span = match measured_span {
        Some(s) => if s > 0 {
            s
        } else {
            default_cell_span
        },
        None => default_cell_span,
    };
    Some(console_cell_anchor(origin, column, row, cell_width, cell_height, span))
}

/// `cmd.exe` is always tried first and a console host always last.
pub proof fn lemma_cmd_first_and_hosts_last(name: Seq<char>)
    ensures
        console_priority_spec(name) == 0 <==> name == name_cmd(),
        console_priority_spec(name) <= 3,
        (name == name_conhost() || name == name_openconsole()) ==> console_priority_spec(name)
            == 3,
{
    assert(name_cmd() != name_conhost() && name_cmd() != name_openconsole()) by {
        assert(name_cmd().len() != name_conhost().len());
        assert(name_cmd().len() != name_openconsole().len());
    }
    assert(name_cmd() != name_powershell() && name_cmd() != name_bash()) by {
        assert(name_cmd().len() != name_powershell().len());
        assert(name_cmd().len() != name_bash().len());
    }
    assert(name_cmd() != name_pwsh()) by {
        assert(name_cmd().len() != name_pwsh().len());
    }
    assert(name_cmd() != name_wsl()) by {
        assert(name_cmd()[0] != name_wsl()[0]);
    }
    assert(name_conhost() != name_powershell() && name_conhost() != name_pwsh() && name_conhost()
        != name_wsl() && name_conhost() != name_bash()) by {
        assert(name_conhost().len() != name_powershell().len());
        assert(name_conhost().len() != name_pwsh().len());
        assert(name_conhost().len() != name_wsl().len());
        assert(name_conhost().len() != name_bash().len());
    }
    assert(name_openconsole() != name_powershell() && name_openconsole() != name_pwsh()
        && name_openconsole() != name_wsl() && name_openconsole() != name_bash()) by {
        assert(name_openconsole()[0] != name_powershell()[0]);
        assert(name_openconsole().len() != name_pwsh().len());
        assert(name_openconsole().len() != name_wsl().len());
        assert(name_openconsole().len() != name_bash().len());
    }
}

/// Every candidate is a process other than the idle process, this process
/// and the console host, in the console's session.
pub proof fn lemma_console_candidates_are_eligible(
    processes: Seq<ConsoleProcess>,
    current_process_id: u32,
    preferred_process_id: u32,
    k: int,
)
    requires
        0 <= k < console_ranked(processes, current_process_id, preferred_process_id).len(),
    ensures
        ({
            let c = console_ranked(processes, current_process_id, preferred_process_id)[k];
            c.2 != 0 && c.2 != current_process_id && c.2 != preferred_process_id && exists|j: int|
                0 <= j < processes.len() && processes[j].0 == c.2 && processes[j].2
        }),
    decreases processes.len(),
{
    let rest = console_ranked(processes.drop_last(), current_process_id, preferred_process_id);
    if k < rest.len() {
        lemma_console_candidates_are_eligible(
            processes.drop_last(),
            current_process_id,
            preferred_process_id,
            k,
        );
        let c = rest[k];
        let j = choose|j: int|
            0 <= j < processes.drop_last().len() && processes.drop_last()[j].0 == c.2
                && processes.drop_last()[j].2;
        assert(processes[j] == processes.drop_last()[j]);
    } else {
        assert(processes[processes.len() - 1] == processes.last());
    }
}

} // verus!
