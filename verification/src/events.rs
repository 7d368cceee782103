//! What the indicator does on its poll timer, on accessibility events and on
//! keyboard activity: the decisions, from the state that the window keeps.
use vstd::prelude::*;

use crate::activity::{
    WIN_EVENT_FLAG_CARET, WIN_EVENT_FLAG_TEXT_SELECTION, WIN_EVENT_FLAG_WINDOW_LOCATION,
    WIN_EVENT_PRIORITY_FLAGS,
};

verus! {

/// The refresh that a tick or an event calls for.
#[derive(Clone, Copy, Debug, PartialEq, Eq, Structural)]
pub enum Refresh {
    /// Find the focused control again, read its IME state and place the badge.
    Full,
    /// Only move the badge to where the caret now is.
    CaretOnly,
    /// Only read the IME state again; the caret stays where it was.
    ImeStateOnly,
}

/// Whether the last full refresh (at `last_full_refresh_ns`) happened less
/// than `interval_ms` before `now_ns`; never when there was none or it lies
/// in the future.
pub open spec fn refresh_recent_spec(last_full_refresh_ns: Option<u64>, now_ns: u64, interval_ms: u64) -> bool {
    match last_full_refresh_ns {
        Some(t) => t <= now_ns && (now_ns - t) < interval_ms * 1_000_000,
        None => false,
    }
}

/// Whether a full refresh happened recently enough to skip another.
pub fn full_refresh_recent(last_full_refresh_ns: Option<u64>, now_ns: u64, interval_ms: u64) -> (r: bool)
    ensures
        r == refresh_recent_spec(last_full_refresh_ns, now_ns, interval_ms),
{
    match last_full_refresh_ns {
        Some(t) => t <= now_ns && ((now_ns - t) as u128) < (interval_ms as u128) * 1_000_000,
        None => false,
    }
}

/// The refresh on a poll tick: a pending full refresh first, then a pending
/// caret move; a visible badge at a known caret only rereads the IME state
/// while the last full refresh is recent; otherwise a full refresh.
pub open spec fn timer_refresh_spec(
    full_refresh_pending: bool,
    caret_refresh_pending: bool,
    badge_visible: bool,
    has_anchor: bool,
    full_refresh_recent: bool,
) -> Refresh {
    if full_refresh_pending {
        Refresh::Full
    } else if caret_refresh_pending {
        Refresh::CaretOnly
    } else if badge_visible && has_anchor && full_refresh_recent {
        Refresh::ImeStateOnly
    } else {
        Refresh::Full
    }
}

/// The refresh that a poll tick makes.
pub fn timer_refresh(
    full_refresh_pending: bool,
    caret_refresh_pending: bool,
    badge_visible: bool,
    has_anchor: bool,
    full_refresh_recent: bool,
) -> (r: Refresh)
    ensures
        r == timer_refresh_spec(
            full_refresh_pending,
            caret_refresh_pending,
            badge_visible,
            has_anchor,
            full_refresh_recent,
        ),
{
    if full_refresh_pending {
        Refresh::Full
    } else if caret_refresh_pending {
        Refresh::CaretOnly
    } else if badge_visible && has_anchor && full_refresh_recent {
        Refresh::ImeStateOnly
    } else {
        Refresh::Full
    }
}

/// What to do now about a batch of accessibility events.
#[derive(Clone, Copy, Debug, PartialEq, Eq, Structural)]
pub enum EventAction {
    /// Refresh fully now.
    RefreshNow,
    /// Move the badge with the caret now.
    CaretNow,
    /// Remember that the caret moved; the next tick moves the badge.
    CaretLater,
    /// Remember that a full refresh is owed; the next tick makes it.
    FullLater,
}

/// The plan for a batch of accessibility events.
#[derive(Clone, Copy, Debug, PartialEq, Eq, Structural)]
pub struct EventPlan {
    /// Focus may have moved: restart the activation retries and forget the
    /// cached verdict on the focused control.
    pub activation: bool,
    /// The foreground or focus changed: forget the shell overlay and the
    /// shell's focused input host.
    pub reset_shell: bool,
    pub action: EventAction,
    /// After a refresh that read the IME state, the pending keyboard
    /// activity counts as covered.
    pub covers_keyboard_activity: bool,
}

/// The plan for pending event flags. A foreground or focus change always
/// refreshes fully at once. Caret, selection and window moves move only the
/// badge when it shows for a known kind at a known caret and no full
/// refresh is owed; otherwise they refresh fully. Within the minimum
/// interval since the last caret refresh, the work is left to the next tick.
pub open spec fn event_plan_spec(
    flags: u32,
    badge_visible: bool,
    has_anchor: bool,
    has_kind: bool,
    full_refresh_pending: bool,
    keyboard_activity_pending: bool,
    refresh_due: bool,
) -> EventPlan {
    let priority = flags & WIN_EVENT_PRIORITY_FLAGS != 0;
    let caret = flags & (WIN_EVENT_FLAG_CARET | WIN_EVENT_FLAG_TEXT_SELECTION) != 0;
    let geometry = caret || flags & WIN_EVENT_FLAG_WINDOW_LOCATION != 0;
    let activation = priority || (caret && (!badge_visible || !has_anchor));
    let caret_only = !priority && geometry && !full_refresh_pending && badge_visible && has_anchor
        && has_kind;
    let action = if priority {
        EventAction::RefreshNow
    } else if refresh_due && caret_only {
        EventAction::CaretNow
    } else if refresh_due {
        EventAction::RefreshNow
    } else if caret_only {
        EventAction::CaretLater
    } else {
        EventAction::FullLater
    };
    EventPlan {
        activation,
        reset_shell: priority,
        action,
        covers_keyboard_activity: keyboard_activity_pending && caret,
    }
}

/// Plans what to do about the pending event flags.
pub fn plan_win_events(
    flags: u32,
    badge_visible: bool,
    has_anchor: bool,
    has_kind: bool,
    full_refresh_pending: bool,
    keyboard_activity_pending: bool,
    refresh_due: bool,
) -> (p: EventPlan)
    ensures
        p == event_plan_spec(
            flags,
            badge_visible,
            has_anchor,
            has_kind,
            full_refresh_pending,
            keyboard_activity_pending,
            refresh_due,
        ),
{
    let priority = flags & WIN_EVENT_PRIORITY_FLAGS != 0;
    let caret = flags & (WIN_EVENT_FLAG_CARET | WIN_EVENT_FLAG_TEXT_SELECTION) != 0;
    let geometry = caret || flags & WIN_EVENT_FLAG_WINDOW_LOCATION != 0;
    let activation = priority || (caret && (!badge_visible || !has_anchor));
    let caret_only = !priority && geometry && !full_refresh_pending && badge_visible && has_anchor
        && has_kind;
    let action = if priority {
        EventAction::RefreshNow
    } else if refresh_due && caret_only {
        EventAction::CaretNow
    } else if refresh_due {
        EventAction::RefreshNow
    } else if caret_only {
        EventAction::CaretLater
    } else {
        EventAction::FullLater
    };
    EventPlan {
        activation,
        reset_shell: priority,
        action,
        covers_keyboard_activity: keyboard_activity_pending && caret,
    }
}

/// What a keyboard key-down asks for.
#[derive(Clone, Copy, Debug, PartialEq, Eq, Structural)]
pub enum KeyboardAction {
    /// A repeat of the last signal: nothing at all.
    Ignore,
    /// Nothing to refresh; only the poll interval may change.
    Reschedule,
    /// Refresh shortly after the key, on the keyboard timer.
    StartTimer,
}

/// A key press refreshes unless it is a duplicate, or cannot change the
/// IME while the badge shows at a known caret and no full refresh is owed.
pub open spec fn keyboard_action_spec(
    duplicate: bool,
    refresh_candidate: bool,
    badge_visible: bool,
    has_anchor: bool,
    full_refresh_pending: bool,
) -> KeyboardAction {
    if duplicate {
        KeyboardAction::Ignore
    } else if !refresh_candidate && badge_visible && has_anchor && !full_refresh_pending {
        KeyboardAction::Reschedule
    } else {
        KeyboardAction::StartTimer
    }
}

/// What a keyboard key-down does; `refresh_candidate` says whether the key
/// (or a held modifier) can change the IME, and is true for an undecodable
/// signal.
pub fn keyboard_action(
    duplicate: bool,
    refresh_candidate: bool,
    badge_visible: bool,
    has_anchor: bool,
    full_refresh_pending: bool,
) -> (r: KeyboardAction)
    ensures
        r == keyboard_action_spec(
            duplicate,
            refresh_candidate,
            badge_visible,
            has_anchor,
            full_refresh_pending,
        ),
{
    if duplicate {
        KeyboardAction::Ignore
    } else if !refresh_candidate && badge_visible && has_anchor && !full_refresh_pending {
        KeyboardAction::Reschedule
    } else {
        KeyboardAction::StartTimer
    }
}

/// The refresh when the keyboard timer fires: none when a caret event
/// already covered the key and no full refresh is owed; a full refresh when
/// one is owed; only the IME state when the badge shows at a known caret.
pub open spec fn keyboard_timer_spec(
    covered_by_caret_event: bool,
    full_refresh_pending: bool,
    badge_visible: bool,
    has_anchor: bool,
) -> Option<Refresh> {
    let needed = !covered_by_caret_event || full_refresh_pending;
    if needed && full_refresh_pending {
        Some(Refresh::Full)
    } else if needed && badge_visible && has_anchor {
        Some(Refresh::ImeStateOnly)
    } else if needed {
        Some(Refresh::Full)
    } else {
        None
    }
}

/// The refresh that the keyboard timer makes, if any.
pub fn keyboard_timer_refresh(
    covered_by_caret_event: bool,
    full_refresh_pending: bool,
    badge_visible: bool,
    has_anchor: bool,
) -> (r: Option<Refresh>)
    ensures
        r == keyboard_timer_spec(covered_by_caret_event, full_refresh_pending, badge_visible, has_anchor),
{
    let needed = crate::activity::keyboard_activity_refresh_needed(
        covered_by_caret_event,
        full_refresh_pending,
    );
    if needed && full_refresh_pending {
        Some(Refresh::Full)
    } else if needed && badge_visible && has_anchor {
        Some(Refresh::ImeStateOnly)
    } else if needed {
        Some(Refresh::Full)
    } else {
        None
    }
}

/// One step of the focus activation retries after a full refresh.
#[derive(Clone, Copy, Debug, PartialEq, Eq, Structural)]
pub struct RetryStep {
    /// Retries left afterwards.
    pub remaining: u8,
    /// Raise the badge to the top of the Z-order again.
    pub reassert_topmost: bool,
    /// Forget the cached verdict and owe a full refresh.
    pub refresh_again: bool,
}

/// The activation retry after a full refresh: a visible badge that must
/// reassert its Z-order does so and retries while retries remain; any other
/// visible badge ends the retries; while no badge shows, a retry is spent
/// to probe the focus again (Office publishes its editable element late).
pub open spec fn activation_retry_spec(badge_visible: bool, reassert: bool, remaining: u8) -> RetryStep {
    if badge_visible && reassert && remaining > 0 {
        RetryStep {
            remaining: (remaining - 1) as u8,
            reassert_topmost: true,
            refresh_again: remaining - 1 > 0,
        }
    } else if badge_visible {
        RetryStep { remaining: 0, reassert_topmost: false, refresh_again: false }
    } else if remaining > 0 {
        RetryStep { remaining: (remaining - 1) as u8, reassert_topmost: false, refresh_again: true }
    } else {
        RetryStep { remaining, reassert_topmost: false, refresh_again: false }
    }
}

/// Decides the focus activation retry after a full refresh.
pub fn activation_retry(badge_visible: bool, reassert: bool, remaining: u8) -> (r: RetryStep)
    ensures
        r == activation_retry_spec(badge_visible, reassert, remaining),
{
    if badge_visible && reassert && remaining > 0 {
        RetryStep {
            remaining: remaining - 1,
            reassert_topmost: true,
            refresh_again: remaining - 1 > 0,
        }
    } else if badge_visible {
        RetryStep { remaining: 0, reassert_topmost: false, refresh_again: false }
    } else if remaining > 0 {
        RetryStep { remaining: remaining - 1, reassert_topmost: false, refresh_again: true }
    } else {
        RetryStep { remaining, reassert_topmost: false, refresh_again: false }
    }
}

/// The retry for a surface that a shortcut opens late (a find dialog, a
/// search overlay): `None` when none remain; else the badge is raised when
/// visible, a retry is spent, and another full refresh is owed while some
/// remain.
pub open spec fn delayed_surface_retry_spec(badge_visible: bool, remaining: u8) -> Option<RetryStep> {
    if remaining == 0 {
        None
    } else {
        Some(
            RetryStep {
                remaining: (remaining - 1) as u8,
                reassert_topmost: badge_visible,
                refresh_again: remaining - 1 > 0,
            },
        )
    }
}

/// Decides the retry for a late-opening surface after a full refresh.
pub fn delayed_surface_retry(badge_visible: bool, remaining: u8) -> (r: Option<RetryStep>)
    ensures
        r == delayed_surface_retry_spec(badge_visible, remaining),
{
    if remaining == 0 {
        None
    } else {
        Some(
            RetryStep {
                remaining: remaining - 1,
                reassert_topmost: badge_visible,
                refresh_again: remaining - 1 > 0,
            },
        )
    }
}

/// A change of foreground or focus is never put off: it always refreshes
/// fully at once, restarts the activation retries and forgets the shell
/// overlay.
pub proof fn lemma_focus_changes_refresh_at_once(
    flags: u32,
    badge_visible: bool,
    has_anchor: bool,
    has_kind: bool,
    full_refresh_pending: bool,
    keyboard_activity_pending: bool,
    refresh_due: bool,
)
    requires
        flags & WIN_EVENT_PRIORITY_FLAGS != 0,
    ensures
        ({
            let p = event_plan_spec(
                flags,
                badge_visible,
                has_anchor,
                has_kind,
                full_refresh_pending,
                keyboard_activity_pending,
                refresh_due,
            );
            p.action == EventAction::RefreshNow && p.activation && p.reset_shell
        }),
{
}

/// An owed full refresh is never downgraded: while one is pending, events
/// never only move the badge, and the keyboard timer refreshes fully.
pub proof fn lemma_pending_full_refresh_is_kept(
    flags: u32,
    badge_visible: bool,
    has_anchor: bool,
    has_kind: bool,
    keyboard_activity_pending: bool,
    refresh_due: bool,
    covered_by_caret_event: bool,
)
    ensures
        ({
            let a = event_plan_spec(
                flags,
                badge_visible,
                has_anchor,
                has_kind,
                true,
                keyboard_activity_pending,
                refresh_due,
            ).action;
            a != EventAction::CaretNow && a != EventAction::CaretLater
        }),
        keyboard_timer_spec(covered_by_caret_event, true, badge_visible, has_anchor) == Some(
            Refresh::Full,
        ),
        timer_refresh_spec(true, true, badge_visible, has_anchor, true) == Refresh::Full,
{
}

/// Retries run out: every step that asks for another refresh spends one,
/// so a run of retries ends after at most as many steps as were granted.
pub proof fn lemma_retries_run_out(badge_visible: bool, reassert: bool, remaining: u8)
    ensures
        activation_retry_spec(badge_visible, reassert, remaining).remaining <= remaining,
        activation_retry_spec(badge_visible, reassert, remaining).refresh_again ==> activation_retry_spec(
            badge_visible,
            reassert,
            remaining,
        ).remaining < remaining,
        delayed_surface_retry_spec(badge_visible, remaining) matches Some(s) ==> s.remaining
            < remaining,
{
}

} // verus!
