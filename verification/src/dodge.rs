//! The panel that moves out of the way: when the pointer rests on the main
//! panel for two seconds, it slides to the other side of the screen, and
//! then stays put for a second.
use vstd::prelude::*;

verus! {

/// How long the pointer must rest on the panel, in milliseconds.
pub const HOVER_THRESHOLD_MS: u64 = 2000;

/// How long the panel stays put after moving, in milliseconds.
pub const DODGE_COOLDOWN_MS: u64 = 1000;

/// What the watcher remembers between two polls; times are milliseconds on
/// a monotonic clock.
#[derive(Clone, Copy, Debug)]
pub struct DodgeState {
    /// When the pointer came to rest on the panel, while it stays there.
    pub hover_start_ms: Option<u64>,
    /// When the panel last finished moving.
    pub last_dodge_ms: Option<u64>,
    /// The panel is on the right-hand side.
    pub on_right: bool,
}

/// What a poll decides.
#[derive(Clone, Copy, Debug, PartialEq, Eq, Structural)]
pub enum DodgeAction {
    /// Nothing to do until the next poll.
    Wait,
    /// Slide the panel to the left edge, or to the right one.
    Move { to_left: bool },
}

/// Time gone by since `since`; none when the clock reads earlier.
pub open spec fn elapsed(now: u64, since: u64) -> int {
    if now >= since {
        now - since
    } else {
        0
    }
}

/// One poll, given the time, whether dodging is turned on, and where the
/// pointer is: `None` when the panel is hidden or cannot be measured,
/// otherwise whether the pointer is on it. The rest timer starts again
/// whenever the poll does not find the pointer resting on a visible panel,
/// while dodging is off, and during the pause after a move.
pub open spec fn dodge_next(s: DodgeState, now: u64, enabled: bool, pointer: Option<bool>) -> (
    DodgeState,
    DodgeAction,
) {
    let idle = DodgeState { hover_start_ms: None, ..s };
    if !enabled {
        (idle, DodgeAction::Wait)
    } else if s.last_dodge_ms matches Some(t) && elapsed(now, t) < DODGE_COOLDOWN_MS {
        (idle, DodgeAction::Wait)
    } else if pointer != Some(true) {
        (idle, DodgeAction::Wait)
    } else {
        let start = match s.hover_start_ms {
            Some(h) => h,
            None => now,
        };
        if elapsed(now, start) >= HOVER_THRESHOLD_MS {
            (
                DodgeState { hover_start_ms: None, on_right: !s.on_right, ..s },
                DodgeAction::Move { to_left: s.on_right },
            )
        } else {
            (DodgeState { hover_start_ms: Some(start), ..s }, DodgeAction::Wait)
        }
    }
}

fn elapsed_ms(now: u64, since: u64) -> (r: u64)
    ensures
        r == elapsed(now, since),
{
    if now >= since {
        now - since
    } else {
        0
    }
}

impl DodgeState {
    /// The panel starts on the right, with nothing remembered.
    pub fn new() -> (r: Self)
        ensures
            r.hover_start_ms is None,
            r.last_dodge_ms is None,
            r.on_right,
    {
        DodgeState { hover_start_ms: None, last_dodge_ms: None, on_right: true }
    }
}

/// Decides one poll.
pub fn dodge_step(s: &mut DodgeState, now_ms: u64, enabled: bool, pointer: Option<bool>) -> (a:
    DodgeAction)
    ensures
        (*final(s), a) == dodge_next(*old(s), now_ms, enabled, pointer),
{
    if !enabled {
        s.hover_start_ms = None;
        return DodgeAction::Wait;
    }
    if let Some(t) = s.last_dodge_ms {
        if elapsed_ms(now_ms, t) < DODGE_COOLDOWN_MS {
            s.hover_start_ms = None;
            return DodgeAction::Wait;
        }
    }
    let inside = match pointer {
        Some(b) => b,
        None => false,
    };
    if !inside {
        s.hover_start_ms = None;
        return DodgeAction::Wait;
    }
    let start = match s.hover_start_ms {
        Some(h) => h,
        None => now_ms,
    };
    if elapsed_ms(now_ms, start) >= HOVER_THRESHOLD_MS {
        let to_left = s.on_right;
        s.hover_start_ms = None;
        s.on_right = !s.on_right;
        DodgeAction::Move { to_left }
    } else {
        s.hover_start_ms = Some(start);
        DodgeAction::Wait
    }
}

/// The state once the panel has finished moving.
pub open spec fn moved(s: DodgeState, now: u64) -> DodgeState {
    DodgeState { last_dodge_ms: Some(now), ..s }
}

/// Records that the panel finished moving at `now_ms`.
pub fn dodge_finished(s: &mut DodgeState, now_ms: u64)
    ensures
        *final(s) == moved(*old(s), now_ms),
{
    s.last_dodge_ms = Some(now_ms);
}

/// The panel only moves while dodging is on, after the pointer has rested
/// on the visible panel for two seconds, and it moves to the side it is not
/// on.
pub proof fn lemma_move_needs_a_rest(s: DodgeState, now: u64, enabled: bool, pointer: Option<bool>)
    ensures
        dodge_next(s, now, enabled, pointer).1 matches DodgeAction::Move { to_left } ==> {
            &&& enabled
            &&& pointer == Some(true)
            &&& s.hover_start_ms matches Some(h) && elapsed(now, h) >= HOVER_THRESHOLD_MS
            &&& to_left == s.on_right
            &&& dodge_next(s, now, enabled, pointer).0.on_right == !s.on_right
        },
{
}

/// After a move has finished, the panel stays put for a second, whatever
/// the pointer does.
pub proof fn lemma_cooldown_after_move(
    s: DodgeState,
    finished_at: u64,
    now: u64,
    enabled: bool,
    pointer: Option<bool>,
)
    requires
        elapsed(now, finished_at) < DODGE_COOLDOWN_MS,
    ensures
        dodge_next(moved(s, finished_at), now, enabled, pointer).1 == DodgeAction::Wait,
{
}

/// Only a move changes the side the panel is on: a poll that waits keeps
/// it, and so does recording the end of a move.
pub proof fn lemma_side_changes_only_by_moving(
    s: DodgeState,
    now: u64,
    enabled: bool,
    pointer: Option<bool>,
    finished_at: u64,
)
    ensures
        dodge_next(s, now, enabled, pointer).1 == DodgeAction::Wait ==> dodge_next(
            s,
            now,
            enabled,
            pointer,
        ).0.on_right == s.on_right,
        moved(s, finished_at).on_right == s.on_right,
{
}

/// Moves alternate: after a move, any later state still on the side that
/// move left the panel on moves it the other way next.
pub proof fn lemma_moves_alternate(
    s1: DodgeState,
    now1: u64,
    p1: Option<bool>,
    s2: DodgeState,
    now2: u64,
    p2: Option<bool>,
)
    requires
        dodge_next(s1, now1, true, p1).1 is Move,
        s2.on_right == dodge_next(s1, now1, true, p1).0.on_right,
        dodge_next(s2, now2, true, p2).1 is Move,
    ensures
        dodge_next(s1, now1, true, p1).1->to_left != dodge_next(s2, now2, true, p2).1->to_left,
{
}

} // verus!
