//! The mouse-nudge fallback: a background loop that, every interval, moves
//! the pointer one pixel to the right and back, as long as keeping awake is
//! on and the loop has not been told to stop. Once it finds either not so
//! on waking, it ends for good.

use vstd::prelude::*;

verus! {

/// Milliseconds the pointer rests one pixel off before moving back.
pub const NUDGE_PAUSE_MS: u64 = 20;

/// Where the nudge loop stands.
#[derive(Debug, Clone, Copy, PartialEq, Eq, Structural)]
pub enum JigglerPhase {
    /// About to wait for the next interval.
    Waiting,
    /// Just woke up after an interval.
    Woken,
    /// The loop has ended.
    Done,
}

/// What the nudge loop does next.
#[derive(Debug, Clone, Copy, PartialEq, Eq, Structural)]
pub enum JigglerAction {
    /// Sleep for the configured interval, then continue in `Woken`.
    SleepInterval,
    /// Nudge the pointer, then continue in `Waiting`.
    Nudge,
    /// Leave the loop.
    Finish,
}

/// The loop's decision from its phase, whether keeping awake is still on
/// (`running`) and whether it was told to stop.
pub open spec fn jiggler_next(phase: JigglerPhase, running: bool, stop: bool) -> JigglerAction {
    match phase {
        JigglerPhase::Waiting => if stop {
            JigglerAction::Finish
        } else {
            JigglerAction::SleepInterval
        },
        JigglerPhase::Woken => if !running || stop {
            JigglerAction::Finish
        } else {
            JigglerAction::Nudge
        },
        JigglerPhase::Done => JigglerAction::Finish,
    }
}

/// The phase after carrying out an action.
pub open spec fn jiggler_after(a: JigglerAction) -> JigglerPhase {
    match a {
        JigglerAction::SleepInterval => JigglerPhase::Woken,
        JigglerAction::Nudge => JigglerPhase::Waiting,
        JigglerAction::Finish => JigglerPhase::Done,
    }
}

/// Decides the nudge loop's next step.
pub fn next_action(phase: JigglerPhase, running: bool, stop: bool) -> (a: JigglerAction)
    ensures
        a == jiggler_next(phase, running, stop),
        a == JigglerAction::Nudge ==> running && !stop,
{
    match phase {
        JigglerPhase::Waiting => {
            if stop {
                JigglerAction::Finish
            } else {
                JigglerAction::SleepInterval
            }
        },
        JigglerPhase::Woken => {
            if !running || stop {
                JigglerAction::Finish
            } else {
                JigglerAction::Nudge
            }
        },
        JigglerPhase::Done => JigglerAction::Finish,
    }
}

/// The phase the loop is in after carrying out `a`.
pub fn phase_after(a: JigglerAction) -> (p: JigglerPhase)
    ensures
        p == jiggler_after(a),
{
    match a {
        JigglerAction::SleepInterval => JigglerPhase::Woken,
        JigglerAction::Nudge => JigglerPhase::Waiting,
        JigglerAction::Finish => JigglerPhase::Done,
    }
}

/// The two pointer moves of a nudge.
#[derive(Debug, Clone, Copy, PartialEq, Eq)]
pub struct Nudge {
    /// First move: one pixel to the right.
    pub out: (i32, i32),
    /// Second move: back to where the pointer was.
    pub back: (i32, i32),
}

/// The moves that nudge a pointer at (x, y); x must leave room for the
/// pixel to the right in a 32-bit coordinate.
pub fn nudge_moves(x: i32, y: i32) -> (n: Nudge)
    requires
        x < i32::MAX,
    ensures
        n.out == ((x + 1) as i32, y),
        n.back == (x, y),
{
    Nudge { out: (x + 1, y), back: (x, y) }
}

} // verus!
