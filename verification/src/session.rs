//! The session lifecycle: the state machine that governs entering the
//! exclusive terminal mode, running the loop, and restoring the terminal.
//! The mode switches themselves are I/O and live outside the crate; what is
//! proved here is the shape of the lifecycle: every path out of the run leads
//! to the terminating state, that state is final, and so the restore that it
//! performs happens exactly once per run.

use vstd::prelude::*;

verus! {

/// Where a run stands: switching the terminal into the interactive mode,
/// running the read/repaint loop, or restoring the terminal before exit.
#[derive(Clone, Copy, Debug, PartialEq, Eq, Structural)]
pub enum SessionState {
    Initializing,
    Running,
    Terminating,
}

/// What can happen to a run: the mode switch succeeds or fails, the quit key
/// is pressed, or reading an event fails.
#[derive(Clone, Copy, Debug, PartialEq, Eq, Structural)]
pub enum SessionEvent {
    StartSucceeded,
    StartFailed,
    QuitRequested,
    ReadFailed,
}

/// One step of the lifecycle: a successful start enters the loop, and every
/// failure or quit leads to the terminating state, which nothing leaves.
pub open spec fn spec_advance(s: SessionState, ev: SessionEvent) -> SessionState {
    match s {
        SessionState::Initializing => match ev {
            SessionEvent::StartSucceeded => SessionState::Running,
            _ => SessionState::Terminating,
        },
        SessionState::Running => match ev {
            SessionEvent::QuitRequested => SessionState::Terminating,
            SessionEvent::ReadFailed => SessionState::Terminating,
            _ => SessionState::Running,
        },
        SessionState::Terminating => SessionState::Terminating,
    }
}

/// Advance the lifecycle by one event.
pub fn advance(s: SessionState, ev: SessionEvent) -> (t: SessionState)
    ensures
        t == spec_advance(s, ev),
        s == SessionState::Terminating ==> t == SessionState::Terminating,
        s == SessionState::Running ==> (t == SessionState::Terminating <==> (ev
            == SessionEvent::QuitRequested || ev == SessionEvent::ReadFailed)),
{
    match s {
        SessionState::Initializing => match ev {
            SessionEvent::StartSucceeded => SessionState::Running,
            _ => SessionState::Terminating,
        },
        SessionState::Running => match ev {
            SessionEvent::QuitRequested => SessionState::Terminating,
            SessionEvent::ReadFailed => SessionState::Terminating,
            _ => SessionState::Running,
        },
        SessionState::Terminating => SessionState::Terminating,
    }
}

/// The state after a sequence of lifecycle events, starting from the mode
/// switch.
pub open spec fn state_after(events: Seq<SessionEvent>) -> SessionState
    decreases events.len(),
{
    if events.len() == 0 {
        SessionState::Initializing
    } else {
        spec_advance(state_after(events.drop_last()), events.last())
    }
}

/// How many times a run enters the terminating state — that is, how many
/// times the terminal restore runs.
pub open spec fn restore_count(events: Seq<SessionEvent>) -> nat
    decreases events.len(),
{
    if events.len() == 0 {
        0
    } else {
        restore_count(events.drop_last()) + if state_after(events.drop_last())
            != SessionState::Terminating && state_after(events) == SessionState::Terminating {
            1nat
        } else {
            0nat
        }
    }
}

/// The restore runs exactly once per run, on every exit path: a run that has
/// reached the terminating state — by clean quit, by read failure or by a
/// failed start — has entered it exactly once, and a run that has not
/// reached it has never run the restore.
pub proof fn lemma_restore_once(events: Seq<SessionEvent>)
    ensures
        restore_count(events) == if state_after(events) == SessionState::Terminating {
            1nat
        } else {
            0nat
        },
    decreases events.len(),
{
    if events.len() > 0 {
        lemma_restore_once(events.drop_last());
    }
}

} // verus!
