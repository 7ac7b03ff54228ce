//! Input events as the session loop sees them, and the decision the loop
//! takes on each one.  The loop itself lives outside the verified crate (it
//! blocks on the terminal); everything it decides is computed here.

use vstd::prelude::*;

verus! {

/// The key that ends the session.
pub const QUIT_KEY: char = 'q';

/// The key that runs the external listing command.
pub const ACTION_KEY: char = ' ';

/// A key as the loop distinguishes them: a printable character, or any other
/// key (arrows, function keys, ...), which the loop ignores.
#[derive(Clone, Copy, Debug, PartialEq, Eq, Structural)]
pub enum Key {
    Char(char),
    Other,
}

/// Whether a key event reports the key going down, auto-repeating, or being
/// released.
#[derive(Clone, Copy, Debug, PartialEq, Eq, Structural)]
pub enum KeyKind {
    Press,
    Repeat,
    Release,
}

/// An input event: a key event, or any other terminal event (mouse, resize,
/// focus, paste, ...), which the loop ignores.
#[derive(Clone, Copy, Debug, PartialEq, Eq, Structural)]
pub enum InputEvent {
    Key { code: Key, kind: KeyKind },
    Other,
}

/// What the loop does in reaction to one event.
#[derive(Clone, Copy, Debug, PartialEq, Eq, Structural)]
pub enum Action {
    /// Leave the loop; the session ends cleanly.
    Quit,
    /// Run the external listing command and replace the display content with
    /// its output, then keep looping.
    RunCommand,
    /// Do nothing; keep looping.
    Continue,
}

/// The event is a press (or auto-repeat) of the quit key.  A release of the
/// quit key does not count.
pub open spec fn is_quit_press(ev: InputEvent) -> bool {
    &&& ev matches InputEvent::Key { code, kind }
    &&& code == Key::Char(QUIT_KEY)
    &&& kind != KeyKind::Release
}

/// The event is a press (or auto-repeat) of the action key.
pub open spec fn is_action_press(ev: InputEvent) -> bool {
    &&& ev matches InputEvent::Key { code, kind }
    &&& code == Key::Char(ACTION_KEY)
    &&& kind != KeyKind::Release
}

/// What the loop decides on one event: quit on the quit key, run the command
/// on the action key, ignore releases and everything else.
pub open spec fn spec_decide(ev: InputEvent) -> Action {
    match ev {
        InputEvent::Key { code, kind } => {
            if kind == KeyKind::Release {
                Action::Continue
            } else if code == Key::Char(QUIT_KEY) {
                Action::Quit
            } else if code == Key::Char(ACTION_KEY) {
                Action::RunCommand
            } else {
                Action::Continue
            }
        },
        InputEvent::Other => Action::Continue,
    }
}

/// Decide what to do with one input event.  Only a press (or auto-repeat) of
/// the quit key quits, only a press of the action key runs the command, and
/// key releases never do anything.
pub fn decide(ev: InputEvent) -> (a: Action)
    ensures
        a == spec_decide(ev),
        a == Action::Quit <==> is_quit_press(ev),
        a == Action::RunCommand <==> is_action_press(ev),
{
    match ev {
        InputEvent::Key { code, kind } => {
            if kind == KeyKind::Release {
                Action::Continue
            } else if code == Key::Char(QUIT_KEY) {
                Action::Quit
            } else if code == Key::Char(ACTION_KEY) {
                Action::RunCommand
            } else {
                Action::Continue
            }
        },
        InputEvent::Other => Action::Continue,
    }
}

/// Model of the read/decide loop over a sequence of events: the index of the
/// first event on which the loop quits, or -1 if the loop consumes the whole
/// sequence and is still running (blocked on the next read).
pub open spec fn exit_index(events: Seq<InputEvent>) -> int
    decreases events.len(),
{
    if events.len() == 0 {
        -1
    } else if spec_decide(events[0]) == Action::Quit {
        0
    } else {
        let rest = exit_index(events.drop_first());
        if rest < 0 {
            -1
        } else {
            rest + 1
        }
    }
}

/// Liveness of the loop: a sequence of events with no press of the quit key
/// never makes the loop exit, whatever else it contains (releases of the quit
/// key, action keys, mouse events, ...).
pub proof fn lemma_no_quit_never_exits(events: Seq<InputEvent>)
    requires
        forall|i: int| 0 <= i < events.len() ==> !is_quit_press(#[trigger] events[i]),
    ensures
        exit_index(events) == -1,
    decreases events.len(),
{
    if events.len() > 0 {
        assert(!is_quit_press(events[0]));
        assert(spec_decide(events[0]) != Action::Quit);
        assert(forall|i: int|
            0 <= i < events.drop_first().len() ==> !is_quit_press(
                #[trigger] events.drop_first()[i],
            ));
        lemma_no_quit_never_exits(events.drop_first());
    }
}

/// The quit key always ends the loop: the loop exits exactly at the first
/// press of the quit key, regardless of what the display content is at that
/// point (the decision does not read the application state at all).
pub proof fn lemma_quit_exits_at_first(events: Seq<InputEvent>, i: int)
    requires
        0 <= i < events.len(),
        is_quit_press(events[i]),
        forall|j: int| 0 <= j < i ==> !is_quit_press(#[trigger] events[j]),
    ensures
        exit_index(events) == i,
    decreases i,
{
    if i == 0 {
        assert(spec_decide(events[0]) == Action::Quit);
    } else {
        assert(!is_quit_press(events[0]));
        assert(spec_decide(events[0]) != Action::Quit);
        let rest = events.drop_first();
        assert(rest[i - 1] == events[i]);
        assert(forall|j: int| 0 <= j < i - 1 ==> !is_quit_press(#[trigger] rest[j]));
        lemma_quit_exits_at_first(rest, i - 1);
    }
}

/// Key releases are ignored: a release event, even one carrying the quit
/// key's or the action key's code, leaves the loop running and triggers
/// nothing.
pub proof fn lemma_release_is_ignored(code: Key)
    ensures
        spec_decide(InputEvent::Key { code, kind: KeyKind::Release }) == Action::Continue,
{
}

} // verus!
