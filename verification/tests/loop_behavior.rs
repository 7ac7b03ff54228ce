//! The decision the loop takes on each input event, and the session
//! lifecycle.

use termloop::event::{decide, Action, InputEvent, Key, KeyKind};
use termloop::session::{advance, SessionEvent, SessionState};

#[test]
fn quit_press_quits() {
    let ev = InputEvent::Key { code: Key::Char('q'), kind: KeyKind::Press };
    assert_eq!(decide(ev), Action::Quit);
}

#[test]
fn quit_repeat_quits() {
    let ev = InputEvent::Key { code: Key::Char('q'), kind: KeyKind::Repeat };
    assert_eq!(decide(ev), Action::Quit);
}

#[test]
fn quit_release_keeps_running() {
    let ev = InputEvent::Key { code: Key::Char('q'), kind: KeyKind::Release };
    assert_eq!(decide(ev), Action::Continue);
}

#[test]
fn action_press_runs_command() {
    let ev = InputEvent::Key { code: Key::Char(' '), kind: KeyKind::Press };
    assert_eq!(decide(ev), Action::RunCommand);
}

#[test]
fn action_release_keeps_running() {
    let ev = InputEvent::Key { code: Key::Char(' '), kind: KeyKind::Release };
    assert_eq!(decide(ev), Action::Continue);
}

#[test]
fn other_key_keeps_running() {
    let ev = InputEvent::Key { code: Key::Char('x'), kind: KeyKind::Press };
    assert_eq!(decide(ev), Action::Continue);
    let ev = InputEvent::Key { code: Key::Other, kind: KeyKind::Press };
    assert_eq!(decide(ev), Action::Continue);
}

#[test]
fn non_key_event_keeps_running() {
    assert_eq!(decide(InputEvent::Other), Action::Continue);
}

#[test]
fn lifecycle_clean_quit() {
    let s = SessionState::Initializing;
    let s = advance(s, SessionEvent::StartSucceeded);
    assert_eq!(s, SessionState::Running);
    let s = advance(s, SessionEvent::QuitRequested);
    assert_eq!(s, SessionState::Terminating);
}

#[test]
fn lifecycle_read_failure() {
    let s = advance(SessionState::Running, SessionEvent::ReadFailed);
    assert_eq!(s, SessionState::Terminating);
}

#[test]
fn lifecycle_failed_start() {
    let s = advance(SessionState::Initializing, SessionEvent::StartFailed);
    assert_eq!(s, SessionState::Terminating);
}

#[test]
fn lifecycle_terminating_is_final() {
    assert_eq!(
        advance(SessionState::Terminating, SessionEvent::StartSucceeded),
        SessionState::Terminating
    );
    assert_eq!(
        advance(SessionState::Terminating, SessionEvent::QuitRequested),
        SessionState::Terminating
    );
}
