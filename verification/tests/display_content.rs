//! The display content: what the command's outcome puts on the screen, and
//! which lines are rendered for it.

use termloop::content::display_lines;
use termloop::errfmt::err_message;
use termloop::App;

const HINT: &str = "press 'q' to quit";

#[test]
fn new_app_shows_greeting() {
    let app = App::new();
    assert_eq!(app.message, "Gee Whiz!");
    assert!(app.status.is_none());
    assert_eq!(app.display(), vec!["Gee Whiz!", HINT]);
}

#[test]
fn success_replaces_message_with_stdout() {
    let mut app = App::new();
    app.apply_cmd_output(true, String::from("a\nb\n"), &vec![]);
    assert_eq!(app.message, "a\nb\n");
    assert_eq!(app.display(), vec!["a", "b", HINT]);
}

#[test]
fn failure_embeds_raw_stderr_bytes() {
    let mut app = App::new();
    app.apply_cmd_output(false, String::from("ignored"), &vec![101, 114, 114]);
    assert_eq!(app.message, "ERR: [101, 114, 114]");
}

#[test]
fn failure_with_empty_stderr() {
    let mut app = App::new();
    app.apply_cmd_output(false, String::new(), &vec![]);
    assert_eq!(app.message, "ERR: []");
}

#[test]
fn error_text_matches_debug_form_of_bytes() {
    let bytes: Vec<u8> = vec![0, 9, 10, 99, 100, 255];
    assert_eq!(err_message(&bytes), format!("ERR: {:?}", bytes));
}

#[test]
fn empty_message_still_shows_hint() {
    assert_eq!(display_lines(""), vec!["", HINT]);
}

#[test]
fn display_trims_like_the_standard_trim() {
    assert_eq!(display_lines("  hello \n"), vec!["hello", HINT]);
    assert_eq!(display_lines("\u{a0}x\u{3000}"), vec!["x", HINT]);
    assert_eq!(display_lines("  hello \n".trim()), vec!["hello".trim(), HINT]);
}

#[test]
fn display_keeps_inner_empty_lines() {
    assert_eq!(display_lines("a\n\nb"), vec!["a", "", "b", HINT]);
}

#[test]
fn display_matches_standard_split() {
    let msg = "one\ntwo\nthree";
    let mut expected: Vec<&str> = msg.trim().split('\n').collect();
    expected.push(HINT);
    assert_eq!(display_lines(msg), expected);
}
