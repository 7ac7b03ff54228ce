//! Verified core of a small interactive terminal session: the state of the
//! screen, the decision taken on each input event, the text that is rendered,
//! and the session lifecycle.  All terminal and process I/O lives outside this
//! crate; the functions here compute, from plain values, everything the
//! surrounding program needs to decide and to draw.

pub mod content;
pub mod errfmt;
pub mod event;
pub mod session;

use vstd::prelude::*;

verus! {

/// The state of the application: the text currently shown in the content
/// area, and an optional status line.
pub struct App {
    pub message: String,
    pub status: Option<String>,
}

impl App {
    /// A fresh application showing the greeting text.
    pub fn new() -> (app: App)
        ensures
            app.message@ == "Gee Whiz!"@,
            app.status is None,
    {
        App { message: String::from_str("Gee Whiz!"), status: None }
    }

    /// Install the outcome of the external listing command.  Success is
    /// decided by the command's exit status alone: on success the decoded
    /// standard output becomes the message, byte for byte; on failure the
    /// message becomes the error marker with the raw standard-error bytes.
    pub fn apply_cmd_output(&mut self, success: bool, stdout: String, stderr: &Vec<u8>)
        ensures
            success ==> final(self).message@ == stdout@,
            !success ==> final(self).message@ == crate::errfmt::error_text(stderr@),
            final(self).status == old(self).status,
    {
        if success {
            self.message = stdout;
        } else {
            self.message = crate::errfmt::err_message(stderr);
        }
    }

    /// The lines to render for the current message: the trimmed message,
    /// line by line, and the help line last.
    pub fn display(&self) -> (lines: Vec<String>)
        ensures
            crate::content::views_of(lines@) == crate::content::display_of(self.message@),
    {
        crate::content::display_lines(self.message.as_str())
    }
}

} // verus!
