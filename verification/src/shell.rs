//! The application shell's own state and decisions: the minimize-on-close
//! preference, the close-request decision, and the editor's default install
//! path. Showing, hiding and terminating are the host's side effects; which
//! of them to perform is decided here.

use vstd::prelude::*;

verus! {

/// What the host must do with an intercepted close request.
#[derive(Clone, Copy, PartialEq, Eq, Structural, Debug)]
pub enum CloseAction {
    /// Suppress the close and hide the window; the process keeps running.
    HideWindow,
    /// Let the close proceed; the process terminates normally.
    AllowClose,
}

/// The shell's one piece of mutable state: whether a close request hides the
/// window instead of quitting. It lives for the process lifetime and is not
/// persisted.
pub struct AppShell {
    pub minimize_on_close: bool,
}

impl AppShell {
    /// A fresh shell minimizes on close by default.
    pub fn new() -> (s: AppShell)
        ensures
            s.minimize_on_close,
    {
        AppShell { minimize_on_close: true }
    }

    /// Sets the close behavior.
    pub fn set_minimize_on_close(&mut self, minimize: bool)
        ensures
            final(self).minimize_on_close == minimize,
    {
        self.minimize_on_close = minimize;
    }

    /// Reads the close behavior; it reflects the most recent set call.
    pub fn get_minimize_on_close(&self) -> (r: bool)
        ensures
            r == self.minimize_on_close,
    {
        self.minimize_on_close
    }

    /// Decides an intercepted close request: hide the window while the
    /// preference is set, let the process terminate otherwise.
    pub fn on_close_requested(&self) -> (a: CloseAction)
        ensures
            a is HideWindow <==> self.minimize_on_close,
            a is AllowClose <==> !self.minimize_on_close,
    {
        if self.minimize_on_close {
            CloseAction::HideWindow
        } else {
            CloseAction::AllowClose
        }
    }
}

/// The hard-coded default install path of the external editor.
pub fn get_illustrator_path() -> (r: String)
    ensures
        r@
            == "C:\\Program Files\\Adobe\\Adobe Illustrator 2026\\Support Files\\Contents\\Windows\\Illustrator.exe"@,
{
    String::from_str(
        "C:\\Program Files\\Adobe\\Adobe Illustrator 2026\\Support Files\\Contents\\Windows\\Illustrator.exe",
    )
}

} // verus!
