use vstd::prelude::*;

use crate::text::same_text;

verus! {

broadcast use vstd::string::group_string_axioms;

/// Whether a request to close the window, or to exit, is held back so that
/// the editor can save first: only once the editor is ready, and not while
/// the app is already exiting on purpose.
pub fn holds_back_close(ready: bool, exiting: bool) -> (hold: bool)
    ensures
        hold == (ready && !exiting),
{
    ready && !exiting
}

/// What a tray menu click asks for.
#[derive(PartialEq, Eq, Structural, Debug)]
pub enum TrayAction {
    /// Save the current memo and open a new one.
    OpenNewNote,
    /// Ask the editor to save and then quit.
    RequestQuit,
    /// Quit at once (the editor is not ready, so there is nothing to save).
    Exit,
    /// Nothing.
    Ignore,
}

/// The action for a click on the tray menu item `id`.
pub fn tray_action(id: &str, ready: bool) -> (a: TrayAction)
    ensures
        id@ == "new-note"@ ==> a == TrayAction::OpenNewNote,
        id@ == "quit"@ ==> a == (if ready { TrayAction::RequestQuit } else { TrayAction::Exit }),
        id@ != "new-note"@ && id@ != "quit"@ ==> a == TrayAction::Ignore,
{
    proof {
        reveal_strlit("new-note");
        reveal_strlit("quit");
        assert("new-note"@.len() != "quit"@.len());
    }
    if same_text(id, "new-note") {
        TrayAction::OpenNewNote
    } else if same_text(id, "quit") {
        if ready {
            TrayAction::RequestQuit
        } else {
            TrayAction::Exit
        }
    } else {
        TrayAction::Ignore
    }
}

/// What a click on the Dock icon asks for.
#[derive(PartialEq, Eq, Structural, Debug)]
pub enum ReopenAction {
    /// Bring the visible editor to the front.
    ShowEditor,
    /// Open a new memo in the hidden editor.
    OpenNewNote,
    /// Nothing (there is no editor window).
    Nothing,
}

/// The action for a click on the Dock icon: a visible editor comes to the
/// front, a hidden one opens a new memo.
pub fn reopen_action(has_window: bool, visible: bool) -> (a: ReopenAction)
    ensures
        a == (if !has_window {
            ReopenAction::Nothing
        } else if visible {
            ReopenAction::ShowEditor
        } else {
            ReopenAction::OpenNewNote
        }),
{
    if !has_window {
        ReopenAction::Nothing
    } else if visible {
        ReopenAction::ShowEditor
    } else {
        ReopenAction::OpenNewNote
    }
}

/// Whether the app was started at login: one of its arguments is
/// `--autostart`.
pub open spec fn started_at_login(args: Seq<String>) -> bool {
    exists|i: int| 0 <= i < args.len() && #[trigger] args[i]@ == "--autostart"@
}

/// Whether the editor window is shown once the editor is ready: not when
/// the app was started at login, so that it does not take the screen.
pub fn shows_window_when_ready(args: &Vec<String>) -> (show: bool)
    ensures
        show == !started_at_login(args@),
{
    let mut i: usize = 0;
    while i < args.len()
        invariant
            i <= args@.len(),
            forall|j: int| 0 <= j < i ==> #[trigger] args@[j]@ != "--autostart"@,
        decreases args@.len() - i,
    {
        if same_text(args[i].as_str(), "--autostart") {
            return false;
        }
        i += 1;
    }
    true
}

/// The shortcut to record as the one in force once the editor is ready: the
/// stored one, when registering it worked.
pub fn shortcut_in_force(stored: String, registration_error: &Option<String>) -> (r: Option<String>)
    ensures
        registration_error is None ==> r == Some(stored),
        registration_error is Some ==> r is None,
{
    match registration_error {
        None => Some(stored),
        Some(_) => None,
    }
}

} // verus!
