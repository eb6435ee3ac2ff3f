//! What the host shell's tray menu asks for.

use crate::text::same_text;
use vstd::prelude::*;
use vstd::string::*;

verus! {

/// What a click on a tray menu entry leads to.
#[derive(Debug, Clone, Copy, PartialEq, Eq, Structural)]
pub enum MenuAction {
    /// Ask the user interface to show the settings.
    ShowSettings,
    /// End the process.
    Quit,
    /// The entry is not one of this client's.
    Nothing,
}

/// The action for the entry with identifier `id`.
pub open spec fn menu_action_of(id: Seq<char>) -> MenuAction {
    if id == "settings"@ {
        MenuAction::ShowSettings
    } else if id == "quit"@ {
        MenuAction::Quit
    } else {
        MenuAction::Nothing
    }
}

/// Maps a tray menu entry to its action.
pub fn menu_action(id: &str) -> (r: MenuAction)
    ensures
        r == menu_action_of(id@),
{
    if same_text(id, "settings") {
        MenuAction::ShowSettings
    } else if same_text(id, "quit") {
        MenuAction::Quit
    } else {
        MenuAction::Nothing
    }
}

} // verus!
