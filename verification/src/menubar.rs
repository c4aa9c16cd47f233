//! The tray menu's contents and what each entry does.
//!
//! Building the native menu and wiring its events is host glue; the menu's
//! entries and the dispatch from an event identifier to an action are
//! decided here.

use vstd::prelude::*;

verus! {

/// What a tray menu event asks for.
#[derive(Debug, Clone, Copy, PartialEq, Eq, Structural)]
pub enum MenubarAction {
    /// Show and focus the main window.
    OpenMain,
    /// Toggle the quick-access window.
    QuickAccess,
    /// Exit the application.
    Quit,
    /// An event of no menu entry: do nothing.
    Ignore,
}

/// The action a menu event identifier stands for.
pub open spec fn action_of(event_id: Seq<char>) -> MenubarAction {
    if event_id == "open"@ {
        MenubarAction::OpenMain
    } else if event_id == "quick_access"@ {
        MenubarAction::QuickAccess
    } else if event_id == "quit"@ {
        MenubarAction::Quit
    } else {
        MenubarAction::Ignore
    }
}

/// Decides what a tray menu event asks for.
pub fn menubar_action(event_id: &String) -> (r: MenubarAction)
    ensures
        r == action_of(event_id@),
{
    let open = "open".to_owned();
    let quick_access = "quick_access".to_owned();
    let quit = "quit".to_owned();
    if *event_id == open {
        MenubarAction::OpenMain
    } else if *event_id == quick_access {
        MenubarAction::QuickAccess
    } else if *event_id == quit {
        MenubarAction::Quit
    } else {
        MenubarAction::Ignore
    }
}

/// The tray menu's entries in order: each entry's event identifier and its
/// label. Every identifier dispatches to an action other than doing
/// nothing.
pub fn menu_items() -> (r: Vec<(String, String)>)
    ensures
        r@.len() == 3,
        r@[0].0@ == "open"@ && r@[0].1@ == "Open Composer"@,
        r@[1].0@ == "quick_access"@ && r@[1].1@ == "Quick Access"@,
        r@[2].0@ == "quit"@ && r@[2].1@ == "Quit Composer"@,
        forall|i: int| 0 <= i < r@.len() ==> action_of(r@[i].0@) != MenubarAction::Ignore,
{
    let mut r: Vec<(String, String)> = Vec::new();
    r.push(("open".to_owned(), "Open Composer".to_owned()));
    r.push(("quick_access".to_owned(), "Quick Access".to_owned()));
    r.push(("quit".to_owned(), "Quit Composer".to_owned()));
    proof {
        reveal_strlit("open");
        reveal_strlit("quick_access");
        reveal_strlit("quit");
    }
    r
}

} // verus!
