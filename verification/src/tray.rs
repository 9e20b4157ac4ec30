//! The tray menu and the routing of tray events to window actions.

use vstd::prelude::*;

use crate::window::spec_toggle_floating;
use crate::window::spec_toggle_main;
use crate::window::toggle_floating_window;
use crate::window::toggle_main_window;
use crate::window::WindowTable;

verus! {

/// One entry of the tray menu.
#[derive(Clone, PartialEq, Eq, Debug)]
pub enum MenuEntry {
    /// A clickable item: the id the host reports back on a click, and the
    /// label shown to the user.
    Item { id: String, label: String },
    /// A visual separator.
    Separator,
}

/// One interaction with the tray icon, as the host toolkit delivers it.
#[derive(Clone, PartialEq, Eq, Debug)]
pub enum TrayEvent {
    /// A left click on the tray icon itself.
    LeftClick,
    /// A click on the menu item with the given id.
    MenuItemClick { id: String },
    /// Any other tray interaction.
    Other,
}

/// The action a tray event is routed to.
#[derive(Clone, Copy, PartialEq, Eq, Structural, Debug)]
pub enum TrayAction {
    /// Toggle the main window's visibility.
    ToggleMain,
    /// Toggle the floating window's visibility.
    ToggleFloating,
    /// Terminate the process with exit code 0.
    Quit,
    /// Do nothing.
    Ignore,
}

/// Where each tray event goes: a left click and the `show_main` menu item
/// toggle the main window, `floating` toggles the floating window, `quit`
/// exits, and everything else is ignored.
pub open spec fn spec_route_tray_event(event: TrayEvent) -> TrayAction {
    match event {
        TrayEvent::LeftClick => TrayAction::ToggleMain,
        TrayEvent::MenuItemClick { id } => if id@ == "show_main"@ {
            TrayAction::ToggleMain
        } else if id@ == "floating"@ {
            TrayAction::ToggleFloating
        } else if id@ == "quit"@ {
            TrayAction::Quit
        } else {
            TrayAction::Ignore
        },
        TrayEvent::Other => TrayAction::Ignore,
    }
}

/// Routes one tray event to its action.
pub fn route_tray_event(event: &TrayEvent) -> (action: TrayAction)
    ensures
        action == spec_route_tray_event(*event),
{
    match event {
        TrayEvent::LeftClick => TrayAction::ToggleMain,
        TrayEvent::MenuItemClick { id } => {
            if *id == "show_main".to_owned() {
                TrayAction::ToggleMain
            } else if *id == "floating".to_owned() {
                TrayAction::ToggleFloating
            } else if *id == "quit".to_owned() {
                TrayAction::Quit
            } else {
                TrayAction::Ignore
            }
        },
        TrayEvent::Other => TrayAction::Ignore,
    }
}

/// The static tray menu, built once at startup: show main, floating mode, a
/// separator, quit.  It carries no dynamic state.
pub fn tray_menu() -> (menu: Vec<MenuEntry>)
    ensures
        menu@.len() == 4,
        menu@[0] matches MenuEntry::Item { id, label } && id@ == "show_main"@ && label@
            == "Show Main Window"@,
        menu@[1] matches MenuEntry::Item { id, label } && id@ == "floating"@ && label@
            == "Floating Mode"@,
        menu@[2] is Separator,
        menu@[3] matches MenuEntry::Item { id, label } && id@ == "quit"@ && label@ == "Quit"@,
{
    let mut menu: Vec<MenuEntry> = Vec::new();
    menu.push(MenuEntry::Item { id: "show_main".to_owned(), label: "Show Main Window".to_owned() });
    menu.push(MenuEntry::Item { id: "floating".to_owned(), label: "Floating Mode".to_owned() });
    menu.push(MenuEntry::Separator);
    menu.push(MenuEntry::Item { id: "quit".to_owned(), label: "Quit".to_owned() });
    menu
}

/// What handling a tray event leaves behind: either the shell goes on with
/// the registry in a new state, or it exits with code 0.
#[derive(Clone, Copy, PartialEq, Eq, Debug)]
pub enum TrayOutcome {
    /// The shell keeps running; the registry is now in this state.
    Continue(WindowTable),
    /// The shell terminates the process with exit code 0.
    Exit,
}

/// The outcome of one tray event on the registry: a toggle for the main or
/// floating window, an exit for `quit`, and no change for anything else.
pub open spec fn spec_handle_tray_event(event: TrayEvent, t: WindowTable) -> TrayOutcome {
    match spec_route_tray_event(event) {
        TrayAction::ToggleMain => TrayOutcome::Continue(spec_toggle_main(t)),
        TrayAction::ToggleFloating => TrayOutcome::Continue(spec_toggle_floating(t)),
        TrayAction::Quit => TrayOutcome::Exit,
        TrayAction::Ignore => TrayOutcome::Continue(t),
    }
}

/// Handles one tray event against the registry model.  The application
/// performs the same dispatch against the host: it spawns the toggle as a
/// fire-and-forget task (so a toggle failure is invisible to the tray) and
/// performs the exit itself.
pub fn handle_tray_event(event: &TrayEvent, table: &WindowTable) -> (out: TrayOutcome)
    ensures
        out == spec_handle_tray_event(*event, *table),
{
    match route_tray_event(event) {
        TrayAction::ToggleMain => TrayOutcome::Continue(toggle_main_window(table)),
        TrayAction::ToggleFloating => TrayOutcome::Continue(toggle_floating_window(table)),
        TrayAction::Quit => TrayOutcome::Exit,
        TrayAction::Ignore => TrayOutcome::Continue(*table),
    }
}

/// A left click on the tray icon has exactly the outcome of choosing the
/// `show_main` menu item: from the same starting registry, both toggle the
/// main window and leave the registry in the same state.
pub proof fn lemma_left_click_matches_show_main(id: String, t: WindowTable)
    requires
        id@ == "show_main"@,
    ensures
        spec_handle_tray_event(TrayEvent::LeftClick, t) == spec_handle_tray_event(
            TrayEvent::MenuItemClick { id },
            t,
        ),
{
}

/// Choosing the `quit` menu item exits, whatever state any window is in.
pub proof fn lemma_quit_exits(id: String, t: WindowTable)
    requires
        id@ == "quit"@,
    ensures
        spec_handle_tray_event(TrayEvent::MenuItemClick { id }, t) == TrayOutcome::Exit,
{
    reveal_strlit("quit");
    reveal_strlit("show_main");
    reveal_strlit("floating");
    assert("quit"@.len() == 4);
    assert("show_main"@.len() == 9);
    assert("floating"@.len() == 8);
}

/// Every clickable id of the tray menu routes to its action: `show_main`
/// toggles the main window, `floating` toggles the floating window, and
/// `quit` exits.
pub proof fn lemma_menu_ids_route(id: String)
    ensures
        id@ == "show_main"@ ==> spec_route_tray_event(TrayEvent::MenuItemClick { id })
            == TrayAction::ToggleMain,
        id@ == "floating"@ ==> spec_route_tray_event(TrayEvent::MenuItemClick { id })
            == TrayAction::ToggleFloating,
        id@ == "quit"@ ==> spec_route_tray_event(TrayEvent::MenuItemClick { id })
            == TrayAction::Quit,
{
    reveal_strlit("quit");
    reveal_strlit("show_main");
    reveal_strlit("floating");
    assert("quit"@.len() == 4);
    assert("show_main"@.len() == 9);
    assert("floating"@.len() == 8);
}

} // verus!
