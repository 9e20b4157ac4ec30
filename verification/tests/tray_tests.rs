use page_assist_desktop::tray::{
    handle_tray_event, route_tray_event, tray_menu, MenuEntry, TrayAction, TrayEvent, TrayOutcome,
};
use page_assist_desktop::window::{
    floating_window_state, toggle_floating_window, toggle_main_window, WindowState, WindowTable,
};

fn menu_click(id: &str) -> TrayEvent {
    TrayEvent::MenuItemClick { id: id.to_string() }
}

fn some_tables() -> Vec<WindowTable> {
    let main = WindowState { visible: true, focused: true, ..floating_window_state() };
    vec![
        WindowTable::empty(),
        WindowTable { main: Some(main), floating: None },
        WindowTable { main: Some(main), floating: Some(floating_window_state()) },
    ]
}

#[test]
fn menu_has_the_four_static_entries() {
    let menu = tray_menu();
    assert_eq!(menu.len(), 4);
    assert_eq!(
        menu[0],
        MenuEntry::Item { id: "show_main".to_string(), label: "Show Main Window".to_string() }
    );
    assert_eq!(
        menu[1],
        MenuEntry::Item { id: "floating".to_string(), label: "Floating Mode".to_string() }
    );
    assert_eq!(menu[2], MenuEntry::Separator);
    assert_eq!(menu[3], MenuEntry::Item { id: "quit".to_string(), label: "Quit".to_string() });
}

#[test]
fn events_route_to_their_actions() {
    assert_eq!(route_tray_event(&TrayEvent::LeftClick), TrayAction::ToggleMain);
    assert_eq!(route_tray_event(&menu_click("show_main")), TrayAction::ToggleMain);
    assert_eq!(route_tray_event(&menu_click("floating")), TrayAction::ToggleFloating);
    assert_eq!(route_tray_event(&menu_click("quit")), TrayAction::Quit);
    assert_eq!(route_tray_event(&menu_click("unknown")), TrayAction::Ignore);
    assert_eq!(route_tray_event(&menu_click("")), TrayAction::Ignore);
    assert_eq!(route_tray_event(&TrayEvent::Other), TrayAction::Ignore);
}

#[test]
fn left_click_and_show_main_have_the_same_outcome() {
    for table in some_tables() {
        let by_click = handle_tray_event(&TrayEvent::LeftClick, &table);
        let by_menu = handle_tray_event(&menu_click("show_main"), &table);
        assert_eq!(by_click, by_menu);
        assert_eq!(by_click, TrayOutcome::Continue(toggle_main_window(&table)));
    }
}

#[test]
fn quit_exits_whatever_the_window_state() {
    for table in some_tables() {
        assert_eq!(handle_tray_event(&menu_click("quit"), &table), TrayOutcome::Exit);
    }
}

#[test]
fn floating_item_toggles_the_floating_window() {
    for table in some_tables() {
        assert_eq!(
            handle_tray_event(&menu_click("floating"), &table),
            TrayOutcome::Continue(toggle_floating_window(&table))
        );
    }
}

#[test]
fn unknown_events_change_nothing() {
    for table in some_tables() {
        assert_eq!(handle_tray_event(&TrayEvent::Other, &table), TrayOutcome::Continue(table));
        assert_eq!(handle_tray_event(&menu_click("restart"), &table), TrayOutcome::Continue(table));
    }
}
