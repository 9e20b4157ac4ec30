use page_assist_desktop::window::{
    apply_host_calls, create_floating_window, floating_window_state, plan_toggle,
    set_always_on_top, toggle_floating_window, toggle_main_window, HostCall, WindowError,
    WindowName, WindowState, WindowTable,
};

fn plain_window(visible: bool) -> WindowState {
    WindowState {
        visible,
        focused: false,
        always_on_top: false,
        decorations: true,
        skip_taskbar: false,
        resizable: true,
        width: 800,
        height: 500,
        min_width: 200,
        min_height: 100,
    }
}

#[test]
fn floating_initial_state_is_fixed() {
    let w = floating_window_state();
    assert!(!w.visible);
    assert!(!w.focused);
    assert!(w.always_on_top);
    assert!(!w.decorations);
    assert!(w.skip_taskbar);
    assert!(w.resizable);
    assert_eq!((w.width, w.height), (400, 600));
    assert_eq!((w.min_width, w.min_height), (300, 400));
}

#[test]
fn create_floating_twice_second_fails() {
    let empty = WindowTable::empty();
    let first = create_floating_window(&empty);
    let created = first.expect("first creation succeeds");
    let floating = created.floating.expect("floating window is registered");
    assert!(!floating.visible);
    assert_eq!((floating.width, floating.height), (400, 600));
    let second = create_floating_window(&created);
    assert_eq!(second, Err(WindowError::AlreadyExists));
}

#[test]
fn create_floating_leaves_main_alone() {
    let table = WindowTable { main: Some(plain_window(true)), floating: None };
    let created = create_floating_window(&table).expect("creation succeeds");
    assert_eq!(created.main, table.main);
    assert_eq!(created.floating, Some(floating_window_state()));
}

#[test]
fn toggle_floating_missing_creates_shows_and_focuses() {
    let empty = WindowTable::empty();
    let toggled = toggle_floating_window(&empty);
    let floating = toggled.floating.expect("floating window exists after toggle");
    assert!(floating.visible);
    assert!(floating.focused);
    assert!(floating.always_on_top);
    assert_eq!((floating.width, floating.height), (400, 600));
    assert_eq!(toggled.main, None);
}

#[test]
fn toggle_floating_visible_hides() {
    let shown = WindowState { visible: true, focused: true, ..floating_window_state() };
    let table = WindowTable { main: None, floating: Some(shown) };
    let toggled = toggle_floating_window(&table);
    let floating = toggled.floating.expect("floating window still exists");
    assert!(!floating.visible);
}

#[test]
fn toggle_floating_hidden_shows_and_focuses() {
    let table = WindowTable { main: None, floating: Some(floating_window_state()) };
    let toggled = toggle_floating_window(&table);
    let floating = toggled.floating.expect("floating window still exists");
    assert!(floating.visible);
    assert!(floating.focused);
}

#[test]
fn toggle_main_missing_is_a_no_op() {
    let table = WindowTable { main: None, floating: Some(floating_window_state()) };
    let toggled = toggle_main_window(&table);
    assert_eq!(toggled, table);
}

#[test]
fn toggle_main_visible_hides() {
    let table = WindowTable { main: Some(plain_window(true)), floating: None };
    let toggled = toggle_main_window(&table);
    let main = toggled.main.expect("main window still exists");
    assert!(!main.visible);
    assert_eq!(toggled.floating, None);
}

#[test]
fn toggle_main_hidden_shows_and_focuses() {
    let table = WindowTable { main: Some(plain_window(false)), floating: None };
    let toggled = toggle_main_window(&table);
    let main = toggled.main.expect("main window still exists");
    assert!(main.visible);
    assert!(main.focused);
}

#[test]
fn set_always_on_top_last_set_wins() {
    let mut w = plain_window(true);
    set_always_on_top(&mut w, true);
    assert!(w.always_on_top);
    set_always_on_top(&mut w, false);
    assert!(!w.always_on_top);
    // Only the flag was touched; with it back in its original state the
    // window is exactly what it was.
    assert_eq!(w, plain_window(true));
}

#[test]
fn plan_toggle_covers_all_observations() {
    assert_eq!(plan_toggle(true, true, true), vec![HostCall::Hide]);
    assert_eq!(plan_toggle(true, false, true), vec![HostCall::Show, HostCall::Focus]);
    assert_eq!(
        plan_toggle(false, false, true),
        vec![HostCall::CreateFloating, HostCall::Show, HostCall::Focus]
    );
    assert_eq!(plan_toggle(false, false, false), vec![]);
    assert_eq!(plan_toggle(true, true, false), vec![HostCall::Hide]);
}

#[test]
fn applying_the_plan_equals_the_toggle() {
    let tables = [
        WindowTable::empty(),
        WindowTable { main: Some(plain_window(true)), floating: None },
        WindowTable { main: None, floating: Some(floating_window_state()) },
        WindowTable {
            main: Some(plain_window(false)),
            floating: Some(WindowState { visible: true, ..floating_window_state() }),
        },
    ];
    for table in tables {
        let fl_exists = table.floating.is_some();
        let fl_visible = table.floating.map(|w| w.visible).unwrap_or(false);
        let plan = plan_toggle(fl_exists, fl_visible, true);
        assert_eq!(
            apply_host_calls(&table, WindowName::Floating, &plan),
            toggle_floating_window(&table)
        );
        let main_exists = table.main.is_some();
        let main_visible = table.main.map(|w| w.visible).unwrap_or(false);
        let plan = plan_toggle(main_exists, main_visible, false);
        assert_eq!(apply_host_calls(&table, WindowName::Main, &plan), toggle_main_window(&table));
    }
}

#[test]
fn already_exists_has_its_message() {
    assert_eq!(WindowError::AlreadyExists.message(), "Floating window already exists");
}

#[test]
fn get_and_with_window_read_and_replace_entries() {
    let table = WindowTable { main: Some(plain_window(true)), floating: None };
    assert_eq!(table.get_window(WindowName::Main), Some(plain_window(true)));
    assert_eq!(table.get_window(WindowName::Floating), None);
    let swapped = table.with_window(WindowName::Floating, Some(floating_window_state()));
    assert_eq!(swapped.main, Some(plain_window(true)));
    assert_eq!(swapped.floating, Some(floating_window_state()));
}
