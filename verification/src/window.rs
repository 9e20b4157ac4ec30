//! The window registry model and the operations on it.
//!
//! The host toolkit owns the real registry; the shell only ever reads two
//! entries of it, `main` and `floating`, and each operation re-acquires its
//! window by name.  `WindowTable` holds those two entries as plain data, and
//! the functions here say exactly how each shell operation changes them.

use vstd::prelude::*;

verus! {

/// The state of one window as the shell sees it: visibility, input focus,
/// the flags it was built with, and its logical geometry in pixels.
#[derive(Clone, Copy, PartialEq, Eq, Structural, Debug)]
pub struct WindowState {
    pub visible: bool,
    pub focused: bool,
    pub always_on_top: bool,
    pub decorations: bool,
    pub skip_taskbar: bool,
    pub resizable: bool,
    pub width: u32,
    pub height: u32,
    pub min_width: u32,
    pub min_height: u32,
}

/// The two window names the shell ever looks up.
#[derive(Clone, Copy, PartialEq, Eq, Structural, Debug)]
pub enum WindowName {
    Main,
    Floating,
}

/// The host's window registry, restricted to the two entries the shell uses.
/// `None` means no live window of that name.
#[derive(Clone, Copy, PartialEq, Eq, Debug)]
pub struct WindowTable {
    pub main: Option<WindowState>,
    pub floating: Option<WindowState>,
}

/// Why a shell operation was refused.
#[derive(Clone, Copy, PartialEq, Eq, Structural, Debug)]
pub enum WindowError {
    /// Floating-window creation was requested while one is live.
    AlreadyExists,
}

/// The floating window as it is first built: hidden, unfocused, borderless,
/// always on top, off the taskbar, resizable, 400 by 600 with a 300 by 400
/// minimum.
pub open spec fn spec_floating_initial() -> WindowState {
    WindowState {
        visible: false,
        focused: false,
        always_on_top: true,
        decorations: false,
        skip_taskbar: true,
        resizable: true,
        width: 400,
        height: 600,
        min_width: 300,
        min_height: 400,
    }
}

/// The registry entry of the given name.
pub open spec fn spec_get_window(t: WindowTable, name: WindowName) -> Option<WindowState> {
    match name {
        WindowName::Main => t.main,
        WindowName::Floating => t.floating,
    }
}

/// The registry with the entry of the given name replaced.
pub open spec fn spec_with_window(
    t: WindowTable,
    name: WindowName,
    w: Option<WindowState>,
) -> WindowTable {
    match name {
        WindowName::Main => WindowTable { main: w, ..t },
        WindowName::Floating => WindowTable { floating: w, ..t },
    }
}

/// What the host's visibility query reports for an entry: a missing window
/// counts as not visible, as does a failed query.
pub open spec fn spec_observed_visible(w: Option<WindowState>) -> bool {
    match w {
        Some(w) => w.visible,
        None => false,
    }
}

/// One primitive call the application makes against the host toolkit.
#[derive(Clone, Copy, PartialEq, Eq, Structural, Debug)]
pub enum HostCall {
    /// Build the floating window from its fixed initial state.
    CreateFloating,
    /// Make the named window visible.
    Show,
    /// Give the named window input focus.
    Focus,
    /// Make the named window invisible.
    Hide,
}

/// The effect of one host call on the registry.  A call aimed at a window
/// that does not exist, or a creation when the floating window already does,
/// fails on the host's side and leaves the registry as it was.
pub open spec fn spec_apply_call(t: WindowTable, name: WindowName, call: HostCall) -> WindowTable {
    match call {
        HostCall::CreateFloating => if t.floating is Some {
            t
        } else {
            WindowTable { floating: Some(spec_floating_initial()), ..t }
        },
        HostCall::Show => match spec_get_window(t, name) {
            Some(w) => spec_with_window(t, name, Some(WindowState { visible: true, ..w })),
            None => t,
        },
        HostCall::Focus => match spec_get_window(t, name) {
            Some(w) => spec_with_window(t, name, Some(WindowState { focused: true, ..w })),
            None => t,
        },
        HostCall::Hide => match spec_get_window(t, name) {
            Some(w) => spec_with_window(t, name, Some(WindowState { visible: false, ..w })),
            None => t,
        },
    }
}

/// The effect of a sequence of host calls, applied left to right.
pub open spec fn spec_apply_calls(t: WindowTable, name: WindowName, calls: Seq<HostCall>) -> WindowTable
    decreases calls.len(),
{
    if calls.len() == 0 {
        t
    } else {
        spec_apply_calls(spec_apply_call(t, name, calls[0]), name, calls.subrange(1, calls.len() as int))
    }
}

/// What creating the floating window does: refused when one is live, else the
/// registry gains the fixed initial floating window.
pub open spec fn spec_create_floating(t: WindowTable) -> Result<WindowTable, WindowError> {
    if t.floating is Some {
        Err(WindowError::AlreadyExists)
    } else {
        Ok(WindowTable { floating: Some(spec_floating_initial()), ..t })
    }
}

/// What toggling the floating window does: hide it when visible, show and
/// focus it when hidden, and create it first when it does not exist yet.
pub open spec fn spec_toggle_floating(t: WindowTable) -> WindowTable {
    match t.floating {
        Some(w) => if w.visible {
            spec_apply_call(t, WindowName::Floating, HostCall::Hide)
        } else {
            spec_apply_call(
                spec_apply_call(t, WindowName::Floating, HostCall::Show),
                WindowName::Floating,
                HostCall::Focus,
            )
        },
        None => {
            let created = WindowTable { floating: Some(spec_floating_initial()), ..t };
            spec_apply_call(
                spec_apply_call(created, WindowName::Floating, HostCall::Show),
                WindowName::Floating,
                HostCall::Focus,
            )
        },
    }
}

/// What toggling the main window does: hide it when visible, show and focus
/// it when hidden, and nothing at all when it does not exist.
pub open spec fn spec_toggle_main(t: WindowTable) -> WindowTable {
    match t.main {
        Some(w) => if w.visible {
            spec_apply_call(t, WindowName::Main, HostCall::Hide)
        } else {
            spec_apply_call(
                spec_apply_call(t, WindowName::Main, HostCall::Show),
                WindowName::Main,
                HostCall::Focus,
            )
        },
        None => t,
    }
}

/// Setting the always-on-top flag changes that flag and nothing else.
pub open spec fn spec_set_always_on_top(w: WindowState, value: bool) -> WindowState {
    WindowState { always_on_top: value, ..w }
}

impl WindowTable {
    /// A registry with no live window of either name.
    pub fn empty() -> (t: WindowTable)
        ensures
            t == (WindowTable { main: None, floating: None }),
    {
        WindowTable { main: None, floating: None }
    }

    /// Looks up a window by name, as the shell does before every operation.
    pub fn get_window(&self, name: WindowName) -> (w: Option<WindowState>)
        ensures
            w == spec_get_window(*self, name),
    {
        match name {
            WindowName::Main => self.main,
            WindowName::Floating => self.floating,
        }
    }

    /// Replaces the entry of the given name.
    pub fn with_window(&self, name: WindowName, w: Option<WindowState>) -> (t: WindowTable)
        ensures
            t == spec_with_window(*self, name, w),
    {
        match name {
            WindowName::Main => WindowTable { main: w, floating: self.floating },
            WindowName::Floating => WindowTable { main: self.main, floating: w },
        }
    }
}

impl WindowError {
    /// The descriptive string the shell reports for this error.
    pub fn message(&self) -> (m: String)
        ensures
            m@ == "Floating window already exists"@,
    {
        "Floating window already exists".to_owned()
    }
}

/// The floating window's fixed initial state, for the application to build
/// the real window from.
pub fn floating_window_state() -> (w: WindowState)
    ensures
        w == spec_floating_initial(),
{
    WindowState {
        visible: false,
        focused: false,
        always_on_top: true,
        decorations: false,
        skip_taskbar: true,
        resizable: true,
        width: 400,
        height: 600,
        min_width: 300,
        min_height: 400,
    }
}

/// Creates the floating window: refused with `AlreadyExists` exactly when a
/// floating window is live; otherwise the registry gains the fixed initial
/// floating window and the main entry is untouched.
pub fn create_floating_window(table: &WindowTable) -> (r: Result<WindowTable, WindowError>)
    ensures
        r == spec_create_floating(*table),
        r is Err <==> table.floating is Some,
        r is Ok ==> r->Ok_0 == (WindowTable { floating: Some(spec_floating_initial()), main: table.main }),
{
    if table.floating.is_some() {
        Err(WindowError::AlreadyExists)
    } else {
        Ok(WindowTable { main: table.main, floating: Some(floating_window_state()) })
    }
}

/// One primitive host call, played against the registry model.
pub fn apply_host_call(table: &WindowTable, name: WindowName, call: HostCall) -> (t: WindowTable)
    ensures
        t == spec_apply_call(*table, name, call),
{
    match call {
        HostCall::CreateFloating => match create_floating_window(table) {
            Ok(t) => t,
            Err(_) => *table,
        },
        HostCall::Show => match table.get_window(name) {
            Some(w) => table.with_window(name, Some(WindowState { visible: true, ..w })),
            None => *table,
        },
        HostCall::Focus => match table.get_window(name) {
            Some(w) => table.with_window(name, Some(WindowState { focused: true, ..w })),
            None => *table,
        },
        HostCall::Hide => match table.get_window(name) {
            Some(w) => table.with_window(name, Some(WindowState { visible: false, ..w })),
            None => *table,
        },
    }
}

/// Toggles the floating window, creating it on demand: hides it when visible,
/// shows and focuses it when hidden, and when none exists creates it and then
/// shows and focuses it.  Creation cannot be refused on that path, since it
/// runs only when no floating window is live.
pub fn toggle_floating_window(table: &WindowTable) -> (t: WindowTable)
    ensures
        t == spec_toggle_floating(*table),
{
    match table.get_window(WindowName::Floating) {
        Some(w) => {
            if w.visible {
                apply_host_call(table, WindowName::Floating, HostCall::Hide)
            } else {
                let shown = apply_host_call(table, WindowName::Floating, HostCall::Show);
                apply_host_call(&shown, WindowName::Floating, HostCall::Focus)
            }
        },
        None => {
            let created = match create_floating_window(table) {
                Ok(t) => t,
                Err(_) => vstd::pervasive::unreached(),
            };
            let shown = apply_host_call(&created, WindowName::Floating, HostCall::Show);
            apply_host_call(&shown, WindowName::Floating, HostCall::Focus)
        },
    }
}

/// Toggles the main window: hides it when visible, shows and focuses it when
/// hidden, and does nothing when no main window exists.
pub fn toggle_main_window(table: &WindowTable) -> (t: WindowTable)
    ensures
        t == spec_toggle_main(*table),
{
    match table.get_window(WindowName::Main) {
        Some(w) => {
            if w.visible {
                apply_host_call(table, WindowName::Main, HostCall::Hide)
            } else {
                let shown = apply_host_call(table, WindowName::Main, HostCall::Show);
                apply_host_call(&shown, WindowName::Main, HostCall::Focus)
            }
        },
        None => *table,
    }
}

/// The host calls a visibility toggle issues, given what the shell observed
/// of the window: hide a visible window; show and then focus a hidden one;
/// for a missing one, create it first where the toggle creates on demand
/// (the floating window) and do nothing where it does not (the main window).
pub open spec fn spec_plan_toggle(exists: bool, visible: bool, create_if_missing: bool) -> Seq<
    HostCall,
> {
    if exists {
        if visible {
            seq![HostCall::Hide]
        } else {
            seq![HostCall::Show, HostCall::Focus]
        }
    } else if create_if_missing {
        seq![HostCall::CreateFloating, HostCall::Show, HostCall::Focus]
    } else {
        Seq::empty()
    }
}

/// Plans a visibility toggle from what the shell observed of the window:
/// whether it exists and whether the host reports it visible.
pub fn plan_toggle(exists: bool, visible: bool, create_if_missing: bool) -> (plan: Vec<HostCall>)
    ensures
        plan@ == spec_plan_toggle(exists, visible, create_if_missing),
{
    let mut plan: Vec<HostCall> = Vec::new();
    if exists {
        if visible {
            plan.push(HostCall::Hide);
            proof {
                assert(plan@ =~= seq![HostCall::Hide]);
            }
        } else {
            plan.push(HostCall::Show);
            plan.push(HostCall::Focus);
            proof {
                assert(plan@ =~= seq![HostCall::Show, HostCall::Focus]);
            }
        }
    } else if create_if_missing {
        plan.push(HostCall::CreateFloating);
        plan.push(HostCall::Show);
        plan.push(HostCall::Focus);
        proof {
            assert(plan@ =~= seq![HostCall::CreateFloating, HostCall::Show, HostCall::Focus]);
        }
    } else {
        proof {
            assert(plan@ =~= Seq::<HostCall>::empty());
        }
    }
    plan
}

/// Plays a sequence of host calls against the registry model, left to right.
pub fn apply_host_calls(table: &WindowTable, name: WindowName, calls: &Vec<HostCall>) -> (t:
    WindowTable)
    ensures
        t == spec_apply_calls(*table, name, calls@),
{
    let mut cur: WindowTable = *table;
    let mut i: usize = 0;
    proof {
        assert(calls@.subrange(0, calls@.len() as int) =~= calls@);
    }
    while i < calls.len()
        invariant
            i <= calls.len(),
            spec_apply_calls(cur, name, calls@.subrange(i as int, calls@.len() as int))
                == spec_apply_calls(*table, name, calls@),
        decreases calls.len() - i,
    {
        proof {
            assert(calls@.subrange(i as int, calls@.len() as int).subrange(
                1,
                calls@.subrange(i as int, calls@.len() as int).len() as int,
            ) =~= calls@.subrange(i as int + 1, calls@.len() as int));
        }
        cur = apply_host_call(&cur, name, calls[i]);
        i = i + 1;
    }
    proof {
        assert(calls@.subrange(calls@.len() as int, calls@.len() as int) =~= Seq::<
            HostCall,
        >::empty());
    }
    cur
}

/// Sets the window's always-on-top flag to the caller's value and changes
/// nothing else.
pub fn set_always_on_top(window: &mut WindowState, always_on_top: bool)
    ensures
        *final(window) == spec_set_always_on_top(*old(window), always_on_top),
{
    window.always_on_top = always_on_top;
}

/// Creating the floating window when none exists succeeds with the hidden
/// 400 by 600 initial window; creating again right away is refused as
/// already existing, and the refusal leaves no second window behind.
pub proof fn lemma_create_floating_twice(t: WindowTable)
    requires
        t.floating is None,
    ensures
        spec_create_floating(t) matches Ok(t1) && t1.floating == Some(spec_floating_initial()),
        !spec_floating_initial().visible && spec_floating_initial().width == 400
            && spec_floating_initial().height == 600,
        spec_create_floating(t) matches Ok(t1) && spec_create_floating(t1) == Err::<
            WindowTable,
            WindowError,
        >(WindowError::AlreadyExists),
{
}

/// Toggling the floating window when none exists creates it and leaves it
/// visible and focused, with the rest of its initial state kept.
pub proof fn lemma_toggle_floating_creates(t: WindowTable)
    requires
        t.floating is None,
    ensures
        spec_toggle_floating(t).floating == Some(
            WindowState { visible: true, focused: true, ..spec_floating_initial() },
        ),
        spec_toggle_floating(t).main == t.main,
{
}

/// Toggling the floating window while it is visible leaves it hidden.
pub proof fn lemma_toggle_floating_hides(t: WindowTable, w: WindowState)
    requires
        t.floating == Some(w),
        w.visible,
    ensures
        spec_toggle_floating(t).floating == Some(WindowState { visible: false, ..w }),
        spec_toggle_floating(t).main == t.main,
{
}

/// Toggling the floating window while it exists hidden leaves it visible
/// and focused.
pub proof fn lemma_toggle_floating_shows(t: WindowTable, w: WindowState)
    requires
        t.floating == Some(w),
        !w.visible,
    ensures
        spec_toggle_floating(t).floating == Some(
            WindowState { visible: true, focused: true, ..w },
        ),
        spec_toggle_floating(t).main == t.main,
{
}

/// Toggling the main window when none exists changes nothing and raises no
/// error: the registry comes back as it was.
pub proof fn lemma_toggle_main_absent(t: WindowTable)
    requires
        t.main is None,
    ensures
        spec_toggle_main(t) == t,
{
}

/// Two always-on-top settings in a row both take effect in order: the flag
/// ends in the last-set state and the rest of the window is untouched.
pub proof fn lemma_set_always_on_top_last_wins(w: WindowState, first: bool, second: bool)
    ensures
        spec_set_always_on_top(spec_set_always_on_top(w, first), second) == (WindowState {
            always_on_top: second,
            ..w
        }),
{
}

/// The call sequence planned from an observation of the registry, played
/// against the registry, has exactly the effect of the floating toggle.
pub proof fn lemma_plan_matches_toggle_floating(t: WindowTable)
    ensures
        spec_apply_calls(
            t,
            WindowName::Floating,
            spec_plan_toggle(t.floating is Some, spec_observed_visible(t.floating), true),
        ) == spec_toggle_floating(t),
{
    lemma_apply_plan_unfolds(t, WindowName::Floating);
}

/// The call sequence planned from an observation of the registry, played
/// against the registry, has exactly the effect of the main toggle.
pub proof fn lemma_plan_matches_toggle_main(t: WindowTable)
    ensures
        spec_apply_calls(
            t,
            WindowName::Main,
            spec_plan_toggle(t.main is Some, spec_observed_visible(t.main), false),
        ) == spec_toggle_main(t),
{
    lemma_apply_plan_unfolds(t, WindowName::Main);
}

/// Unfolds `spec_apply_calls` over each of the short call sequences a toggle
/// can plan.
proof fn lemma_apply_plan_unfolds(t: WindowTable, name: WindowName)
    ensures
        spec_apply_calls(t, name, seq![HostCall::Hide]) == spec_apply_call(t, name, HostCall::Hide),
        spec_apply_calls(t, name, seq![HostCall::Show, HostCall::Focus]) == spec_apply_call(
            spec_apply_call(t, name, HostCall::Show),
            name,
            HostCall::Focus,
        ),
        spec_apply_calls(t, name, seq![HostCall::CreateFloating, HostCall::Show, HostCall::Focus])
            == spec_apply_call(
            spec_apply_call(
                spec_apply_call(t, name, HostCall::CreateFloating),
                name,
                HostCall::Show,
            ),
            name,
            HostCall::Focus,
        ),
        spec_apply_calls(t, name, Seq::<HostCall>::empty()) == t,
{
    reveal_with_fuel(spec_apply_calls, 4);
    let one = seq![HostCall::Hide];
    let two = seq![HostCall::Show, HostCall::Focus];
    let three = seq![HostCall::CreateFloating, HostCall::Show, HostCall::Focus];
    assert(one.subrange(1, 1) =~= Seq::<HostCall>::empty());
    assert(two.subrange(1, 2) =~= seq![HostCall::Focus]);
    assert(seq![HostCall::Focus].subrange(1, 1) =~= Seq::<HostCall>::empty());
    assert(three.subrange(1, 3) =~= two);
    assert(spec_apply_calls(t, name, two) == spec_apply_calls(
        spec_apply_call(t, name, HostCall::Show),
        name,
        seq![HostCall::Focus],
    ));
    assert(spec_apply_calls(t, name, three) == spec_apply_calls(
        spec_apply_call(t, name, HostCall::CreateFloating),
        name,
        two,
    ));
    assert(spec_apply_calls(spec_apply_call(t, name, HostCall::CreateFloating), name, two)
        == spec_apply_calls(
        spec_apply_call(spec_apply_call(t, name, HostCall::CreateFloating), name, HostCall::Show),
        name,
        seq![HostCall::Focus],
    ));
}

} // verus!
