//! Decision logic for a tray-driven desktop shell.
//!
//! The shell keeps two named windows, `main` and `floating`, in the host
//! toolkit's window registry, shows or hides them on demand, and drives both
//! from a system-tray icon with a small static menu.  This crate models that
//! registry as plain data and proves what every operation does to it: creating
//! the floating window, toggling visibility of either window, setting the
//! always-on-top flag, building the tray menu, and routing a tray event to its
//! action.  The host toolkit's own calls (window construction, show, hide,
//! focus, process exit) are I/O performed by the surrounding application,
//! which observes the registry, asks this crate what to do, and carries the
//! answer out.

pub mod tray;
pub mod window;
