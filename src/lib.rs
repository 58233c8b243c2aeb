//! Decision logic of a tray-icon popover launcher.
//!
//! The host toolkit dispatches tray, menu and window events; each handler here
//! is a pure function from what the host reports to the list of commands the
//! host should carry out.
pub mod placement;
pub mod events;
pub mod controller;
pub mod visibility;
pub mod laws;
