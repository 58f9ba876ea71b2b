//! Focus bookkeeping for groups of split panes, and the decisions behind native window management:
//! what to do with the windows, events and redraw requests that a desktop toolkit reports.
//!
//! Nothing here talks to the toolkit. A caller hands in what it observed and carries out what it
//! gets back.

pub mod events;
pub mod focus_laws;
pub mod focus_state;
pub mod pane;
pub mod platform;
pub mod resizing;
pub mod synthetic_drag;
pub mod window;
pub mod window_buttons;
pub mod window_manager;
pub mod window_open;
pub mod window_state;
