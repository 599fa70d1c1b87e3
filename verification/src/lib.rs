//! Platform layer of a tiling window manager: window geometry, the
//! in-memory mock window, and the decisions that the Windows back end takes
//! around its system calls (window styles, transparency, z-order, keyboard
//! and window-event hooks, visibility), plus the parsing of shell commands.

pub mod dispatcher;
pub mod error;
pub mod geometry;
pub mod keyboard;
pub mod mock_window;
pub mod shell;
pub mod text;
pub mod window_events;
pub mod native_window;
