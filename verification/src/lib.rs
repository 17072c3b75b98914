//! The decision logic of a small desktop text editor: keyboard shortcuts,
//! the document state machine, and what the tool bar, the status bar and the
//! styles hold.

pub mod app_io;
pub mod app_message;
pub mod app_state;
pub mod controls;
pub mod file_path;
pub mod keyboard;
pub mod main_window;
pub mod number_text;
pub mod ui_const;
pub mod ui_style;
pub mod ui_util;
