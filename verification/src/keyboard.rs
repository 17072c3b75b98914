//! Keyboard shortcuts: logical commands, key chords and the table that binds them.

pub mod code;
pub mod key;
pub mod key_map;
pub mod keybind_action;
pub mod keybind_manager;
pub mod laws;
pub mod modifiers;
pub mod shortcut_text;
