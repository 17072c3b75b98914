//! The state of the application that its decisions depend on.

use crate::app_io::AppIOError;
use crate::keyboard::keybind_manager::default_table;
use crate::keyboard::keybind_manager::KeybindManager;
use std::path::PathBuf;
use vstd::prelude::*;

verus! {

/// What the application knows of the open document and of itself. The text
/// buffer, the themes and the scale factor are held by the user interface.
#[derive(Debug)]
pub struct AppState {
    /// Where the document was read from or last written to.
    pub file_path: Option<PathBuf>,
    /// The buffer holds edits that were not saved.
    pub file_dirty: bool,
    /// The last error, shown in the status bar until a file operation
    /// succeeds or the text is edited.
    pub error: Option<AppIOError>,
    /// The configuration is to be written when saving it is next asked for.
    pub app_configuration_changed: bool,
    /// The keyboard shortcuts.
    pub keybind_manager: KeybindManager,
}

impl Default for AppState {
    /// The state at the start: no document path, no unsaved edits, no error,
    /// and the default keyboard shortcuts.
    fn default() -> (r: AppState)
        ensures
            r.file_path is None,
            !r.file_dirty,
            r.error is None,
            !r.app_configuration_changed,
            r.keybind_manager.table() == default_table(),
    {
        AppState {
            file_path: None,
            file_dirty: false,
            error: None,
            app_configuration_changed: false,
            keybind_manager: KeybindManager::default(),
        }
    }
}

} // verus!
