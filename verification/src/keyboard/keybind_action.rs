//! The commands that a keyboard shortcut can trigger.

use vstd::prelude::*;

verus! {

/// A logical command of the editor, independent of the keys bound to it.
#[derive(Debug, Clone, Copy, PartialEq, Eq, Structural, Hash)]
pub enum KeybindAction {
    CutText,
    CopyText,
    PasteText,
    NewFile,
    OpenFile,
    SaveFile,
    CloseFile,
    ShowSettings,
    QuitApplication,
}

} // verus!
