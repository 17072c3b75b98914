//! The messages that drive the application and the commands it answers with.
//!
//! The user interface turns what happens (a click, a key press, the end of a
//! file operation) into an [`AppMessage`] and hands it to
//! `AppMain::update`. The answer is an [`AppCommand`]: what the user
//! interface has to do next. Values that only the user interface can hold
//! (an edit of the text buffer, a theme, a scale factor, a window size) stay
//! with it; the message tells that they arrived.

use crate::app_io::AppIOError;
use crate::keyboard::key::Key;
use crate::keyboard::modifiers::Modifiers;
use std::path::PathBuf;
use vstd::prelude::*;

verus! {

/// An input event of the window.
#[derive(Debug, PartialEq, Eq)]
pub enum AppEvent {
    /// A key was pressed. `command` tells whether the platform's command
    /// modifier is held (the logo key on macOS, Ctrl elsewhere).
    KeyPressed { key: Key, modifiers: Modifiers, command: bool },
    /// A key was released.
    KeyReleased,
    /// The held modifiers changed.
    ModifiersChanged,
    /// A mouse event.
    Mouse,
    /// A window event.
    Window,
    /// A touch event.
    Touch,
}

/// What happened.
#[derive(Debug, PartialEq, Eq)]
pub enum AppMessage {
    /// The editor widget asks to apply an action to the text buffer;
    /// `is_edit` tells whether the action changes the text.
    TextEdited { is_edit: bool },
    /// The user asks to open a file.
    OpenFileFromDialog,
    /// Opening a file ended: with its path and text, or with an error.
    FileOpened(Result<(PathBuf, String), AppIOError>),
    /// The user asks for a new, empty file.
    NewFile,
    /// The user asks to save the buffer.
    SaveFile,
    /// Saving ended: with the path written to, or with an error.
    FileSaved(Result<PathBuf, AppIOError>),
    /// The user chose a language.
    UpdateLanguage(String),
    /// The user chose a window theme.
    UpdateWindowTheme,
    /// The user chose a syntax highlighting theme.
    UpdateSyntaxTheme,
    /// The user chose a scale factor.
    UpdateScale,
    /// An input event arrived.
    EventOccurred(AppEvent),
    /// The window was moved or resized.
    WindowResized,
    /// Something asks to save the configuration if it has changed.
    SaveAppConfiguration,
    /// The tab key was pressed.
    TabPressed,
    /// The focus moved to another widget.
    FocusChanged,
    /// The user asks for the settings dialog.
    OpenAppConfigurationModal,
    /// The user closes the settings dialog.
    CloseAppConfigurationModal,
}

/// What the user interface has to do after a message.
#[derive(Debug, PartialEq, Eq)]
pub enum AppCommand {
    /// Nothing is left to do.
    Nothing,
    /// Apply the action of the message to the text buffer.
    PerformEdit,
    /// Let the user choose a file, read it, and answer with
    /// [`AppMessage::FileOpened`].
    OpenFileDialog,
    /// Replace the text buffer by this text.
    SetContent(String),
    /// Replace the text buffer by an empty one.
    ClearContent,
    /// Write the text buffer to `path`, or to a path that the user chooses
    /// where there is none, and answer with [`AppMessage::FileSaved`].
    WriteFile { path: Option<PathBuf> },
    /// Switch the user interface to this language.
    SetLocale(String),
    /// Write the configuration file.
    SaveConfiguration,
    /// Close the window and end the application.
    Quit,
}

} // verus!
