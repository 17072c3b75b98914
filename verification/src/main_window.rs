//! The application: its state, and the step from a message to the next
//! state and the command for the user interface.

use crate::app_io::AppIOError;
use crate::app_message::AppCommand;
use crate::app_message::AppEvent;
use crate::app_message::AppMessage;
use crate::app_state::AppState;
use crate::controls::statusbar::text_view;
use crate::controls::statusbar::AppStatusbar;
use crate::controls::toolbar::AppToolbar;
use crate::file_path::optional_path_str;
use crate::file_path::path_extension;
use crate::file_path::path_text;
use crate::keyboard::code::Code;
use crate::keyboard::key::Key;
use crate::keyboard::key::KeyView;
use crate::keyboard::key_map::code_of_key;
use crate::keyboard::key_map::is_letter_key;
use crate::keyboard::keybind_action::KeybindAction;
use crate::keyboard::keybind_manager::default_table;
use crate::keyboard::keybind_manager::resolve;
use crate::keyboard::keybind_manager::Keybind;
use crate::keyboard::laws::lemma_default_shortcuts;
use crate::keyboard::modifiers::Modifiers;
use std::path::PathBuf;
use vstd::prelude::*;

verus! {

/// The application.
#[derive(Debug)]
pub struct AppMain {
    pub app_state: AppState,
    pub toolbar: AppToolbar,
    pub statusbar: AppStatusbar,
    /// The settings dialog is shown over the window.
    pub show_app_configuration_modal: bool,
}

/// What the main window shows besides the bars.
#[derive(Debug, PartialEq, Eq)]
pub struct MainWindowView {
    /// The syntax that the editor highlights the text as, named by a file
    /// extension.
    pub syntax: String,
    /// The settings dialog lies over the window.
    pub show_app_configuration_modal: bool,
}

/// The syntax of a document: the extension of its file, or Markdown for a
/// document without one.
pub open spec fn syntax_of(file_extension: Option<Seq<char>>) -> Seq<char> {
    match file_extension {
        Some(extension) => extension,
        None => "md"@,
    }
}

/// The key types exactly the character `letter`.
pub open spec fn types_letter(key: KeyView, letter: char) -> bool {
    key matches KeyView::Character(text) && text.len() == 1 && text[0] == letter
}

/// The file command of a key press that is bound to nothing: with Ctrl or
/// the platform's command modifier held, and neither Shift nor Alt, the key
/// `s` saves, `o` opens and `n` starts a new file.
pub open spec fn file_shortcut(key: KeyView, modifiers: Modifiers, command: bool) -> Option<
    KeybindAction,
> {
    if (modifiers.ctrl || command) && !modifiers.shift && !modifiers.alt {
        if types_letter(key, 's') {
            Some(KeybindAction::SaveFile)
        } else if types_letter(key, 'o') {
            Some(KeybindAction::OpenFile)
        } else if types_letter(key, 'n') {
            Some(KeybindAction::NewFile)
        } else {
            None
        }
    } else {
        None
    }
}

/// The command that a key press triggers: what the table of key bindings
/// binds to it, or else its file command.
pub open spec fn pressed_action(
    table: Seq<Keybind>,
    key: KeyView,
    modifiers: Modifiers,
    command: bool,
) -> Option<KeybindAction> {
    match resolve(table, key, modifiers) {
        Some(action) => Some(action),
        None => file_shortcut(key, modifiers, command),
    }
}

/// The state with another document state.
pub open spec fn with_document(
    app: AppMain,
    file_path: Option<PathBuf>,
    file_dirty: bool,
    error: Option<AppIOError>,
) -> AppMain {
    AppMain { app_state: AppState { file_path, file_dirty, error, ..app.app_state }, ..app }
}

/// The state after the user asked for a new file: with unsaved edits
/// nothing changes, else the document has no path any more.
pub open spec fn after_new_file(app: AppMain) -> AppMain {
    if app.app_state.file_dirty {
        app
    } else {
        with_document(app, None, false, app.app_state.error)
    }
}

/// The command after the user asked for a new file: with unsaved edits
/// nothing, else the buffer is emptied.
pub open spec fn new_file_command(app: AppMain) -> AppCommand {
    if app.app_state.file_dirty {
        AppCommand::Nothing
    } else {
        AppCommand::ClearContent
    }
}

/// The state after a command was triggered by its shortcut: a new file is
/// started as by the tool bar, the settings dialog is shown, and no other
/// command changes the state.
pub open spec fn after_action(app: AppMain, action: KeybindAction) -> AppMain {
    match action {
        KeybindAction::NewFile => after_new_file(app),
        KeybindAction::ShowSettings => AppMain { show_app_configuration_modal: true, ..app },
        _ => app,
    }
}

/// What the user interface has to do after a command was triggered by its
/// shortcut: saving, opening and starting a new file are carried out as
/// from the tool bar, quitting ends the application, and the commands that
/// the application leaves to the editor or does not handle ask for nothing.
pub open spec fn action_command(app: AppMain, action: KeybindAction) -> AppCommand {
    match action {
        KeybindAction::SaveFile => AppCommand::WriteFile { path: app.app_state.file_path },
        KeybindAction::OpenFile => AppCommand::OpenFileDialog,
        KeybindAction::NewFile => new_file_command(app),
        KeybindAction::QuitApplication => AppCommand::Quit,
        _ => AppCommand::Nothing,
    }
}

/// The state after a message.
pub open spec fn next_state(app: AppMain, message: AppMessage) -> AppMain {
    match message {
        AppMessage::TextEdited { is_edit } => with_document(
            app,
            app.app_state.file_path,
            app.app_state.file_dirty || is_edit,
            None,
        ),
        AppMessage::FileOpened(Ok((path, _))) => with_document(app, Some(path), false, None),
        AppMessage::FileOpened(Err(error)) => with_document(
            app,
            app.app_state.file_path,
            app.app_state.file_dirty,
            Some(error),
        ),
        AppMessage::NewFile => after_new_file(app),
        AppMessage::FileSaved(Ok(path)) => with_document(app, Some(path), false, None),
        AppMessage::FileSaved(Err(error)) => with_document(
            app,
            app.app_state.file_path,
            app.app_state.file_dirty,
            Some(error),
        ),
        AppMessage::EventOccurred(AppEvent::KeyPressed { key, modifiers, command }) => {
            match pressed_action(app.app_state.keybind_manager.table(), key@, modifiers, command) {
                Some(action) => after_action(app, action),
                None => app,
            }
        },
        AppMessage::SaveAppConfiguration => AppMain {
            app_state: AppState { app_configuration_changed: false, ..app.app_state },
            ..app
        },
        AppMessage::OpenAppConfigurationModal => AppMain {
            show_app_configuration_modal: true,
            ..app
        },
        AppMessage::CloseAppConfigurationModal => AppMain {
            show_app_configuration_modal: false,
            ..app
        },
        _ => app,
    }
}

/// The command for the user interface after a message.
pub open spec fn command_for(app: AppMain, message: AppMessage) -> AppCommand {
    match message {
        AppMessage::TextEdited { .. } => AppCommand::PerformEdit,
        AppMessage::OpenFileFromDialog => AppCommand::OpenFileDialog,
        AppMessage::FileOpened(Ok((_, content))) => AppCommand::SetContent(content),
        AppMessage::NewFile => new_file_command(app),
        AppMessage::SaveFile => AppCommand::WriteFile { path: app.app_state.file_path },
        AppMessage::UpdateLanguage(locale) => AppCommand::SetLocale(locale),
        AppMessage::UpdateScale => AppCommand::SaveConfiguration,
        AppMessage::EventOccurred(AppEvent::KeyPressed { key, modifiers, command }) => {
            match pressed_action(app.app_state.keybind_manager.table(), key@, modifiers, command) {
                Some(action) => action_command(app, action),
                None => AppCommand::Nothing,
            }
        },
        AppMessage::WindowResized => AppCommand::SaveConfiguration,
        AppMessage::SaveAppConfiguration => if app.app_state.app_configuration_changed {
            AppCommand::SaveConfiguration
        } else {
            AppCommand::Nothing
        },
        _ => AppCommand::Nothing,
    }
}

impl Default for AppMain {
    /// The application at its start: the default state, no dialog shown.
    fn default() -> (r: AppMain)
        ensures
            r.app_state.file_path is None,
            !r.app_state.file_dirty,
            r.app_state.error is None,
            !r.app_state.app_configuration_changed,
            r.app_state.keybind_manager.table() == default_table(),
            !r.show_app_configuration_modal,
    {
        AppMain {
            app_state: AppState::default(),
            toolbar: AppToolbar::new(),
            statusbar: AppStatusbar::new(),
            show_app_configuration_modal: false,
        }
    }
}

impl AppMain {
    /// The application at its start, and nothing for the user interface to
    /// do.
    pub fn new() -> (r: (AppMain, AppCommand))
        ensures
            r.0.app_state.file_path is None,
            !r.0.app_state.file_dirty,
            r.0.app_state.error is None,
            !r.0.app_state.app_configuration_changed,
            r.0.app_state.keybind_manager.table() == default_table(),
            !r.0.show_app_configuration_modal,
            r.1 == AppCommand::Nothing,
    {
        (AppMain::default(), AppCommand::Nothing)
    }

    /// Takes a message: moves to the next state and says what the user
    /// interface has to do.
    pub fn update(&mut self, message: AppMessage) -> (r: AppCommand)
        ensures
            *final(self) == next_state(*old(self), message),
            r == command_for(*old(self), message),
    {
        match message {
            AppMessage::TextEdited { is_edit } => {
                self.app_state.error = None;
                self.app_state.file_dirty = self.app_state.file_dirty || is_edit;
                AppCommand::PerformEdit
            },
            AppMessage::OpenFileFromDialog => self.open_file(),
            AppMessage::FileOpened(Ok((file_path, content))) => {
                self.app_state.file_dirty = false;
                self.app_state.file_path = Some(file_path);
                self.app_state.error = None;
                AppCommand::SetContent(content)
            },
            AppMessage::FileOpened(Err(error)) => {
                self.app_state.error = Some(error);
                AppCommand::Nothing
            },
            AppMessage::NewFile => self.new_file(),
            AppMessage::SaveFile => self.save_file(),
            AppMessage::FileSaved(Ok(file_name)) => {
                self.app_state.file_path = Some(file_name);
                self.app_state.file_dirty = false;
                self.app_state.error = None;
                AppCommand::Nothing
            },
            AppMessage::FileSaved(Err(error)) => {
                self.app_state.error = Some(error);
                AppCommand::Nothing
            },
            AppMessage::UpdateLanguage(locale) => AppCommand::SetLocale(locale),
            AppMessage::UpdateWindowTheme => AppCommand::Nothing,
            AppMessage::UpdateSyntaxTheme => AppCommand::Nothing,
            AppMessage::UpdateScale => AppCommand::SaveConfiguration,
            AppMessage::EventOccurred(AppEvent::KeyPressed { key, modifiers, command }) => {
                match self.pressed_action(&key, modifiers, command) {
                    Some(action) => self.trigger(action),
                    None => AppCommand::Nothing,
                }
            },
            AppMessage::EventOccurred(AppEvent::KeyReleased) => AppCommand::Nothing,
            AppMessage::EventOccurred(AppEvent::ModifiersChanged) => AppCommand::Nothing,
            AppMessage::EventOccurred(AppEvent::Mouse) => AppCommand::Nothing,
            AppMessage::EventOccurred(AppEvent::Window) => AppCommand::Nothing,
            AppMessage::EventOccurred(AppEvent::Touch) => AppCommand::Nothing,
            AppMessage::WindowResized => AppCommand::SaveConfiguration,
            AppMessage::SaveAppConfiguration => {
                if self.app_state.app_configuration_changed {
                    self.app_state.app_configuration_changed = false;
                    AppCommand::SaveConfiguration
                } else {
                    AppCommand::Nothing
                }
            },
            AppMessage::TabPressed => AppCommand::Nothing,
            AppMessage::FocusChanged => AppCommand::Nothing,
            AppMessage::OpenAppConfigurationModal => {
                self.show_app_configuration_modal = true;
                AppCommand::Nothing
            },
            AppMessage::CloseAppConfigurationModal => {
                self.show_app_configuration_modal = false;
                AppCommand::Nothing
            },
        }
    }

    /// The command that a key press triggers in this state, if any.
    pub fn pressed_action(&self, key: &Key, modifiers: Modifiers, command: bool) -> (r: Option<
        KeybindAction,
    >)
        ensures
            r == pressed_action(self.app_state.keybind_manager.table(), key@, modifiers, command),
    {
        match self.app_state.keybind_manager.get_app_action(key, modifiers) {
            Some(action) => Some(action),
            None => {
                if (modifiers.ctrl || command) && !modifiers.shift && !modifiers.alt {
                    match code_of_key(key) {
                        Some(Code::KeyS) => Some(KeybindAction::SaveFile),
                        Some(Code::KeyO) => Some(KeybindAction::OpenFile),
                        Some(Code::KeyN) => Some(KeybindAction::NewFile),
                        _ => None,
                    }
                } else {
                    None
                }
            },
        }
    }

    /// Carries out a command that was triggered by its shortcut.
    pub fn trigger(&mut self, action: KeybindAction) -> (r: AppCommand)
        ensures
            *final(self) == after_action(*old(self), action),
            r == action_command(*old(self), action),
    {
        match action {
            KeybindAction::SaveFile => self.save_file(),
            KeybindAction::OpenFile => self.open_file(),
            KeybindAction::NewFile => self.new_file(),
            KeybindAction::ShowSettings => {
                self.show_app_configuration_modal = true;
                AppCommand::Nothing
            },
            KeybindAction::QuitApplication => AppCommand::Quit,
            KeybindAction::CloseFile => AppCommand::Nothing,
            KeybindAction::CutText => AppCommand::Nothing,
            KeybindAction::CopyText => AppCommand::Nothing,
            KeybindAction::PasteText => AppCommand::Nothing,
        }
    }

    /// What the main window shows: the text is highlighted by the extension
    /// of the document's file, as Markdown where the document has no file
    /// or the file no extension that is valid Unicode.
    pub fn view(&self) -> (r: MainWindowView)
        ensures
            r.show_app_configuration_modal == self.show_app_configuration_modal,
            match self.app_state.file_path {
                Some(_) => exists|extension: Option<PathBuf>|
                    r.syntax@ == syntax_of(optional_path_str(extension)),
                None => r.syntax@ == syntax_of(None),
            },
    {
        let extension = match &self.app_state.file_path {
            Some(path) => path_extension(path),
            None => None,
        };
        let file_extension = match &extension {
            Some(extension) => path_text(extension),
            None => None,
        };
        proof {
            assert(text_view(file_extension) == optional_path_str(extension));
        }
        self.view_with_extension(file_extension)
    }

    /// What the main window shows for a document whose file has the
    /// extension `file_extension`, if it has a file with one.
    pub fn view_with_extension(&self, file_extension: Option<&str>) -> (r: MainWindowView)
        ensures
            r.syntax@ == syntax_of(text_view(file_extension)),
            r.show_app_configuration_modal == self.show_app_configuration_modal,
    {
        let syntax = match file_extension {
            Some(extension) => extension.to_string(),
            None => "md".to_string(),
        };
        MainWindowView { syntax, show_app_configuration_modal: self.show_app_configuration_modal }
    }

    /// Asks the user interface to write the buffer to the path of the
    /// document.
    fn save_file(&mut self) -> (r: AppCommand)
        ensures
            *final(self) == *old(self),
            r == (AppCommand::WriteFile { path: old(self).app_state.file_path }),
    {
        let path = match &self.app_state.file_path {
            Some(path) => Some(path.clone()),
            None => None,
        };
        AppCommand::WriteFile { path }
    }

    /// Asks the user interface to let the user open a file.
    fn open_file(&mut self) -> (r: AppCommand)
        ensures
            *final(self) == *old(self),
            r == AppCommand::OpenFileDialog,
    {
        AppCommand::OpenFileDialog
    }

    /// Starts a new document unless the present one has unsaved edits.
    fn new_file(&mut self) -> (r: AppCommand)
        ensures
            *final(self) == after_new_file(*old(self)),
            r == new_file_command(*old(self)),
    {
        if self.app_state.file_dirty {
            AppCommand::Nothing
        } else {
            self.app_state.file_dirty = false;
            self.app_state.file_path = None;
            AppCommand::ClearContent
        }
    }
}

/// A failed attempt to open a file is reported and changes nothing else:
/// the error becomes the last error, the document keeps its path and its
/// unsaved edits, the dialogs and shortcuts stay as they are, and the user
/// interface is told to leave the buffer alone.
pub proof fn lemma_failed_open_keeps_document(app: AppMain, error: AppIOError)
    ensures
        next_state(app, AppMessage::FileOpened(Err(error))).app_state.error == Some(error),
        next_state(app, AppMessage::FileOpened(Err(error))).app_state.file_dirty
            == app.app_state.file_dirty,
        next_state(app, AppMessage::FileOpened(Err(error))).app_state.file_path
            == app.app_state.file_path,
        next_state(app, AppMessage::FileOpened(Err(error))).app_state.keybind_manager
            == app.app_state.keybind_manager,
        next_state(app, AppMessage::FileOpened(Err(error))).app_state.app_configuration_changed
            == app.app_state.app_configuration_changed,
        next_state(app, AppMessage::FileOpened(Err(error))).show_app_configuration_modal
            == app.show_app_configuration_modal,
        command_for(app, AppMessage::FileOpened(Err(error))) == AppCommand::Nothing,
{
}

/// Opening a file, saving it and editing the text clear the last error:
/// after each of these the state holds none.
pub proof fn lemma_success_clears_error(app: AppMain, path: PathBuf, content: String, is_edit: bool)
    ensures
        next_state(app, AppMessage::FileOpened(Ok((path, content)))).app_state.error is None,
        next_state(app, AppMessage::FileSaved(Ok(path))).app_state.error is None,
        next_state(app, AppMessage::TextEdited { is_edit }).app_state.error is None,
{
}

/// The document has unsaved edits from an edit of the text until a file is
/// opened or saved: an edit that changes the text sets the mark, opening and
/// saving clear it, and no other message changes it.
pub proof fn lemma_dirty_mark(app: AppMain, message: AppMessage)
    ensures
        next_state(app, message).app_state.file_dirty == match message {
            AppMessage::TextEdited { is_edit } => app.app_state.file_dirty || is_edit,
            AppMessage::FileOpened(Ok(_)) => false,
            AppMessage::FileSaved(Ok(_)) => false,
            _ => app.app_state.file_dirty,
        },
{
}

/// A key that does not type one lowercase letter triggers no command,
/// whatever is bound and whatever modifiers are held.
pub proof fn lemma_other_keys_trigger_nothing(
    table: Seq<Keybind>,
    key: KeyView,
    modifiers: Modifiers,
    command: bool,
)
    requires
        !is_letter_key(key),
    ensures
        pressed_action(table, key, modifiers, command) is None,
{
}

/// With the default key bindings, Ctrl+S triggers saving, Ctrl+N a new
/// file, Ctrl+O opening a file, Ctrl+K the settings and Ctrl+Q quitting,
/// whatever the platform's command modifier is.
pub proof fn lemma_default_key_presses(command: bool)
    ensures
        pressed_action(default_table(), KeyView::Character("s"@), Modifiers::spec_ctrl(), command)
            == Some(KeybindAction::SaveFile),
        pressed_action(default_table(), KeyView::Character("n"@), Modifiers::spec_ctrl(), command)
            == Some(KeybindAction::NewFile),
        pressed_action(default_table(), KeyView::Character("o"@), Modifiers::spec_ctrl(), command)
            == Some(KeybindAction::OpenFile),
        pressed_action(default_table(), KeyView::Character("k"@), Modifiers::spec_ctrl(), command)
            == Some(KeybindAction::ShowSettings),
        pressed_action(default_table(), KeyView::Character("q"@), Modifiers::spec_ctrl(), command)
            == Some(KeybindAction::QuitApplication),
{
    lemma_default_shortcuts();
    reveal_strlit("o");
    reveal_with_fuel(crate::keyboard::keybind_manager::lookup_from, 5);
}

/// No message changes the keyboard shortcuts.
pub proof fn lemma_shortcuts_stay(app: AppMain, message: AppMessage)
    ensures
        next_state(app, message).app_state.keybind_manager == app.app_state.keybind_manager,
{
}

} // verus!
