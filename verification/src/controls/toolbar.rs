//! The tool bar: the buttons for the file commands and the settings, and the
//! pickers for scale factor, themes and language.

use crate::app_message::AppMessage;
use crate::app_state::AppState;
use vstd::prelude::*;

verus! {

/// The icon of a tool bar button.
#[derive(Debug, Clone, Copy, PartialEq, Eq, Structural)]
pub enum ToolbarIcon {
    New,
    Open,
    Save,
    Gear,
}

/// A list that the user picks a value from.
#[derive(Debug, Clone, Copy, PartialEq, Eq, Structural)]
pub enum ToolbarPicker {
    ScaleFactor,
    WindowTheme,
    SyntaxTheme,
    Locale,
}

/// One item of the tool bar.
#[derive(Debug, PartialEq, Eq)]
pub enum ToolbarItem {
    /// A button that sends `on_press` when it is pressed, and is disabled
    /// where there is no message to send.
    Button { icon: ToolbarIcon, on_press: Option<AppMessage> },
    /// Space that pushes what follows to the right.
    Space,
    /// A pick list.
    Picker(ToolbarPicker),
}

impl ToolbarIcon {
    /// The key under which the translations hold the tooltip of the button.
    pub open spec fn spec_i18n_key(self) -> Seq<char> {
        match self {
            ToolbarIcon::New => "file_new"@,
            ToolbarIcon::Open => "file_open"@,
            ToolbarIcon::Save => "file_save"@,
            ToolbarIcon::Gear => "app_configuration"@,
        }
    }

    /// The key under which the translations hold the tooltip of the button.
    pub fn i18n_key(self) -> (r: &'static str)
        ensures
            r@ == self.spec_i18n_key(),
    {
        match self {
            ToolbarIcon::New => "file_new",
            ToolbarIcon::Open => "file_open",
            ToolbarIcon::Save => "file_save",
            ToolbarIcon::Gear => "app_configuration",
        }
    }
}

impl ToolbarPicker {
    /// The key under which the translations hold the tooltip of the picker.
    pub open spec fn spec_i18n_key(self) -> Seq<char> {
        match self {
            ToolbarPicker::ScaleFactor => "scale_factor"@,
            ToolbarPicker::WindowTheme => "window_theme"@,
            ToolbarPicker::SyntaxTheme => "syntax_theme"@,
            ToolbarPicker::Locale => "language"@,
        }
    }

    /// The key under which the translations hold the tooltip of the picker.
    pub fn i18n_key(self) -> (r: &'static str)
        ensures
            r@ == self.spec_i18n_key(),
    {
        match self {
            ToolbarPicker::ScaleFactor => "scale_factor",
            ToolbarPicker::WindowTheme => "window_theme",
            ToolbarPicker::SyntaxTheme => "syntax_theme",
            ToolbarPicker::Locale => "language",
        }
    }
}

/// The items of the tool bar from left to right. The save button is enabled
/// exactly if the document has unsaved edits.
pub open spec fn toolbar_items(file_dirty: bool) -> Seq<ToolbarItem> {
    seq![
        ToolbarItem::Button { icon: ToolbarIcon::New, on_press: Some(AppMessage::NewFile) },
        ToolbarItem::Button {
            icon: ToolbarIcon::Open,
            on_press: Some(AppMessage::OpenFileFromDialog),
        },
        ToolbarItem::Button {
            icon: ToolbarIcon::Save,
            on_press: if file_dirty {
                Some(AppMessage::SaveFile)
            } else {
                None
            },
        },
        ToolbarItem::Button {
            icon: ToolbarIcon::Gear,
            on_press: Some(AppMessage::OpenAppConfigurationModal),
        },
        ToolbarItem::Space,
        ToolbarItem::Picker(ToolbarPicker::ScaleFactor),
        ToolbarItem::Picker(ToolbarPicker::WindowTheme),
        ToolbarItem::Picker(ToolbarPicker::SyntaxTheme),
        ToolbarItem::Picker(ToolbarPicker::Locale),
    ]
}

/// The tool bar.
#[derive(Debug)]
pub struct AppToolbar {}

impl AppToolbar {
    /// The tool bar. It holds nothing of its own: what it shows is computed
    /// from the state of the application.
    pub fn new() -> (r: AppToolbar)
        ensures
            r == (AppToolbar {  }),
    {
        AppToolbar {  }
    }

    /// The items of the tool bar for the state of the application.
    pub fn view(&self, app_state: &AppState) -> (r: Vec<ToolbarItem>)
        ensures
            r@ == toolbar_items(app_state.file_dirty),
    {
        let mut items: Vec<ToolbarItem> = Vec::new();
        items.push(ToolbarItem::Button { icon: ToolbarIcon::New, on_press: Some(AppMessage::NewFile) });
        items.push(
            ToolbarItem::Button {
                icon: ToolbarIcon::Open,
                on_press: Some(AppMessage::OpenFileFromDialog),
            },
        );
        items.push(
            ToolbarItem::Button {
                icon: ToolbarIcon::Save,
                on_press: if app_state.file_dirty {
                    Some(AppMessage::SaveFile)
                } else {
                    None
                },
            },
        );
        items.push(
            ToolbarItem::Button {
                icon: ToolbarIcon::Gear,
                on_press: Some(AppMessage::OpenAppConfigurationModal),
            },
        );
        items.push(ToolbarItem::Space);
        items.push(ToolbarItem::Picker(ToolbarPicker::ScaleFactor));
        items.push(ToolbarItem::Picker(ToolbarPicker::WindowTheme));
        items.push(ToolbarItem::Picker(ToolbarPicker::SyntaxTheme));
        items.push(ToolbarItem::Picker(ToolbarPicker::Locale));
        assert(items@ =~= toolbar_items(app_state.file_dirty));
        items
    }
}

} // verus!
