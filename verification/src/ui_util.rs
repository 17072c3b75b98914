//! Small tool bar buttons with a tooltip that names the keyboard shortcut.

use crate::app_state::AppState;
use crate::keyboard::keybind_action::KeybindAction;
use crate::keyboard::keybind_manager::first_chord;
use crate::keyboard::shortcut_text::action_label;
use vstd::prelude::*;

verus! {

/// A small tool bar button, as the user interface needs it to build the
/// widget.
#[derive(Debug, PartialEq, Eq)]
pub struct SmallToolbarButton<'a, Message> {
    /// The icon.
    pub icon_key: &'a str,
    /// The key under which the translations hold the tooltip.
    pub i18n_key: &'a str,
    /// The message that a press sends; a button without one is disabled.
    pub on_press: Option<Message>,
    /// The shortcut hint for the tooltip, empty where there is no shortcut.
    pub shortcut: String,
}

/// The tooltip of a button: its label, followed by the shortcut hint in
/// square brackets where there is one.
pub open spec fn tooltip_text(label: Seq<char>, shortcut: Seq<char>) -> Seq<char> {
    if shortcut.len() == 0 {
        label
    } else {
        label + " ["@ + shortcut + "]"@
    }
}

/// A small button with the given icon and tooltip key. It sends `on_press`
/// if it is enabled, and its tooltip names the shortcut that the
/// application binds to `keybind_action`.
pub fn create_toolbar_button_small<'a, Message>(
    icon_key: &'a str,
    i18n_key: &'a str,
    on_press: Option<Message>,
    enabled: bool,
    keybind_action: KeybindAction,
    app_state: &AppState,
) -> (r: SmallToolbarButton<'a, Message>)
    ensures
        r.icon_key == icon_key,
        r.i18n_key == i18n_key,
        r.on_press == if enabled {
            on_press
        } else {
            None
        },
        r.shortcut@ == action_label(first_chord(app_state.keybind_manager.table(), keybind_action)),
{
    let shortcut = app_state.keybind_manager.get_display_text_for_action(keybind_action);
    SmallToolbarButton {
        icon_key,
        i18n_key,
        on_press: if enabled {
            on_press
        } else {
            None
        },
        shortcut,
    }
}

/// The tooltip for a translated label and a shortcut hint.
pub fn create_tooltip_text_with_shortcut(label: &str, shortcut: &str) -> (r: String)
    ensures
        r@ == tooltip_text(label@, shortcut@),
{
    if shortcut.is_empty() {
        label.to_string()
    } else {
        let mut text = label.to_string();
        text.append(" [");
        text.append(shortcut);
        text.append("]");
        text
    }
}

} // verus!
