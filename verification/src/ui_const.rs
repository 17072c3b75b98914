//! Sizes of the user interface, in logical pixels.

use vstd::prelude::*;

verus! {

/// Horizontal spacing between controls.
pub const UI_CONTROL_SPACING: u16 = 5;

/// Spacing around controls.
pub const UI_CONTROL_PADDING: u16 = 5;

/// The height of large tool bar buttons.
pub const UI_TOOLBAR_BUTTON_HEIGHT_LARGE: u16 = 60;

/// The size of the icons of large tool bar buttons.
pub const UI_TOOLBAR_ICON_FONT_SIZE_LARGE: u16 = 32;

/// The height of small tool bar buttons.
pub const UI_TOOLBAR_BUTTON_HEIGHT_SMALL: u16 = 20;

/// The width of tool bar buttons.
pub const UI_TOOLBAR_BUTTON_SIZE: u16 = 30;

/// The size of tool bar button icons.
pub const UI_TOOLBAR_ICON_SIZE: u16 = 16;

/// The size of text in the status bar.
pub const UI_STATUSBAR_TEXT_SIZE: u16 = 12;

/// The width of labels in dialogs.
pub const UI_MODAL_LABEL_SIZE: u16 = 150;

/// The radius of the corners of dialogs.
pub const UI_MODAL_RADIUS: u16 = 5;

/// Spacing around tooltips.
pub const UI_TOOLTIP_PADDING: u16 = 5;

/// The radius of the corners of tooltips.
pub const UI_TOOLTIP_RADIUS: u16 = 5;

/// The radius of the corners of numpad buttons.
pub const UI_LOGIN_BUTTON_RADIUS: u16 = 0;

} // verus!
