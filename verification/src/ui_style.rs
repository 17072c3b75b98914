//! The appearance of containers, texts and buttons, as places in the palette
//! of the active theme. The user interface looks the colours up.

use crate::ui_const::UI_LOGIN_BUTTON_RADIUS;
use crate::ui_const::UI_MODAL_RADIUS;
use crate::ui_const::UI_TOOLTIP_RADIUS;
use vstd::prelude::*;

verus! {

/// A group of colours of a theme's palette.
#[derive(Debug, Clone, Copy, PartialEq, Eq, Structural)]
pub enum PaletteFamily {
    Background,
    Primary,
    Secondary,
    Success,
    Danger,
}

/// A colour of a group: the base colour, or its weak or strong variant.
#[derive(Debug, Clone, Copy, PartialEq, Eq, Structural)]
pub enum PaletteShade {
    Base,
    Weak,
    Strong,
}

/// A place in the palette of a theme.
#[derive(Debug, Clone, Copy, PartialEq, Eq, Structural)]
pub struct PaletteColor {
    pub family: PaletteFamily,
    pub shade: PaletteShade,
}

/// The appearance of a container: its background, and the radius of its
/// corners.
#[derive(Debug, Clone, Copy, PartialEq, Eq, Structural)]
pub struct ContainerStyle {
    pub background: PaletteColor,
    pub border_radius: u16,
}

/// How the user is interacting with a button.
#[derive(Debug, Clone, Copy, PartialEq, Eq, Structural)]
pub enum ButtonStatus {
    Active,
    Hovered,
    Pressed,
    Disabled,
}

/// The appearance of a button: its background, and the radius of its
/// corners. Its text has the text colour of the theme.
#[derive(Debug, Clone, Copy, PartialEq, Eq, Structural)]
pub struct ButtonStyle {
    pub background: PaletteColor,
    pub border_radius: u16,
}

/// The shade of a button's background: strong while it waits, weak under the
/// pointer and when disabled, the base colour while pressed.
pub open spec fn button_shade(status: ButtonStatus) -> PaletteShade {
    match status {
        ButtonStatus::Active => PaletteShade::Strong,
        ButtonStatus::Hovered => PaletteShade::Weak,
        ButtonStatus::Pressed => PaletteShade::Base,
        ButtonStatus::Disabled => PaletteShade::Weak,
    }
}

/// The style of a button of the given group of colours.
pub open spec fn button_style(family: PaletteFamily, status: ButtonStatus, border_radius: u16)
    -> ButtonStyle {
    ButtonStyle {
        background: PaletteColor { family, shade: button_shade(status) },
        border_radius,
    }
}

/// The styles of the application.
#[derive(Debug)]
pub struct AppStyle {}

impl AppStyle {
    /// The colour of secondary text.
    pub fn text_style_secondary_base() -> (r: PaletteColor)
        ensures
            r == (PaletteColor { family: PaletteFamily::Secondary, shade: PaletteShade::Base }),
    {
        PaletteColor { family: PaletteFamily::Secondary, shade: PaletteShade::Base }
    }

    /// The colour of faint secondary text.
    pub fn text_style_secondary_weak() -> (r: PaletteColor)
        ensures
            r == (PaletteColor { family: PaletteFamily::Secondary, shade: PaletteShade::Weak }),
    {
        PaletteColor { family: PaletteFamily::Secondary, shade: PaletteShade::Weak }
    }

    /// The colour of faint primary text.
    pub fn text_style_primary_weak() -> (r: PaletteColor)
        ensures
            r == (PaletteColor { family: PaletteFamily::Primary, shade: PaletteShade::Weak }),
    {
        PaletteColor { family: PaletteFamily::Primary, shade: PaletteShade::Weak }
    }

    /// The style of a tooltip.
    pub fn style_tooltip() -> (r: ContainerStyle)
        ensures
            r == (ContainerStyle {
                background: PaletteColor {
                    family: PaletteFamily::Background,
                    shade: PaletteShade::Weak,
                },
                border_radius: UI_TOOLTIP_RADIUS,
            }),
    {
        ContainerStyle {
            background: PaletteColor { family: PaletteFamily::Background, shade: PaletteShade::Weak },
            border_radius: UI_TOOLTIP_RADIUS,
        }
    }

    /// The style of the body of a dialog.
    pub fn style_modal_container() -> (r: ContainerStyle)
        ensures
            r == (ContainerStyle {
                background: PaletteColor {
                    family: PaletteFamily::Background,
                    shade: PaletteShade::Strong,
                },
                border_radius: UI_MODAL_RADIUS,
            }),
    {
        ContainerStyle {
            background: PaletteColor {
                family: PaletteFamily::Background,
                shade: PaletteShade::Strong,
            },
            border_radius: UI_MODAL_RADIUS,
        }
    }

    /// The style of the header of a dialog.
    pub fn style_modal_header() -> (r: ContainerStyle)
        ensures
            r == (ContainerStyle {
                background: PaletteColor {
                    family: PaletteFamily::Background,
                    shade: PaletteShade::Weak,
                },
                border_radius: UI_MODAL_RADIUS,
            }),
    {
        ContainerStyle {
            background: PaletteColor { family: PaletteFamily::Background, shade: PaletteShade::Weak },
            border_radius: UI_MODAL_RADIUS,
        }
    }

    /// The style of the tool bar.
    pub fn style_toolbar() -> (r: ContainerStyle)
        ensures
            r == (ContainerStyle {
                background: PaletteColor {
                    family: PaletteFamily::Background,
                    shade: PaletteShade::Strong,
                },
                border_radius: 0,
            }),
    {
        ContainerStyle {
            background: PaletteColor {
                family: PaletteFamily::Background,
                shade: PaletteShade::Strong,
            },
            border_radius: 0,
        }
    }

    /// The background of a button of the given group of colours.
    fn button(family: PaletteFamily, status: ButtonStatus, border_radius: u16) -> (r: ButtonStyle)
        ensures
            r == button_style(family, status, border_radius),
    {
        let shade = match status {
            ButtonStatus::Active => PaletteShade::Strong,
            ButtonStatus::Hovered => PaletteShade::Weak,
            ButtonStatus::Pressed => PaletteShade::Base,
            ButtonStatus::Disabled => PaletteShade::Weak,
        };
        ButtonStyle { background: PaletteColor { family, shade }, border_radius }
    }

    /// The style of a numpad button.
    pub fn button_style_numpad(status: ButtonStatus) -> (r: ButtonStyle)
        ensures
            r == button_style(PaletteFamily::Primary, status, UI_LOGIN_BUTTON_RADIUS),
    {
        AppStyle::button(PaletteFamily::Primary, status, UI_LOGIN_BUTTON_RADIUS)
    }

    /// The style of a button that confirms.
    pub fn button_style_ok(status: ButtonStatus) -> (r: ButtonStyle)
        ensures
            r == button_style(PaletteFamily::Success, status, 0),
    {
        AppStyle::button(PaletteFamily::Success, status, 0)
    }

    /// The style of a button of lesser weight.
    pub fn button_style_secondary(status: ButtonStatus) -> (r: ButtonStyle)
        ensures
            r == button_style(PaletteFamily::Secondary, status, 0),
    {
        AppStyle::button(PaletteFamily::Secondary, status, 0)
    }

    /// The style of a button that cancels or destroys.
    pub fn button_style_danger(status: ButtonStatus) -> (r: ButtonStyle)
        ensures
            r == button_style(PaletteFamily::Danger, status, 0),
    {
        AppStyle::button(PaletteFamily::Danger, status, 0)
    }

    /// The style of an ordinary button.
    pub fn button_style_primary(status: ButtonStatus) -> (r: ButtonStyle)
        ensures
            r == button_style(PaletteFamily::Primary, status, 0),
    {
        AppStyle::button(PaletteFamily::Primary, status, 0)
    }
}

} // verus!
