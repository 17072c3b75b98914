//! What the bars of the main window show, as plain values that the user
//! interface turns into widgets.

pub mod statusbar;
pub mod toolbar;
