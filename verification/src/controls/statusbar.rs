//! The status bar: whether the document has unsaved edits, the last error or
//! the path of the document, and the position of the cursor.

use crate::app_io::error_text;
use crate::app_io::AppIOError;
use crate::app_state::AppState;
use crate::file_path::optional_path_str;
use crate::file_path::path_text;
use crate::number_text::decimal_text;
use crate::number_text::push_decimal;
use vstd::prelude::*;
use vstd::string::to_string_from_display_ensures;

verus! {

/// The icon at the left of the status bar.
#[derive(Debug, Clone, Copy, PartialEq, Eq, Structural)]
pub enum StatusIcon {
    /// Every edit is saved.
    CircleCheck,
    /// The buffer holds unsaved edits.
    CircleXmark,
}

/// What the text of the status bar stands for.
#[derive(Debug, Clone, Copy, PartialEq, Eq, Structural)]
pub enum StatusTextKind {
    /// The last error.
    Error,
    /// The path of the document, to be set in the monospaced font.
    FilePath,
    /// Nothing to show.
    Empty,
}

/// The contents of the status bar, from left to right.
#[derive(Debug, PartialEq, Eq)]
pub struct StatusbarView {
    pub file_dirty: StatusIcon,
    pub text_kind: StatusTextKind,
    pub text: String,
    pub cursor_position: String,
}

/// The icon for a document with or without unsaved edits.
pub open spec fn dirty_icon(file_dirty: bool) -> StatusIcon {
    if file_dirty {
        StatusIcon::CircleXmark
    } else {
        StatusIcon::CircleCheck
    }
}

/// What the status text stands for: an error goes before the path.
pub open spec fn status_text_kind(error: Option<Seq<char>>, path: Option<Seq<char>>)
    -> StatusTextKind {
    match error {
        Some(_) => StatusTextKind::Error,
        None => match path {
            Some(_) => StatusTextKind::FilePath,
            None => StatusTextKind::Empty,
        },
    }
}

/// The status text: `Error: ` and the text of the error if there is one,
/// else the path if it has a text, else nothing.
pub open spec fn status_text(error: Option<Seq<char>>, path: Option<Seq<char>>) -> Seq<char> {
    match error {
        Some(text) => "Error: "@ + text,
        None => match path {
            Some(text) => text,
            None => Seq::empty(),
        },
    }
}

/// The position of the cursor as text: `[ line:column ]`.
pub open spec fn cursor_text(line: nat, column: nat) -> Seq<char> {
    "[ "@ + decimal_text(line) + ":"@ + decimal_text(column) + " ]"@
}

/// The view of an optional text.
pub open spec fn text_view(text: Option<&str>) -> Option<Seq<char>> {
    match text {
        Some(text) => Some(text@),
        None => None,
    }
}

/// The status bar.
#[derive(Debug)]
pub struct AppStatusbar {}

impl AppStatusbar {
    /// The status bar. It holds nothing of its own: what it shows is
    /// computed from the state of the application.
    pub fn new() -> (r: AppStatusbar)
        ensures
            r == (AppStatusbar {  }),
    {
        AppStatusbar {  }
    }

    /// The contents of the status bar for a document with or without
    /// unsaved edits, the text of the last error if there is one, the text
    /// of the document's path if it has one, and the line and column of the
    /// cursor.
    pub fn layout(
        file_dirty: bool,
        error: Option<&str>,
        path: Option<&str>,
        cursor_position: (usize, usize),
    ) -> (r: StatusbarView)
        ensures
            r.file_dirty == dirty_icon(file_dirty),
            r.text_kind == status_text_kind(text_view(error), text_view(path)),
            r.text@ == status_text(text_view(error), text_view(path)),
            r.cursor_position@ == cursor_text(cursor_position.0 as nat, cursor_position.1 as nat),
    {
        let icon = if file_dirty {
            StatusIcon::CircleXmark
        } else {
            StatusIcon::CircleCheck
        };
        let mut text = String::new();
        let text_kind = match error {
            Some(error) => {
                text.append("Error: ");
                text.append(error);
                StatusTextKind::Error
            },
            None => match path {
                Some(path) => {
                    text.append(path);
                    StatusTextKind::FilePath
                },
                None => StatusTextKind::Empty,
            },
        };
        let mut cursor = String::new();
        cursor.append("[ ");
        push_decimal(&mut cursor, cursor_position.0);
        cursor.append(":");
        push_decimal(&mut cursor, cursor_position.1);
        cursor.append(" ]");
        StatusbarView { file_dirty: icon, text_kind, text, cursor_position: cursor }
    }

    /// The contents of the status bar for the state of the application and
    /// the line and column of the cursor. The last error is shown in place
    /// of the path; a path that has no text, because it is not valid Unicode,
    /// is not shown.
    pub fn view(&self, app_state: &AppState, cursor_position: (usize, usize)) -> (r:
        StatusbarView)
        ensures
            r.file_dirty == dirty_icon(app_state.file_dirty),
            r.cursor_position@ == cursor_text(cursor_position.0 as nat, cursor_position.1 as nat),
            match app_state.error {
                Some(error) => {
                    &&& r.text_kind == StatusTextKind::Error
                    &&& match error {
                        AppIOError::FileDialogClosedError => r.text@ == status_text(
                            Some(error_text(error, Seq::empty())),
                            None,
                        ),
                        AppIOError::IOFailedError(kind) => exists|text: String|
                            to_string_from_display_ensures::<std::io::ErrorKind>(&kind, text)
                                && r.text@ == status_text(Some(error_text(error, text@)), None),
                    }
                },
                None => {
                    &&& r.text_kind == status_text_kind(
                        None,
                        optional_path_str(app_state.file_path),
                    )
                    &&& r.text@ == status_text(None, optional_path_str(app_state.file_path))
                },
            },
    {
        match &app_state.error {
            Some(error) => {
                let text = error.to_string();
                AppStatusbar::layout(
                    app_state.file_dirty,
                    Some(text.as_str()),
                    None,
                    cursor_position,
                )
            },
            None => {
                let path = match &app_state.file_path {
                    Some(path) => path_text(path),
                    None => None,
                };
                AppStatusbar::layout(app_state.file_dirty, None, path, cursor_position)
            },
        }
    }
}

} // verus!
