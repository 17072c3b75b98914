//! The ways in which opening or saving a file can fail.

use vstd::prelude::*;
use vstd::string::to_string_from_display_ensures;

verus! {

/// `std::io::ErrorKind`, the classification that the platform gives to a
/// failed I/O operation. The library carries such a value and asks for its
/// text, nothing more.
#[verifier::external_type_specification]
#[verifier::external_body]
pub struct ExErrorKind(std::io::ErrorKind);

/// Why a file was not opened or saved.
#[derive(Debug, PartialEq, Eq)]
pub enum AppIOError {
    /// The user closed the file dialog without choosing a file.
    FileDialogClosedError,
    /// Reading or writing the file failed.
    IOFailedError(std::io::ErrorKind),
}

/// The text of an error, given the text of the I/O error kind it holds (which
/// is not read for a closed dialog).
pub open spec fn error_text(error: AppIOError, kind_text: Seq<char>) -> Seq<char> {
    match error {
        AppIOError::FileDialogClosedError => "AppIOError FileDialogClosedError"@,
        AppIOError::IOFailedError(_) => "AppIOError "@ + kind_text,
    }
}

impl Clone for AppIOError {
    fn clone(&self) -> (r: AppIOError)
        ensures
            r == *self,
    {
        match self {
            AppIOError::FileDialogClosedError => AppIOError::FileDialogClosedError,
            AppIOError::IOFailedError(kind) => AppIOError::IOFailedError(*kind),
        }
    }
}

impl AppIOError {
    /// The text of the error, given the text of the I/O error kind it holds.
    pub fn text_with(&self, kind_text: &str) -> (r: String)
        ensures
            r@ == error_text(*self, kind_text@),
    {
        match self {
            AppIOError::FileDialogClosedError => "AppIOError FileDialogClosedError".to_string(),
            AppIOError::IOFailedError(_) => "AppIOError ".to_string().concat(kind_text),
        }
    }

    /// The text that stands for the error in the status bar: for a failed
    /// I/O operation, the platform's own text for the kind of failure
    /// follows the name of this type.
    pub fn to_string(&self) -> (r: String)
        ensures
            match *self {
                AppIOError::FileDialogClosedError => r@ == error_text(*self, Seq::empty()),
                AppIOError::IOFailedError(kind) => exists|text: String|
                    to_string_from_display_ensures::<std::io::ErrorKind>(&kind, text) && r@
                        == error_text(*self, text@),
            },
    {
        match self {
            AppIOError::FileDialogClosedError => self.text_with(""),
            AppIOError::IOFailedError(kind) => {
                let text = kind.to_string();
                self.text_with(text.as_str())
            },
        }
    }
}

} // verus!
