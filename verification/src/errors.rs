//! The error taxonomy of a substitution run and its user-facing messages.
//!
//! Every error aborts the whole run: there is no partial-success mode across
//! inputs. Each variant records the diagnostic context (a path, a cause) that
//! its message needs.

use vstd::prelude::*;
use vstd::string::StringExecFns;

verus! {

/// Everything that can stop a substitution run.
#[derive(Debug, PartialEq, Eq)]
pub enum SubError {
    /// The output sink rejected a write (for example a closed pipe).
    FailedToWrite,
    /// An input line is not valid UTF-8.
    InvalidUTF8,
    /// The search or line-filter pattern is not a valid regular expression.
    RegexError,
    /// In-place mode was asked for, but no file input was given.
    InPlaceRequiresFile,
    /// An input file could not be opened for reading.
    FileNotFoundError(String),
    /// The scratch file for an in-place edit could not be created.
    CanNotCreateTempFile,
    /// The original file's permission bits could not be read.
    CanNotReadPermissions(String),
    /// The original file's permission bits could not be applied to the
    /// scratch file.
    CanNotSetPermissions(String),
    /// The scratch file's contents could not be copied over the original
    /// path; carries the underlying cause.
    CanNotReplaceInPlace(String, String),
}

impl SubError {
    /// The diagnostic text reported for this error.
    pub open spec fn spec_message(&self) -> Seq<char> {
        match self {
            SubError::FailedToWrite => "Output stream has been closed"@,
            SubError::InvalidUTF8 => "Input contains invalid UTF-8"@,
            SubError::RegexError => "Regex error"@,
            SubError::InPlaceRequiresFile => "In-place editing requires at least one file input"@,
            SubError::FileNotFoundError(path) => "Can not open file '"@ + path@ + "'"@,
            SubError::CanNotCreateTempFile => "Can not create temp file"@,
            SubError::CanNotReadPermissions(path) => "Can not read permissions on file '"@
                + path@ + "'"@,
            SubError::CanNotSetPermissions(path) => "Can not set permissions on file '"@
                + path@ + "'"@,
            SubError::CanNotReplaceInPlace(path, cause) => "Can not replace in place for file '"@
                + path@ + "' with error '"@ + cause@ + "'"@,
        }
    }

    /// Renders the diagnostic message for this error.
    pub fn message(&self) -> (text: String)
        ensures
            text@ == self.spec_message(),
    {
        match self {
            SubError::FailedToWrite => String::from_str("Output stream has been closed"),
            SubError::InvalidUTF8 => String::from_str("Input contains invalid UTF-8"),
            SubError::RegexError => String::from_str("Regex error"),
            SubError::InPlaceRequiresFile => String::from_str(
                "In-place editing requires at least one file input",
            ),
            SubError::FileNotFoundError(path) => {
                let mut text = String::from_str("Can not open file '");
                text.append(path.as_str());
                text.append("'");
                text
            },
            SubError::CanNotCreateTempFile => String::from_str("Can not create temp file"),
            SubError::CanNotReadPermissions(path) => {
                let mut text = String::from_str("Can not read permissions on file '");
                text.append(path.as_str());
                text.append("'");
                text
            },
            SubError::CanNotSetPermissions(path) => {
                let mut text = String::from_str("Can not set permissions on file '");
                text.append(path.as_str());
                text.append("'");
                text
            },
            SubError::CanNotReplaceInPlace(path, cause) => {
                let mut text = String::from_str("Can not replace in place for file '");
                text.append(path.as_str());
                text.append("' with error '");
                text.append(cause.as_str());
                text.append("'");
                text
            },
        }
    }
}

} // verus!
