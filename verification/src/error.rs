//! What can go wrong, and how it is worded for the user interface.

use vstd::prelude::*;
use vstd::string::*;

verus! {

/// Why an operation did not succeed.
#[derive(Clone, Copy, Debug, PartialEq, Eq, Structural)]
pub enum Error {
    /// No window pair has the label.
    NotFound,
    /// A window pair with the label exists already.
    DuplicateLabel,
    /// The windowing system failed or refused a call.
    OsOperationFailed,
    /// The configuration could not be written as text, or read from it.
    SerializationFailed,
    /// The configuration file could not be read or written.
    IoFailed,
    /// The text is no absolute URL.
    InvalidUrl,
}

impl Error {
    /// The wording of each error.
    pub open spec fn message(self) -> Seq<char> {
        match self {
            Error::NotFound => "failed to get window data"@,
            Error::DuplicateLabel => "a window with the label already exists"@,
            Error::OsOperationFailed => "the window operation failed"@,
            Error::SerializationFailed => "failed to convert the configuration"@,
            Error::IoFailed => "failed to access the configuration file"@,
            Error::InvalidUrl => "invalid url"@,
        }
    }

    /// The error in words, as the user interface shows it.
    pub fn to_string(&self) -> (r: String)
        ensures
            r@ == self.message(),
    {
        match self {
            Error::NotFound => String::from_str("failed to get window data"),
            Error::DuplicateLabel => String::from_str("a window with the label already exists"),
            Error::OsOperationFailed => String::from_str("the window operation failed"),
            Error::SerializationFailed => String::from_str("failed to convert the configuration"),
            Error::IoFailed => String::from_str("failed to access the configuration file"),
            Error::InvalidUrl => String::from_str("invalid url"),
        }
    }
}

/// Turns the error of a result into its wording, for a caller that takes
/// text only.
pub trait ErrToString<T> {
    /// Named by [`ErrToString::err_to_string`]: the same result with the error
    /// in words.
    spec fn worded(self) -> Result<T, Seq<char>>;

    fn err_to_string(self) -> (r: Result<T, String>)
        ensures
            match (self.worded(), r) {
                (Ok(a), Ok(b)) => a == b,
                (Err(a), Err(b)) => a == b@,
                _ => false,
            },
    ;
}

impl<T> ErrToString<T> for Result<T, Error> {
    open spec fn worded(self) -> Result<T, Seq<char>> {
        match self {
            Ok(v) => Ok(v),
            Err(e) => Err(e.message()),
        }
    }

    fn err_to_string(self) -> (r: Result<T, String>) {
        match self {
            Ok(v) => Ok(v),
            Err(e) => Err(e.to_string()),
        }
    }
}

} // verus!
