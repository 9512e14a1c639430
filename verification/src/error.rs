//! The ways in which producing or writing a set of gridlines can fail.

use vstd::prelude::*;

verus! {

/// Why a set of gridlines could not be produced or written.
///
/// The two I/O variants are raised by whoever writes a finished document;
/// they carry the cause and the destination as text so that the message
/// they stand for is fully determined by the value.
#[derive(Debug, PartialEq, Eq)]
pub enum Error {
    /// Creating or writing the file at `path` failed with `io_error`.
    IoError { io_error: String, path: String },
    /// Fewer than three lines were requested on an axis.
    LineNumber,
    /// Writing to the standard output failed with `io_error`.
    StdIoError { io_error: String },
}

impl Error {
    /// The message that describes this error to a person.
    pub open spec fn message(self) -> Seq<char> {
        match self {
            Error::IoError { io_error, path } => {
                "I/O error at `"@ + path@ + "`: "@ + io_error@
            },
            Error::LineNumber => "Number of chart lines must be greater than 2."@,
            Error::StdIoError { io_error } => {
                "Error when writing to `std::out`: "@ + io_error@
            },
        }
    }

    /// Renders the error as its message.
    pub fn to_string(&self) -> (text: String)
        ensures
            text@ == self.message(),
    {
        match self {
            Error::IoError { io_error, path } => {
                let mut text = String::from_str("I/O error at `");
                text.append(path.as_str());
                text.append("`: ");
                text.append(io_error.as_str());
                text
            },
            Error::LineNumber => String::from_str("Number of chart lines must be greater than 2."),
            Error::StdIoError { io_error } => {
                let mut text = String::from_str("Error when writing to `std::out`: ");
                text.append(io_error.as_str());
                text
            },
        }
    }
}

} // verus!
