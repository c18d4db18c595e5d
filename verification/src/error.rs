//! The structural errors that decoding and database loading report.

use vstd::prelude::*;
use vstd::string::StringExecFns;

verus! {

/// What can be wrong with the shape of an input.
#[derive(Clone, Copy, Debug, PartialEq, Eq, Structural)]
pub enum Error {
    /// The record buffer's length is not a whole number of records.
    MalformedRecordLength,
    /// A line of the name database lacks the ` = ` separator.
    MalformedDatabaseLine,
}

impl Error {
    /// The text shown to the user for this error.
    pub open spec fn message_spec(self) -> Seq<char> {
        match self {
            Error::MalformedRecordLength => "Record file length is not a whole number of records"@,
            Error::MalformedDatabaseLine => "File format error"@,
        }
    }

    /// Renders the error as the text of its diagnostic.
    pub fn message(&self) -> (text: String)
        ensures
            text@ == self.message_spec(),
    {
        match self {
            Error::MalformedRecordLength => String::from_str(
                "Record file length is not a whole number of records",
            ),
            Error::MalformedDatabaseLine => String::from_str("File format error"),
        }
    }
}

} // verus!
