use vstd::prelude::*;

verus! {

/// The failure kinds of the query pipeline. Every failure is terminal and is
/// reported to the process boundary as a distinct exit code; the payload, where
/// there is one, is the file name or the dotted query path for the message.
#[derive(Debug)]
pub enum JpErr {
    /// The named file could not be opened.
    FileOpenError(String),
    /// The input stream was opened but reading it failed.
    FileReadError,
    /// Reading succeeded but produced zero bytes.
    EmptyFileError,
    /// The input text is not a valid JSON document.
    JsonParseError,
    /// The dotted query path does not resolve within the document.
    InvalidQuery(String),
    /// Key listing was requested but the resolved value is not an object.
    KeyListingOnNonObject(String),
}

impl JpErr {
    /// The stable process exit code assigned to each failure kind.
    pub open spec fn code_spec(&self) -> int {
        match self {
            JpErr::FileOpenError(_) => 1,
            JpErr::FileReadError => 2,
            JpErr::JsonParseError => 3,
            JpErr::InvalidQuery(_) => 4,
            JpErr::EmptyFileError => 5,
            JpErr::KeyListingOnNonObject(_) => 6,
        }
    }

    /// Map this failure to its process exit code.
    pub fn exit_code(&self) -> (code: i32)
        ensures
            code as int == self.code_spec(),
    {
        match self {
            JpErr::FileOpenError(_) => 1,
            JpErr::FileReadError => 2,
            JpErr::JsonParseError => 3,
            JpErr::InvalidQuery(_) => 4,
            JpErr::EmptyFileError => 5,
            JpErr::KeyListingOnNonObject(_) => 6,
        }
    }
}

} // verus!
