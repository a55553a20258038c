//! What the caller found when it read or wrote a file. The library touches no
//! file itself: it is handed one of these.

use crate::error::SaveError;
use vstd::prelude::*;

verus! {

/// How reading a file went.
#[derive(Debug, Clone, PartialEq, Eq)]
pub enum FileRead {
    /// The file could not be opened.
    OpenFailed,
    /// The file was opened, but it could not be read to its end as text.
    ReadFailed,
    /// The whole text of the file.
    Text(String),
}

/// How writing a file went.
#[derive(Debug, Clone, Copy, PartialEq, Eq)]
pub enum FileWrite {
    /// The file could not be opened for writing.
    OpenFailed,
    /// The file was opened, but the text could not be written to it.
    WriteFailed,
    /// The whole text is in the file.
    Written,
}

impl FileWrite {
    /// What saving gives for a file that was written as `self`: the error of
    /// the stage that failed, or nothing to report.
    pub fn result(self) -> (saved: Result<(), SaveError>)
        ensures
            saved == match self {
                FileWrite::OpenFailed => Err::<(), SaveError>(SaveError::Open),
                FileWrite::WriteFailed => Err::<(), SaveError>(SaveError::Write),
                FileWrite::Written => Ok::<(), SaveError>(()),
            },
    {
        match self {
            FileWrite::OpenFailed => Err(SaveError::Open),
            FileWrite::WriteFailed => Err(SaveError::Write),
            FileWrite::Written => Ok(()),
        }
    }
}

} // verus!
