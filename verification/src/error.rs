//! What can go wrong when a table is loaded or saved.

use vstd::prelude::*;

verus! {

/// Why a table could not be loaded.
#[derive(Debug, Clone, Copy, PartialEq, Eq)]
pub enum LoadError {
    /// The file could not be opened.
    Open,
    /// The file was opened, but it could not be read to its end as text.
    Read,
    /// The text is not JSON, or it is JSON of another shape than a table.
    Parse,
}

/// Why a table could not be saved.
#[derive(Debug, Clone, Copy, PartialEq, Eq)]
pub enum SaveError {
    /// The table could not be written down as JSON.
    Encode,
    /// The file could not be opened for writing.
    Open,
    /// The file was opened, but the text could not be written to it.
    Write,
}

impl LoadError {
    /// A sentence for the user that says what failed.
    pub fn message(&self) -> (text: String)
        ensures
            text@ == match *self {
                LoadError::Open => "Error opening file"@,
                LoadError::Read => "Error reading JSON from file"@,
                LoadError::Parse => "Error reading translation data from JSON"@,
            },
    {
        match self {
            LoadError::Open => "Error opening file".to_owned(),
            LoadError::Read => "Error reading JSON from file".to_owned(),
            LoadError::Parse => "Error reading translation data from JSON".to_owned(),
        }
    }
}

impl SaveError {
    /// A sentence for the user that says what failed.
    pub fn message(&self) -> (text: String)
        ensures
            text@ == match *self {
                SaveError::Encode => "Error writing translation data as JSON"@,
                SaveError::Open => "Error opening file for writing"@,
                SaveError::Write => "Error writing JSON to file"@,
            },
    {
        match self {
            SaveError::Encode => "Error writing translation data as JSON".to_owned(),
            SaveError::Open => "Error opening file for writing".to_owned(),
            SaveError::Write => "Error writing JSON to file".to_owned(),
        }
    }
}

} // verus!
