use vstd::prelude::*;

verus! {

/// Why a load or a save failed. Each variant carries the underlying cause's
/// text; none is retried or recovered from.
#[derive(Debug, Clone)]
pub enum StoreError {
    /// The application data directory could not be determined.
    DirectoryResolution(String),
    /// The data directory could not be created.
    DirectoryCreate(String),
    /// The notes file exists but could not be read.
    Read(String),
    /// The notes file is not a JSON array of notes.
    Parse(String),
    /// The collection could not be turned into JSON text.
    Serialize(String),
    /// The notes file could not be written.
    Write(String),
}

/// The fixed text that opens the message of each kind of failure.
pub open spec fn message_prefix(e: StoreError) -> Seq<char> {
    match e {
        StoreError::DirectoryResolution(_) => "Failed to get app data directory: "@,
        StoreError::DirectoryCreate(_) => "Failed to create app data directory: "@,
        StoreError::Read(_) => "Failed to read notes file: "@,
        StoreError::Parse(_) => "Failed to parse notes JSON: "@,
        StoreError::Serialize(_) => "Failed to serialize notes: "@,
        StoreError::Write(_) => "Failed to write notes file: "@,
    }
}

pub open spec fn error_cause(e: StoreError) -> Seq<char> {
    match e {
        StoreError::DirectoryResolution(c) => c@,
        StoreError::DirectoryCreate(c) => c@,
        StoreError::Read(c) => c@,
        StoreError::Parse(c) => c@,
        StoreError::Serialize(c) => c@,
        StoreError::Write(c) => c@,
    }
}

impl StoreError {
    /// The descriptive message handed to the caller: the kind of failure,
    /// then the cause.
    pub fn message(&self) -> (r: String)
        ensures
            r@ == message_prefix(*self) + error_cause(*self),
    {
        match self {
            StoreError::DirectoryResolution(c) => {
                String::from_str("Failed to get app data directory: ").concat(c.as_str())
            },
            StoreError::DirectoryCreate(c) => {
                String::from_str("Failed to create app data directory: ").concat(c.as_str())
            },
            StoreError::Read(c) => String::from_str("Failed to read notes file: ").concat(
                c.as_str(),
            ),
            StoreError::Parse(c) => String::from_str("Failed to parse notes JSON: ").concat(
                c.as_str(),
            ),
            StoreError::Serialize(c) => String::from_str("Failed to serialize notes: ").concat(
                c.as_str(),
            ),
            StoreError::Write(c) => String::from_str("Failed to write notes file: ").concat(
                c.as_str(),
            ),
        }
    }
}

} // verus!
