//! The ways in which an operation of the store fails.

use vstd::prelude::*;

verus! {

/// Why an operation of the store failed. Every failure is returned to the
/// caller under one of these kinds; those that come from outside the store
/// carry the description that came with them.
#[derive(Debug, PartialEq, Eq)]
pub enum StorageError {
    /// The host could not say where the application's data directory is.
    DirectoryUnavailable,
    /// The document has no JSON text.
    SerializationError(String),
    /// The file could not be written.
    WriteError(String),
    /// The file is there and could not be read.
    ReadError(String),
    /// The file was read and does not hold JSON.
    ParseError(String),
    /// The file is there and could not be deleted.
    DeleteError(String),
}

/// A `StorageError` with its description as a sequence of characters.
pub enum StorageErrorView {
    DirectoryUnavailable,
    SerializationError(Seq<char>),
    WriteError(Seq<char>),
    ReadError(Seq<char>),
    ParseError(Seq<char>),
    DeleteError(Seq<char>),
}

impl View for StorageError {
    type V = StorageErrorView;

    open spec fn view(&self) -> StorageErrorView {
        match self {
            StorageError::DirectoryUnavailable => StorageErrorView::DirectoryUnavailable,
            StorageError::SerializationError(reason) => StorageErrorView::SerializationError(reason@),
            StorageError::WriteError(reason) => StorageErrorView::WriteError(reason@),
            StorageError::ReadError(reason) => StorageErrorView::ReadError(reason@),
            StorageError::ParseError(reason) => StorageErrorView::ParseError(reason@),
            StorageError::DeleteError(reason) => StorageErrorView::DeleteError(reason@),
        }
    }
}

impl StorageErrorView {
    /// The sentence that reports this failure.
    pub open spec fn message(self) -> Seq<char> {
        match self {
            StorageErrorView::DirectoryUnavailable => "Failed to get app data directory"@,
            StorageErrorView::SerializationError(reason) => "Failed to serialize data: "@ + reason,
            StorageErrorView::WriteError(reason) => "Failed to write file: "@ + reason,
            StorageErrorView::ReadError(reason) => "Failed to read file: "@ + reason,
            StorageErrorView::ParseError(reason) => "Failed to parse JSON: "@ + reason,
            StorageErrorView::DeleteError(reason) => "Failed to remove file: "@ + reason,
        }
    }
}

impl StorageError {
    /// The sentence that reports this failure: what the store was doing,
    /// followed by the description that came with the failure.
    pub fn message(&self) -> (text: String)
        ensures
            text@ == self@.message(),
    {
        match self {
            StorageError::DirectoryUnavailable => String::from_str(
                "Failed to get app data directory",
            ),
            StorageError::SerializationError(reason) => String::from_str(
                "Failed to serialize data: ",
            ).concat(reason.as_str()),
            StorageError::WriteError(reason) => String::from_str("Failed to write file: ").concat(
                reason.as_str(),
            ),
            StorageError::ReadError(reason) => String::from_str("Failed to read file: ").concat(
                reason.as_str(),
            ),
            StorageError::ParseError(reason) => String::from_str("Failed to parse JSON: ").concat(
                reason.as_str(),
            ),
            StorageError::DeleteError(reason) => String::from_str("Failed to remove file: ").concat(
                reason.as_str(),
            ),
        }
    }
}

} // verus!
