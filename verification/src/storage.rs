//! The keyed document store, as the decisions it takes.
//!
//! A key names one file of the data directory, `<key>.json`, which holds the
//! pretty-printed JSON text of the document saved under that key. The store
//! does not reach for the disk itself. Each operation is a value that says
//! which single thing it needs from its host next, and that moves on when it
//! is told how that went:
//!
//! - a save asks where the data directory is, then asks for one file to be
//!   written;
//! - a load asks where the data directory is, asks whether the file is there,
//!   and only if it is asks for it to be read;
//! - a remove asks where the data directory is, asks whether the file is
//!   there, and only if it is asks for it to be deleted.
//!
//! Keys are used as they come: nothing in them is escaped or checked.

use vstd::prelude::*;
use crate::error::StorageError;
use crate::error::StorageErrorView;
use crate::json::document_text;
use crate::json::from_text;
use crate::json::null;
use crate::json::null_document;
use crate::json::text_document;
use crate::json::to_text;

verus! {

/// The name of the file that holds the document saved under `key`.
pub open spec fn file_name(key: Seq<char>) -> Seq<char> {
    key + ".json"@
}

/// One thing that an operation needs its host to do. File names are relative
/// to the data directory.
#[derive(Debug, PartialEq, Eq)]
pub enum Request {
    /// Find the application's data directory.
    ResolveDirectory,
    /// Say whether the file exists.
    Exists { file_name: String },
    /// Read the whole file as text.
    Read { file_name: String },
    /// Replace the whole file by `contents`, creating it if need be.
    Write { file_name: String, contents: String },
    /// Delete the file.
    Delete { file_name: String },
}

/// A `Request` with its strings as sequences of characters.
pub enum RequestView {
    ResolveDirectory,
    Exists { file_name: Seq<char> },
    Read { file_name: Seq<char> },
    Write { file_name: Seq<char>, contents: Seq<char> },
    Delete { file_name: Seq<char> },
}

impl View for Request {
    type V = RequestView;

    open spec fn view(&self) -> RequestView {
        match self {
            Request::ResolveDirectory => RequestView::ResolveDirectory,
            Request::Exists { file_name } => RequestView::Exists { file_name: file_name@ },
            Request::Read { file_name } => RequestView::Read { file_name: file_name@ },
            Request::Write { file_name, contents } => RequestView::Write {
                file_name: file_name@,
                contents: contents@,
            },
            Request::Delete { file_name } => RequestView::Delete { file_name: file_name@ },
        }
    }
}

/// How the host fared with a request. A failure carries the host's
/// description of it.
#[derive(Debug, PartialEq, Eq)]
pub enum Response {
    /// Answers `Request::ResolveDirectory`.
    Directory { available: bool },
    /// Answers `Request::Exists`.
    Existence { found: bool },
    /// Answers `Request::Read`, with the text that was read.
    Contents(Result<String, String>),
    /// Answers `Request::Write`.
    Written(Result<(), String>),
    /// Answers `Request::Delete`.
    Deleted(Result<(), String>),
}

/// A `Response` with its strings as sequences of characters.
pub enum ResponseView {
    Directory { available: bool },
    Existence { found: bool },
    Contents(Result<Seq<char>, Seq<char>>),
    Written(Result<(), Seq<char>>),
    Deleted(Result<(), Seq<char>>),
}

impl View for Response {
    type V = ResponseView;

    open spec fn view(&self) -> ResponseView {
        match self {
            Response::Directory { available } => ResponseView::Directory { available: *available },
            Response::Existence { found } => ResponseView::Existence { found: *found },
            Response::Contents(Ok(text)) => ResponseView::Contents(Ok(text@)),
            Response::Contents(Err(reason)) => ResponseView::Contents(Err(reason@)),
            Response::Written(Ok(_)) => ResponseView::Written(Ok(())),
            Response::Written(Err(reason)) => ResponseView::Written(Err(reason@)),
            Response::Deleted(Ok(_)) => ResponseView::Deleted(Ok(())),
            Response::Deleted(Err(reason)) => ResponseView::Deleted(Err(reason@)),
        }
    }
}

/// What a finished operation hands to its caller.
#[derive(Debug, PartialEq)]
pub enum Reply {
    /// The document is in its file.
    Saved,
    /// The document that the file holds, or the JSON null where there is no
    /// file.
    Loaded(serde_json::Value),
    /// There is no file for the key any more.
    Removed,
}

/// An operation of the store that is under way.
#[derive(Debug, PartialEq)]
pub enum Operation {
    /// A save that has yet to learn whether there is a data directory.
    Save { key: String, value: serde_json::Value },
    /// A save whose file is being written.
    Writing { file_name: String, contents: String },
    /// A load that has yet to learn whether there is a data directory.
    Load { key: String },
    /// A load that has yet to learn whether its file exists.
    Locating { file_name: String },
    /// A load whose file is being read.
    Reading { file_name: String },
    /// A remove that has yet to learn whether there is a data directory.
    Remove { key: String },
    /// A remove that has yet to learn whether its file exists.
    Checking { file_name: String },
    /// A remove whose file is being deleted.
    Deleting { file_name: String },
}

/// An `Operation` with its strings as sequences of characters.
pub enum OperationView {
    Save { key: Seq<char>, value: serde_json::Value },
    Writing { file_name: Seq<char>, contents: Seq<char> },
    Load { key: Seq<char> },
    Locating { file_name: Seq<char> },
    Reading { file_name: Seq<char> },
    Remove { key: Seq<char> },
    Checking { file_name: Seq<char> },
    Deleting { file_name: Seq<char> },
}

impl View for Operation {
    type V = OperationView;

    open spec fn view(&self) -> OperationView {
        match self {
            Operation::Save { key, value } => OperationView::Save { key: key@, value: *value },
            Operation::Writing { file_name, contents } => OperationView::Writing {
                file_name: file_name@,
                contents: contents@,
            },
            Operation::Load { key } => OperationView::Load { key: key@ },
            Operation::Locating { file_name } => OperationView::Locating { file_name: file_name@ },
            Operation::Reading { file_name } => OperationView::Reading { file_name: file_name@ },
            Operation::Remove { key } => OperationView::Remove { key: key@ },
            Operation::Checking { file_name } => OperationView::Checking { file_name: file_name@ },
            Operation::Deleting { file_name } => OperationView::Deleting { file_name: file_name@ },
        }
    }
}

/// Where an operation stands once a response has been taken in.
#[derive(Debug, PartialEq)]
pub enum Step {
    /// The operation goes on: its next request is to be carried out.
    Next(Operation),
    /// The operation is over, with this outcome.
    Done(Result<Reply, StorageError>),
}

/// A `Step` with its strings as sequences of characters.
pub enum StepView {
    Next(OperationView),
    Done(Result<Reply, StorageErrorView>),
}

impl View for Step {
    type V = StepView;

    open spec fn view(&self) -> StepView {
        match self {
            Step::Next(operation) => StepView::Next(operation@),
            Step::Done(Ok(reply)) => StepView::Done(Ok(*reply)),
            Step::Done(Err(error)) => StepView::Done(Err(error@)),
        }
    }
}

/// The step that a save takes once its document has been turned into text,
/// or has failed to be: the text goes to the file, a failure ends the save.
pub open spec fn step_after_serializing(
    file_name: Seq<char>,
    serialized: Result<Seq<char>, Seq<char>>,
) -> StepView {
    match serialized {
        Ok(contents) => StepView::Next(OperationView::Writing { file_name, contents }),
        Err(reason) => StepView::Done(Err(StorageErrorView::SerializationError(reason))),
    }
}

/// The outcome of a load once the text of its file has been read as a
/// document, or has failed to be.
pub open spec fn outcome_after_parsing(parsed: Result<serde_json::Value, Seq<char>>) -> Result<
    Reply,
    StorageErrorView,
> {
    match parsed {
        Ok(document) => Ok(Reply::Loaded(document)),
        Err(reason) => Err(StorageErrorView::ParseError(reason)),
    }
}

impl OperationView {
    /// What the operation is waiting for.
    pub open spec fn request(self) -> RequestView {
        match self {
            OperationView::Save { .. } => RequestView::ResolveDirectory,
            OperationView::Load { .. } => RequestView::ResolveDirectory,
            OperationView::Remove { .. } => RequestView::ResolveDirectory,
            OperationView::Writing { file_name, contents } => RequestView::Write {
                file_name,
                contents,
            },
            OperationView::Locating { file_name } => RequestView::Exists { file_name },
            OperationView::Checking { file_name } => RequestView::Exists { file_name },
            OperationView::Reading { file_name } => RequestView::Read { file_name },
            OperationView::Deleting { file_name } => RequestView::Delete { file_name },
        }
    }

    /// How many requests the operation may still make, this one included.
    pub open spec fn requests_left(self) -> nat {
        match self {
            OperationView::Save { .. } => 2,
            OperationView::Load { .. } => 3,
            OperationView::Remove { .. } => 3,
            OperationView::Locating { .. } => 2,
            OperationView::Checking { .. } => 2,
            OperationView::Writing { .. } => 1,
            OperationView::Reading { .. } => 1,
            OperationView::Deleting { .. } => 1,
        }
    }

    /// Where the operation stands after `response`. A response that does not
    /// answer the operation's request leaves it where it was.
    pub open spec fn advance(self, response: ResponseView) -> StepView {
        match (self, response) {
            (OperationView::Save { key, value }, ResponseView::Directory { available }) => {
                if available {
                    step_after_serializing(file_name(key), document_text(value))
                } else {
                    StepView::Done(Err(StorageErrorView::DirectoryUnavailable))
                }
            },
            (OperationView::Writing { .. }, ResponseView::Written(outcome)) => {
                match outcome {
                    Ok(_) => StepView::Done(Ok(Reply::Saved)),
                    Err(reason) => StepView::Done(Err(StorageErrorView::WriteError(reason))),
                }
            },
            (OperationView::Load { key }, ResponseView::Directory { available }) => {
                if available {
                    StepView::Next(OperationView::Locating { file_name: file_name(key) })
                } else {
                    StepView::Done(Err(StorageErrorView::DirectoryUnavailable))
                }
            },
            (OperationView::Locating { file_name }, ResponseView::Existence { found }) => {
                if found {
                    StepView::Next(OperationView::Reading { file_name })
                } else {
                    StepView::Done(Ok(Reply::Loaded(null_document())))
                }
            },
            (OperationView::Reading { .. }, ResponseView::Contents(outcome)) => {
                match outcome {
                    Ok(text) => StepView::Done(outcome_after_parsing(text_document(text))),
                    Err(reason) => StepView::Done(Err(StorageErrorView::ReadError(reason))),
                }
            },
            (OperationView::Remove { key }, ResponseView::Directory { available }) => {
                if available {
                    StepView::Next(OperationView::Checking { file_name: file_name(key) })
                } else {
                    StepView::Done(Err(StorageErrorView::DirectoryUnavailable))
                }
            },
            (OperationView::Checking { file_name }, ResponseView::Existence { found }) => {
                if found {
                    StepView::Next(OperationView::Deleting { file_name })
                } else {
                    StepView::Done(Ok(Reply::Removed))
                }
            },
            (OperationView::Deleting { .. }, ResponseView::Deleted(outcome)) => {
                match outcome {
                    Ok(_) => StepView::Done(Ok(Reply::Removed)),
                    Err(reason) => StepView::Done(Err(StorageErrorView::DeleteError(reason))),
                }
            },
            (operation, _) => StepView::Next(operation),
        }
    }
}

/// Begins saving `value` under `key`. Once it is done, the file of `key`
/// holds the pretty-printed text of `value` and nothing else.
pub fn save_secure_data(key: String, value: serde_json::Value) -> (operation: Operation)
    ensures
        operation@ == (OperationView::Save { key: key@, value }),
{
    Operation::Save { key, value }
}

/// Begins loading the document saved under `key`. A key without a file loads
/// as the JSON null.
pub fn load_secure_data(key: String) -> (operation: Operation)
    ensures
        operation@ == (OperationView::Load { key: key@ }),
{
    Operation::Load { key }
}

/// Begins removing the document saved under `key`. Removing a key without a
/// file succeeds and does nothing.
pub fn remove_secure_data(key: String) -> (operation: Operation)
    ensures
        operation@ == (OperationView::Remove { key: key@ }),
{
    Operation::Remove { key }
}

/// The name of the file that holds the document saved under `key`.
pub fn file_name_of(key: &str) -> (name: String)
    ensures
        name@ == file_name(key@),
{
    String::from_str(key).concat(".json")
}

/// Decides how a save goes on from the outcome of serializing its document:
/// with the text, the file is to be written; without it, the save has
/// failed.
pub fn after_serializing(file_name: String, serialized: Result<String, String>) -> (step: Step)
    ensures
        step@ == step_after_serializing(
            file_name@,
            match serialized {
                Ok(text) => Ok(text@),
                Err(reason) => Err(reason@),
            },
        ),
{
    match serialized {
        Ok(contents) => Step::Next(Operation::Writing { file_name, contents }),
        Err(reason) => Step::Done(Err(StorageError::SerializationError(reason))),
    }
}

/// Decides what a load returns from the outcome of parsing the text of its
/// file: the document, or a parse failure.
pub fn after_parsing(parsed: Result<serde_json::Value, String>) -> (outcome: Result<
    Reply,
    StorageError,
>)
    ensures
        match outcome {
            Ok(reply) => outcome_after_parsing(
                match parsed {
                    Ok(document) => Ok(document),
                    Err(reason) => Err(reason@),
                },
            ) == Ok::<Reply, StorageErrorView>(reply),
            Err(error) => outcome_after_parsing(
                match parsed {
                    Ok(document) => Ok(document),
                    Err(reason) => Err(reason@),
                },
            ) == Err::<Reply, StorageErrorView>(error@),
        },
{
    match parsed {
        Ok(document) => Ok(Reply::Loaded(document)),
        Err(reason) => Err(StorageError::ParseError(reason)),
    }
}

impl Operation {
    /// What the operation needs from its host now.
    pub fn request(&self) -> (request: Request)
        ensures
            request@ == self@.request(),
    {
        match self {
            Operation::Save { .. } => Request::ResolveDirectory,
            Operation::Load { .. } => Request::ResolveDirectory,
            Operation::Remove { .. } => Request::ResolveDirectory,
            Operation::Writing { file_name, contents } => Request::Write {
                file_name: file_name.clone(),
                contents: contents.clone(),
            },
            Operation::Locating { file_name } => Request::Exists { file_name: file_name.clone() },
            Operation::Checking { file_name } => Request::Exists { file_name: file_name.clone() },
            Operation::Reading { file_name } => Request::Read { file_name: file_name.clone() },
            Operation::Deleting { file_name } => Request::Delete { file_name: file_name.clone() },
        }
    }

    /// Takes in the host's response to the operation's request and decides
    /// what comes next: another request, or the end of the operation with
    /// its outcome. A response to some other request changes nothing.
    pub fn advance(self, response: Response) -> (step: Step)
        ensures
            step@ == self@.advance(response@),
    {
        match (self, response) {
            (Operation::Save { key, value }, Response::Directory { available }) => {
                if available {
                    after_serializing(file_name_of(key.as_str()), to_text(&value))
                } else {
                    Step::Done(Err(StorageError::DirectoryUnavailable))
                }
            },
            (Operation::Writing { .. }, Response::Written(outcome)) => {
                match outcome {
                    Ok(_) => Step::Done(Ok(Reply::Saved)),
                    Err(reason) => Step::Done(Err(StorageError::WriteError(reason))),
                }
            },
            (Operation::Load { key }, Response::Directory { available }) => {
                if available {
                    Step::Next(Operation::Locating { file_name: file_name_of(key.as_str()) })
                } else {
                    Step::Done(Err(StorageError::DirectoryUnavailable))
                }
            },
            (Operation::Locating { file_name }, Response::Existence { found }) => {
                if found {
                    Step::Next(Operation::Reading { file_name })
                } else {
                    Step::Done(Ok(Reply::Loaded(null())))
                }
            },
            (Operation::Reading { .. }, Response::Contents(outcome)) => {
                match outcome {
                    Ok(text) => Step::Done(after_parsing(from_text(text.as_str()))),
                    Err(reason) => Step::Done(Err(StorageError::ReadError(reason))),
                }
            },
            (Operation::Remove { key }, Response::Directory { available }) => {
                if available {
                    Step::Next(Operation::Checking { file_name: file_name_of(key.as_str()) })
                } else {
                    Step::Done(Err(StorageError::DirectoryUnavailable))
                }
            },
            (Operation::Checking { file_name }, Response::Existence { found }) => {
                if found {
                    Step::Next(Operation::Deleting { file_name })
                } else {
                    Step::Done(Ok(Reply::Removed))
                }
            },
            (Operation::Deleting { .. }, Response::Deleted(outcome)) => {
                match outcome {
                    Ok(_) => Step::Done(Ok(Reply::Removed)),
                    Err(reason) => Step::Done(Err(StorageError::DeleteError(reason))),
                }
            },
            (operation, _) => Step::Next(operation),
        }
    }
}

} // verus!
