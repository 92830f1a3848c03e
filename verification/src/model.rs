//! The laws of the store, proved against a model of its data directory.
//!
//! The model is a directory that is always there and in which nothing fails:
//! a map from file name to the text of the file. `run` plays an operation
//! against it from its first request to its outcome. Each law below says what
//! `run` gives, so it holds of every host that treats the store's requests as
//! the model does.

use vstd::prelude::*;
use crate::error::StorageErrorView;
use crate::json::document_text;
use crate::json::null_document;
use crate::json::survives_storage;
use crate::json::text_document;
use crate::storage::file_name;
use crate::storage::outcome_after_parsing;
use crate::storage::OperationView;
use crate::storage::Reply;
use crate::storage::RequestView;
use crate::storage::ResponseView;
use crate::storage::StepView;

verus! {

/// The files of a data directory: the text of each, by its name.
pub type Files = Map<Seq<char>, Seq<char>>;

/// How an operation ends: with a reply, or with a failure.
pub type Outcome = Result<Reply, StorageErrorView>;

/// The outcome of an operation that ends with `reply`.
pub open spec fn success(reply: Reply) -> Outcome {
    Ok(reply)
}

/// The outcome of an operation that ends with `error`.
pub open spec fn failure(error: StorageErrorView) -> Outcome {
    Err(error)
}

/// How the model answers a request. Its directory is always found and its
/// writes always succeed; reading or deleting a file that is not there fails,
/// with nothing to say about it.
pub open spec fn respond(files: Files, request: RequestView) -> ResponseView {
    match request {
        RequestView::ResolveDirectory => ResponseView::Directory { available: true },
        RequestView::Exists { file_name } => ResponseView::Existence {
            found: files.contains_key(file_name),
        },
        RequestView::Read { file_name } => ResponseView::Contents(
            if files.contains_key(file_name) {
                Ok(files[file_name])
            } else {
                Err(Seq::empty())
            },
        ),
        RequestView::Write { .. } => ResponseView::Written(Ok(())),
        RequestView::Delete { file_name } => ResponseView::Deleted(
            if files.contains_key(file_name) {
                Ok(())
            } else {
                Err(Seq::empty())
            },
        ),
    }
}

/// What a request leaves of the model's files.
pub open spec fn carry_out(files: Files, request: RequestView) -> Files {
    match request {
        RequestView::Write { file_name, contents } => files.insert(file_name, contents),
        RequestView::Delete { file_name } => files.remove(file_name),
        _ => files,
    }
}

/// Plays `operation` against the model until it is done: the files it leaves
/// and its outcome.
pub open spec fn run(files: Files, operation: OperationView) -> (Files, Outcome)
    decreases operation.requests_left(),
{
    let request = operation.request();
    match operation.advance(respond(files, request)) {
        StepView::Done(outcome) => (carry_out(files, request), outcome),
        StepView::Next(next) => run(carry_out(files, request), next),
    }
}

/// The outcome of saving `value` under `key` in a directory that holds
/// `files`, with the files that the save leaves.
pub open spec fn save(files: Files, key: Seq<char>, value: serde_json::Value) -> (Files, Outcome) {
    run(files, OperationView::Save { key, value })
}

/// The outcome of loading `key` from a directory that holds `files`, with
/// the files that the load leaves.
pub open spec fn load(files: Files, key: Seq<char>) -> (Files, Outcome) {
    run(files, OperationView::Load { key })
}

/// The outcome of removing `key` from a directory that holds `files`, with
/// the files that the remove leaves.
pub open spec fn remove(files: Files, key: Seq<char>) -> (Files, Outcome) {
    run(files, OperationView::Remove { key })
}

/// Different keys have different files.
pub proof fn lemma_file_name_injective(key: Seq<char>, other: Seq<char>)
    ensures
        file_name(key) == file_name(other) <==> key == other,
{
    if file_name(key) == file_name(other) {
        assert(key.len() + ".json"@.len() == file_name(key).len());
        assert(other.len() + ".json"@.len() == file_name(other).len());
        assert forall|i: int| 0 <= i < key.len() implies key[i] == other[i] by {
            assert(key[i] == file_name(key)[i]);
            assert(other[i] == file_name(other)[i]);
        }
        assert(key =~= other);
    }
}

/// A save writes the text of its document to the file of its key, touches no
/// other file, and succeeds. A document without a text fails the save and
/// leaves every file as it was.
pub proof fn lemma_save(files: Files, key: Seq<char>, value: serde_json::Value)
    ensures
        save(files, key, value) == match document_text(value) {
            Ok(text) => (files.insert(file_name(key), text), success(Reply::Saved)),
            Err(reason) => (files, failure(StorageErrorView::SerializationError(reason))),
        },
{
    reveal_with_fuel(run, 3);
}

/// A load changes no file. Where the key has no file it returns the JSON
/// null; where it has one it returns the document that the file's text
/// holds, or a parse failure if the text holds none.
pub proof fn lemma_load(files: Files, key: Seq<char>)
    ensures
        load(files, key) == (
            files,
            if files.contains_key(file_name(key)) {
                outcome_after_parsing(text_document(files[file_name(key)]))
            } else {
                success(Reply::Loaded(null_document()))
            },
        ),
{
    reveal_with_fuel(run, 4);
}

/// A remove succeeds whether or not the key has a file, leaves the key
/// without one, and touches no other file.
pub proof fn lemma_remove(files: Files, key: Seq<char>)
    ensures
        remove(files, key) == (files.remove(file_name(key)), success(Reply::Removed)),
{
    reveal_with_fuel(run, 4);
    if !files.contains_key(file_name(key)) {
        assert(files.remove(file_name(key)) =~= files);
    }
}

/// Round trip: a document that survives storage is loaded back as it was
/// saved.
pub proof fn lemma_load_after_save(files: Files, key: Seq<char>, value: serde_json::Value)
    requires
        survives_storage(value),
    ensures
        save(files, key, value).1 == success(Reply::Saved),
        load(save(files, key, value).0, key).1 == success(Reply::Loaded(value)),
{
    lemma_save(files, key, value);
    lemma_load(save(files, key, value).0, key);
}

/// Absence: loading a key that has no file succeeds, returns the JSON null,
/// and creates nothing.
pub proof fn lemma_load_of_absent_key(files: Files, key: Seq<char>)
    requires
        !files.contains_key(file_name(key)),
    ensures
        load(files, key) == (files, success(Reply::Loaded(null_document()))),
{
    lemma_load(files, key);
}

/// Idempotent delete: removing a key succeeds whether or not it has a file,
/// and removing it again succeeds too and changes nothing more.
pub proof fn lemma_remove_twice(files: Files, key: Seq<char>)
    ensures
        remove(files, key).1 == success(Reply::Removed),
        !remove(files, key).0.contains_key(file_name(key)),
        remove(remove(files, key).0, key) == (remove(files, key).0, success(Reply::Removed)),
{
    lemma_remove(files, key);
    lemma_remove(remove(files, key).0, key);
    assert(files.remove(file_name(key)).remove(file_name(key)) =~= files.remove(file_name(key)));
}

/// A removed key loads as the JSON null.
pub proof fn lemma_load_after_remove(files: Files, key: Seq<char>)
    ensures
        load(remove(files, key).0, key).1 == success(Reply::Loaded(null_document())),
{
    lemma_remove(files, key);
    lemma_load(remove(files, key).0, key);
}

/// Overwrite: of two saves under one key the second wins. The directory is
/// left as if the first had never been made, so a load returns what it would
/// return after the second save alone.
pub proof fn lemma_second_save_wins(
    files: Files,
    key: Seq<char>,
    first: serde_json::Value,
    second: serde_json::Value,
)
    requires
        document_text(second) is Ok,
    ensures
        save(save(files, key, first).0, key, second) == save(files, key, second),
        survives_storage(second) ==> load(save(save(files, key, first).0, key, second).0, key).1
            == success(Reply::Loaded(second)),
{
    lemma_save(files, key, first);
    lemma_save(save(files, key, first).0, key, second);
    lemma_save(files, key, second);
    let text = document_text(second)->Ok_0;
    assert(save(files, key, first).0.insert(file_name(key), text) =~= files.insert(
        file_name(key),
        text,
    ));
    if survives_storage(second) {
        lemma_load_after_save(files, key, second);
    }
}

/// Isolation: saving or removing one key leaves the file of every other key
/// as it was, so a load of another key returns what it returned before.
pub proof fn lemma_other_keys_untouched(
    files: Files,
    key: Seq<char>,
    value: serde_json::Value,
    other: Seq<char>,
)
    requires
        other != key,
    ensures
        load(save(files, key, value).0, other).1 == load(files, other).1,
        load(remove(files, key).0, other).1 == load(files, other).1,
        save(files, key, value).0.contains_key(file_name(other)) == files.contains_key(
            file_name(other),
        ),
        remove(files, key).0.contains_key(file_name(other)) == files.contains_key(
            file_name(other),
        ),
{
    lemma_file_name_injective(key, other);
    lemma_save(files, key, value);
    lemma_remove(files, key);
    lemma_load(files, other);
    lemma_load(save(files, key, value).0, other);
    lemma_load(remove(files, key).0, other);
}

/// Corruption: where the file of a key holds text that is not JSON, a load
/// fails with a parse failure that carries the parser's description.
pub proof fn lemma_load_of_corrupt_file(files: Files, key: Seq<char>)
    requires
        files.contains_key(file_name(key)),
        text_document(files[file_name(key)]) is Err,
    ensures
        load(files, key) == (
            files,
            failure(StorageErrorView::ParseError(text_document(files[file_name(key)])->Err_0)),
        ),
{
    lemma_load(files, key);
}

} // verus!
