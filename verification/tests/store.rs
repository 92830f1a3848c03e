use serde_json::{Number, Value};
use secure_store::error::StorageError;
use secure_store::storage::{
    file_name_of, load_secure_data, remove_secure_data, save_secure_data, Operation, Reply,
    Request, Response, Step,
};
use std::collections::BTreeMap;

/// A data directory kept in memory: the text of each file, by its name.
struct Directory {
    available: bool,
    files: BTreeMap<String, String>,
    requests: Vec<Request>,
}

fn directory() -> Directory {
    Directory { available: true, files: BTreeMap::new(), requests: Vec::new() }
}

fn answer(dir: &mut Directory, request: &Request) -> Response {
    match request {
        Request::ResolveDirectory => Response::Directory { available: dir.available },
        Request::Exists { file_name } => {
            Response::Existence { found: dir.files.contains_key(file_name) }
        }
        Request::Read { file_name } => match dir.files.get(file_name) {
            Some(text) => Response::Contents(Ok(text.to_string())),
            None => Response::Contents(Err("no such file".to_string())),
        },
        Request::Write { file_name, contents } => {
            dir.files.insert(file_name.to_string(), contents.to_string());
            Response::Written(Ok(()))
        }
        Request::Delete { file_name } => match dir.files.remove(file_name) {
            Some(_) => Response::Deleted(Ok(())),
            None => Response::Deleted(Err("no such file".to_string())),
        },
    }
}

fn run(dir: &mut Directory, start: Operation) -> Result<Reply, StorageError> {
    let mut operation = start;
    for _ in 0..8 {
        let request = operation.request();
        let response = answer(dir, &request);
        dir.requests.push(request);
        match operation.advance(response) {
            Step::Next(next) => operation = next,
            Step::Done(outcome) => return outcome,
        }
    }
    panic!("the operation did not end");
}

fn save(dir: &mut Directory, key: &str, value: Value) -> Result<Reply, StorageError> {
    run(dir, save_secure_data(key.to_string(), value))
}

fn load(dir: &mut Directory, key: &str) -> Result<Reply, StorageError> {
    run(dir, load_secure_data(key.to_string()))
}

fn remove(dir: &mut Directory, key: &str) -> Result<Reply, StorageError> {
    run(dir, remove_secure_data(key.to_string()))
}

fn settings() -> Value {
    let mut object = serde_json::Map::new();
    object.insert("theme".to_string(), Value::String("dark".to_string()));
    object.insert("volume".to_string(), Value::Number(Number::from(7)));
    Value::Object(object)
}

fn nested(depth: usize) -> Value {
    let mut value = Value::Null;
    for _ in 0..depth {
        value = Value::Array(vec![value]);
    }
    value
}

#[test]
fn settings_are_saved_loaded_and_removed() {
    let mut dir = directory();
    assert_eq!(save(&mut dir, "settings", settings()), Ok(Reply::Saved));
    assert_eq!(load(&mut dir, "settings"), Ok(Reply::Loaded(settings())));
    assert_eq!(remove(&mut dir, "settings"), Ok(Reply::Removed));
    assert_eq!(load(&mut dir, "settings"), Ok(Reply::Loaded(Value::Null)));
}

#[test]
fn save_writes_pretty_text_to_the_file_of_the_key() {
    let mut dir = directory();
    assert_eq!(save(&mut dir, "settings", settings()), Ok(Reply::Saved));
    assert_eq!(dir.files.len(), 1);
    assert_eq!(
        dir.files.get("settings.json").map(String::as_str),
        Some("{\n  \"theme\": \"dark\",\n  \"volume\": 7\n}")
    );
}

#[test]
fn file_name_is_the_key_with_its_suffix() {
    assert_eq!(file_name_of("settings"), "settings.json");
    assert_eq!(file_name_of(""), ".json");
    assert_eq!(file_name_of("a/b c"), "a/b c.json");
    assert_eq!(file_name_of("x.json"), "x.json.json");
}

#[test]
fn every_kind_of_document_comes_back_as_saved() {
    let documents = vec![
        Value::Null,
        Value::Bool(true),
        Value::Bool(false),
        Value::Number(Number::from(0)),
        Value::Number(Number::from(-12)),
        Value::Number(Number::from(u64::MAX)),
        Value::Number(Number::from_f64(1.5).unwrap()),
        Value::String(String::new()),
        Value::String("line\nbreak \"quoted\" \u{e9}\u{1f600}".to_string()),
        Value::Array(Vec::new()),
        Value::Array(vec![Value::Null, Value::Bool(true), settings()]),
        Value::Object(serde_json::Map::new()),
        settings(),
        nested(100),
    ];
    for document in documents {
        let mut dir = directory();
        let expected = serde_json::from_str::<Value>(&document.to_string()).unwrap();
        assert_eq!(expected, document);
        assert_eq!(save(&mut dir, "k", document), Ok(Reply::Saved));
        assert_eq!(load(&mut dir, "k"), Ok(Reply::Loaded(expected)));
    }
}

#[test]
fn load_of_a_key_never_saved_is_null() {
    let mut dir = directory();
    assert_eq!(load(&mut dir, "missing"), Ok(Reply::Loaded(Value::Null)));
    assert!(dir.files.is_empty());
    assert_eq!(
        dir.requests,
        vec![
            Request::ResolveDirectory,
            Request::Exists { file_name: "missing.json".to_string() },
        ]
    );
}

#[test]
fn load_reads_only_a_file_that_exists() {
    let mut dir = directory();
    dir.files.insert("k.json".to_string(), "[1, 2]".to_string());
    let expected =
        Value::Array(vec![Value::Number(Number::from(1)), Value::Number(Number::from(2))]);
    assert_eq!(load(&mut dir, "k"), Ok(Reply::Loaded(expected)));
    assert_eq!(
        dir.requests,
        vec![
            Request::ResolveDirectory,
            Request::Exists { file_name: "k.json".to_string() },
            Request::Read { file_name: "k.json".to_string() },
        ]
    );
    assert_eq!(dir.files.get("k.json").map(String::as_str), Some("[1, 2]"));
}

#[test]
fn remove_without_a_file_succeeds_twice() {
    let mut dir = directory();
    assert_eq!(remove(&mut dir, "k"), Ok(Reply::Removed));
    assert_eq!(remove(&mut dir, "k"), Ok(Reply::Removed));
    assert!(dir.files.is_empty());
    assert!(!dir.requests.iter().any(|request| matches!(request, Request::Delete { .. })));
}

#[test]
fn remove_deletes_the_file_and_then_has_nothing_to_do() {
    let mut dir = directory();
    assert_eq!(save(&mut dir, "k", Value::Bool(true)), Ok(Reply::Saved));
    dir.requests.clear();
    assert_eq!(remove(&mut dir, "k"), Ok(Reply::Removed));
    assert_eq!(
        dir.requests,
        vec![
            Request::ResolveDirectory,
            Request::Exists { file_name: "k.json".to_string() },
            Request::Delete { file_name: "k.json".to_string() },
        ]
    );
    assert!(dir.files.is_empty());
    assert_eq!(remove(&mut dir, "k"), Ok(Reply::Removed));
}

#[test]
fn second_save_replaces_the_first() {
    let mut dir = directory();
    let first = settings();
    let second = Value::Array(vec![Value::String("other".to_string())]);
    assert_eq!(save(&mut dir, "k", first), Ok(Reply::Saved));
    assert_eq!(save(&mut dir, "k", second), Ok(Reply::Saved));
    assert_eq!(dir.files.len(), 1);
    assert_eq!(dir.files.get("k.json").map(String::as_str), Some("[\n  \"other\"\n]"));
    assert_eq!(
        load(&mut dir, "k"),
        Ok(Reply::Loaded(Value::Array(vec![Value::String("other".to_string())])))
    );
}

#[test]
fn keys_do_not_touch_each_other() {
    let mut dir = directory();
    assert_eq!(save(&mut dir, "b", Value::Number(Number::from(1))), Ok(Reply::Saved));
    assert_eq!(load(&mut dir, "c"), Ok(Reply::Loaded(Value::Null)));
    assert_eq!(save(&mut dir, "a", settings()), Ok(Reply::Saved));
    assert_eq!(load(&mut dir, "b"), Ok(Reply::Loaded(Value::Number(Number::from(1)))));
    assert_eq!(load(&mut dir, "c"), Ok(Reply::Loaded(Value::Null)));
    assert_eq!(remove(&mut dir, "a"), Ok(Reply::Removed));
    assert_eq!(load(&mut dir, "b"), Ok(Reply::Loaded(Value::Number(Number::from(1)))));
    assert_eq!(dir.files.get("b.json").map(String::as_str), Some("1"));
}

#[test]
fn corrupt_file_is_a_parse_error() {
    let mut dir = directory();
    dir.files.insert("k.json".to_string(), "not json".to_string());
    assert_eq!(
        load(&mut dir, "k"),
        Err(StorageError::ParseError("expected ident at line 1 column 2".to_string()))
    );
    dir.files.insert("k.json".to_string(), String::new());
    assert_eq!(
        load(&mut dir, "k"),
        Err(StorageError::ParseError("EOF while parsing a value at line 1 column 0".to_string()))
    );
    dir.files.insert("k.json".to_string(), "{\"a\": 1} x".to_string());
    assert!(matches!(load(&mut dir, "k"), Err(StorageError::ParseError(_))));
    dir.files.insert("k.json".to_string(), "{\"theme\": \"dark\"".to_string());
    assert!(matches!(load(&mut dir, "k"), Err(StorageError::ParseError(_))));
}

#[test]
fn parse_error_message_carries_the_parser_words() {
    let mut dir = directory();
    dir.files.insert("k.json".to_string(), "not json".to_string());
    let error = load(&mut dir, "k").unwrap_err();
    assert_eq!(error.message(), "Failed to parse JSON: expected ident at line 1 column 2");
}

#[test]
fn document_nested_too_deep_is_saved_and_not_read_back() {
    let mut dir = directory();
    assert_eq!(save(&mut dir, "deep", nested(200)), Ok(Reply::Saved));
    assert!(matches!(load(&mut dir, "deep"), Err(StorageError::ParseError(_))));
}

#[test]
fn without_a_directory_every_operation_fails_and_asks_nothing_more() {
    let mut dir = directory();
    dir.available = false;
    dir.files.insert("k.json".to_string(), "1".to_string());
    assert_eq!(save(&mut dir, "k", Value::Null), Err(StorageError::DirectoryUnavailable));
    assert_eq!(load(&mut dir, "k"), Err(StorageError::DirectoryUnavailable));
    assert_eq!(remove(&mut dir, "k"), Err(StorageError::DirectoryUnavailable));
    assert_eq!(
        dir.requests,
        vec![Request::ResolveDirectory, Request::ResolveDirectory, Request::ResolveDirectory]
    );
    assert_eq!(dir.files.get("k.json").map(String::as_str), Some("1"));
}

#[test]
fn failed_write_is_a_write_error() {
    let writing = Operation::Writing { file_name: "k.json".to_string(), contents: "1".to_string() };
    assert_eq!(
        writing.advance(Response::Written(Err("disk full".to_string()))),
        Step::Done(Err(StorageError::WriteError("disk full".to_string())))
    );
    let writing = Operation::Writing { file_name: "k.json".to_string(), contents: "1".to_string() };
    assert_eq!(writing.advance(Response::Written(Ok(()))), Step::Done(Ok(Reply::Saved)));
}

#[test]
fn failed_read_is_a_read_error() {
    let reading = Operation::Reading { file_name: "k.json".to_string() };
    assert_eq!(
        reading.advance(Response::Contents(Err("permission denied".to_string()))),
        Step::Done(Err(StorageError::ReadError("permission denied".to_string())))
    );
}

#[test]
fn failed_delete_is_a_delete_error() {
    let deleting = Operation::Deleting { file_name: "k.json".to_string() };
    assert_eq!(
        deleting.advance(Response::Deleted(Err("permission denied".to_string()))),
        Step::Done(Err(StorageError::DeleteError("permission denied".to_string())))
    );
    let deleting = Operation::Deleting { file_name: "k.json".to_string() };
    assert_eq!(deleting.advance(Response::Deleted(Ok(()))), Step::Done(Ok(Reply::Removed)));
}

#[test]
fn each_step_asks_for_the_next_thing() {
    let save = save_secure_data("k".to_string(), Value::Bool(true));
    assert_eq!(save.request(), Request::ResolveDirectory);
    let step = save.advance(Response::Directory { available: true });
    assert_eq!(
        step,
        Step::Next(Operation::Writing {
            file_name: "k.json".to_string(),
            contents: "true".to_string()
        })
    );
    let load = load_secure_data("k".to_string());
    assert_eq!(load.request(), Request::ResolveDirectory);
    let step = load.advance(Response::Directory { available: true });
    assert_eq!(step, Step::Next(Operation::Locating { file_name: "k.json".to_string() }));
    let locating = Operation::Locating { file_name: "k.json".to_string() };
    assert_eq!(locating.request(), Request::Exists { file_name: "k.json".to_string() });
    assert_eq!(
        locating.advance(Response::Existence { found: true }),
        Step::Next(Operation::Reading { file_name: "k.json".to_string() })
    );
    let remove = remove_secure_data("k".to_string());
    assert_eq!(remove.request(), Request::ResolveDirectory);
    let step = remove.advance(Response::Directory { available: true });
    assert_eq!(step, Step::Next(Operation::Checking { file_name: "k.json".to_string() }));
    let checking = Operation::Checking { file_name: "k.json".to_string() };
    assert_eq!(
        checking.advance(Response::Existence { found: true }),
        Step::Next(Operation::Deleting { file_name: "k.json".to_string() })
    );
}

#[test]
fn response_to_another_request_changes_nothing() {
    let load = load_secure_data("k".to_string());
    assert_eq!(
        load.advance(Response::Written(Ok(()))),
        Step::Next(Operation::Load { key: "k".to_string() })
    );
    let reading = Operation::Reading { file_name: "k.json".to_string() };
    assert_eq!(
        reading.advance(Response::Existence { found: false }),
        Step::Next(Operation::Reading { file_name: "k.json".to_string() })
    );
    let writing = Operation::Writing { file_name: "k.json".to_string(), contents: "1".to_string() };
    assert_eq!(
        writing.advance(Response::Deleted(Err("x".to_string()))),
        Step::Next(Operation::Writing {
            file_name: "k.json".to_string(),
            contents: "1".to_string()
        })
    );
}

#[test]
fn error_messages_say_what_failed() {
    assert_eq!(StorageError::DirectoryUnavailable.message(), "Failed to get app data directory");
    assert_eq!(
        StorageError::SerializationError("bad".to_string()).message(),
        "Failed to serialize data: bad"
    );
    assert_eq!(
        StorageError::WriteError("disk full".to_string()).message(),
        "Failed to write file: disk full"
    );
    assert_eq!(
        StorageError::ReadError("denied".to_string()).message(),
        "Failed to read file: denied"
    );
    assert_eq!(
        StorageError::ParseError("expected value".to_string()).message(),
        "Failed to parse JSON: expected value"
    );
    assert_eq!(
        StorageError::DeleteError("denied".to_string()).message(),
        "Failed to remove file: denied"
    );
}
