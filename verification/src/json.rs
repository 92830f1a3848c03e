//! The JSON documents that the store keeps, and the two conversions between a
//! document and its text. Both conversions are serde_json's; nothing in this
//! module is proved, and everything else in the crate rests on what is stated
//! here.

use vstd::prelude::*;

verus! {

/// `serde_json::Value`, a JSON document. The store never looks inside one.
#[verifier::external_type_specification]
#[verifier::external_body]
pub struct ExValue(serde_json::Value);

/// `serde_json::Error`, the reason a document could not be written as text or
/// a text could not be read as a document.
#[verifier::external_type_specification]
#[verifier::external_body]
pub struct ExError(serde_json::Error);

/// What `serde_json::to_string_pretty` returns for a document: its
/// pretty-printed text, or the reason it has none.
pub uninterp spec fn pretty_text(document: serde_json::Value) -> Result<Seq<char>, serde_json::Error>;

/// What `serde_json::from_str` returns for a text: the document it denotes, or
/// the reason it denotes none.
pub uninterp spec fn parsed_text(text: Seq<char>) -> Result<serde_json::Value, serde_json::Error>;

/// What a `serde_json::Error` displays as.
pub uninterp spec fn error_text(error: serde_json::Error) -> Seq<char>;

/// The JSON null: the document that the text `null` denotes.
pub open spec fn null_document() -> serde_json::Value {
    parsed_text("null"@)->Ok_0
}

/// The text that a document is stored as, or the description of why it cannot
/// be stored.
pub open spec fn document_text(document: serde_json::Value) -> Result<Seq<char>, Seq<char>> {
    match pretty_text(document) {
        Ok(text) => Ok(text),
        Err(error) => Err(error_text(error)),
    }
}

/// The document that a stored text holds, or the description of why it holds
/// none.
pub open spec fn text_document(text: Seq<char>) -> Result<serde_json::Value, Seq<char>> {
    match parsed_text(text) {
        Ok(document) => Ok(document),
        Err(error) => Err(error_text(error)),
    }
}

/// A document survives storage when it has a text and that text reads back as
/// the same document.
pub open spec fn survives_storage(document: serde_json::Value) -> bool {
    match document_text(document) {
        Ok(text) => text_document(text) == Ok::<serde_json::Value, Seq<char>>(document),
        Err(_) => false,
    }
}

/// Calls `serde_json::to_string_pretty` on a document. The result depends on
/// the document alone, so it is the named `pretty_text` of that document.
#[verifier::external_body]
pub(crate) fn to_pretty_text(document: &serde_json::Value) -> (result: Result<String, serde_json::Error>)
    ensures
        match result {
            Ok(text) => pretty_text(*document) == Ok::<Seq<char>, serde_json::Error>(text@),
            Err(error) => pretty_text(*document) == Err::<Seq<char>, serde_json::Error>(error),
        },
{
    serde_json::to_string_pretty(document)
}

/// Calls `serde_json::from_str` for a `serde_json::Value`. The result depends
/// on the text alone, so it is the named `parsed_text` of that text.
#[verifier::external_body]
pub(crate) fn parse_text(text: &str) -> (result: Result<serde_json::Value, serde_json::Error>)
    ensures
        result == parsed_text(text@),
{
    serde_json::from_str(text)
}

/// Formats a `serde_json::Error` through its `Display` impl, which writes the
/// error's code and, where it has one, its line and column.
#[verifier::external_body]
pub(crate) fn describe_error(error: &serde_json::Error) -> (text: String)
    ensures
        text@ == error_text(*error),
{
    error.to_string()
}

/// Makes `serde_json::Value::Null`, which is what `serde_json::from_str` reads
/// the text `null` as.
#[verifier::external_body]
pub(crate) fn make_null() -> (document: serde_json::Value)
    ensures
        document == null_document(),
{
    serde_json::Value::Null
}

/// Writes a document as the text it is stored as.
pub fn to_text(document: &serde_json::Value) -> (result: Result<String, String>)
    ensures
        match result {
            Ok(text) => document_text(*document) == Ok::<Seq<char>, Seq<char>>(text@),
            Err(reason) => document_text(*document) == Err::<Seq<char>, Seq<char>>(reason@),
        },
{
    match to_pretty_text(document) {
        Ok(text) => Ok(text),
        Err(error) => Err(describe_error(&error)),
    }
}

/// Reads a stored text as the document it holds.
pub fn from_text(text: &str) -> (result: Result<serde_json::Value, String>)
    ensures
        match result {
            Ok(document) => text_document(text@) == Ok::<serde_json::Value, Seq<char>>(document),
            Err(reason) => text_document(text@) == Err::<serde_json::Value, Seq<char>>(reason@),
        },
{
    match parse_text(text) {
        Ok(document) => Ok(document),
        Err(error) => Err(describe_error(&error)),
    }
}

/// The JSON null.
pub fn null() -> (document: serde_json::Value)
    ensures
        document == null_document(),
{
    make_null()
}

} // verus!
