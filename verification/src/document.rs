//! Loading JSON and YAML documents.
//!
//! The text is parsed by `serde_json` and `serde_yaml`. What those crates
//! answer is not proved here: it is given a name, and the contracts of this
//! module say what is returned for each answer. A parsed document is handed
//! to the caller whole or not at all.

use crate::error::{
    into_load_result, load_of_parse, load_view, parse_view, Format, LoadError, LoadErrorView,
    ParseError, ParseErrorView,
};
use vstd::prelude::*;

verus! {

/// `serde_json::Value`, a parsed JSON document. Nothing inside it is visible
/// here.
#[verifier::external_type_specification]
#[verifier::external_body]
pub struct ExJsonValue(serde_json::Value);

/// `serde_json::Error`, the reason a text is not the JSON that was asked for.
#[verifier::external_type_specification]
#[verifier::external_body]
pub struct ExJsonError(serde_json::Error);

/// `serde_yaml::Value`, a parsed YAML document. Nothing inside it is visible
/// here.
#[verifier::external_type_specification]
#[verifier::external_body]
pub struct ExYamlValue(serde_yaml::Value);

/// `serde_yaml::Error`, the reason a text is not the YAML that was asked for.
#[verifier::external_type_specification]
#[verifier::external_body]
pub struct ExYamlError(serde_yaml::Error);

/// What `serde_json::from_str` answers for `text` when asked for a
/// `serde_json::Value`.
pub uninterp spec fn json_document(text: Seq<char>) -> Result<
    serde_json::Value,
    serde_json::Error,
>;

/// What `serde_json::Error` displays as.
pub uninterp spec fn json_refusal(e: serde_json::Error) -> Seq<char>;

/// What `serde_yaml::from_str` answers for `text` when asked for a
/// `serde_yaml::Value`.
pub uninterp spec fn yaml_document(text: Seq<char>) -> Result<
    serde_yaml::Value,
    serde_yaml::Error,
>;

/// What `serde_yaml::Error` displays as.
pub uninterp spec fn yaml_refusal(e: serde_yaml::Error) -> Seq<char>;

/// Calls `serde_json::from_str` for a `serde_json::Value`.
///
/// Trusted: the answer depends on the text alone.
#[verifier::external_body]
fn json_from_str(text: &str) -> (r: Result<serde_json::Value, serde_json::Error>)
    ensures
        r == json_document(text@),
{
    serde_json::from_str::<serde_json::Value>(text)
}

/// Formats a `serde_json::Error` through its `Display` impl.
///
/// Trusted: the text depends on the error alone.
#[verifier::external_body]
fn json_refusal_text(e: &serde_json::Error) -> (s: String)
    ensures
        s@ == json_refusal(*e),
{
    e.to_string()
}

/// Calls `serde_yaml::from_str` for a `serde_yaml::Value`.
///
/// Trusted: the answer depends on the text alone.
#[verifier::external_body]
fn yaml_from_str(text: &str) -> (r: Result<serde_yaml::Value, serde_yaml::Error>)
    ensures
        r == yaml_document(text@),
{
    serde_yaml::from_str::<serde_yaml::Value>(text)
}

/// Formats a `serde_yaml::Error` through its `Display` impl.
///
/// Trusted: the text depends on the error alone.
#[verifier::external_body]
fn yaml_refusal_text(e: &serde_yaml::Error) -> (s: String)
    ensures
        s@ == yaml_refusal(*e),
{
    e.to_string()
}

/// What parsing as JSON returns for an answer of the JSON parser: the value
/// as it is, or a parse error of format JSON with the parser's message.
pub open spec fn json_decoded<T>(answer: Result<T, serde_json::Error>) -> Result<
    T,
    ParseErrorView,
> {
    match answer {
        Ok(value) => Ok(value),
        Err(e) => Err(ParseErrorView { format: Format::Json, message: json_refusal(e) }),
    }
}

/// What parsing as YAML returns for an answer of the YAML parser: the value
/// as it is, or a parse error of format YAML with the parser's message.
pub open spec fn yaml_decoded<T>(answer: Result<T, serde_yaml::Error>) -> Result<
    T,
    ParseErrorView,
> {
    match answer {
        Ok(value) => Ok(value),
        Err(e) => Err(ParseErrorView { format: Format::Yaml, message: yaml_refusal(e) }),
    }
}

/// The outcome of reading a file as text, taken by view.
pub open spec fn contents_view(contents: Result<String, String>) -> Result<Seq<char>, Seq<char>> {
    match contents {
        Ok(text) => Ok(text@),
        Err(reason) => Err(reason@),
    }
}

/// What loading a JSON document returns for the outcome of reading the file
/// at `path`: an I/O failure with the reason where the read failed, else the
/// document that the parser builds from the text, or a decode failure of
/// format JSON.
pub open spec fn json_load(path: Seq<char>, contents: Result<Seq<char>, Seq<char>>) -> Result<
    serde_json::Value,
    LoadErrorView,
> {
    match contents {
        Ok(text) => load_of_parse(json_decoded(json_document(text))),
        Err(reason) => Err(LoadErrorView::IoFailure { path, reason }),
    }
}

/// What loading a YAML document returns for the outcome of reading the file
/// at `path`: an I/O failure with the reason where the read failed, else the
/// document that the parser builds from the text, or a decode failure of
/// format YAML.
pub open spec fn yaml_load(path: Seq<char>, contents: Result<Seq<char>, Seq<char>>) -> Result<
    serde_yaml::Value,
    LoadErrorView,
> {
    match contents {
        Ok(text) => load_of_parse(yaml_decoded(yaml_document(text))),
        Err(reason) => Err(LoadErrorView::IoFailure { path, reason }),
    }
}

/// Turns the JSON parser's answer into the library's result, for any target
/// type.
///
/// A value is handed on untouched; the parser's error becomes a
/// [`ParseError`] of format JSON that carries the parser's message.
pub fn decode_json<T>(answer: Result<T, serde_json::Error>) -> (r: Result<T, ParseError>)
    ensures
        parse_view(r) == json_decoded(answer),
{
    match answer {
        Ok(value) => Ok(value),
        Err(e) => Err(ParseError::new(Format::Json, json_refusal_text(&e))),
    }
}

/// Turns the YAML parser's answer into the library's result, for any target
/// type.
///
/// A value is handed on untouched; the parser's error becomes a
/// [`ParseError`] of format YAML that carries the parser's message.
pub fn decode_yaml<T>(answer: Result<T, serde_yaml::Error>) -> (r: Result<T, ParseError>)
    ensures
        parse_view(r) == yaml_decoded(answer),
{
    match answer {
        Ok(value) => Ok(value),
        Err(e) => Err(ParseError::new(Format::Yaml, yaml_refusal_text(&e))),
    }
}

/// Parses `text` as one JSON document.
///
/// Returns the document exactly as the parser built it, or, for text that
/// the parser refuses, a [`ParseError`] and no document.
pub fn parse_json(text: &str) -> (r: Result<serde_json::Value, ParseError>)
    ensures
        parse_view(r) == json_decoded(json_document(text@)),
        r is Ok <==> json_document(text@) is Ok,
{
    decode_json(json_from_str(text))
}

/// Parses `text` as one YAML document.
///
/// Returns the document exactly as the parser built it, or, for text that
/// the parser refuses, a [`ParseError`] and no document.
pub fn parse_yaml(text: &str) -> (r: Result<serde_yaml::Value, ParseError>)
    ensures
        parse_view(r) == yaml_decoded(yaml_document(text@)),
        r is Ok <==> yaml_document(text@) is Ok,
{
    decode_yaml(yaml_from_str(text))
}

/// Loads the JSON document of the file at `path`.
///
/// `contents` is the outcome of reading that file as text: the text, or the
/// reason the read failed. A failed read gives [`LoadError::IoFailure`] with
/// the path and the reason. Text that is not JSON gives
/// [`LoadError::DecodeFailure`] with format JSON and the parser's message.
/// Otherwise the parsed document is returned as the parser built it.
pub fn read_json_file(
    path: &str,
    contents: Result<String, String>,
) -> (r: Result<serde_json::Value, LoadError>)
    ensures
        load_view(r) == json_load(path@, contents_view(contents)),
        r is Ok <==> contents is Ok && json_document(contents->Ok_0@) is Ok,
{
    match contents {
        Ok(text) => into_load_result(parse_json(text.as_str())),
        Err(reason) => Err(LoadError::io_failure(path, reason)),
    }
}

/// Loads the YAML document of the file at `path`.
///
/// `contents` is the outcome of reading that file as text: the text, or the
/// reason the read failed. A failed read gives [`LoadError::IoFailure`] with
/// the path and the reason. Text that is not YAML gives
/// [`LoadError::DecodeFailure`] with format YAML and the parser's message.
/// Otherwise the parsed document is returned as the parser built it.
pub fn read_yaml_file(
    path: &str,
    contents: Result<String, String>,
) -> (r: Result<serde_yaml::Value, LoadError>)
    ensures
        load_view(r) == yaml_load(path@, contents_view(contents)),
        r is Ok <==> contents is Ok && yaml_document(contents->Ok_0@) is Ok,
{
    match contents {
        Ok(text) => into_load_result(parse_yaml(text.as_str())),
        Err(reason) => Err(LoadError::io_failure(path, reason)),
    }
}

} // verus!
