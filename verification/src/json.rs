//! The JSON documents that the client writes by itself: flat objects whose
//! values are strings or lists of strings.
//!
//! A document is written by `serde_json`. This module names the outcome of
//! that, a text or a refusal, and hands it on; it does not say what the text
//! looks like, nor which documents are refused.

use vstd::prelude::*;

verus! {

/// `serde_json::Error`: why a document could not be written. The library
/// carries it through and never looks into it.
#[verifier::external_type_specification]
#[verifier::external_body]
pub struct ExJsonError(serde_json::Error);

/// A document could not be written as JSON.
#[derive(Clone, Copy, Debug, PartialEq, Eq, Structural)]
pub struct EncodeError;

/// The fields of a document whose values are strings, as sequences.
pub open spec fn text_fields(fields: Seq<(String, String)>) -> Seq<(Seq<char>, Seq<char>)> {
    fields.map_values(|field: (String, String)| (field.0@, field.1@))
}

/// The fields of a document whose values are lists of strings, as sequences.
pub open spec fn list_fields(fields: Seq<(String, Vec<String>)>) -> Seq<
    (Seq<char>, Seq<Seq<char>>),
> {
    fields.map_values(
        |field: (String, Vec<String>)| (field.0@, field.1@.map_values(|item: String| item@)),
    )
}

/// What comes of writing, as compact JSON, the object that holds the fields
/// `texts`, each a key and a string, and the fields `lists`, each a key and a
/// list of strings: the text of the object, or `None` if it is not written.
pub uninterp spec fn object_json(
    texts: Seq<(Seq<char>, Seq<char>)>,
    lists: Seq<(Seq<char>, Seq<Seq<char>>)>,
) -> Option<Seq<u8>>;

/// Writes a flat object with `serde_json::to_vec`.
///
/// The fields are put into a `serde_json::Map`, first those of `texts`, then
/// those of `lists`, and the map is serialised as a `serde_json::Value`.
/// Trusted: what comes back depends on the fields alone, and is what
/// [`object_json`] names for them: the bytes written, or no bytes where the
/// call fails. Nothing is claimed about which fields make it fail.
#[verifier::external_body]
fn write_object(texts: &Vec<(String, String)>, lists: &Vec<(String, Vec<String>)>) -> (r: Result<
    Vec<u8>,
    serde_json::Error,
>)
    ensures
        match r {
            Ok(bytes) => object_json(text_fields(texts@), list_fields(lists@)) == Some(bytes@),
            Err(_) => object_json(text_fields(texts@), list_fields(lists@)) is None,
        },
{
    let mut object = serde_json::Map::new();
    for (key, text) in texts {
        object.insert(key.clone(), serde_json::Value::from(text.as_str()));
    }
    for (key, items) in lists {
        object.insert(key.clone(), serde_json::Value::from(items.clone()));
    }
    serde_json::to_vec(&serde_json::Value::Object(object))
}

/// Turns the outcome of writing a document into the library's own terms: the
/// bytes as they are, or `EncodeError` whatever the cause.
pub fn written(outcome: Result<Vec<u8>, serde_json::Error>) -> (r: Result<Vec<u8>, EncodeError>)
    ensures
        match outcome {
            Ok(bytes) => r == Ok::<Vec<u8>, EncodeError>(bytes),
            Err(_) => r == Err::<Vec<u8>, EncodeError>(EncodeError),
        },
{
    match outcome {
        Ok(bytes) => Ok(bytes),
        Err(_) => Err(EncodeError),
    }
}

/// Writes the object that holds the given fields as compact JSON.
///
/// The result is what [`object_json`] names for the fields: its text, or
/// `EncodeError` where there is none. The same fields always give the same
/// result.
pub fn object(texts: &Vec<(String, String)>, lists: &Vec<(String, Vec<String>)>) -> (r: Result<
    Vec<u8>,
    EncodeError,
>)
    ensures
        match object_json(text_fields(texts@), list_fields(lists@)) {
            Some(text) => r is Ok && r->Ok_0@ == text,
            None => r == Err::<Vec<u8>, EncodeError>(EncodeError),
        },
{
    written(write_object(texts, lists))
}

} // verus!
