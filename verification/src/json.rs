//! The structured JSON value that schemas and instances are expressed in.
//!
//! The engine treats a document as opaque: everything it needs to read out of
//! one (the declared schema identifier) or to obtain one (parsing text or
//! bytes) goes through the trusted items below.

use vstd::prelude::*;

verus! {

/// Relies on serde_json::Value being the structured JSON representation;
/// declared so that documents can stand in signatures and fields.
#[verifier::external_type_specification]
#[verifier::external_body]
pub struct ExValue(serde_json::Value);

/// The member of the document under the given name, if the document is an
/// object that has one; a function of document and name alone.
pub uninterp spec fn member_of(v: serde_json::Value, name: Seq<char>) -> Option<serde_json::Value>;

/// Relies on serde_json::Value::get: the member of an object under the
/// given name, absent for other documents and missing names.
#[verifier::external_body]
fn value_member<'a>(v: &'a serde_json::Value, name: &str) -> (r: Option<&'a serde_json::Value>)
    ensures
        r matches Some(m) ==> member_of(*v, name@) == Some(*m),
        r is Some <==> member_of(*v, name@) is Some,
{
    v.get(name)
}

/// The character content of the document, if it is a JSON string; a
/// function of the document alone.
pub uninterp spec fn text_of(v: serde_json::Value) -> Option<Seq<char>>;

/// Relies on serde_json::Value::as_str: the content of a JSON string,
/// absent for every other kind of document.
#[verifier::external_body]
fn value_text(v: &serde_json::Value) -> (r: Option<String>)
    ensures
        r matches Some(s) ==> text_of(*v) == Some(s@),
        r is Some <==> text_of(*v) is Some,
{
    v.as_str().map(|s| s.to_string())
}

/// What a schema document declares as its own identifier: the `"$id"`
/// member, falling back to the legacy `"id"` member.
pub enum IdField {
    /// Neither `"$id"` nor `"id"` is present.
    Missing,
    /// The declared identifier, a JSON string.
    Text(String),
    /// A declared identifier field exists but is not a string.
    NotText,
}

/// The mathematical content of the declared identifier field.
pub enum IdFieldModel {
    Missing,
    Text(Seq<char>),
    NotText,
}

/// The declared identifier of a document: the `"$id"` member when present,
/// the legacy `"id"` member otherwise; text exactly when that member is a
/// JSON string.
pub open spec fn declared_id(v: serde_json::Value) -> IdFieldModel {
    match member_of(v, "$id"@) {
        Option::Some(f) => id_field_content(f),
        Option::None => match member_of(v, "id"@) {
            Option::Some(f) => id_field_content(f),
            Option::None => IdFieldModel::Missing,
        },
    }
}

/// How one identifier member reads: its text when it is a string, and the
/// not-a-string marker otherwise.
pub open spec fn id_field_content(f: serde_json::Value) -> IdFieldModel {
    match text_of(f) {
        Option::Some(s) => IdFieldModel::Text(s),
        Option::None => IdFieldModel::NotText,
    }
}

/// Read the declared identifier of a schema document, `"$id"` before the
/// legacy `"id"`.
pub fn schema_id_field(v: &serde_json::Value) -> (r: IdField)
    ensures
        match r {
            IdField::Missing => declared_id(*v) is Missing,
            IdField::Text(s) => declared_id(*v) == IdFieldModel::Text(s@),
            IdField::NotText => declared_id(*v) is NotText,
        },
{
    let field = match value_member(v, "$id") {
        Some(f) => Some(f),
        None => value_member(v, "id"),
    };
    match field {
        None => IdField::Missing,
        Some(f) => match value_text(f) {
            Some(s) => IdField::Text(s),
            None => IdField::NotText,
        },
    }
}

/// Relies on serde_json::Value::clone: a deep copy equal to the original.
#[verifier::external_body]
pub fn value_clone(v: &serde_json::Value) -> (r: serde_json::Value)
    ensures
        r == *v,
{
    v.clone()
}

/// The document that a piece of JSON text parses to, if any; a function of
/// the text alone.
pub uninterp spec fn parsed_text_document(s: Seq<char>) -> Option<serde_json::Value>;

/// Relies on serde_json::from_str: parsing is a function of the input text,
/// and it fails exactly on text that is not valid JSON.
#[verifier::external_body]
pub fn parse_text(s: &str) -> (r: Result<serde_json::Value, String>)
    ensures
        r matches Ok(v) ==> parsed_text_document(s@) == Some(v),
        r is Ok <==> parsed_text_document(s@) is Some,
{
    serde_json::from_str(s).map_err(|e| e.to_string())
}

/// The document that a byte buffer parses to, if any; a function of the
/// bytes alone.
pub uninterp spec fn parsed_bytes_document(b: Seq<u8>) -> Option<serde_json::Value>;

/// Relies on simd_json::serde::from_slice: parsing is a function of the
/// input bytes, and it fails exactly on bytes that are not valid JSON.
/// The parser works in place, so the buffer is taken by value.
#[verifier::external_body]
pub fn parse_bytes(b: Vec<u8>) -> (r: Result<serde_json::Value, String>)
    ensures
        r matches Ok(v) ==> parsed_bytes_document(b@) == Some(v),
        r is Ok <==> parsed_bytes_document(b@) is Some,
{
    let mut scratch = b;
    simd_json::serde::from_slice(&mut scratch).map_err(|e| e.to_string())
}

} // verus!
