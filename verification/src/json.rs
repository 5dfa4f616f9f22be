//! The JSON documents that the search backend replies with.
//!
//! Parsing and printing are serde_json's. This module declares its document
//! type and states, for each of its functions that the library calls, what
//! the call returns. Those statements are believed, not proved: they are the
//! library's trusted base. A document is described by its compact text, the
//! text that serde_json prints for it.

use vstd::prelude::*;

verus! {

/// serde_json's document type. Its inside is not visible to the proofs.
#[verifier::external_type_specification]
#[verifier::external_body]
pub struct ExValue(serde_json::Value);

/// The compact text of a document: what `serde_json::Value`'s `Display`
/// prints for it.
pub uninterp spec fn json_text(v: serde_json::Value) -> Seq<char>;

/// What `serde_json::from_str` makes of a text: the compact text of the
/// document it describes, or the message of the parse error.
pub uninterp spec fn parsed(text: Seq<char>) -> Result<Seq<char>, Seq<char>>;

/// The compact text of the member `key` of the document with compact text
/// `doc`, as indexing a `serde_json::Value` by a string gives it.
pub uninterp spec fn member_text(doc: Seq<char>, key: Seq<char>) -> Seq<char>;

/// The compact text of the element at `index` of the document with compact
/// text `doc`, as indexing a `serde_json::Value` by a number gives it.
pub uninterp spec fn element_text(doc: Seq<char>, index: nat) -> Seq<char>;

/// The number that `serde_json::Value::as_u64` reads from the document with
/// compact text `doc`, if it reads one.
pub uninterp spec fn unsigned_of(doc: Seq<char>) -> Option<u64>;

/// The JSON string literal that `serde_json::to_string` writes for a string,
/// quotes and escapes included, if it writes one.
pub uninterp spec fn quoted(s: Seq<char>) -> Option<Seq<char>>;

/// The compact text of the JSON value `null`.
pub open spec fn null_text() -> Seq<char> {
    seq!['n', 'u', 'l', 'l']
}

/// Calls `serde_json::from_str` for a `serde_json::Value`. The contract
/// claims only that the outcome is a function of the text: the document, or
/// the parse error's message (its `Display` text).
#[verifier::external_body]
pub(crate) fn parse(text: &str) -> (result: Result<serde_json::Value, String>)
    ensures
        match result {
            Ok(v) => parsed(text@) == Ok::<Seq<char>, Seq<char>>(json_text(v)),
            Err(message) => parsed(text@) == Err::<Seq<char>, Seq<char>>(message@),
        },
{
    match serde_json::from_str::<serde_json::Value>(text) {
        Ok(v) => Ok(v),
        Err(e) => Err(e.to_string()),
    }
}

/// Indexes a `serde_json::Value` by a string. serde_json returns the member
/// of that name if the value is an object that has one, and `null`
/// otherwise; it does not panic. The contract claims only that the member's
/// text is a function of the document's text and the key.
#[verifier::external_body]
pub(crate) fn member<'a>(v: &'a serde_json::Value, key: &str) -> (result: &'a serde_json::Value)
    ensures
        json_text(*result) == member_text(json_text(*v), key@),
{
    &v[key]
}

/// Indexes a `serde_json::Value` by a number. serde_json returns the element
/// at that place if the value is an array that has one, and `null`
/// otherwise; it does not panic. The contract claims only that the
/// element's text is a function of the document's text and the index.
#[verifier::external_body]
pub(crate) fn element<'a>(v: &'a serde_json::Value, index: usize) -> (result: &'a serde_json::Value)
    ensures
        json_text(*result) == element_text(json_text(*v), index as nat),
{
    &v[index]
}

/// Calls `serde_json::Value::is_null`, which is `true` for the value `null`
/// alone. `null` prints as the four letters, and no other value does: a
/// string prints in quotes, an array in brackets, an object in braces, a
/// number as digits and a boolean as `true` or `false`.
#[verifier::external_body]
pub(crate) fn is_null(v: &serde_json::Value) -> (result: bool)
    ensures
        result == (json_text(*v) == null_text()),
{
    v.is_null()
}

/// Calls `serde_json::Value::as_u64`: the number, if the value is an integer
/// that fits in a `u64`, and `None` otherwise. The contract claims only that
/// the outcome is a function of the document's text.
#[verifier::external_body]
pub(crate) fn as_unsigned(v: &serde_json::Value) -> (result: Option<u64>)
    ensures
        result == unsigned_of(json_text(*v)),
{
    v.as_u64()
}

/// Prints a `serde_json::Value` through its `Display`, which writes the
/// compact form.
#[verifier::external_body]
pub(crate) fn to_text(v: &serde_json::Value) -> (result: String)
    ensures
        result@ == json_text(*v),
{
    v.to_string()
}

/// Calls `serde_json::to_string` on a string slice, which writes the slice as
/// a JSON string literal. The contract claims only that the outcome is a
/// function of the slice, and does not claim that the call succeeds.
#[verifier::external_body]
pub(crate) fn quote(s: &str) -> (result: Option<String>)
    ensures
        match result {
            Some(literal) => quoted(s@) == Some(literal@),
            None => quoted(s@).is_none(),
        },
{
    serde_json::to_string(s).ok()
}

} // verus!
