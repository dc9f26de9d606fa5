//! The surface of `serde_json` that the decoder relies on.
//!
//! An inbound event is JSON text, and what each reply field holds is a
//! function of that text alone. Each field therefore gets a name —
//! `wire_id`, `wire_success`, `wire_data_present`, `wire_error_text`,
//! `wire_error_malformed` — and the trusted readers below tie those names to
//! what `serde_json`'s parse of the text yields. The decoder's own contract
//! is then stated exactly over the names, so a well-formed event provably
//! decodes to the reply whose fields the text carries.

use crate::codec::ErrorField;
use vstd::prelude::*;

verus! {

#[verifier::external_type_specification]
#[verifier::external_body]
pub struct ExValue(serde_json::Value);

/// The `id` field of the reply encoded in `s`: an integer exactly when `s`
/// is a JSON object whose `id` is a number representable as `u64`.
pub uninterp spec fn wire_id(s: Seq<char>) -> Option<u64>;

/// The `success` field of the reply encoded in `s`: a boolean exactly when
/// `s` is a JSON object whose `success` is a JSON boolean.
pub uninterp spec fn wire_success(s: Seq<char>) -> Option<bool>;

/// Whether the reply encoded in `s` carries a `data` field that is not
/// JSON null.
pub uninterp spec fn wire_data_present(s: Seq<char>) -> bool;

/// The text of the reply's `error` field, when `s` carries a JSON string
/// there; nothing when the field is absent or null.
pub uninterp spec fn wire_error_text(s: Seq<char>) -> Option<Seq<char>>;

/// Whether the reply encoded in `s` carries an `error` field that is
/// neither null nor a string — which makes the whole event malformed.
pub uninterp spec fn wire_error_malformed(s: Seq<char>) -> bool;

/// Relies on `serde_json::from_str::<Value>` and `Value::{get, as_u64}`:
/// reads the reply's `id` field from the event text. The result is a
/// function of the text alone.
#[verifier::external_body]
pub(crate) fn wire_id_of(text: &str) -> (r: Option<u64>)
    ensures
        r == wire_id(text@),
{
    let parsed: Option<serde_json::Value> = serde_json::from_str(text).ok();
    parsed.and_then(|v| v.get("id").and_then(|x| x.as_u64()))
}

/// Relies on `serde_json::from_str::<Value>` and `Value::{get, as_bool}`:
/// reads the reply's `success` field from the event text. The result is a
/// function of the text alone.
#[verifier::external_body]
pub(crate) fn wire_success_of(text: &str) -> (r: Option<bool>)
    ensures
        r == wire_success(text@),
{
    let parsed: Option<serde_json::Value> = serde_json::from_str(text).ok();
    parsed.and_then(|v| v.get("success").and_then(|x| x.as_bool()))
}

/// Relies on `serde_json::from_str::<Value>`, `Value::{get, is_null}` and
/// the derived deep `Value::clone`: reads the reply's `data` field from the
/// event text, with JSON null standing for no value. Whether data is
/// present is a function of the text alone; the value itself is carried
/// opaquely.
#[verifier::external_body]
pub(crate) fn wire_data_of(text: &str) -> (r: Option<serde_json::Value>)
    ensures
        (r is Some) == wire_data_present(text@),
{
    let parsed: Option<serde_json::Value> = serde_json::from_str(text).ok();
    parsed.and_then(|v| match v.get("data") {
        Some(x) if !x.is_null() => Some(x.clone()),
        _ => None,
    })
}

/// Relies on `serde_json::from_str::<Value>` and `Value::get`, telling the
/// `error` field's variants apart: absent or null is no message, a string
/// is the message, any other shape marks the event malformed. The result is
/// a function of the text alone.
#[verifier::external_body]
pub(crate) fn wire_error_of(text: &str) -> (r: ErrorField)
    ensures
        (r is Malformed) == wire_error_malformed(text@),
        r matches ErrorField::Text(t) ==> wire_error_text(text@) == Some(t@),
        r is Missing ==> wire_error_text(text@) is None,
{
    let parsed: Option<serde_json::Value> = serde_json::from_str(text).ok();
    match parsed.as_ref().and_then(|v| v.get("error")) {
        None | Some(serde_json::Value::Null) => ErrorField::Missing,
        Some(serde_json::Value::String(s)) => ErrorField::Text(s.clone()),
        Some(_) => ErrorField::Malformed,
    }
}

} // verus!
