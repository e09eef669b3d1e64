//! Error taxonomy of the library, and the best-effort extraction of a
//! human-readable message from a failed response body.

use vstd::prelude::*;
use crate::auth::AuthLevel;

verus! {

/// Every failure the library reports. All failures are values; nothing
/// aborts the process.
#[derive(Debug, Clone)]
pub enum DiscogsError {
    /// The admission check failed: the operation demands `required` but the
    /// client's credential only grants `current`. No network call was made.
    AuthRequired { required: AuthLevel, current: AuthLevel },
    /// A terminal non-success response, with its status code and a
    /// best-effort message extracted from the body.
    Http { status: u16, message: String },
    /// An underlying transport failure, described in prose.
    Request(String),
    /// A response body that does not match the expected payload shape.
    Json(String),
    /// A token-exchange response that lacks a required field; carries the
    /// raw response text for diagnosis.
    InvalidOAuthResponse(String),
}

/// Whether a string is well-formed JSON, as serde_json's parser decides it.
pub uninterp spec fn spec_json_parses(s: Seq<char>) -> bool;

/// The top-level `message` field of a JSON body, when the body parses and
/// carries one holding a string; nothing otherwise. A function of the body
/// string alone, as serde_json computes it.
pub uninterp spec fn spec_json_message(s: Seq<char>) -> Option<Seq<char>>;

/// The compact re-rendering of a JSON body, as serde_json's `Display` for
/// its parsed value writes it. A function of the body string alone.
pub uninterp spec fn spec_json_rendered(s: Seq<char>) -> Seq<char>;

/// Relies on serde_json's `from_str::<Value>`: whether a string parses as
/// JSON is a function of the string alone.
#[verifier::external_body]
fn json_parses(s: &str) -> (r: bool)
    ensures
        r == spec_json_parses(s@),
{
    serde_json::from_str::<serde_json::Value>(s).is_ok()
}

/// Relies on serde_json's `from_str::<Value>`, `Value::get` and
/// `Value::as_str`: the body's top-level `message` field when the body is a
/// JSON object carrying one as a string, and nothing otherwise (the body is
/// no JSON, no object, lacks the key, or holds a non-string there); a
/// function of the body string alone.
#[verifier::external_body]
fn json_message_of(body: &str) -> (r: Option<String>)
    ensures
        r is Some <==> spec_json_message(body@) is Some,
        r is Some ==> r->0@ == spec_json_message(body@)->0,
{
    match serde_json::from_str::<serde_json::Value>(body) {
        Ok(v) => v.get("message").and_then(|m| m.as_str()).map(|s| s.to_owned()),
        Err(_) => None,
    }
}

/// Relies on serde_json's `from_str::<Value>` and `Display` for `Value`:
/// the compact re-rendering of a JSON body (and an empty string where the
/// body is no JSON, which no caller relies on); a function of the body
/// string alone.
#[verifier::external_body]
fn json_rendered_of(body: &str) -> (r: String)
    ensures
        r@ == spec_json_rendered(body@),
{
    match serde_json::from_str::<serde_json::Value>(body) {
        Ok(v) => v.to_string(),
        Err(_) => String::new(),
    }
}

/// The message chosen for a failed response, given what the JSON parse of
/// its body yielded: the body's `message` field when the body is JSON and
/// has one as a string, the whole rendered body when it is JSON without
/// one, and a fixed fallback when it is not JSON at all.
pub fn error_message(parsed: bool, message_field: Option<String>, rendered: String) -> (r: String)
    ensures
        !parsed ==> r@ == "unknown error"@,
        parsed && message_field is Some ==> r@ == message_field->0@,
        parsed && message_field is None ==> r@ == rendered@,
{
    if !parsed {
        String::from_str("unknown error")
    } else {
        match message_field {
            Some(m) => m,
            _ => rendered,
        }
    }
}

/// Classifies a terminal non-success response into an `Http` error carrying
/// its status and the message chosen for its body: the body's `message`
/// field when it is JSON and has one as a string, the whole re-rendered
/// body when it is JSON without one, and a fixed fallback when it is not
/// JSON at all.
pub fn http_error(status: u16, body: &str) -> (e: DiscogsError)
    ensures
        e matches (DiscogsError::Http { status: st, message: msg }) && st == status && (
        !spec_json_parses(body@) ==> msg@ == "unknown error"@) && (spec_json_parses(body@)
            && spec_json_message(body@) is Some ==> msg@ == spec_json_message(body@)->0) && (
        spec_json_parses(body@) && spec_json_message(body@) is None ==> msg@
            == spec_json_rendered(body@)),
{
    if json_parses(body) {
        let message_field = json_message_of(body);
        let rendered = json_rendered_of(body);
        let message = error_message(true, message_field, rendered);
        DiscogsError::Http { status, message }
    } else {
        let message = error_message(false, Option::<String>::None, String::new());
        DiscogsError::Http { status, message }
    }
}

} // verus!
