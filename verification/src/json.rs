//! The bridge's view of JSON: frames and payloads are serde_json values,
//! carried opaquely.  The protocol forwards widget data verbatim and never
//! reads inside it, so the only operations needed are parsing a frame and
//! reading its discriminator, reading a member out of it, and serializing
//! an outbound payload.

use vstd::prelude::*;

verus! {

/// serde_json's JSON value, declared so it can stand in signatures and
/// fields; the bridge treats it as opaque.
#[verifier::external_type_specification]
#[verifier::external_body]
pub struct ExValue(serde_json::Value);

/// Whether serde_json::from_str parses `s` as JSON whose top level is an
/// object.  What from_str accepts depends on the text alone.
pub uninterp spec fn parses_to_object(s: Seq<char>) -> bool;

/// The string under the `type` member of the JSON object parsed from `s`:
/// the frame's discriminator.  Nothing when the object has no such member
/// or holds a non-string under it; unconstrained on text that is not an
/// object frame.
pub uninterp spec fn disc_of(s: Seq<char>) -> Option<Seq<char>>;

/// Relies on serde_json::from_str for serde_json::Value, Value::get and
/// Value::as_str: parses one frame and reads its discriminator in one
/// step.  from_str returns Ok exactly on well-formed JSON text; the first
/// match keeps only a top-level object, the one shape the wire protocol
/// gives a frame; `type` is the protocol's discriminator member, which the
/// name `disc_of` speaks of.
#[verifier::external_body]
pub fn parse_frame(text: &str) -> (r: Option<(serde_json::Value, Option<String>)>)
    ensures
        r is Some <==> parses_to_object(text@),
        r matches Some(p) ==> match p.1 {
            Some(d) => disc_of(text@) == Some(d@),
            None => disc_of(text@) is None,
        },
{
    let v = match serde_json::from_str::<serde_json::Value>(text) {
        Ok(serde_json::Value::Object(m)) => serde_json::Value::Object(m),
        _ => return None,
    };
    let d = match v.get("type") {
        Some(f) => match f.as_str() {
            Some(s) => Some(s.to_owned()),
            None => None,
        },
        None => None,
    };
    Some((v, d))
}

/// Relies on serde_json::Value::get: the member of an object under `key`,
/// if there is one, cloned so the caller owns it.  The value is opaque
/// here, so nothing more can be said of which member that is.
#[verifier::external_body]
pub fn get_field(v: &serde_json::Value, key: &str) -> (r: Option<serde_json::Value>)
{
    v.get(key).cloned()
}

/// Relies on serde_json::to_string: the JSON text of a value.  Its
/// documentation allows failure only for a `Serialize` that fails or for a
/// map with non-string keys; a serde_json::Value has neither, so the call
/// returns text for every value, and the error arm is dead.
#[verifier::external_body]
pub fn value_to_text(v: &serde_json::Value) -> (r: Option<String>)
    ensures
        r is Some,
{
    match serde_json::to_string(v) {
        Ok(s) => Some(s),
        Err(_) => None,
    }
}

} // verus!
