//! The payloads of terminal events.

use crate::json::{self, compact, object, put_text, Json};
use serde_json::{Map as Object, Value};
use vstd::prelude::*;

verus! {

/// The fields that every failure has: its kind and a message.
pub open spec fn failure(kind: Seq<char>, message: Seq<char>) -> Map<Seq<char>, Json> {
    map!["kind"@ => Json::Text(kind), "message"@ => Json::Text(message)]
}

/// An object with the fields that every failure has.
pub(crate) fn failure_object(kind: &str, message: &str) -> (r: Object<String, Value>)
    ensures
        json::fields(r) == failure(kind@, message@),
{
    let mut m = object();
    put_text(&mut m, "kind", kind);
    put_text(&mut m, "message", message);
    assert(json::fields(m) =~= failure(kind@, message@));
    m
}

/// The payload of a failure without further fields.
pub fn failure_payload(kind: &str, message: &str) -> (r: String)
    ensures
        r@ == json::compact_text(failure(kind@, message@)),
{
    let m = failure_object(kind, message);
    compact(m)
}

/// A failure says what kind it is and why, and nothing more.
pub proof fn law_failures_say_kind_and_message(kind: Seq<char>, message: Seq<char>)
    ensures
        failure(kind, message).dom() =~= set!["kind"@, "message"@],
        failure(kind, message)["kind"@] == Json::Text(kind),
        failure(kind, message)["message"@] == Json::Text(message),
{
    reveal_strlit("kind");
    reveal_strlit("message");
    assert("kind"@.len() == 4 && "message"@.len() == 7);
}

} // verus!
