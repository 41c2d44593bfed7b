//! The few places where the hub relies on code that is not verified here:
//! UUID parsing and generation, the wall clock, and JSON payload values.
//! Each item says what is taken on trust.

use std::str::FromStr;
use vstd::prelude::*;

verus! {

/// `serde_json::Value`: an arbitrary JSON document. The hub carries such
/// payloads through without looking inside.
#[verifier::external_type_specification]
#[verifier::external_body]
pub struct ExJsonValue(serde_json::Value);

/// What `uuid::Uuid::from_str` makes of a text: the 128-bit identifier that
/// it reads, or the words in which it refuses the text.
pub uninterp spec fn uuid_parse(text: Seq<char>) -> Result<u128, Seq<char>>;

/// The identifier that a text writes, if it writes one.
pub open spec fn uuid_value(text: Seq<char>) -> Option<u128> {
    match uuid_parse(text) {
        Ok(id) => Some(id),
        Err(_) => None,
    }
}

/// Calls `uuid::Uuid::from_str` and hands back the identifier as a number,
/// or the parser's complaint as text. Nothing is proved of the parser: the
/// contract only names its result.
#[verifier::external_body]
pub(crate) fn parse_uuid(value: &str) -> (parsed: Result<u128, String>)
    ensures
        match parsed {
            Ok(id) => uuid_parse(value@) == Ok::<u128, Seq<char>>(id),
            Err(complaint) => uuid_parse(value@) == Err::<u128, Seq<char>>(complaint@),
        },
{
    match uuid::Uuid::from_str(value) {
        Ok(id) => Ok(id.as_u128()),
        Err(complaint) => Err(complaint.to_string()),
    }
}

/// Calls `uuid::Uuid::new_v4` and writes the identifier out in its usual
/// hyphenated form. The identifier is random; the contract claims only that
/// the text is one that `uuid::Uuid::from_str` accepts.
#[verifier::external_body]
pub(crate) fn fresh_uuid_text() -> (id: String)
    ensures
        uuid_value(id@) is Some,
{
    uuid::Uuid::new_v4().to_string()
}

/// Calls `chrono::Local::now` and gives the moment twice over: as seconds
/// since the Unix epoch, and as date and time written out as text. Nothing
/// is claimed of either.
#[verifier::external_body]
pub(crate) fn local_now() -> (moment: (i64, String)) {
    let now = chrono::Local::now();
    (now.timestamp(), now.to_string())
}

/// Calls `serde_json::Value::clone`. The copy is taken to be the same
/// document as the one it was made from.
#[verifier::external_body]
pub(crate) fn clone_json(value: &serde_json::Value) -> (copy: serde_json::Value)
    ensures
        copy == *value,
{
    value.clone()
}

} // verus!
