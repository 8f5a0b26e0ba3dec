//! What the library takes from `serde_json`: reading one value from text,
//! and writing an object of two string members as text. Nothing here is
//! proved; the contracts say what the crate's source shows.
use vstd::prelude::*;

verus! {

/// `serde_json::Value`: any JSON value. The library hands such values on
/// and never looks inside one.
#[verifier::external_type_specification]
#[verifier::external_body]
pub struct ExValue(serde_json::Value);

/// `serde_json::Error`: why a text could not be read.
#[verifier::external_type_specification]
#[verifier::external_body]
pub struct ExError(serde_json::Error);

/// The value that `serde_json::from_str` reads from `text`, or nothing where
/// it refuses `text`.
pub uninterp spec fn parsed(text: Seq<char>) -> Option<serde_json::Value>;

/// The text that `serde_json` writes for the object whose members are put in
/// with `first_key` and then `second_key`, both with a string as value.
pub uninterp spec fn object_text(
    first_key: Seq<char>,
    first: Seq<char>,
    second_key: Seq<char>,
    second: Seq<char>,
) -> Seq<char>;

/// `serde_json::from_str::<serde_json::Value>`. The call reads the whole of
/// `text` as one JSON value and returns an error where `text` is anything
/// else. What it returns depends on `text` alone.
#[verifier::external_body]
pub(crate) fn parse(text: &str) -> (outcome: Result<serde_json::Value, serde_json::Error>)
    ensures
        match outcome {
            Ok(value) => parsed(text@) == Some(value),
            Err(_) => parsed(text@) is None,
        },
{
    serde_json::from_str::<serde_json::Value>(text)
}

/// `serde_json::Map::insert`, once for each member, and `to_string` of the
/// `serde_json::Value::Object` that holds the map. The text is in the compact
/// form, depends on the four strings alone, and holds no line feed: inside a
/// string `serde_json` writes one as a backslash and the letter n.
#[verifier::external_body]
pub(crate) fn write_object(first_key: &str, first: &str, second_key: &str, second: &str) -> (text:
    String)
    ensures
        text@ == object_text(first_key@, first@, second_key@, second@),
        !text@.contains('\n'),
{
    let mut members = serde_json::Map::new();
    members.insert(first_key.to_owned(), serde_json::Value::String(first.to_owned()));
    members.insert(second_key.to_owned(), serde_json::Value::String(second.to_owned()));
    serde_json::Value::Object(members).to_string()
}

} // verus!
