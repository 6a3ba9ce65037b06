//! What the library reads out of JSON, which `serde_json` parses.

use vstd::prelude::*;

verus! {

/// `serde_json::Error`, why a text is no JSON.
#[verifier::external_type_specification]
#[verifier::external_body]
pub struct ExError(serde_json::Error);

/// What a text holds under `key` in each element of its array, as
/// `serde_json` reads it: nothing where the text is no JSON; nothing inside
/// where it is JSON but no array; and otherwise for each element, in order,
/// nothing where the element is no object or has no member `key`, nothing
/// inside where the member is no boolean, and else the boolean.
pub uninterp spec fn booleans_in(text: Seq<char>, key: Seq<char>) -> Option<
    Option<Seq<Option<Option<bool>>>>,
>;

/// Parses `text` and reads the boolean under `key` out of each element of
/// its array: `serde_json::from_str` for a `Value`, then
/// `serde_json::Value::as_array`, and for each element
/// `serde_json::Value::get` and `serde_json::Value::as_bool`. The same text
/// and key always give the same result.
#[verifier::external_body]
pub(crate) fn read_booleans(text: &str, key: &str) -> (r: Result<
    Option<Vec<Option<Option<bool>>>>,
    serde_json::Error,
>)
    ensures
        booleans_in(text@, key@) == match r {
            Ok(Some(found)) => Some(Some(found@)),
            Ok(None) => Some(None),
            Err(_) => None,
        },
{
    let value: serde_json::Value = serde_json::from_str(text)?;
    Ok(
        value.as_array().map(
            |items| items.iter().map(|item| item.get(key).map(|found| found.as_bool())).collect(),
        ),
    )
}

/// The `Debug` rendering of a `serde_json::Error`, which names the fault, the
/// line and the column.
#[verifier::external_body]
pub(crate) fn error_text(error: &serde_json::Error) -> (text: String) {
    format!("{:?}", error)
}

} // verus!
