//! Reading the answers of the platforms.
use vstd::prelude::*;

verus! {

/// The text that a JSON document holds under a key of its top-level object,
/// as `serde_json` reads it: nothing where the bytes are no JSON document,
/// where the document is no object, where the object has no such key, or
/// where what stands under the key is no string.
pub uninterp spec fn json_text(body: Seq<u8>, key: Seq<char>) -> Option<Seq<char>>;

/// The text under `key` in the JSON document `body`.
///
/// Trusted. The body reads the bytes with `serde_json::from_slice` into a
/// `serde_json::Value` and looks the key up with `Value::get`. The contract
/// claims only that what comes out depends on the bytes and the key alone,
/// and calls it [`json_text`].
#[verifier::external_body]
pub(crate) fn text_field(body: &Vec<u8>, key: &str) -> (text: Option<String>)
    ensures
        match text {
            Some(found) => json_text(body@, key@) == Some(found@),
            None => json_text(body@, key@) is None,
        },
{
    match serde_json::from_slice::<serde_json::Value>(body.as_slice()) {
        Ok(document) => match document.get(key) {
            Some(serde_json::Value::String(found)) => Some(found.clone()),
            _ => None,
        },
        Err(_) => None,
    }
}

} // verus!
