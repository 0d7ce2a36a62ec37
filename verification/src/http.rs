//! Requests and answers as the platforms' modules see them.
use vstd::prelude::*;
use vstd::string::StringExecFns;
use crate::error::PlatformError;
use crate::json::{json_text, text_field};

verus! {

/// A request to a platform: where it goes, the token it is authorized with
/// and what it carries.
#[derive(Debug, PartialEq, Eq)]
pub struct Request<P> {
    pub url: &'static str,
    pub token: String,
    pub payload: P,
}

/// The answer of a platform.
#[derive(Debug, PartialEq, Eq)]
pub struct Response {
    pub status: u16,
    pub body: Vec<u8>,
}

/// What came of a request: the answer, or why none arrived.
pub type Reply = Result<Response, String>;

/// Whether a status stands for success.
pub open spec fn is_success(status: u16) -> bool {
    200 <= status < 300
}

/// The body of an answer that arrived with a status of success; otherwise
/// why there is none.
pub open spec fn accepted(reply: Reply) -> Result<Vec<u8>, PlatformError> {
    match reply {
        Err(why) => Err(PlatformError::Transport(why)),
        Ok(response) => if is_success(response.status) {
            Ok(response.body)
        } else {
            Err(PlatformError::Status(response.status))
        },
    }
}

/// Whether `read` is what reading the text under `key` makes of `found`:
/// the text where there is one, and otherwise a failure that names the
/// key.
pub open spec fn decoded_as(
    found: Option<Seq<char>>,
    key: Seq<char>,
    read: Result<String, PlatformError>,
) -> bool {
    match found {
        Some(text) => read matches Ok(got) && got@ == text,
        None => read matches Err(PlatformError::Decode(missing)) && missing@ == key,
    }
}

/// Whether `read` is what reading the text under `key` makes of a reply:
/// the failure of a reply that did not arrive or did not succeed, and
/// otherwise what the body holds under the key.
pub open spec fn read_as(reply: Reply, key: Seq<char>, read: Result<String, PlatformError>) -> bool {
    match accepted(reply) {
        Err(cause) => read == Err::<String, PlatformError>(cause),
        Ok(body) => decoded_as(json_text(body@, key), key, read),
    }
}

/// Whether a status stands for success.
pub fn status_is_success(status: u16) -> (success: bool)
    ensures
        success == is_success(status),
{
    200 <= status && status < 300
}

/// The body of an answer that arrived with a status of success.
pub fn accept(reply: Reply) -> (body: Result<Vec<u8>, PlatformError>)
    ensures
        body == accepted(reply),
{
    match reply {
        Err(why) => Err(PlatformError::Transport(why)),
        Ok(response) => {
            if status_is_success(response.status) {
                Ok(response.body)
            } else {
                Err(PlatformError::Status(response.status))
            }
        },
    }
}

/// What reading the text under `key` came to, given what was found there.
pub fn decoded(found: Option<String>, key: &str) -> (read: Result<String, PlatformError>)
    ensures
        match found {
            Some(text) => read == Ok::<String, PlatformError>(text),
            None => read matches Err(PlatformError::Decode(missing)) && missing@ == key@,
        },
{
    match found {
        Some(text) => Ok(text),
        None => Err(PlatformError::Decode(String::from_str(key))),
    }
}

/// Reads the text under `key` in a body.
pub fn body_text(body: &Vec<u8>, key: &str) -> (read: Result<String, PlatformError>)
    ensures
        decoded_as(json_text(body@, key@), key@, read),
{
    decoded(text_field(body, key), key)
}

/// Reads the text under `key` in the body of a reply, if the reply arrived
/// and succeeded.
pub fn read_text(reply: Reply, key: &str) -> (read: Result<String, PlatformError>)
    ensures
        read_as(reply, key@, read),
{
    match accept(reply) {
        Err(cause) => Err(cause),
        Ok(body) => body_text(&body, key),
    }
}

} // verus!
