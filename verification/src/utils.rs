use crate::text::{lowercase, to_lowercase, underscore_spaces, underscored};
use vstd::prelude::*;

verus! {

#[verifier::external_type_specification]
#[verifier::external_body]
pub struct ExJsonError(serde_json::Error);

/// Why a text could not be read out of an answer.
#[derive(Clone, Copy, Debug, PartialEq, Eq, Structural)]
pub enum FieldError {
    /// The answer is not JSON.
    NotJson,
    /// The answer is JSON, but holds no text at the place in question.
    NoText,
}

/// The text under `key` in the JSON object `body`: an error where `body`
/// is not JSON at all, nothing where it is not an object, has no such key,
/// or holds something other than a text there.
pub uninterp spec fn json_text(body: Seq<char>, key: Seq<char>) -> Result<Option<Seq<char>>, ()>;

/// The text under `key` in the first item of the JSON array `body`: an
/// error where `body` is not JSON at all, nothing where it is not an array,
/// is empty, or its first item holds no text under that key.
pub uninterp spec fn json_first_text(body: Seq<char>, key: Seq<char>) -> Result<
    Option<Seq<char>>,
    (),
>;

/// What an optional text stands for.
pub open spec fn found_view(found: Option<String>) -> Option<Seq<char>> {
    match found {
        Some(text) => Some(text@),
        None => None,
    }
}

/// `serde_json::from_str` into a `Value`, then the value's index by `key`
/// and `Value::as_str` on what stands there. The index gives `Null`, and
/// `as_str` nothing, wherever the text is not to be had.
#[verifier::external_body]
fn read_json_text(body: &str, key: &str) -> (res: Result<Option<String>, serde_json::Error>)
    ensures
        match res {
            Ok(found) => json_text(body@, key@) == Ok::<Option<Seq<char>>, ()>(found_view(found)),
            Err(_) => json_text(body@, key@) is Err,
        },
{
    let value: serde_json::Value = serde_json::from_str(body)?;
    Ok(value[key].as_str().map(str::to_owned))
}

/// `serde_json::from_str` into a `Value`, then the value's index by zero,
/// that item's index by `key`, and `Value::as_str` on what stands there.
#[verifier::external_body]
fn read_json_first_text(body: &str, key: &str) -> (res: Result<Option<String>, serde_json::Error>)
    ensures
        match res {
            Ok(found) => json_first_text(body@, key@) == Ok::<Option<Seq<char>>, ()>(
                found_view(found),
            ),
            Err(_) => json_first_text(body@, key@) is Err,
        },
{
    let value: serde_json::Value = serde_json::from_str(body)?;
    Ok(value[0][key].as_str().map(str::to_owned))
}

/// What is made of a text that was looked for in an answer.
pub open spec fn field_result(found: Result<Option<Seq<char>>, ()>) -> Result<
    Seq<char>,
    FieldError,
> {
    match found {
        Ok(Some(text)) => Ok(text),
        Ok(None) => Err(FieldError::NoText),
        Err(_) => Err(FieldError::NotJson),
    }
}

/// What a text or the lack of it stands for.
pub open spec fn field_view(res: Result<String, FieldError>) -> Result<Seq<char>, FieldError> {
    match res {
        Ok(text) => Ok(text@),
        Err(e) => Err(e),
    }
}

fn settle_field(found: Result<Option<String>, serde_json::Error>) -> (res: Result<
    String,
    FieldError,
>)
    ensures
        match found {
            Ok(Some(text)) => res == Ok::<String, FieldError>(text),
            Ok(None) => res == Err::<String, FieldError>(FieldError::NoText),
            Err(_) => res == Err::<String, FieldError>(FieldError::NotJson),
        },
{
    match found {
        Ok(Some(text)) => Ok(text),
        Ok(None) => Err(FieldError::NoText),
        Err(_) => Err(FieldError::NotJson),
    }
}

/// The text under `key` in the JSON object `body`.
pub fn text_field(body: &str, key: &str) -> (res: Result<String, FieldError>)
    ensures
        field_view(res) == field_result(json_text(body@, key@)),
{
    settle_field(read_json_text(body, key))
}

/// The text under `key` in the first item of the JSON array `body`.
pub fn first_text_field(body: &str, key: &str) -> (res: Result<String, FieldError>)
    ensures
        field_view(res) == field_result(json_first_text(body@, key@)),
{
    settle_field(read_json_first_text(body, key))
}

/// Where a picture for `action` is asked for: the action's name goes into
/// the address in lower case, with underscores for its spaces.
pub open spec fn action_image_address(action: Seq<char>) -> Seq<char> {
    "https://api.otakugifs.xyz/gif?reaction="@ + underscored(lowercase(action))
}

/// Where a picture for `action` is asked for.
pub fn action_image_request(action: &str) -> (address: String)
    ensures
        address@ == action_image_address(action@),
{
    let lowered = to_lowercase(action);
    let name = underscore_spaces(lowered.as_str());
    let mut address = String::from_str("https://api.otakugifs.xyz/gif?reaction=");
    address.append(name.as_str());
    address
}

/// The address of the picture in the answer `body` to a request for one.
pub fn get_random_action_image(body: &str) -> (res: Result<String, FieldError>)
    ensures
        field_view(res) == field_result(json_text(body@, "url"@)),
{
    text_field(body, "url")
}

} // verus!
