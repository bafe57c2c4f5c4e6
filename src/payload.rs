use vstd::prelude::*;
use vstd::string::StringExecFns;

use crate::message::Message;

verus! {

/// serde_json's error type, carried through opaquely.
#[verifier::external_type_specification]
#[verifier::external_body]
pub struct ExJsonError(serde_json::Error);

/// The JSON string literal that serde_json writes for a text: quotes around it,
/// with quotes, backslashes and control characters escaped.
pub uninterp spec fn json_string_of(s: Seq<char>) -> Seq<char>;

/// The broker payload of a message whose field `data` is written as the JSON
/// string literal `quoted`: a JSON object with that single field.
pub open spec fn framed(quoted: Seq<char>) -> Seq<char> {
    "{\"data\":"@ + quoted + "}"@
}

/// The broker payload of a message with text `data`.
pub open spec fn payload_of(data: Seq<char>) -> Seq<char> {
    framed(json_string_of(data))
}

/// Relies on serde_json::to_string on a `str`: it writes the text as one JSON
/// string literal into a `Vec<u8>`. Writing into a `Vec` cannot fail, so the
/// result is always `Ok`.
#[verifier::external_body]
fn json_quote(s: &str) -> (r: Result<String, serde_json::Error>)
    ensures
        r is Ok,
        r matches Ok(t) ==> t@ == json_string_of(s@),
{
    serde_json::to_string(s)
}

/// Wraps a JSON string literal `quoted` as the object `{"data":<quoted>}`.
pub fn frame_payload(quoted: &str) -> (r: String)
    ensures
        r@ == framed(quoted@),
{
    proof {
        reveal_strlit("{\"data\":");
        reveal_strlit("}");
    }
    let mut r = String::from_str("{\"data\":");
    r.append(quoted);
    r.append("}");
    r
}

/// The payload that the broker receives for `m`: `m` written as a JSON object.
pub fn encode_message(m: &Message) -> (r: String)
    ensures
        r@ == payload_of(m.data@),
{
    match json_quote(m.data.as_str()) {
        Ok(quoted) => frame_payload(quoted.as_str()),
        Err(_) => vstd::pervasive::unreached(),
    }
}

} // verus!
