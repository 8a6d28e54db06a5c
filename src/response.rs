//! Turning what the server sent into a resource value.
use vstd::prelude::*;
use crate::session::ResourceError;

verus! {

/// The text that the bytes `b` encode as UTF-8, where they are valid UTF-8.
pub uninterp spec fn utf8_text(b: Seq<u8>) -> Option<Seq<char>>;

/// Relies on `String::from_utf8`: it accepts exactly the byte strings that
/// are valid UTF-8 and then holds the text they encode.
#[verifier::external_body]
fn utf8_decode(bytes: Vec<u8>) -> (r: Result<String, String>)
    ensures
        r is Ok <==> utf8_text(bytes@) is Some,
        r is Ok ==> utf8_text(bytes@) == Some(r->Ok_0@),
{
    match String::from_utf8(bytes) {
        Ok(s) => Ok(s),
        Err(e) => Err(e.to_string()),
    }
}

/// The value of a text resource from the response to its request: a failed
/// request is a transport error, bytes that are not UTF-8 a decode error.
pub fn decode_text(response: Result<Vec<u8>, String>) -> (r: Result<String, ResourceError>)
    ensures
        response is Err ==> r == Err::<String, ResourceError>(
            ResourceError::Transport(response->Err_0),
        ),
        response is Ok ==> match utf8_text(response->Ok_0@) {
            Some(t) => r is Ok && r->Ok_0@ == t,
            None => r is Err && r->Err_0 is Decode,
        },
{
    match response {
        Err(m) => Err(ResourceError::Transport(m)),
        Ok(bytes) => match utf8_decode(bytes) {
            Ok(t) => Ok(t),
            Err(m) => Err(ResourceError::Decode(m)),
        },
    }
}

} // verus!
