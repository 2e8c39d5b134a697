//! Failure classification for the request pipeline.
//!
//! Every failed call surfaces as one of exactly two kinds: the request never
//! produced an interpretable body (transport), or a body arrived but did not
//! parse as the expected schema (decode).  A decode failure keeps both the
//! parse failure description and the raw body — as text when the body is
//! valid UTF-8, as the original bytes otherwise — so a caller can read an
//! exchange error object that arrived with a success status.

use vstd::prelude::*;

use vstd::utf8::decode_utf8;
use vstd::utf8::encode_utf8;
use vstd::utf8::valid_utf8;

verus! {

/// Errors that can happen during a request to the API.
#[derive(Debug)]
pub enum Error {
    /// The request failed before an interpretable body was received; carries
    /// a description of the transport-level cause.
    HttpError(String),
    /// A body was received but could not be parsed into the expected type;
    /// carries the parse failure description and the raw body, as text when
    /// it is valid UTF-8 and as the received bytes otherwise.
    JsonError(String, Result<String, Vec<u8>>),
}

/// Relies on alloc's `String::from_utf8` and `FromUtf8Error::into_bytes`:
/// conversion succeeds exactly on valid UTF-8, the returned string holds
/// exactly the given bytes, and the error returns them untouched.
#[verifier::external_body]
fn bytes_to_text(bytes: Vec<u8>) -> (r: Result<String, Vec<u8>>)
    ensures
        r is Ok <==> valid_utf8(bytes@),
        r matches Ok(text) ==> text@ == decode_utf8(bytes@),
        r matches Err(raw) ==> raw@ == bytes@,
{
    match String::from_utf8(bytes) {
        Ok(text) => Ok(text),
        Err(fault) => Err(fault.into_bytes()),
    }
}

/// Classifies a transport-level failure from a description of its cause.
pub fn http_failure(cause: String) -> (e: Error)
    ensures
        e matches Error::HttpError(c) && c@ == cause@,
{
    Error::HttpError(cause)
}

/// Classifies a body that did not parse as the expected schema.  The raw
/// body is kept unchanged: as its text when it is valid UTF-8 (the law
/// proved by [`lemma_json_failure_keeps_body`]), as the bytes otherwise.
pub fn json_failure(detail: String, body: Vec<u8>) -> (e: Error)
    ensures
        e matches Error::JsonError(d, t) && d@ == detail@ && ({
            &&& t is Ok <==> valid_utf8(body@)
            &&& (t matches Ok(text) ==> text@ == decode_utf8(body@))
            &&& (t matches Err(raw) ==> raw@ == body@)
        }),
{
    Error::JsonError(detail, bytes_to_text(body))
}

/// Law: a decode failure carries the original body unchanged — re-encoding
/// the retained text gives back exactly the received bytes.
pub proof fn lemma_json_failure_keeps_body(body: Seq<u8>, text: Seq<char>)
    requires
        valid_utf8(body),
        text == decode_utf8(body),
    ensures
        encode_utf8(text) == body,
{
    broadcast use vstd::utf8::decode_utf8_encode_utf8;

}

} // verus!
