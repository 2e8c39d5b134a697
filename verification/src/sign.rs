//! Request signing for the private API.
//!
//! A private request is authenticated by an HMAC-SHA256 tag over the byte
//! string `timestamp ‖ method ‖ path ‖ body`, keyed with the base64-decoded
//! account secret, and sent base64-encoded in the `cb-access-sign` header.
//! [`signature`] builds that tag; [`signature_chars`] is its exact
//! specification, up to the named results of the outside HMAC and base64
//! routines.

use vstd::prelude::*;

use crate::digits::dec_chars;
use crate::digits::u64_to_string;

verus! {

/// The HMAC-SHA256 authentication tag of `message` under `key`.
pub uninterp spec fn hmac_sha256_of(key: Seq<u8>, message: Seq<u8>) -> Seq<u8>;

/// The standard (padded) base64 rendering of `bytes`.
pub uninterp spec fn base64_chars(bytes: Seq<u8>) -> Seq<char>;

/// The bytes that standard base64 `text` denotes, or `None` when `text` is
/// not valid base64.
pub uninterp spec fn base64_decoded(text: Seq<char>) -> Option<Seq<u8>>;

/// Relies on hmac's `Hmac<Sha256>` (`new_from_slice`, `update`, `finalize`):
/// the tag is a function of key and message alone and is 32 bytes long;
/// HMAC accepts keys of any length.
#[verifier::external_body]
pub(crate) fn hmac_sha256(key: &Vec<u8>, message: &Vec<u8>) -> (r: Vec<u8>)
    ensures
        r@ == hmac_sha256_of(key@, message@),
        r@.len() == 32,
{
    let mut mac: hmac::Hmac<sha2::Sha256> = <hmac::Hmac<sha2::Sha256> as hmac::KeyInit>::new_from_slice(
        key.as_slice(),
    ).expect("HMAC accepts keys of any length");
    hmac::Mac::update(&mut mac, message.as_slice());
    hmac::Mac::finalize(mac).into_bytes().to_vec()
}

/// Relies on base64's `STANDARD` engine `encode`: the text is a function of
/// the input bytes alone.
#[verifier::external_body]
pub(crate) fn base64_encode(data: &Vec<u8>) -> (r: String)
    ensures
        r@ == base64_chars(data@),
{
    base64::engine::Engine::encode(&base64::engine::general_purpose::STANDARD, data.as_slice())
}

/// Relies on base64's `STANDARD` engine `decode`: it returns bytes exactly
/// when the text is valid standard base64, and they are a function of the
/// text alone.
#[verifier::external_body]
pub(crate) fn base64_decode(text: &str) -> (r: Option<Vec<u8>>)
    ensures
        r is Some <==> base64_decoded(text@) is Some,
        r matches Some(v) ==> base64_decoded(text@) == Some(v@),
{
    match base64::engine::Engine::decode(&base64::engine::general_purpose::STANDARD, text.as_bytes()) {
        Ok(v) => Some(v),
        Err(_) => None,
    }
}

/// The text that is signed: the decimal timestamp, then the method, the
/// path+query, and the body, with nothing in between.
pub open spec fn message_chars(
    timestamp: u64,
    method: Seq<char>,
    path: Seq<char>,
    body: Seq<char>,
) -> Seq<char> {
    dec_chars(timestamp as nat) + method + path + body
}

/// The `cb-access-sign` value for a request: the base64 rendering of the
/// HMAC-SHA256 tag of the UTF-8 bytes of the signed text under `key`.
pub open spec fn signature_chars(
    key: Seq<u8>,
    timestamp: u64,
    method: Seq<char>,
    path: Seq<char>,
    body: Seq<char>,
) -> Seq<char> {
    base64_chars(hmac_sha256_of(
        key,
        vstd::utf8::encode_utf8(message_chars(timestamp, method, path, body)),
    ))
}

/// Computes the request signature.  `key` is the already base64-decoded
/// secret; `path` must be byte-identical to the path+query sent on the wire,
/// and `body` empty for a GET.
pub fn signature(key: &Vec<u8>, timestamp: u64, method: &str, path: &str, body: &str) -> (r:
    String)
    ensures
        r@ == signature_chars(key@, timestamp, method@, path@, body@),
{
    let mut message = u64_to_string(timestamp);
    message.append(method);
    message.append(path);
    message.append(body);
    proof {
        assert(message@ =~= message_chars(timestamp, method@, path@, body@));
    }
    let message_bytes = message.as_str().as_bytes_vec();
    base64_encode(&hmac_sha256(key, &message_bytes))
}

/// Law: the signature is a function of the secret key, the timestamp, the
/// method, the path and the body alone — signing the same tuple twice with
/// the same secret yields the same signature.
pub proof fn lemma_signature_deterministic(
    key1: Seq<u8>,
    timestamp1: u64,
    method1: Seq<char>,
    path1: Seq<char>,
    body1: Seq<char>,
    key2: Seq<u8>,
    timestamp2: u64,
    method2: Seq<char>,
    path2: Seq<char>,
    body2: Seq<char>,
)
    requires
        key1 == key2,
        timestamp1 == timestamp2,
        method1 == method2,
        path1 == path2,
        body1 == body2,
    ensures
        signature_chars(key1, timestamp1, method1, path1, body1) == signature_chars(
            key2,
            timestamp2,
            method2,
            path2,
            body2,
        ),
{
}

} // verus!
