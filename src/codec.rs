//! Calls into the encoding, content-sniffing and digest crates, each behind a
//! contract over a named result.

use base64::engine::general_purpose;
use base64::Engine;
use hmac::Mac;
use sha2::Digest;
use vstd::prelude::*;

verus! {

/// Standard (padded) base64 text of a byte sequence.
pub uninterp spec fn base64_of(b: Seq<u8>) -> Seq<char>;

/// Bytes that a text decodes to under standard base64, if it is valid.
pub uninterp spec fn base64_decoded(s: Seq<char>) -> Option<Seq<u8>>;

/// MIME type that content sniffing recognises in a byte sequence, if any.
pub uninterp spec fn sniffed_mime(b: Seq<u8>) -> Option<Seq<char>>;

/// SHA-256 digest of a byte sequence.
pub uninterp spec fn sha256_of(b: Seq<u8>) -> Seq<u8>;

/// HMAC-SHA256 of a message under a key.
pub uninterp spec fn hmac_sha256_of(key: Seq<u8>, msg: Seq<u8>) -> Seq<u8>;

/// Relies on base64's `general_purpose::STANDARD.encode`: the padded
/// standard-alphabet text of the bytes, which depends on the bytes alone.
#[verifier::external_body]
pub(crate) fn encode_base64(b: &[u8]) -> (r: String)
    ensures
        r@ == base64_of(b@),
{
    general_purpose::STANDARD.encode(b)
}

/// Relies on base64's `general_purpose::STANDARD.decode`: the decoded bytes,
/// or an error for text that is not valid padded standard base64.
#[verifier::external_body]
pub(crate) fn decode_base64(s: &str) -> (r: Option<Vec<u8>>)
    ensures
        match r {
            Some(v) => base64_decoded(s@) == Some(v@),
            None => base64_decoded(s@) is None,
        },
{
    general_purpose::STANDARD.decode(s.as_bytes()).ok()
}

/// Relies on infer's `Infer::new().get` with its built-in matchers, and on
/// `Type::mime_type`: the first matcher that recognises the bytes decides.
#[verifier::external_body]
pub(crate) fn sniff_mime(b: &[u8]) -> (r: Option<String>)
    ensures
        match r {
            Some(m) => sniffed_mime(b@) == Some(m@),
            None => sniffed_mime(b@) is None,
        },
{
    infer::Infer::new().get(b).map(|t| t.mime_type().to_string())
}

/// Relies on sha2's `Sha256::digest`: the 32-byte digest of the input.
#[verifier::external_body]
pub(crate) fn sha256(b: &[u8]) -> (r: Vec<u8>)
    ensures
        r@ == sha256_of(b@),
        r@.len() == 32,
{
    sha2::Sha256::digest(b).to_vec()
}

/// Relies on hmac's `Hmac::<Sha256>::new_from_slice`, `update` and
/// `finalize`: a key of any length is accepted, and the tag depends on the
/// key and the message alone. The source of `new_from_slice` never returns
/// its error for `Hmac`, so the error arm is never taken.
#[verifier::external_body]
pub(crate) fn hmac_sha256(key: &[u8], msg: &[u8]) -> (r: Vec<u8>)
    ensures
        r@ == hmac_sha256_of(key@, msg@),
{
    match hmac::Hmac::<sha2::Sha256>::new_from_slice(key) {
        Ok(mut mac) => {
            mac.update(msg);
            mac.finalize().into_bytes().to_vec()
        },
        Err(_) => Vec::new(),
    }
}

} // verus!
