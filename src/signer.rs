//! Authorization headers: HMAC-SHA256 shared-key signing and bearer tokens.

use crate::codec::{
    base64_decoded, base64_of, decode_base64, encode_base64, hmac_sha256, hmac_sha256_of, sha256,
    sha256_of,
};
use vstd::prelude::*;
use vstd::string::*;
use vstd::utf8::encode_utf8;

verus! {

/// Signing failed before any request was sent.
#[derive(Debug, Clone, Copy, PartialEq, Eq, Structural)]
pub enum SigningError {
    /// The shared secret is not valid base64.
    MalformedSecret,
}

/// Headers that authenticate one shared-key request.
#[derive(Debug)]
pub struct SignedHeaders {
    /// Value of `x-ms-date`.
    pub date: String,
    /// Value of `x-ms-content-sha256`.
    pub content_sha256: String,
    /// Value of `Authorization`.
    pub authorization: String,
}

/// Base64 text of the SHA-256 digest of a body.
pub open spec fn content_hash_spec(body: Seq<u8>) -> Seq<char> {
    base64_of(sha256_of(body))
}

/// The canonical text that a shared-key signature covers.
pub open spec fn string_to_sign_spec(
    method: Seq<char>,
    path_and_query: Seq<char>,
    date: Seq<char>,
    host: Seq<char>,
    content_hash: Seq<char>,
) -> Seq<char> {
    method + "\n"@ + path_and_query + "\n"@ + date + ";"@ + host + ";"@ + content_hash
}

/// Base64 text of the HMAC-SHA256 of a canonical text under a key.
pub open spec fn signature_spec(key: Seq<u8>, to_sign: Seq<char>) -> Seq<char> {
    base64_of(hmac_sha256_of(key, encode_utf8(to_sign)))
}

/// `Authorization` value of a shared-key request with a given signature.
pub open spec fn hmac_authorization_spec(signature: Seq<char>) -> Seq<char> {
    "HMAC-SHA256 SignedHeaders=x-ms-date;host;x-ms-content-sha256&Signature="@ + signature
}

/// `Authorization` value of a bearer-token request.
pub open spec fn bearer_authorization_spec(token: Seq<char>) -> Seq<char> {
    "Bearer "@ + token
}

/// Base64 text of the SHA-256 digest of `body`.
pub fn content_hash(body: &[u8]) -> (r: String)
    ensures
        r@ == content_hash_spec(body@),
{
    let digest = sha256(body);
    encode_base64(digest.as_slice())
}

/// Canonical text `METHOD\npath\ndate;host;hash` that a signature covers.
pub fn string_to_sign(
    method: &str,
    path_and_query: &str,
    date: &str,
    host: &str,
    content_hash: &str,
) -> (r: String)
    ensures
        r@ == string_to_sign_spec(method@, path_and_query@, date@, host@, content_hash@),
{
    let mut s = method.to_owned();
    s.append("\n");
    s.append(path_and_query);
    s.append("\n");
    s.append(date);
    s.append(";");
    s.append(host);
    s.append(";");
    s.append(content_hash);
    s
}

/// Signs a request with a base64-encoded shared secret. The result depends
/// on the arguments alone; a secret that is not valid base64 is rejected.
pub fn sign_shared_key(
    secret: &str,
    method: &str,
    path_and_query: &str,
    date: &str,
    host: &str,
    body: &[u8],
) -> (r: Result<SignedHeaders, SigningError>)
    ensures
        match base64_decoded(secret@) {
            None => r == Err::<SignedHeaders, SigningError>(SigningError::MalformedSecret),
            Some(key) => r matches Ok(h) && h.date@ == date@ && h.content_sha256@
                == content_hash_spec(body@) && h.authorization@ == hmac_authorization_spec(
                signature_spec(
                    key,
                    string_to_sign_spec(
                        method@,
                        path_and_query@,
                        date@,
                        host@,
                        content_hash_spec(body@),
                    ),
                ),
            ),
        },
{
    let key = match decode_base64(secret) {
        Some(k) => k,
        None => return Err(SigningError::MalformedSecret),
    };
    let hash = content_hash(body);
    let to_sign = string_to_sign(method, path_and_query, date, host, hash.as_str());
    let tag = hmac_sha256(key.as_slice(), to_sign.as_str().as_bytes());
    let signature = encode_base64(tag.as_slice());
    let mut authorization = "HMAC-SHA256 SignedHeaders=x-ms-date;host;x-ms-content-sha256&Signature=".to_owned();
    authorization.append(signature.as_str());
    Ok(SignedHeaders { date: date.to_owned(), content_sha256: hash, authorization })
}

/// `Authorization` value for a bearer token.
pub fn bearer_authorization(token: &str) -> (r: String)
    ensures
        r@ == bearer_authorization_spec(token@),
{
    let mut s = "Bearer ".to_owned();
    s.append(token);
    s
}

/// What the active credential supplies for signing a request.
#[derive(Debug, Clone)]
pub enum AuthMaterial {
    /// The base64-encoded shared secret.
    SharedKey(String),
    /// A valid bearer token.
    Bearer(String),
}

/// Name-value pairs as character sequences.
pub open spec fn pairs_view(h: Seq<(String, String)>) -> Seq<(Seq<char>, Seq<char>)> {
    h.map_values(|p: (String, String)| (p.0@, p.1@))
}

/// Headers of a shared-key request signed with `key`.
pub open spec fn shared_key_headers_spec(
    key: Seq<u8>,
    method: Seq<char>,
    path_and_query: Seq<char>,
    date: Seq<char>,
    host: Seq<char>,
    body: Seq<u8>,
) -> Seq<(Seq<char>, Seq<char>)> {
    let hash = content_hash_spec(body);
    seq![
        ("x-ms-date"@, date),
        ("x-ms-content-sha256"@, hash),
        (
            "Authorization"@,
            hmac_authorization_spec(
                signature_spec(key, string_to_sign_spec(method, path_and_query, date, host, hash)),
            ),
        ),
    ]
}

/// Authentication headers of a request, by the scheme of the credential:
/// date, content digest and HMAC signature for a shared key, a bearer
/// `Authorization` header for a token.
pub fn sign_request(
    material: &AuthMaterial,
    method: &str,
    path_and_query: &str,
    date: &str,
    host: &str,
    body: &[u8],
) -> (r: Result<Vec<(String, String)>, SigningError>)
    ensures
        match material {
            AuthMaterial::SharedKey(secret) => match base64_decoded(secret@) {
                None => r == Err::<Vec<(String, String)>, SigningError>(
                    SigningError::MalformedSecret,
                ),
                Some(key) => r matches Ok(h) && pairs_view(h@) == shared_key_headers_spec(
                    key,
                    method@,
                    path_and_query@,
                    date@,
                    host@,
                    body@,
                ),
            },
            AuthMaterial::Bearer(token) => r matches Ok(h) && pairs_view(h@) == seq![
                ("Authorization"@, bearer_authorization_spec(token@)),
            ],
        },
{
    match material {
        AuthMaterial::SharedKey(secret) => {
            match sign_shared_key(secret.as_str(), method, path_and_query, date, host, body) {
                Ok(signed) => {
                    let mut h: Vec<(String, String)> = Vec::new();
                    h.push(("x-ms-date".to_owned(), signed.date));
                    h.push(("x-ms-content-sha256".to_owned(), signed.content_sha256));
                    h.push(("Authorization".to_owned(), signed.authorization));
                    assert(pairs_view(h@) =~= shared_key_headers_spec(
                        base64_decoded(secret@).unwrap(),
                        method@,
                        path_and_query@,
                        date@,
                        host@,
                        body@,
                    ));
                    Ok(h)
                },
                Err(e) => Err(e),
            }
        },
        AuthMaterial::Bearer(token) => {
            let mut h: Vec<(String, String)> = Vec::new();
            h.push(("Authorization".to_owned(), bearer_authorization(token.as_str())));
            assert(pairs_view(h@) =~= seq![
                ("Authorization"@, bearer_authorization_spec(token@)),
            ]);
            Ok(h)
        },
    }
}

} // verus!
