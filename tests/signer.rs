use azure_ecs_rs::signer::{sign_request, AuthMaterial};
use azure_ecs_rs::signer::{
    bearer_authorization, content_hash, sign_shared_key, string_to_sign, SigningError,
};

const SECRET: &str = "dGVzdC1zaGFyZWQtc2VjcmV0LWtleQ==";
const BODY: &[u8] = b"{\"senderAddress\":\"sender@example.com\"}";
const DATE: &str = "Thu, 01 Jan 2026 00:00:00 GMT";
const HOST: &str = "example.communication.azure.com";
const PATH: &str = "/emails:send?api-version=2023-03-31";

#[test]
fn hmac_signature_matches_fixed_vector() {
    let h = sign_shared_key(SECRET, "POST", PATH, DATE, HOST, BODY).unwrap();
    assert_eq!(h.date, DATE);
    assert_eq!(h.content_sha256, "WiiLNN/Ssi6nNZ6ycr6lNwLOKaAkgP29t5GPqMx5pvA=");
    assert_eq!(
        h.authorization,
        "HMAC-SHA256 SignedHeaders=x-ms-date;host;x-ms-content-sha256&Signature=sEu2Cp8CessXV7nBDOBkrB9I++pY4Aa+SBl0x29lFBE="
    );
}

#[test]
fn hmac_signature_is_reproducible() {
    let a = sign_shared_key(SECRET, "POST", PATH, DATE, HOST, BODY).unwrap();
    let b = sign_shared_key(SECRET, "POST", PATH, DATE, HOST, BODY).unwrap();
    assert_eq!(a.authorization, b.authorization);
    let c = sign_shared_key(SECRET, "POST", PATH, DATE, HOST, b"{}").unwrap();
    assert_ne!(a.authorization, c.authorization);
}

#[test]
fn malformed_secret_is_rejected() {
    let r = sign_shared_key("not base64!", "POST", PATH, DATE, HOST, BODY);
    assert_eq!(r.unwrap_err(), SigningError::MalformedSecret);
}

#[test]
fn content_hash_of_empty_body() {
    assert_eq!(content_hash(b""), "47DEQpj8HBSa+/TImW+5JCeuQeRkm5NMpJWZG3hSuFU=");
}

#[test]
fn canonical_string_layout() {
    assert_eq!(string_to_sign("GET", "/p?q=1", "d", "h", "c"), "GET\n/p?q=1\nd;h;c");
}

#[test]
fn bearer_header_value() {
    assert_eq!(bearer_authorization("abc"), "Bearer abc");
}

#[test]
fn shared_key_request_headers() {
    let h = sign_request(&AuthMaterial::SharedKey(SECRET.to_string()), "POST", PATH, DATE, HOST, BODY)
        .unwrap();
    assert_eq!(
        h,
        vec![
            ("x-ms-date".to_string(), DATE.to_string()),
            (
                "x-ms-content-sha256".to_string(),
                "WiiLNN/Ssi6nNZ6ycr6lNwLOKaAkgP29t5GPqMx5pvA=".to_string()
            ),
            (
                "Authorization".to_string(),
                "HMAC-SHA256 SignedHeaders=x-ms-date;host;x-ms-content-sha256&Signature=sEu2Cp8CessXV7nBDOBkrB9I++pY4Aa+SBl0x29lFBE=".to_string()
            ),
        ]
    );
    let bad = sign_request(&AuthMaterial::SharedKey("%%%".to_string()), "POST", PATH, DATE, HOST, BODY);
    assert_eq!(bad.unwrap_err(), SigningError::MalformedSecret);
}

#[test]
fn bearer_request_headers() {
    let h = sign_request(&AuthMaterial::Bearer("tok".to_string()), "GET", "/op", DATE, HOST, b"")
        .unwrap();
    assert_eq!(h, vec![("Authorization".to_string(), "Bearer tok".to_string())]);
}
