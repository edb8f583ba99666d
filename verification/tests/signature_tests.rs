use gourami_social::httpsig::{prepare_inbox_verification, signable_request, signature_header};
use gourami_social::signature::{
    sign_and_verify_rsa, sign_signing_string, signature_verifies, RsaCheckError,
};

struct Keys {
    private_pkcs8: Vec<u8>,
    public_pkcs1: Vec<u8>,
    public_pem: String,
}

fn keys() -> Keys {
    let rsa = openssl::rsa::Rsa::generate(2048).unwrap();
    let public_pkcs1 = rsa.public_key_to_der_pkcs1().unwrap();
    let public_pem = String::from_utf8(rsa.public_key_to_pem().unwrap()).unwrap();
    let pkey = openssl::pkey::PKey::from_rsa(rsa).unwrap();
    let private_pkcs8 = pkey.private_key_to_pkcs8().unwrap();
    Keys { private_pkcs8, public_pkcs1, public_pem }
}

#[test]
fn signature_field_is_padded_base64_of_the_rsa_signature() {
    let k = keys();
    let signing_string = "(request-target): post /inbox\ndate: Fri, 08 May 2020 00:42:41 GMT";
    let field = sign_signing_string(&k.private_pkcs8, signing_string).unwrap();
    let pair = ring::signature::RsaKeyPair::from_pkcs8(&k.private_pkcs8).unwrap();
    let mut sig = vec![0u8; pair.public().modulus_len()];
    pair.sign(
        &ring::signature::RSA_PKCS1_SHA256,
        &ring::rand::SystemRandom::new(),
        signing_string.as_bytes(),
        &mut sig,
    )
    .unwrap();
    assert_eq!(field, base64::encode(&sig));
    // 256 signature bytes: 86 full groups and one byte, so 344 characters
    // ending in two padding characters.
    assert_eq!(field.len(), 344);
    assert!(field.ends_with("=="));
}

#[test]
fn test_verify_rsa() {
    let k = keys();
    assert_eq!(sign_and_verify_rsa(&k.private_pkcs8, &k.public_pkcs1), Ok(()));
    let other = keys();
    assert_eq!(
        sign_and_verify_rsa(&k.private_pkcs8, &other.public_pkcs1),
        Err(RsaCheckError::BadSignature)
    );
    assert_eq!(
        sign_and_verify_rsa(b"not a key", &k.public_pkcs1),
        Err(RsaCheckError::BadPrivateKey)
    );
}

#[test]
fn signatures_round_trip() {
    let k = keys();
    let signing_string = "(request-target): post /inbox\ncontent-type: application/activity+json\ndate: Fri, 08 May 2020 00:42:41 GMT";
    let sig = sign_signing_string(&k.private_pkcs8, signing_string).unwrap();
    assert!(signature_verifies(&k.public_pem, &sig, signing_string));
    assert!(!signature_verifies(&k.public_pem, &sig, "(request-target): post /other"));
    assert!(!signature_verifies(&k.public_pem, "not base64!", signing_string));
    assert!(!signature_verifies("not a pem", &sig, signing_string));
    assert!(sign_signing_string(b"junk", signing_string).is_none());
}

fn request_headers(date: &str) -> Vec<(String, String)> {
    vec![
        ("content-type".to_string(), "application/activity+json".to_string()),
        ("date".to_string(), date.to_string()),
    ]
}

fn now_http_date() -> String {
    chrono::Utc::now().format("%a, %d %b %Y %H:%M:%S GMT").to_string()
}

#[test]
fn signature_header_signs_the_request() {
    let k = keys();
    let date = now_http_date();
    let key_id = "https://x.example/actor#main-key";
    let h = signature_header(key_id, "POST", "/inbox", None, request_headers(&date), &k.private_pkcs8)
        .unwrap();
    let signing_string =
        format!("(request-target): post /inbox\ncontent-type: application/activity+json\ndate: {}", date);
    let sig = sign_signing_string(&k.private_pkcs8, &signing_string).unwrap();
    assert_eq!(
        h,
        format!(
            "keyId=\"{}\",algorithm=\"hs2019\",headers=\"(request-target) content-type date\",signature=\"{}\"",
            key_id, sig
        )
    );

    let mut received = request_headers(&date);
    received.push(("Signature".to_string(), h));
    let (k_id, s, ss) = prepare_inbox_verification("POST", "/inbox", received).unwrap();
    assert_eq!(k_id, key_id);
    assert_eq!(s, sig);
    assert_eq!(ss, signing_string);
    assert!(signature_verifies(&k.public_pem, &s, &ss));
}

#[test]
fn signature_header_with_query_and_failures() {
    let k = keys();
    let date = now_http_date();
    let h = signature_header("k", "GET", "/outbox", Some("page=2"), request_headers(&date), &k.private_pkcs8)
        .unwrap();
    let signing_string =
        format!("(request-target): get /outbox?page=2\ncontent-type: application/activity+json\ndate: {}", date);
    assert!(h.ends_with(&format!(
        "signature=\"{}\"",
        sign_signing_string(&k.private_pkcs8, &signing_string).unwrap()
    )));
    // no date header to sign
    let no_date = vec![("content-type".to_string(), "text/plain".to_string())];
    assert!(signature_header("k", "GET", "/", None, no_date, &k.private_pkcs8).is_none());
    // a key that does not sign
    assert!(signature_header("k", "GET", "/", None, request_headers(&date), b"junk").is_none());
}

#[test]
fn inbox_refuses_unsigned_and_expired_requests() {
    let k = keys();
    assert!(prepare_inbox_verification("POST", "/inbox", request_headers(&now_http_date())).is_none());
    let old = "Fri, 08 May 2020 00:42:41 GMT";
    let h = signature_header("k", "POST", "/inbox", None, request_headers(old), &k.private_pkcs8).unwrap();
    let mut received = request_headers(old);
    received.push(("Signature".to_string(), h));
    assert!(prepare_inbox_verification("POST", "/inbox", received).is_none());
}

#[test]
fn only_plain_requests_are_signed() {
    let date = now_http_date();
    assert!(signable_request("POST", &request_headers(&date)));
    assert!(!signable_request("PÖST", &request_headers(&date)));
    assert!(!signable_request("POST", &vec![("Date".to_string(), date.clone())]));
    assert!(!signable_request("POST", &vec![(String::new(), date)]));
}

#[test]
fn duplicate_headers_sign_their_last_value() {
    let k = keys();
    let date = now_http_date();
    let headers = vec![
        ("date".to_string(), "ignored".to_string()),
        ("accept".to_string(), "a".to_string()),
        ("date".to_string(), date.clone()),
    ];
    let h = signature_header("k", "POST", "/inbox", None, headers, &k.private_pkcs8).unwrap();
    let signing_string = format!("(request-target): post /inbox\naccept: a\ndate: {}", date);
    assert_eq!(
        h,
        format!(
            "keyId=\"k\",algorithm=\"hs2019\",headers=\"(request-target) accept date\",signature=\"{}\"",
            sign_signing_string(&k.private_pkcs8, &signing_string).unwrap()
        )
    );
}

#[test]
fn overlong_signature_times_are_refused() {
    let date = now_http_date();
    let mut headers = request_headers(&date);
    headers.push((
        "signature".to_string(),
        "keyId=\"k\",headers=\"date\",created=18446744073709551615,signature=\"x\"".to_string(),
    ));
    assert!(prepare_inbox_verification("POST", "/inbox", headers).is_none());
    let mut headers = request_headers(&date);
    headers.push((
        "signature".to_string(),
        "keyId=\"k\",headers=\"date\",expires=\"99999999999999999999\",signature=\"x\"".to_string(),
    ));
    assert!(prepare_inbox_verification("POST", "/inbox", headers).is_none());
}
