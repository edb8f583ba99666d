//! The cryptography of HTTP signatures: signing a signing string with the
//! server's RSA key, checking a remote actor's signature, and the RSA key
//! self-check.  The RSA and PEM work is done by `ring` and `openssl`.
use vstd::prelude::*;
use vstd::string::StringSliceAdditionalSpecFns;

verus! {

/// The base64 digit of the six-bit value `v`.
pub open spec fn base64_digit(v: int) -> char {
    if v < 26 {
        (('A' as int) + v) as char
    } else if v < 52 {
        (('a' as int) + v - 26) as char
    } else if v < 62 {
        (('0' as int) + v - 52) as char
    } else if v == 62 {
        '+'
    } else {
        '/'
    }
}

/// Standard base64 (RFC 4648, alphabet `A-Za-z0-9+/`, padded with `=`).
pub open spec fn base64_encode(b: Seq<u8>) -> Seq<char>
    decreases b.len(),
{
    if b.len() == 0 {
        seq![]
    } else {
        let x = b[0] as int;
        let y = if b.len() > 1 { b[1] as int } else { 0 };
        let z = if b.len() > 2 { b[2] as int } else { 0 };
        if b.len() == 1 {
            seq![base64_digit(x / 4), base64_digit((x % 4) * 16), '=', '=']
        } else if b.len() == 2 {
            seq![base64_digit(x / 4), base64_digit((x % 4) * 16 + y / 16), base64_digit((y % 16) * 4), '=']
        } else {
            seq![
                base64_digit(x / 4),
                base64_digit((x % 4) * 16 + y / 16),
                base64_digit((y % 16) * 4 + z / 64),
                base64_digit(z % 64),
            ] + base64_encode(b.subrange(3, b.len() as int))
        }
    }
}

/// `base64::encode` (standard alphabet, padded).  Claimed: the text is
/// `base64_encode` of the bytes.
#[verifier::external_body]
pub(crate) fn base64_text(bytes: &[u8]) -> (text: String)
    ensures
        text@ == base64_encode(bytes@),
{
    base64::encode(bytes)
}

/// What `base64::decode` (standard alphabet) gives for `text`: the bytes, or
/// `None` where it reports an error.
pub uninterp spec fn base64_decoded(text: Seq<u8>) -> Option<Seq<u8>>;

/// `base64::decode`, its error turned into `None`.  Claimed: the result is
/// `base64_decoded` of the input, a function of it alone.
#[verifier::external_body]
fn base64_bytes(text: &[u8]) -> (bytes: Option<Vec<u8>>)
    ensures
        match bytes {
            Some(b) => base64_decoded(text@) == Some(b@),
            None => base64_decoded(text@) is None,
        },
{
    base64::decode(text).ok()
}

/// Whether `ring` accepts `key_der` as a PKCS#8 RSA private key
/// (`RsaKeyPair::from_pkcs8`).
pub uninterp spec fn rsa_key_accepted(key_der: Seq<u8>) -> bool;

/// The RSA PKCS#1 v1.5 SHA-256 signature that `ring` makes of `message` with
/// the PKCS#8 key `key_der` (`RsaKeyPair::sign` with `RSA_PKCS1_SHA256`), or
/// `None` where signing fails.
pub uninterp spec fn rsa_pkcs1_sha256_signature(key_der: Seq<u8>, message: Seq<u8>) -> Option<Seq<u8>>;

/// Why signing failed.
#[derive(Debug, Clone, Copy, PartialEq, Eq)]
pub enum RsaSignError {
    /// `ring` rejected the private key.
    KeyRejected,
    /// The key was accepted but signing failed.
    SigningFailed,
}

/// Signs `message` with the PKCS#8 RSA key `key_der`: `RsaKeyPair::from_pkcs8`,
/// then `RsaKeyPair::sign` with `RSA_PKCS1_SHA256` into a buffer of the
/// modulus length.  Claimed: the key is rejected exactly when
/// `rsa_key_accepted` says so; otherwise the signature (or failure) is
/// `rsa_pkcs1_sha256_signature` of the key and message.  PKCS#1 v1.5 padding
/// does not use the random generator, so the outcome depends on the key and
/// message alone.
#[verifier::external_body]
fn rsa_sign(key_der: &[u8], message: &[u8]) -> (r: Result<Vec<u8>, RsaSignError>)
    ensures
        (r matches Err(RsaSignError::KeyRejected)) <==> !rsa_key_accepted(key_der@),
        rsa_key_accepted(key_der@) ==> match r {
            Ok(s) => rsa_pkcs1_sha256_signature(key_der@, message@) == Some(s@),
            Err(_) => rsa_pkcs1_sha256_signature(key_der@, message@) is None,
        },
{
    let key_pair = match ring::signature::RsaKeyPair::from_pkcs8(key_der) {
        Ok(k) => k,
        Err(_) => return Err(RsaSignError::KeyRejected),
    };
    let mut signature = vec![0u8; key_pair.public().modulus_len()];
    let rng = ring::rand::SystemRandom::new();
    match key_pair.sign(&ring::signature::RSA_PKCS1_SHA256, &rng, message, &mut signature) {
        Ok(()) => Ok(signature),
        Err(_) => Err(RsaSignError::SigningFailed),
    }
}

/// Whether `ring` accepts `signature` as an RSA PKCS#1 v1.5 SHA-256 signature
/// of `message` by the PKCS#1 DER public key `public_der`
/// (`UnparsedPublicKey` with `RSA_PKCS1_2048_8192_SHA256`, `verify`).
pub uninterp spec fn rsa_pkcs1_sha256_verifies(public_der: Seq<u8>, message: Seq<u8>, signature: Seq<u8>) -> bool;

/// `ring::signature::UnparsedPublicKey::new(&RSA_PKCS1_2048_8192_SHA256,
/// public_der).verify(message, signature)`, success as `true`.  Claimed: the
/// answer is `rsa_pkcs1_sha256_verifies` of the three, a function of them alone.
#[verifier::external_body]
fn rsa_verify(public_der: &[u8], message: &[u8], signature: &[u8]) -> (ok: bool)
    ensures
        ok == rsa_pkcs1_sha256_verifies(public_der@, message@, signature@),
{
    ring::signature::UnparsedPublicKey::new(&ring::signature::RSA_PKCS1_2048_8192_SHA256, public_der)
        .verify(message, signature)
        .is_ok()
}

/// The PKCS#1 DER form of the RSA public key in the PEM text `pem`, as
/// `openssl` reads and writes it, or `None` where it reports an error.
pub uninterp spec fn pem_public_key_der(pem: Seq<u8>) -> Option<Seq<u8>>;

/// `openssl::rsa::Rsa::public_key_from_pem`, then `public_key_to_der_pkcs1`,
/// errors turned into `None`.  Claimed: the result is `pem_public_key_der` of
/// the PEM bytes, a function of them alone.
#[verifier::external_body]
fn public_key_der_from_pem(pem: &[u8]) -> (der: Option<Vec<u8>>)
    ensures
        match der {
            Some(d) => pem_public_key_der(pem@) == Some(d@),
            None => pem_public_key_der(pem@) is None,
        },
{
    match openssl::rsa::Rsa::public_key_from_pem(pem) {
        Ok(key) => key.public_key_to_der_pkcs1().ok(),
        Err(_) => None,
    }
}

/// The value of the HTTP `signature` field that the server's key `key_der`
/// makes for `signing_string`: the base64 text of its RSA signature.
pub open spec fn signature_field(key_der: Seq<u8>, signing_string: Seq<u8>) -> Option<Seq<char>> {
    if rsa_key_accepted(key_der) {
        match rsa_pkcs1_sha256_signature(key_der, signing_string) {
            Some(s) => Some(base64_encode(s)),
            None => None,
        }
    } else {
        None
    }
}

/// Signs `signing_string` with the private key `key_der` (PKCS#8 DER) for an
/// HTTP signature: the base64 text of its RSA PKCS#1 v1.5 SHA-256 signature
/// (see `signature_field`).
pub fn sign_signing_string(key_der: &[u8], signing_string: &str) -> (field: Option<String>)
    ensures
        match field {
            Some(f) => signature_field(key_der@, signing_string.spec_bytes()) == Some(f@),
            None => signature_field(key_der@, signing_string.spec_bytes()) is None,
        },
{
    match rsa_sign(key_der, signing_string.as_bytes()) {
        Ok(s) => Some(base64_text(s.as_slice())),
        Err(_) => None,
    }
}

/// Whether an HTTP signature checks out: the remote actor's PEM public key
/// reads, the `signature` field decodes from base64, and the RSA signature of
/// the signing string verifies against the key.
pub open spec fn signature_checks(public_key_pem: Seq<u8>, signature: Seq<u8>, signing_string: Seq<u8>) -> bool {
    match pem_public_key_der(public_key_pem) {
        Some(der) => match base64_decoded(signature) {
            Some(sig) => rsa_pkcs1_sha256_verifies(der, signing_string, sig),
            None => false,
        },
        None => false,
    }
}

/// Checks a received HTTP signature (see `signature_checks`).
pub fn signature_verifies(public_key_pem: &str, signature: &str, signing_string: &str) -> (ok: bool)
    ensures
        ok == signature_checks(public_key_pem.spec_bytes(), signature.spec_bytes(), signing_string.spec_bytes()),
{
    let der = match public_key_der_from_pem(public_key_pem.as_bytes()) {
        Some(d) => d,
        None => {
            return false;
        },
    };
    let sig = match base64_bytes(signature.as_bytes()) {
        Some(s) => s,
        None => {
            return false;
        },
    };
    rsa_verify(der.as_slice(), signing_string.as_bytes(), sig.as_slice())
}

/// Why the RSA key self-check failed.
#[derive(Debug, Clone, Copy, PartialEq, Eq)]
pub enum RsaCheckError {
    /// The private key was rejected.
    BadPrivateKey,
    /// Signing failed.
    OOM,
    /// The public key did not verify the signature.
    BadSignature,
}

/// The message the key self-check signs.
pub open spec fn check_message() -> Seq<u8> {
    seq![104u8, 101, 108, 108, 111, 44, 32, 119, 111, 114, 108, 100]
}

/// The outcome of the key self-check: sign `hello, world` with the private key
/// and verify it with the public key (PKCS#1 DER).
pub open spec fn rsa_check_outcome(private_der: Seq<u8>, public_der: Seq<u8>) -> Result<(), RsaCheckError> {
    if !rsa_key_accepted(private_der) {
        Err(RsaCheckError::BadPrivateKey)
    } else {
        match rsa_pkcs1_sha256_signature(private_der, check_message()) {
            None => Err(RsaCheckError::OOM),
            Some(s) => if rsa_pkcs1_sha256_verifies(public_der, check_message(), s) {
                Ok(())
            } else {
                Err(RsaCheckError::BadSignature)
            },
        }
    }
}

/// Checks that a private key (PKCS#8 DER) and a public key (PKCS#1 DER) form a
/// pair, by signing `hello, world` and verifying it (see `rsa_check_outcome`).
pub fn sign_and_verify_rsa(private_key_der: &[u8], public_key_der: &[u8]) -> (r: Result<(), RsaCheckError>)
    ensures
        r == rsa_check_outcome(private_key_der@, public_key_der@),
{
    let message: Vec<u8> = vec![104u8, 101, 108, 108, 111, 44, 32, 119, 111, 114, 108, 100];
    assert(message@ == check_message());
    let signature = match rsa_sign(private_key_der, message.as_slice()) {
        Ok(s) => s,
        Err(RsaSignError::KeyRejected) => {
            return Err(RsaCheckError::BadPrivateKey);
        },
        Err(RsaSignError::SigningFailed) => {
            return Err(RsaCheckError::OOM);
        },
    };
    if rsa_verify(public_key_der, message.as_slice(), signature.as_slice()) {
        Ok(())
    } else {
        Err(RsaCheckError::BadSignature)
    }
}

} // verus!
