//! The outside cryptographic, encoding, randomness and clock functions that
//! the library calls, each behind a trusted item whose contract states what
//! the outside crate's source or documentation shows of it.
use vstd::prelude::*;

use base64::Engine;
use ml_dsa::{KeyExport, Keypair, Signer, Verifier};
use ml_kem::{Decapsulate, Encapsulate, Kem, TryKeyInit};
use rand::RngCore;
use sha2::Digest;

use crate::crypto::Base64Fault;
use crate::text::digit_char;

verus! {

/// The unpadded URL-safe base64 text of `bytes` (`base64` crate, `URL_SAFE_NO_PAD`).
pub uninterp spec fn base64url_text(bytes: Seq<u8>) -> Seq<char>;

/// The bytes that unpadded URL-safe base64 `text` decodes to, or `None` where it is not
/// such base64 (`base64` crate, `URL_SAFE_NO_PAD`).
pub uninterp spec fn base64url_bytes(text: Seq<char>) -> Option<Seq<u8>>;

/// The error that decoding `text` as unpadded URL-safe base64 reports where it is not such
/// base64 (`base64` crate, `URL_SAFE_NO_PAD`, `DecodeError`).
pub uninterp spec fn base64url_fault(text: Seq<char>) -> Base64Fault;

/// The SHA-256 digest of `data`.
pub uninterp spec fn sha256(data: Seq<u8>) -> Seq<u8>;

/// The encoded ML-DSA-65 verifying key of the signing key derived from `seed`.
pub uninterp spec fn ml_dsa_65_public_key_of(seed: Seq<u8>) -> Seq<u8>;

/// The encoded deterministic ML-DSA-65 signature of `message` (empty context) under the
/// signing key derived from `seed`, or `None` where signing reports failure.
pub uninterp spec fn ml_dsa_65_signature_of(seed: Seq<u8>, message: Seq<u8>) -> Option<Seq<u8>>;

/// Whether `signature` decodes as an ML-DSA-65 signature.
pub uninterp spec fn ml_dsa_65_signature_decodes(signature: Seq<u8>) -> bool;

/// Whether ML-DSA-65 verification of `signature` on `message` under the encoded verifying
/// key `public_key` succeeds.
pub uninterp spec fn ml_dsa_65_accepts(public_key: Seq<u8>, message: Seq<u8>, signature: Seq<u8>) -> bool;

/// The Ed25519 verifying key bytes of the signing key with secret `secret`.
pub uninterp spec fn ed25519_public_key_of(secret: Seq<u8>) -> Seq<u8>;

/// Whether the 32 bytes `public_key` decompress to a curve point (an Ed25519 verifying key).
pub uninterp spec fn ed25519_public_key_valid(public_key: Seq<u8>) -> bool;

/// The Ed25519 signature of `message` under the signing key with secret `secret`.
pub uninterp spec fn ed25519_signature_of(secret: Seq<u8>, message: Seq<u8>) -> Seq<u8>;

/// Whether Ed25519 verification of `signature` on `message` under `public_key` succeeds.
pub uninterp spec fn ed25519_accepts(public_key: Seq<u8>, message: Seq<u8>, signature: Seq<u8>) -> bool;

/// Whether `c` has the Unicode `White_Space` property (`char::is_whitespace`): tab to carriage
/// return, space, next line, no-break space, ogham space mark, en quad to hair space, line and
/// paragraph separators, narrow no-break space, medium mathematical space, ideographic space.
pub open spec fn unicode_whitespace(c: char) -> bool {
    let n = c as u32;
    ||| 0x09 <= n <= 0x0d
    ||| n == 0x20
    ||| n == 0x85
    ||| n == 0xa0
    ||| n == 0x1680
    ||| 0x2000 <= n <= 0x200a
    ||| n == 0x2028
    ||| n == 0x2029
    ||| n == 0x202f
    ||| n == 0x205f
    ||| n == 0x3000
}

/// The ML-KEM-768 encapsulation key of the decapsulation key derived from the 64-byte `seed`.
pub uninterp spec fn ml_kem_768_encapsulation_key_of(seed: Seq<u8>) -> Seq<u8>;

/// Whether `key` is accepted as an encoded ML-KEM-768 encapsulation key.
pub uninterp spec fn ml_kem_768_key_accepted(key: Seq<u8>) -> bool;

/// The ciphertext and shared secret of encapsulating to the encoded encapsulation key `key` with
/// the 32 message bytes `m` (`EncapsulationKey::encapsulate_deterministic`).
pub uninterp spec fn ml_kem_768_encapsulated(key: Seq<u8>, m: Seq<u8>) -> (Seq<u8>, Seq<u8>);

/// The shared secret that the decapsulation key derived from `seed` recovers from `ciphertext`.
pub uninterp spec fn ml_kem_768_decapsulated(seed: Seq<u8>, ciphertext: Seq<u8>) -> Seq<u8>;

/// The lower-case hexadecimal digit of a value below 16.
pub open spec fn hex_digit(n: nat) -> char {
    if n < 10 {
        digit_char(n)
    } else if n == 10 {
        'a'
    } else if n == 11 {
        'b'
    } else if n == 12 {
        'c'
    } else if n == 13 {
        'd'
    } else if n == 14 {
        'e'
    } else {
        'f'
    }
}

/// Lower-case hexadecimal text of `bytes`: two digits per byte, high digit first.
pub open spec fn lower_hex(bytes: Seq<u8>) -> Seq<char> {
    Seq::new(
        2 * bytes.len(),
        |i: int|
            if i % 2 == 0 {
                hex_digit((bytes[i / 2] / 16) as nat)
            } else {
                hex_digit((bytes[i / 2] % 16) as nat)
            },
    )
}

/// `URL_SAFE_NO_PAD.encode`: the unpadded URL-safe base64 text of `bytes`. Decoding that
/// text gives `bytes` back.
#[verifier::external_body]
pub(crate) fn base64url_encode(bytes: &[u8]) -> (text: String)
    ensures
        text@ == base64url_text(bytes@),
        base64url_bytes(text@) == Some(bytes@),
{
    base64::engine::general_purpose::URL_SAFE_NO_PAD.encode(bytes)
}

/// `URL_SAFE_NO_PAD.decode`: the bytes of unpadded URL-safe base64 `text`, or the
/// `DecodeError` that the engine reports, variant by variant.
#[verifier::external_body]
pub(crate) fn base64url_decode(text: &str) -> (bytes: Result<Vec<u8>, Base64Fault>)
    ensures
        match bytes {
            Ok(b) => base64url_bytes(text@) == Some(b@),
            Err(f) => base64url_bytes(text@) is None && f == base64url_fault(text@),
        },
{
    match base64::engine::general_purpose::URL_SAFE_NO_PAD.decode(text) {
        Ok(b) => Ok(b),
        Err(base64::DecodeError::InvalidByte(i, b)) => Err(Base64Fault::InvalidByte(i, b)),
        Err(base64::DecodeError::InvalidLength(n)) => Err(Base64Fault::InvalidLength(n)),
        Err(base64::DecodeError::InvalidLastSymbol(i, b)) => Err(Base64Fault::InvalidLastSymbol(i, b)),
        Err(base64::DecodeError::InvalidPadding) => Err(Base64Fault::InvalidPadding),
    }
}

/// `Sha256::digest`: the 32-byte SHA-256 digest of `data`.
#[verifier::external_body]
pub(crate) fn sha256_digest(data: &[u8]) -> (digest: Vec<u8>)
    ensures
        digest@ == sha256(data@),
        digest@.len() == 32,
{
    sha2::Sha256::digest(data).to_vec()
}

/// `hex::encode`: lower-case hexadecimal text of `bytes`.
#[verifier::external_body]
pub(crate) fn hex_encode(bytes: &[u8]) -> (text: String)
    ensures
        text@ == lower_hex(bytes@),
{
    hex::encode(bytes)
}

/// `SigningKey::<MlDsa65>::from_seed(seed).verifying_key().encode()`: the 1952-byte encoded
/// ML-DSA-65 verifying key derived from a 32-byte seed.
#[verifier::external_body]
pub(crate) fn ml_dsa_65_public_key(seed: &[u8]) -> (public_key: Vec<u8>)
    requires
        seed@.len() == 32,
    ensures
        public_key@ == ml_dsa_65_public_key_of(seed@),
        public_key@.len() == 1952,
{
    let seed = ml_dsa::Seed::try_from(seed).unwrap_or_default();
    ml_dsa::SigningKey::<ml_dsa::MlDsa65>::from_seed(&seed).verifying_key().encode().to_vec()
}

/// `Signer::try_sign` of `SigningKey::<MlDsa65>`: the deterministic ML-DSA-65 signature (empty
/// context) of `message` under the key derived from a 32-byte seed, encoded in 3309 bytes.
/// The contract also states what FIPS 204 and the crate's round-trip tests show of such a
/// signature: it decodes, and verification under the key derived from the same seed accepts it.
#[verifier::external_body]
pub(crate) fn ml_dsa_65_sign(seed: &[u8], message: &[u8]) -> (signature: Option<Vec<u8>>)
    requires
        seed@.len() == 32,
    ensures
        match signature {
            Some(s) => {
                &&& ml_dsa_65_signature_of(seed@, message@) == Some(s@)
                &&& s@.len() == 3309
                &&& ml_dsa_65_signature_decodes(s@)
                &&& ml_dsa_65_accepts(ml_dsa_65_public_key_of(seed@), message@, s@)
            },
            None => ml_dsa_65_signature_of(seed@, message@) is None,
        },
{
    let seed = ml_dsa::Seed::try_from(seed).unwrap_or_default();
    let key = ml_dsa::SigningKey::<ml_dsa::MlDsa65>::from_seed(&seed);
    key.try_sign(message).ok().map(|s| s.encode().to_vec())
}

/// `Signature::<MlDsa65>::try_from`: whether `signature` decodes as an ML-DSA-65 signature.
#[verifier::external_body]
pub(crate) fn ml_dsa_65_decodes(signature: &[u8]) -> (ok: bool)
    ensures
        ok == ml_dsa_65_signature_decodes(signature@),
{
    ml_dsa::Signature::<ml_dsa::MlDsa65>::try_from(signature).is_ok()
}

/// `Verifier::verify` of `VerifyingKey::<MlDsa65>`: whether the signature is accepted on
/// `message` under the 1952-byte encoded verifying key.
#[verifier::external_body]
pub(crate) fn ml_dsa_65_verify(public_key: &[u8], message: &[u8], signature: &[u8]) -> (ok: bool)
    requires
        public_key@.len() == 1952,
        ml_dsa_65_signature_decodes(signature@),
    ensures
        ok == ml_dsa_65_accepts(public_key@, message@, signature@),
{
    let encoded = match ml_dsa::EncodedVerifyingKey::<ml_dsa::MlDsa65>::try_from(public_key) {
        Ok(encoded) => encoded,
        Err(_) => return false,
    };
    let key = ml_dsa::VerifyingKey::<ml_dsa::MlDsa65>::decode(&encoded);
    match ml_dsa::Signature::<ml_dsa::MlDsa65>::try_from(signature) {
        Ok(sig) => key.verify(message, &sig).is_ok(),
        Err(_) => false,
    }
}

/// `ed25519_dalek::SigningKey::from_bytes(secret).verifying_key().to_bytes()`: the 32-byte
/// verifying key of a 32-byte secret. It is the compression of a curve point, so it
/// decompresses again.
#[verifier::external_body]
pub(crate) fn ed25519_public_key(secret: &[u8]) -> (public_key: Vec<u8>)
    requires
        secret@.len() == 32,
    ensures
        public_key@ == ed25519_public_key_of(secret@),
        public_key@.len() == 32,
        ed25519_public_key_valid(public_key@),
{
    let secret: [u8; 32] = secret.try_into().unwrap_or_default();
    ed25519_dalek::SigningKey::from_bytes(&secret).verifying_key().to_bytes().to_vec()
}

/// `ed25519_dalek::VerifyingKey::from_bytes(..).is_ok()`: whether 32 bytes are a verifying key.
#[verifier::external_body]
pub(crate) fn ed25519_key_valid(public_key: &[u8]) -> (ok: bool)
    requires
        public_key@.len() == 32,
    ensures
        ok == ed25519_public_key_valid(public_key@),
{
    let bytes: [u8; 32] = public_key.try_into().unwrap_or_default();
    ed25519_dalek::VerifyingKey::from_bytes(&bytes).is_ok()
}

/// `Signer::sign` of `ed25519_dalek::SigningKey`: the 64-byte Ed25519 signature of `message`
/// under a 32-byte secret. Ed25519 verification under the matching verifying key accepts it.
#[verifier::external_body]
pub(crate) fn ed25519_sign(secret: &[u8], message: &[u8]) -> (signature: Vec<u8>)
    requires
        secret@.len() == 32,
    ensures
        signature@ == ed25519_signature_of(secret@, message@),
        signature@.len() == 64,
        ed25519_accepts(ed25519_public_key_of(secret@), message@, signature@),
{
    let secret: [u8; 32] = secret.try_into().unwrap_or_default();
    let key = ed25519_dalek::SigningKey::from_bytes(&secret);
    ed25519_dalek::Signer::sign(&key, message).to_bytes().to_vec()
}

/// `Verifier::verify` of `ed25519_dalek::VerifyingKey`: whether a 64-byte signature is
/// accepted on `message` under a valid 32-byte verifying key.
#[verifier::external_body]
pub(crate) fn ed25519_verify(public_key: &[u8], message: &[u8], signature: &[u8]) -> (ok: bool)
    requires
        public_key@.len() == 32,
        ed25519_public_key_valid(public_key@),
        signature@.len() == 64,
    ensures
        ok == ed25519_accepts(public_key@, message@, signature@),
{
    let bytes: [u8; 32] = public_key.try_into().unwrap_or_default();
    let signature = match ed25519_dalek::Signature::from_slice(signature) {
        Ok(signature) => signature,
        Err(_) => return false,
    };
    match ed25519_dalek::VerifyingKey::from_bytes(&bytes) {
        Ok(key) => ed25519_dalek::Verifier::verify(&key, message, &signature).is_ok(),
        Err(_) => false,
    }
}

/// `SigningKey::<MlDsa65>::generate().to_seed()`: a fresh 32-byte ML-DSA seed from the
/// operating system's random source.
#[verifier::external_body]
pub(crate) fn fresh_ml_dsa_65_seed() -> (seed: Vec<u8>)
    ensures
        seed@.len() == 32,
{
    let key = <ml_dsa::SigningKey<ml_dsa::MlDsa65> as ml_dsa::Generate>::generate();
    key.to_seed().to_vec()
}

/// `OsRng.fill_bytes`: 32 fresh bytes from the operating system's random source.
#[verifier::external_body]
pub(crate) fn fresh_secret_bytes() -> (secret: Vec<u8>)
    ensures
        secret@.len() == 32,
{
    let mut bytes = [0u8; 32];
    rand::rngs::OsRng.fill_bytes(&mut bytes);
    bytes.to_vec()
}

/// Whether `c` has the Unicode `White_Space` property, as `char::is_whitespace` decides it.
pub(crate) fn is_whitespace(c: char) -> (r: bool)
    ensures
        r == unicode_whitespace(c),
{
    let n = c as u32;
    (0x09 <= n && n <= 0x0d) || n == 0x20 || n == 0x85 || n == 0xa0 || n == 0x1680 || (0x2000 <= n
        && n <= 0x200a) || n == 0x2028 || n == 0x2029 || n == 0x202f || n == 0x205f || n == 0x3000
}

/// Whether `c` is a lower-case hexadecimal digit.
pub open spec fn is_lower_hex_digit(c: char) -> bool {
    ('0' <= c && c <= '9') || ('a' <= c && c <= 'f')
}

/// Whether `s` is the hyphenated lower-case text of a version-4 (random, RFC 4122 variant) UUID:
/// 8-4-4-4-12 hexadecimal digits, version digit `4`, variant digit `8`, `9`, `a` or `b`.
pub open spec fn uuid_v4_text(s: Seq<char>) -> bool {
    &&& s.len() == 36
    &&& forall|i: int|
        0 <= i < 36 ==> if i == 8 || i == 13 || i == 18 || i == 23 {
            s[i] == '-'
        } else {
            is_lower_hex_digit(#[trigger] s[i])
        }
    &&& s[14] == '4'
    &&& (s[19] == '8' || s[19] == '9' || s[19] == 'a' || s[19] == 'b')
}

/// `Uuid::new_v4().to_string()`: a fresh random version-4 UUID in hyphenated lower-case form.
#[verifier::external_body]
pub(crate) fn fresh_uuid() -> (id: String)
    ensures
        uuid_v4_text(id@),
{
    uuid::Uuid::new_v4().to_string()
}

/// `Utc::now().timestamp_millis()`: the current time in milliseconds since the Unix epoch.
#[verifier::external_body]
pub(crate) fn now_unix_ms() -> (now: i64) {
    chrono::Utc::now().timestamp_millis()
}

/// `MlKem768::generate_keypair()`: a fresh ML-KEM-768 key pair from the operating system's
/// random source, as the 64-byte seed of its decapsulation key and the 1184-byte encoding of its
/// encapsulation key, which `new_from_slice` accepts again. A generated decapsulation key always
/// holds its seed.
#[verifier::external_body]
pub(crate) fn ml_kem_768_generate() -> (pair: (Vec<u8>, Vec<u8>))
    ensures
        pair.0@.len() == 64,
        pair.1@ == ml_kem_768_encapsulation_key_of(pair.0@),
        pair.1@.len() == 1184,
        ml_kem_768_key_accepted(pair.1@),
{
    let (decapsulation_key, encapsulation_key) = ml_kem::MlKem768::generate_keypair();
    let seed = decapsulation_key.to_seed().map(|s| s.to_vec()).unwrap_or_default();
    (seed, ml_kem::KeyExport::to_bytes(&encapsulation_key).to_vec())
}

/// `EncapsulationKey768::new_from_slice(key)` then `encapsulate_deterministic(m)`: `None` where
/// the key is not accepted (an accepted key is 1184 bytes long), else the 1088-byte ciphertext
/// and 32-byte shared secret that encapsulating with the message bytes `m` gives. (`encapsulate`
/// draws `m` at random and does the same.)
#[verifier::external_body]
pub(crate) fn ml_kem_768_encapsulate_with(key: &[u8], m: &[u8]) -> (out: Option<(Vec<u8>, Vec<u8>)>)
    requires
        m@.len() == 32,
    ensures
        out is Some <==> ml_kem_768_key_accepted(key@),
        out is Some ==> key@.len() == 1184,
        out matches Some(pair) ==> (pair.0@, pair.1@) == ml_kem_768_encapsulated(key@, m@)
            && pair.0@.len() == 1088 && pair.1@.len() == 32,
{
    let key = ml_kem::EncapsulationKey768::new_from_slice(key).ok()?;
    let m = ml_kem::B32::try_from(m).unwrap_or_default();
    let (ciphertext, shared_secret) = key.encapsulate_deterministic(&m);
    Some((ciphertext.to_vec(), shared_secret.to_vec()))
}

/// `DecapsulationKey768::from_seed(seed).decapsulate_slice(ciphertext)`: `None` where the
/// ciphertext is not 1088 bytes long, else the 32-byte shared secret.
#[verifier::external_body]
pub(crate) fn ml_kem_768_decapsulate(seed: &[u8], ciphertext: &[u8]) -> (secret: Option<Vec<u8>>)
    requires
        seed@.len() == 64,
    ensures
        secret is Some <==> ciphertext@.len() == 1088,
        secret matches Some(s) ==> s@ == ml_kem_768_decapsulated(seed@, ciphertext@) && s@.len()
            == 32,
{
    let seed = ml_kem::Seed::try_from(seed).unwrap_or_default();
    let key = ml_kem::DecapsulationKey768::from_seed(seed);
    key.decapsulate_slice(ciphertext).ok().map(|s| s.to_vec())
}

/// The `Debug` text of a string: quoted, with escapes.
pub uninterp spec fn debug_quoted(text: Seq<char>) -> Seq<char>;

/// `format!("{:?}", text)`: the `Debug` text of a string (quoted, with escapes).
#[verifier::external_body]
pub(crate) fn debug_str(text: &str) -> (quoted: String)
    ensures
        quoted@ == debug_quoted(text@),
{
    format!("{:?}", text)
}

/// JSON values (`serde_json::Value`), carried through the library unread.
#[verifier::external_type_specification]
#[verifier::external_body]
pub struct ExJsonValue(serde_json::Value);

/// `Value::clone` is derived, so the clone is the same value.
pub assume_specification[ <serde_json::Value as Clone>::clone ](value: &serde_json::Value) -> (copy: serde_json::Value)
    ensures
        copy == *value,
;

/// The JSON string value holding `text`.
pub uninterp spec fn json_text_value(text: Seq<char>) -> serde_json::Value;

/// The JSON number value of an unsigned integer.
pub uninterp spec fn json_u64_value(n: u64) -> serde_json::Value;

/// The JSON number value of a signed integer.
pub uninterp spec fn json_i64_value(n: i64) -> serde_json::Value;

/// The JSON object with these fields.
pub uninterp spec fn json_object_value(fields: Seq<(Seq<char>, serde_json::Value)>) -> serde_json::Value;

/// The JSON value that `text` parses as, if it is JSON.
pub uninterp spec fn json_parsed(text: Seq<char>) -> Option<serde_json::Value>;

/// `serde_json::from_str::<Value>(text).ok()`: the value `text` parses as, if it is JSON.
#[verifier::external_body]
pub(crate) fn parse_json(text: &str) -> (value: Option<serde_json::Value>)
    ensures
        value == json_parsed(text@),
{
    serde_json::from_str::<serde_json::Value>(text).ok()
}

/// `Value::String(text)`.
#[verifier::external_body]
pub(crate) fn json_text(text: String) -> (value: serde_json::Value)
    ensures
        value == json_text_value(text@),
{
    serde_json::Value::String(text)
}

/// `Value::from(n)` for an unsigned integer.
#[verifier::external_body]
pub(crate) fn json_u64(n: u64) -> (value: serde_json::Value)
    ensures
        value == json_u64_value(n),
{
    serde_json::Value::from(n)
}

/// `Value::from(n)` for a signed integer.
#[verifier::external_body]
pub(crate) fn json_i64(n: i64) -> (value: serde_json::Value)
    ensures
        value == json_i64_value(n),
{
    serde_json::Value::from(n)
}

/// `Value::Object` collected from the fields, in order.
#[verifier::external_body]
pub(crate) fn json_object(fields: Vec<(String, serde_json::Value)>) -> (value: serde_json::Value)
    ensures
        value == json_object_value(fields@.map_values(|f: (String, serde_json::Value)| (f.0@, f.1))),
{
    serde_json::Value::Object(fields.into_iter().collect())
}

} // verus!
