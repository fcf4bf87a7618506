//! Hybrid ML-DSA-65 and Ed25519 identities and signatures.
use vstd::prelude::*;

use crate::primitives::{
    base64url_encode, base64url_text, ed25519_public_key, ed25519_public_key_of, ed25519_sign,
    fresh_ml_dsa_65_seed, fresh_secret_bytes, ml_dsa_65_public_key, ml_dsa_65_public_key_of,
    ml_dsa_65_sign, ml_dsa_65_signature_of, ed25519_signature_of,
    base64url_bytes, base64url_decode, base64url_fault, ed25519_accepts, ed25519_key_valid, ed25519_public_key_valid,
    ed25519_verify, hex_encode, is_whitespace, lower_hex, ml_dsa_65_accepts, ml_dsa_65_decodes,
    ml_dsa_65_signature_decodes, ml_dsa_65_verify, sha256, sha256_digest, unicode_whitespace,
    debug_quoted, debug_str,
};
use crate::text::{append, chars_of, decimal, decimal_string, owned, same_text};

verus! {

/// The algorithm name of hybrid identities and signatures.
pub open spec fn hybrid_algorithm() -> Seq<char> {
    "ML-DSA-65+Ed25519"@
}

/// The domain prefix that separates these signatures from other protocol messages:
/// the bytes of `SPACL-HYBRID-SIGNATURE-V1` followed by a zero byte.
pub open spec fn signature_domain() -> Seq<u8> {
    seq![
        83u8, 80, 65, 67, 76, 45, 72, 89, 66, 82, 73, 68, 45, 83, 73, 71, 78, 65, 84, 85, 82, 69,
        45, 86, 49, 0,
    ]
}

/// The bytes that are signed for `payload`.
pub open spec fn domain_message_of(payload: Seq<u8>) -> Seq<u8> {
    signature_domain() + payload
}

/// `sha256:` followed by the lower-case hex SHA-256 digest of `data`.
pub open spec fn sha256_hex_of(data: Seq<u8>) -> Seq<char> {
    "sha256:"@ + lower_hex(sha256(data))
}

/// The key ID of an identity with these encoded public keys.
pub open spec fn key_id_of(ml_dsa_public: Seq<u8>, ed25519_public: Seq<u8>) -> Seq<char> {
    sha256_hex_of(ml_dsa_public + ed25519_public)
}

/// Whether every character is white space (so that trimming leaves nothing).
pub open spec fn is_blank(s: Seq<char>) -> bool {
    forall|i: int| 0 <= i < s.len() ==> unicode_whitespace(#[trigger] s[i])
}

/// Key material that an identity or signature carries in base64.
#[derive(Clone, Copy, Debug, PartialEq, Eq, Structural)]
pub enum Material {
    MlDsaPublicKey,
    Ed25519PublicKey,
    MlDsaSeed,
    Ed25519Secret,
    MlDsaSignature,
    Ed25519Signature,
}

/// What the base64 engine reports of text that is not unpadded URL-safe base64
/// (the variants of `base64::DecodeError`).
#[derive(Clone, Copy, Debug, PartialEq, Eq, Structural)]
pub enum Base64Fault {
    /// A symbol outside the alphabet: its offset and byte.
    InvalidByte(usize, u8),
    /// A number of symbols that no byte string encodes to.
    InvalidLength(usize),
    /// A last symbol with bits that would be discarded: its offset and byte.
    InvalidLastSymbol(usize, u8),
    /// Padding where none may stand.
    InvalidPadding,
}

/// The text that the base64 engine gives for a decoding error.
pub open spec fn base64_fault_text(f: Base64Fault) -> Seq<char> {
    match f {
        Base64Fault::InvalidByte(i, b) => "Invalid symbol "@ + decimal(b as nat) + ", offset "@
            + decimal(i as nat) + "."@,
        Base64Fault::InvalidLength(n) => "Invalid input length: "@ + decimal(n as nat),
        Base64Fault::InvalidLastSymbol(i, b) => "Invalid last symbol "@ + decimal(b as nat)
            + ", offset "@ + decimal(i as nat) + "."@,
        Base64Fault::InvalidPadding => "Invalid padding"@,
    }
}

impl Base64Fault {
    /// The text that the base64 engine gives for the error.
    pub fn message(&self) -> (s: String)
        ensures
            s@ == base64_fault_text(*self),
    {
        match self {
            Base64Fault::InvalidByte(i, b) => {
                let mut s = owned("Invalid symbol ");
                let t = decimal_string(*b as u64);
                append(&mut s, t.as_str());
                append(&mut s, ", offset ");
                let t = decimal_string(*i as u64);
                append(&mut s, t.as_str());
                append(&mut s, ".");
                s
            },
            Base64Fault::InvalidLength(n) => {
                let mut s = owned("Invalid input length: ");
                let t = decimal_string(*n as u64);
                append(&mut s, t.as_str());
                s
            },
            Base64Fault::InvalidLastSymbol(i, b) => {
                let mut s = owned("Invalid last symbol ");
                let t = decimal_string(*b as u64);
                append(&mut s, t.as_str());
                append(&mut s, ", offset ");
                let t = decimal_string(*i as u64);
                append(&mut s, t.as_str());
                append(&mut s, ".");
                s
            },
            Base64Fault::InvalidPadding => owned("Invalid padding"),
        }
    }
}

/// Whether a decoding failure of this material is reported under its name (`decode ...`);
/// failures of the other materials are reported with the engine's own text.
pub open spec fn decoding_named(m: Material) -> bool {
    m == Material::Ed25519PublicKey || m == Material::MlDsaSeed || m == Material::Ed25519Secret
}

/// Why an identity, a signature or signing was refused.
#[derive(Clone, Copy, Debug, PartialEq, Eq, Structural)]
pub enum IdentityError {
    /// The identity subject is empty or only white space.
    EmptySubject,
    /// The identity does not name the hybrid algorithm.
    UnsupportedAlgorithm,
    /// The material is not unpadded URL-safe base64: what the engine reports.
    Undecodable(Material, Base64Fault),
    /// The material decodes to the wrong number of bytes.
    WrongLength(Material),
    /// The Ed25519 public key is not a curve point.
    InvalidEd25519PublicKey,
    /// The key ID is not the hash of the two public keys.
    KeyIdMismatch,
    /// The signature does not name the hybrid algorithm of the identity.
    UnsupportedSignatureAlgorithm,
    /// The signature names another key ID.
    SignatureKeyMismatch,
    /// The ML-DSA signature bytes do not decode.
    InvalidMlDsaSignature,
    /// ML-DSA verification failed.
    MlDsaRejected,
    /// Ed25519 verification failed.
    Ed25519Rejected,
    /// ML-DSA signing reported failure.
    MlDsaSigningFailed,
}

/// How messages name a kind of material.
pub open spec fn material_label(m: Material) -> Seq<char> {
    match m {
        Material::MlDsaPublicKey => "ML-DSA public key"@,
        Material::Ed25519PublicKey => "Ed25519 public key"@,
        Material::MlDsaSeed => "ML-DSA seed"@,
        Material::Ed25519Secret => "Ed25519 secret"@,
        Material::MlDsaSignature => "ML-DSA signature"@,
        Material::Ed25519Signature => "Ed25519 signature"@,
    }
}

/// The human-readable description of an identity error.
pub open spec fn identity_error_text(e: IdentityError) -> Seq<char> {
    match e {
        IdentityError::EmptySubject => "identity subject is empty"@,
        IdentityError::UnsupportedAlgorithm => "unsupported identity algorithm"@,
        IdentityError::Undecodable(m, f) => if decoding_named(m) {
            "decode "@ + material_label(m)
        } else {
            base64_fault_text(f)
        },
        IdentityError::WrongLength(m) => if m == Material::Ed25519Signature {
            "signature error"@
        } else {
            "invalid "@ + material_label(m) + " length"@
        },
        IdentityError::InvalidEd25519PublicKey => "signature error: Cannot decompress Edwards point"@,
        IdentityError::KeyIdMismatch => "identity key ID does not match the public keys"@,
        IdentityError::UnsupportedSignatureAlgorithm => "unsupported hybrid signature algorithm"@,
        IdentityError::SignatureKeyMismatch => "signature key ID does not match the trusted identity"@,
        IdentityError::InvalidMlDsaSignature => "invalid ML-DSA signature"@,
        IdentityError::MlDsaRejected => "ML-DSA signature verification failed"@,
        IdentityError::Ed25519Rejected => "Ed25519 signature verification failed"@,
        IdentityError::MlDsaSigningFailed => "ML-DSA signing failed"@,
    }
}

impl Material {
    /// How messages name this material.
    pub fn label(&self) -> (s: &'static str)
        ensures
            s@ == material_label(*self),
    {
        match self {
            Material::MlDsaPublicKey => "ML-DSA public key",
            Material::Ed25519PublicKey => "Ed25519 public key",
            Material::MlDsaSeed => "ML-DSA seed",
            Material::Ed25519Secret => "Ed25519 secret",
            Material::MlDsaSignature => "ML-DSA signature",
            Material::Ed25519Signature => "Ed25519 signature",
        }
    }
}

impl IdentityError {
    /// The human-readable description of the error.
    pub fn message(&self) -> (s: String)
        ensures
            s@ == identity_error_text(*self),
    {
        match self {
            IdentityError::EmptySubject => owned("identity subject is empty"),
            IdentityError::UnsupportedAlgorithm => owned("unsupported identity algorithm"),
            IdentityError::Undecodable(m, f) => {
                match m {
                    Material::Ed25519PublicKey | Material::MlDsaSeed | Material::Ed25519Secret => {
                        let mut s = owned("decode ");
                        append(&mut s, m.label());
                        s
                    },
                    _ => f.message(),
                }
            },
            IdentityError::WrongLength(m) => {
                match m {
                    Material::Ed25519Signature => owned("signature error"),
                    _ => {
                        let mut s = owned("invalid ");
                        append(&mut s, m.label());
                        append(&mut s, " length");
                        s
                    },
                }
            },
            IdentityError::InvalidEd25519PublicKey => owned(
                "signature error: Cannot decompress Edwards point",
            ),
            IdentityError::KeyIdMismatch => owned("identity key ID does not match the public keys"),
            IdentityError::UnsupportedSignatureAlgorithm => owned(
                "unsupported hybrid signature algorithm",
            ),
            IdentityError::SignatureKeyMismatch => owned(
                "signature key ID does not match the trusted identity",
            ),
            IdentityError::InvalidMlDsaSignature => owned("invalid ML-DSA signature"),
            IdentityError::MlDsaRejected => owned("ML-DSA signature verification failed"),
            IdentityError::Ed25519Rejected => owned("Ed25519 signature verification failed"),
            IdentityError::MlDsaSigningFailed => owned("ML-DSA signing failed"),
        }
    }
}

/// The public half of a hybrid identity.
#[derive(Debug)]
pub struct PublicIdentity {
    pub key_id: String,
    pub subject: String,
    pub algorithm: String,
    pub ml_dsa_65_public_key: String,
    pub ed25519_public_key: String,
}

/// A public identity, each text taken by its characters.
pub struct PublicIdentityView {
    pub key_id: Seq<char>,
    pub subject: Seq<char>,
    pub algorithm: Seq<char>,
    pub ml_dsa_65_public_key: Seq<char>,
    pub ed25519_public_key: Seq<char>,
}

impl View for PublicIdentity {
    type V = PublicIdentityView;

    open spec fn view(&self) -> PublicIdentityView {
        PublicIdentityView {
            key_id: self.key_id@,
            subject: self.subject@,
            algorithm: self.algorithm@,
            ml_dsa_65_public_key: self.ml_dsa_65_public_key@,
            ed25519_public_key: self.ed25519_public_key@,
        }
    }
}

impl Clone for PublicIdentity {
    fn clone(&self) -> (r: Self)
        ensures
            r == *self,
    {
        PublicIdentity {
            key_id: self.key_id.clone(),
            subject: self.subject.clone(),
            algorithm: self.algorithm.clone(),
            ml_dsa_65_public_key: self.ml_dsa_65_public_key.clone(),
            ed25519_public_key: self.ed25519_public_key.clone(),
        }
    }
}

/// A hybrid signature: both an ML-DSA-65 and an Ed25519 signature, in base64.
#[derive(Debug)]
pub struct SignatureBundle {
    pub algorithm: String,
    pub key_id: String,
    pub ml_dsa_65: String,
    pub ed25519: String,
}

/// A signature bundle, each text taken by its characters.
pub struct SignatureBundleView {
    pub algorithm: Seq<char>,
    pub key_id: Seq<char>,
    pub ml_dsa_65: Seq<char>,
    pub ed25519: Seq<char>,
}

impl View for SignatureBundle {
    type V = SignatureBundleView;

    open spec fn view(&self) -> SignatureBundleView {
        SignatureBundleView {
            algorithm: self.algorithm@,
            key_id: self.key_id@,
            ml_dsa_65: self.ml_dsa_65@,
            ed25519: self.ed25519@,
        }
    }
}

impl Clone for SignatureBundle {
    fn clone(&self) -> (r: Self)
        ensures
            r == *self,
    {
        SignatureBundle {
            algorithm: self.algorithm.clone(),
            key_id: self.key_id.clone(),
            ml_dsa_65: self.ml_dsa_65.clone(),
            ed25519: self.ed25519.clone(),
        }
    }
}

/// The outcome of validating a public identity.
pub open spec fn validation_outcome(id: PublicIdentityView) -> Result<(), IdentityError> {
    if is_blank(id.subject) {
        Err(IdentityError::EmptySubject)
    } else if id.algorithm != hybrid_algorithm() {
        Err(IdentityError::UnsupportedAlgorithm)
    } else {
        match base64url_bytes(id.ml_dsa_65_public_key) {
            None => Err(IdentityError::Undecodable(Material::MlDsaPublicKey, base64url_fault(id.ml_dsa_65_public_key))),
            Some(ml) => if ml.len() != 1952 {
                Err(IdentityError::WrongLength(Material::MlDsaPublicKey))
            } else {
                match base64url_bytes(id.ed25519_public_key) {
                    None => Err(IdentityError::Undecodable(Material::Ed25519PublicKey, base64url_fault(id.ed25519_public_key))),
                    Some(ed) => if ed.len() != 32 {
                        Err(IdentityError::WrongLength(Material::Ed25519PublicKey))
                    } else if !ed25519_public_key_valid(ed) {
                        Err(IdentityError::InvalidEd25519PublicKey)
                    } else if id.key_id != key_id_of(ml, ed) {
                        Err(IdentityError::KeyIdMismatch)
                    } else {
                        Ok(())
                    },
                }
            },
        }
    }
}

/// The outcome of verifying `signature` on `payload` against identity `id`.
pub open spec fn verification_outcome(
    id: PublicIdentityView,
    payload: Seq<u8>,
    signature: SignatureBundleView,
) -> Result<(), IdentityError> {
    if validation_outcome(id) is Err {
        validation_outcome(id)
    } else if signature.algorithm != hybrid_algorithm() || id.algorithm != signature.algorithm {
        Err(IdentityError::UnsupportedSignatureAlgorithm)
    } else if signature.key_id != id.key_id {
        Err(IdentityError::SignatureKeyMismatch)
    } else {
        let message = domain_message_of(payload);
        let ml_public = base64url_bytes(id.ml_dsa_65_public_key).unwrap();
        let ed_public = base64url_bytes(id.ed25519_public_key).unwrap();
        match base64url_bytes(signature.ml_dsa_65) {
            None => Err(IdentityError::Undecodable(Material::MlDsaSignature, base64url_fault(signature.ml_dsa_65))),
            Some(ml_sig) => if !ml_dsa_65_signature_decodes(ml_sig) {
                Err(IdentityError::InvalidMlDsaSignature)
            } else if !ml_dsa_65_accepts(ml_public, message, ml_sig) {
                Err(IdentityError::MlDsaRejected)
            } else {
                match base64url_bytes(signature.ed25519) {
                    None => Err(IdentityError::Undecodable(Material::Ed25519Signature, base64url_fault(signature.ed25519))),
                    Some(ed_sig) => if ed_sig.len() != 64 {
                        Err(IdentityError::WrongLength(Material::Ed25519Signature))
                    } else if !ed25519_accepts(ed_public, message, ed_sig) {
                        Err(IdentityError::Ed25519Rejected)
                    } else {
                        Ok(())
                    },
                }
            },
        }
    }
}

/// The bytes that are signed for `payload`: the domain prefix, then the payload.
pub fn domain_message(payload: &[u8]) -> (message: Vec<u8>)
    ensures
        message@ == domain_message_of(payload@),
{
    let mut message: Vec<u8> = vec![
        83u8, 80, 65, 67, 76, 45, 72, 89, 66, 82, 73, 68, 45, 83, 73, 71, 78, 65, 84, 85, 82, 69,
        45, 86, 49, 0,
    ];
    let n = payload.len();
    for i in 0..n
        invariant
            n == payload@.len(),
            message@ == signature_domain() + payload@.take(i as int),
    {
        message.push(payload[i]);
        assert(payload@.take(i + 1) =~= payload@.take(i as int).push(payload@[i as int]));
    }
    assert(payload@.take(n as int) =~= payload@);
    message
}

/// `sha256:` followed by the lower-case hex SHA-256 digest of `data`.
pub fn sha256_hex(data: &[u8]) -> (out: String)
    ensures
        out@ == sha256_hex_of(data@),
        out@.len() == 71,
{
    proof {
        reveal_strlit("sha256:");
    }
    let digest = sha256_digest(data);
    let hex = hex_encode(digest.as_slice());
    let mut out = owned("sha256:");
    append(&mut out, hex.as_str());
    out
}

fn concat_bytes(a: &[u8], b: &[u8]) -> (out: Vec<u8>)
    ensures
        out@ == a@ + b@,
{
    let mut out: Vec<u8> = Vec::new();
    let n = a.len();
    for i in 0..n
        invariant
            n == a@.len(),
            out@ == a@.take(i as int),
    {
        out.push(a[i]);
        assert(a@.take(i + 1) =~= a@.take(i as int).push(a@[i as int]));
    }
    let m = b.len();
    for j in 0..m
        invariant
            n == a@.len(),
            m == b@.len(),
            out@ == a@.take(n as int) + b@.take(j as int),
    {
        out.push(b[j]);
        assert(b@.take(j + 1) =~= b@.take(j as int).push(b@[j as int]));
    }
    assert(a@.take(n as int) =~= a@);
    assert(b@.take(m as int) =~= b@);
    out
}

fn blank(s: &str) -> (r: bool)
    ensures
        r == is_blank(s@),
{
    let chars = chars_of(s);
    let n = chars.len();
    for i in 0..n
        invariant
            n == chars@.len(),
            chars@ == s@,
            forall|j: int| 0 <= j < i ==> unicode_whitespace(#[trigger] s@[j]),
    {
        if !is_whitespace(chars[i]) {
            return false;
        }
    }
    true
}

/// Decodes base64 material that must hold exactly `len` bytes.
fn decode_fixed(value: &str, len: usize, material: Material) -> (r: Result<Vec<u8>, IdentityError>)
    ensures
        match base64url_bytes(value@) {
            None => r == Err::<Vec<u8>, IdentityError>(IdentityError::Undecodable(material, base64url_fault(value@))),
            Some(b) => if b.len() != len {
                r == Err::<Vec<u8>, IdentityError>(IdentityError::WrongLength(material))
            } else {
                r matches Ok(v) && v@ == b
            },
        },
{
    match base64url_decode(value) {
        Err(f) => Err(IdentityError::Undecodable(material, f)),
        Ok(bytes) => if bytes.len() != len {
            Err(IdentityError::WrongLength(material))
        } else {
            Ok(bytes)
        },
    }
}

impl PublicIdentity {
    /// Checks that the subject is not blank, the algorithm is the hybrid one, both public keys
    /// decode to keys of the right size, and the key ID is the hash of the two public keys.
    pub fn validate(&self) -> (r: Result<(), IdentityError>)
        ensures
            r == validation_outcome(self@),
    {
        if blank(self.subject.as_str()) {
            return Err(IdentityError::EmptySubject);
        }
        if !same_text(self.algorithm.as_str(), "ML-DSA-65+Ed25519") {
            return Err(IdentityError::UnsupportedAlgorithm);
        }
        let ml_public = decode_fixed(
            self.ml_dsa_65_public_key.as_str(),
            1952,
            Material::MlDsaPublicKey,
        )?;
        let ed_public = decode_fixed(
            self.ed25519_public_key.as_str(),
            32,
            Material::Ed25519PublicKey,
        )?;
        if !ed25519_key_valid(ed_public.as_slice()) {
            return Err(IdentityError::InvalidEd25519PublicKey);
        }
        let both = concat_bytes(ml_public.as_slice(), ed_public.as_slice());
        let expected = sha256_hex(both.as_slice());
        if !same_text(self.key_id.as_str(), expected.as_str()) {
            return Err(IdentityError::KeyIdMismatch);
        }
        Ok(())
    }

    /// Verifies a hybrid signature on `payload`: the identity must validate, the signature must
    /// name this identity and the hybrid algorithm, and both signatures must verify on the
    /// domain-prefixed payload.
    pub fn verify(&self, payload: &[u8], signature: &SignatureBundle) -> (r: Result<(), IdentityError>)
        ensures
            r == verification_outcome(self@, payload@, signature@),
    {
        self.validate()?;
        if !same_text(signature.algorithm.as_str(), "ML-DSA-65+Ed25519") || !same_text(
            self.algorithm.as_str(),
            signature.algorithm.as_str(),
        ) {
            return Err(IdentityError::UnsupportedSignatureAlgorithm);
        }
        if !same_text(signature.key_id.as_str(), self.key_id.as_str()) {
            return Err(IdentityError::SignatureKeyMismatch);
        }
        let message = domain_message(payload);
        let ml_public = decode_fixed(
            self.ml_dsa_65_public_key.as_str(),
            1952,
            Material::MlDsaPublicKey,
        )?;
        let ml_signature = match base64url_decode(signature.ml_dsa_65.as_str()) {
            Ok(bytes) => bytes,
            Err(f) => {
                return Err(IdentityError::Undecodable(Material::MlDsaSignature, f));
            },
        };
        if !ml_dsa_65_decodes(ml_signature.as_slice()) {
            return Err(IdentityError::InvalidMlDsaSignature);
        }
        if !ml_dsa_65_verify(ml_public.as_slice(), message.as_slice(), ml_signature.as_slice()) {
            return Err(IdentityError::MlDsaRejected);
        }
        let ed_public = decode_fixed(
            self.ed25519_public_key.as_str(),
            32,
            Material::Ed25519PublicKey,
        )?;
        let ed_signature = decode_fixed(signature.ed25519.as_str(), 64, Material::Ed25519Signature)?;
        if !ed25519_verify(ed_public.as_slice(), message.as_slice(), ed_signature.as_slice()) {
            return Err(IdentityError::Ed25519Rejected);
        }
        Ok(())
    }
}

/// Secret text that is overwritten with zeros when dropped (held in `zeroize::Zeroizing`).
/// The struct is opaque to Verus: `Zeroizing` cannot be declared to it, since its parameter
/// is bounded by the outside trait `Zeroize`.
#[verifier::external_body]
pub struct SecretText {
    text: zeroize::Zeroizing<String>,
}

/// The characters that a secret text holds.
pub uninterp spec fn secret_text_chars(secret: SecretText) -> Seq<char>;

impl SecretText {
    /// `Zeroizing::new`: takes ownership of `text`, to be zeroized on drop.
    #[verifier::external_body]
    pub fn new(text: String) -> (secret: SecretText)
        ensures
            secret_text_chars(secret) == text@,
    {
        SecretText { text: zeroize::Zeroizing::new(text) }
    }

    /// `Zeroizing::deref`: the secret characters.
    #[verifier::external_body]
    pub fn expose(&self) -> (text: &str)
        ensures
            text@ == secret_text_chars(*self),
    {
        self.text.as_str()
    }

    /// `Zeroizing::clone`: a second zeroizing copy of the secret.
    #[verifier::external_body]
    pub fn duplicate(&self) -> (copy: SecretText)
        ensures
            secret_text_chars(copy) == secret_text_chars(*self),
    {
        SecretText { text: self.text.clone() }
    }
}

/// The algorithm name of hybrid identities, as a string.
pub fn hybrid_algorithm_name() -> (s: String)
    ensures
        s@ == hybrid_algorithm(),
{
    owned("ML-DSA-65+Ed25519")
}

/// The outcome of signing `payload` with an identity holding these public fields and this
/// base64 secret material.
pub open spec fn signing_outcome(
    public: PublicIdentityView,
    ml_dsa_seed: Seq<char>,
    ed25519_secret: Seq<char>,
    payload: Seq<u8>,
) -> Result<SignatureBundleView, IdentityError> {
    let message = domain_message_of(payload);
    match base64url_bytes(ml_dsa_seed) {
        None => Err(IdentityError::Undecodable(Material::MlDsaSeed, base64url_fault(ml_dsa_seed))),
        Some(ml) => if ml.len() != 32 {
            Err(IdentityError::WrongLength(Material::MlDsaSeed))
        } else {
            match ml_dsa_65_signature_of(ml, message) {
                None => Err(IdentityError::MlDsaSigningFailed),
                Some(ml_sig) => match base64url_bytes(ed25519_secret) {
                    None => Err(IdentityError::Undecodable(Material::Ed25519Secret, base64url_fault(ed25519_secret))),
                    Some(ed) => if ed.len() != 32 {
                        Err(IdentityError::WrongLength(Material::Ed25519Secret))
                    } else {
                        Ok(
                            SignatureBundleView {
                                algorithm: public.algorithm,
                                key_id: public.key_id,
                                ml_dsa_65: base64url_text(ml_sig),
                                ed25519: base64url_text(ed25519_signature_of(ed, message)),
                            },
                        )
                    },
                },
            }
        },
    }
}

/// A private hybrid identity: its public half and, zeroized on drop, an ML-DSA-65 seed and an
/// Ed25519 secret, both in base64.
pub struct HybridIdentity {
    pub public: PublicIdentity,
    pub ml_dsa_seed: SecretText,
    pub ed25519_secret: SecretText,
}

impl HybridIdentity {
    /// The base64 ML-DSA seed.
    pub open spec fn ml_dsa_seed_text(&self) -> Seq<char> {
        secret_text_chars(self.ml_dsa_seed)
    }

    /// The base64 Ed25519 secret.
    pub open spec fn ed25519_secret_text(&self) -> Seq<char> {
        secret_text_chars(self.ed25519_secret)
    }

    /// Whether the public half is the one the secrets derive: both secrets decode to 32 bytes,
    /// the algorithm is the hybrid one, both public keys decode to the keys the secrets derive
    /// (a 1952-byte ML-DSA key, a valid 32-byte Ed25519 key), and the key ID is their hash.
    pub open spec fn keys_match(&self) -> bool {
        match (base64url_bytes(self.ml_dsa_seed_text()), base64url_bytes(self.ed25519_secret_text())) {
            (Some(ml), Some(ed)) => {
                let ml_public = ml_dsa_65_public_key_of(ml);
                let ed_public = ed25519_public_key_of(ed);
                &&& ml.len() == 32
                &&& ed.len() == 32
                &&& ml_public.len() == 1952
                &&& ed_public.len() == 32
                &&& ed25519_public_key_valid(ed_public)
                &&& self.public.algorithm@ == hybrid_algorithm()
                &&& base64url_bytes(self.public.ml_dsa_65_public_key@) == Some(ml_public)
                &&& base64url_bytes(self.public.ed25519_public_key@) == Some(ed_public)
                &&& self.public.key_id@ == key_id_of(ml_public, ed_public)
            },
            _ => false,
        }
    }

    /// Generates a fresh identity for `subject` from the operating system's random source.
    pub fn generate(subject: &str) -> (id: Self)
        ensures
            id.public.subject@ == subject@,
            id.keys_match(),
            id.public.algorithm@ == hybrid_algorithm(),
            exists|ml: Seq<u8>, ed: Seq<u8>|
                {
                    &&& base64url_bytes(id.public.ml_dsa_65_public_key@) == Some(ml)
                    &&& base64url_bytes(id.public.ed25519_public_key@) == Some(ed)
                    &&& ml.len() == 1952
                    &&& ed.len() == 32
                    &&& #[trigger] key_id_of(ml, ed) == id.public.key_id@
                    &&& id.public.key_id@ == "sha256:"@ + lower_hex(sha256(ml + ed))
                },
            id.public.key_id@.len() == 71,
            validation_outcome(id.public@) is Ok <==> !is_blank(subject@),
    {
        let ml_seed = fresh_ml_dsa_65_seed();
        let ed_secret = fresh_secret_bytes();
        let ml_public = ml_dsa_65_public_key(ml_seed.as_slice());
        let ed_public = ed25519_public_key(ed_secret.as_slice());
        let both = concat_bytes(ml_public.as_slice(), ed_public.as_slice());
        let key_id = sha256_hex(both.as_slice());
        let ml_text = base64url_encode(ml_public.as_slice());
        let ed_text = base64url_encode(ed_public.as_slice());
        let seed_text = base64url_encode(ml_seed.as_slice());
        let secret_text = base64url_encode(ed_secret.as_slice());
        let id = HybridIdentity {
            public: PublicIdentity {
                key_id,
                subject: owned(subject),
                algorithm: hybrid_algorithm_name(),
                ml_dsa_65_public_key: ml_text,
                ed25519_public_key: ed_text,
            },
            ml_dsa_seed: SecretText::new(seed_text),
            ed25519_secret: SecretText::new(secret_text),
        };
        proof {
            assert(key_id_of(ml_public@, ed_public@) == id.public.key_id@);
            if !is_blank(subject@) {
                lemma_matching_keys_validate(id);
            }
        }
        id
    }

    /// An identity from its public half and its base64 secret material, as stored on disk.
    pub fn from_parts(public: PublicIdentity, ml_dsa_seed: String, ed25519_secret: String) -> (id: Self)
        ensures
            id.public == public,
            id.ml_dsa_seed_text() == ml_dsa_seed@,
            id.ed25519_secret_text() == ed25519_secret@,
    {
        HybridIdentity {
            public,
            ml_dsa_seed: SecretText::new(ml_dsa_seed),
            ed25519_secret: SecretText::new(ed25519_secret),
        }
    }

    /// The base64 secret material (ML-DSA seed, Ed25519 secret), for storage in a private file.
    pub fn private_material(&self) -> (parts: (&str, &str))
        ensures
            parts.0@ == self.ml_dsa_seed_text(),
            parts.1@ == self.ed25519_secret_text(),
    {
        (self.ml_dsa_seed.expose(), self.ed25519_secret.expose())
    }

    /// Signs `payload` with both keys. Where the secrets derive the public half, a signature
    /// that comes out verifies against the public half (provided its subject is not blank).
    pub fn sign(&self, payload: &[u8]) -> (r: Result<SignatureBundle, IdentityError>)
        ensures
            match r {
                Ok(b) => signing_outcome(
                    self.public@,
                    self.ml_dsa_seed_text(),
                    self.ed25519_secret_text(),
                    payload@,
                ) == Ok::<SignatureBundleView, IdentityError>(b@),
                Err(e) => signing_outcome(
                    self.public@,
                    self.ml_dsa_seed_text(),
                    self.ed25519_secret_text(),
                    payload@,
                ) == Err::<SignatureBundleView, IdentityError>(e),
            },
            self.keys_match() ==> r is Ok || r == Err::<SignatureBundle, IdentityError>(
                IdentityError::MlDsaSigningFailed,
            ),
            self.keys_match() && !is_blank(self.public.subject@) ==> (r matches Ok(b)
                ==> verification_outcome(self.public@, payload@, b@) == Ok::<(), IdentityError>(())),
    {
        let message = domain_message(payload);
        let ml_seed = decode_fixed(self.ml_dsa_seed.expose(), 32, Material::MlDsaSeed)?;
        let ml_signature = match ml_dsa_65_sign(ml_seed.as_slice(), message.as_slice()) {
            Some(signature) => signature,
            None => {
                return Err(IdentityError::MlDsaSigningFailed);
            },
        };
        let ed_secret = decode_fixed(self.ed25519_secret.expose(), 32, Material::Ed25519Secret)?;
        let ed_signature = ed25519_sign(ed_secret.as_slice(), message.as_slice());
        let bundle = SignatureBundle {
            algorithm: self.public.algorithm.clone(),
            key_id: self.public.key_id.clone(),
            ml_dsa_65: base64url_encode(ml_signature.as_slice()),
            ed25519: base64url_encode(ed_signature.as_slice()),
        };
        proof {
            if self.keys_match() && !is_blank(self.public.subject@) {
                let ml_public = ml_dsa_65_public_key_of(ml_seed@);
                let ed_public = ed25519_public_key_of(ed_secret@);
                assert(validation_outcome(self.public@) is Ok);
                assert(base64url_bytes(bundle.ml_dsa_65@) == Some(ml_signature@));
                assert(base64url_bytes(bundle.ed25519@) == Some(ed_signature@));
            }
        }
        Ok(bundle)
    }

    /// Checks that the secret material signs a probe message that the public half verifies.
    pub fn validate_private_material(&self) -> (r: Result<(), IdentityError>)
        ensures
            r is Ok <==> exists|b: SignatureBundleView|
                signing_outcome(
                    self.public@,
                    self.ml_dsa_seed_text(),
                    self.ed25519_secret_text(),
                    probe_payload(),
                ) == Ok::<SignatureBundleView, IdentityError>(b) && verification_outcome(
                    self.public@,
                    probe_payload(),
                    b,
                ) is Ok,
            self.keys_match() && !is_blank(self.public.subject@) ==> r is Ok || r == Err::<
                (),
                IdentityError,
            >(IdentityError::MlDsaSigningFailed),
    {
        let probe = probe_bytes();
        let signature = self.sign(probe.as_slice())?;
        proof {
            assert(signing_outcome(
                self.public@,
                self.ml_dsa_seed_text(),
                self.ed25519_secret_text(),
                probe_payload(),
            ) == Ok::<SignatureBundleView, IdentityError>(signature@));
        }
        self.public.verify(probe.as_slice(), &signature)
    }
}

/// The debug text of a public identity: each field's `Debug` text, in order.
pub open spec fn public_debug_text(p: PublicIdentityView) -> Seq<char> {
    "PublicIdentity { key_id: "@ + debug_quoted(p.key_id) + ", subject: "@ + debug_quoted(p.subject)
        + ", algorithm: "@ + debug_quoted(p.algorithm) + ", ml_dsa_65_public_key: "@ + debug_quoted(
        p.ml_dsa_65_public_key,
    ) + ", ed25519_public_key: "@ + debug_quoted(p.ed25519_public_key) + " }"@
}

impl PublicIdentity {
    /// The debug text of the identity.
    pub fn debug_text(&self) -> (s: String)
        ensures
            s@ == public_debug_text(self@),
    {
        let mut s = owned("PublicIdentity { key_id: ");
        let part = debug_str(self.key_id.as_str());
        append(&mut s, part.as_str());
        append(&mut s, ", subject: ");
        let part = debug_str(self.subject.as_str());
        append(&mut s, part.as_str());
        append(&mut s, ", algorithm: ");
        let part = debug_str(self.algorithm.as_str());
        append(&mut s, part.as_str());
        append(&mut s, ", ml_dsa_65_public_key: ");
        let part = debug_str(self.ml_dsa_65_public_key.as_str());
        append(&mut s, part.as_str());
        append(&mut s, ", ed25519_public_key: ");
        let part = debug_str(self.ed25519_public_key.as_str());
        append(&mut s, part.as_str());
        append(&mut s, " }");
        s
    }
}

impl HybridIdentity {
    /// The debug text of the identity: the public half, and the private material redacted.
    pub fn debug_text(&self) -> (s: String)
        ensures
            s@ == "HybridIdentity { public: "@ + public_debug_text(self.public@)
                + ", private_material: \"[REDACTED]\" }"@,
    {
        let mut s = owned("HybridIdentity { public: ");
        let public = self.public.debug_text();
        append(&mut s, public.as_str());
        append(&mut s, ", private_material: \"[REDACTED]\" }");
        s
    }
}

impl Clone for HybridIdentity {
    fn clone(&self) -> (r: Self)
        ensures
            r.public == self.public,
            r.ml_dsa_seed_text() == self.ml_dsa_seed_text(),
            r.ed25519_secret_text() == self.ed25519_secret_text(),
    {
        HybridIdentity {
            public: self.public.clone(),
            ml_dsa_seed: self.ml_dsa_seed.duplicate(),
            ed25519_secret: self.ed25519_secret.duplicate(),
        }
    }
}

/// The probe message that private material must sign: the bytes of `spacl-key-validation`.
pub open spec fn probe_payload() -> Seq<u8> {
    seq![115u8, 112, 97, 99, 108, 45, 107, 101, 121, 45, 118, 97, 108, 105, 100, 97, 116, 105, 111, 110]
}

fn probe_bytes() -> (b: Vec<u8>)
    ensures
        b@ == probe_payload(),
{
    let b: Vec<u8> = vec![115u8, 112, 97, 99, 108, 45, 107, 101, 121, 45, 118, 97, 108, 105, 100, 97, 116, 105, 111, 110];
    assert(b@ =~= probe_payload());
    b
}

/// An identity whose secrets derive its public half, with a non-blank subject, validates
/// (so a freshly generated identity for a non-blank subject validates).
pub proof fn lemma_matching_keys_validate(id: HybridIdentity)
    requires
        id.keys_match(),
        !is_blank(id.public.subject@),
    ensures
        validation_outcome(id.public@) is Ok,
{
}

/// A hybrid signature verifies only where both halves do: the identity validates, the bundle
/// names the identity's key ID, and both the ML-DSA-65 and the Ed25519 signature verify, under
/// the identity's public keys, on the domain-prefixed payload.
pub proof fn lemma_hybrid_verification_needs_both(
    id: PublicIdentityView,
    payload: Seq<u8>,
    signature: SignatureBundleView,
)
    requires
        verification_outcome(id, payload, signature) is Ok,
    ensures
        validation_outcome(id) is Ok,
        signature.key_id == id.key_id,
        signature.algorithm == hybrid_algorithm(),
        base64url_bytes(id.ml_dsa_65_public_key) is Some,
        base64url_bytes(id.ed25519_public_key) is Some,
        base64url_bytes(signature.ml_dsa_65) is Some,
        base64url_bytes(signature.ed25519) is Some,
        ml_dsa_65_accepts(
            base64url_bytes(id.ml_dsa_65_public_key)->Some_0,
            domain_message_of(payload),
            base64url_bytes(signature.ml_dsa_65)->Some_0,
        ),
        ed25519_accepts(
            base64url_bytes(id.ed25519_public_key)->Some_0,
            domain_message_of(payload),
            base64url_bytes(signature.ed25519)->Some_0,
        ),
{
}

/// A public identity validates exactly when its subject is not blank, its algorithm is
/// `ML-DSA-65+Ed25519`, its ML-DSA-65 key decodes to 1952 bytes and its Ed25519 key to a valid
/// 32-byte key, and its key ID is `sha256:` followed by the lower-case hex SHA-256 digest of
/// the ML-DSA-65 key bytes followed by the Ed25519 key bytes (in that order).
pub proof fn lemma_validation_iff(id: PublicIdentityView)
    ensures
        validation_outcome(id) is Ok <==> {
            &&& !is_blank(id.subject)
            &&& id.algorithm == "ML-DSA-65+Ed25519"@
            &&& base64url_bytes(id.ml_dsa_65_public_key) is Some
            &&& base64url_bytes(id.ed25519_public_key) is Some
            &&& base64url_bytes(id.ml_dsa_65_public_key)->Some_0.len() == 1952
            &&& base64url_bytes(id.ed25519_public_key)->Some_0.len() == 32
            &&& ed25519_public_key_valid(base64url_bytes(id.ed25519_public_key)->Some_0)
            &&& id.key_id == "sha256:"@ + lower_hex(
                sha256(
                    base64url_bytes(id.ml_dsa_65_public_key)->Some_0 + base64url_bytes(
                        id.ed25519_public_key,
                    )->Some_0,
                ),
            )
        },
{
}

} // verus!
