//! ML-KEM-768 primitives selected for future authenticated transport.
//!
//! This module does not create a secure channel. A transport protocol must bind endpoint
//! identities, transcripts, protocol versions, and derived traffic keys.
use vstd::prelude::*;

use crate::primitives::{
    fresh_secret_bytes, ml_kem_768_decapsulate, ml_kem_768_decapsulated, ml_kem_768_encapsulate_with,
    ml_kem_768_encapsulated,
    ml_kem_768_encapsulation_key_of, ml_kem_768_generate, ml_kem_768_key_accepted,
};
use crate::text::owned;

verus! {

/// The selected FIPS 203 parameter set for transport key establishment.
pub const ML_KEM_768_ALGORITHM: &'static str = "ML-KEM-768";

/// Secret bytes that are overwritten with zeros when dropped (held in `zeroize::Zeroizing`).
/// The struct is opaque to Verus: `Zeroizing` cannot be declared to it, since its parameter
/// is bounded by the outside trait `Zeroize`.
#[verifier::external_body]
pub struct SecretBytes {
    bytes: zeroize::Zeroizing<Vec<u8>>,
}

/// The bytes that a secret holds.
pub uninterp spec fn secret_bytes_of(secret: SecretBytes) -> Seq<u8>;

impl SecretBytes {
    /// `Zeroizing::new` of a copy of `bytes`.
    #[verifier::external_body]
    pub fn new(bytes: &[u8]) -> (secret: SecretBytes)
        ensures
            secret_bytes_of(secret) == bytes@,
    {
        SecretBytes { bytes: zeroize::Zeroizing::new(bytes.to_vec()) }
    }

    /// `Zeroizing::deref`: the secret bytes.
    #[verifier::external_body]
    pub fn expose(&self) -> (bytes: &[u8])
        ensures
            bytes@ == secret_bytes_of(*self),
    {
        self.bytes.as_slice()
    }
}

/// Why key establishment failed.
#[derive(Clone, Copy, Debug, PartialEq, Eq, Structural)]
pub enum KemError {
    InvalidSharedSecretLength,
    InvalidCiphertextLength,
    InvalidPublicKey,
}

/// The human-readable description of a key establishment error.
pub open spec fn kem_error_text(e: KemError) -> Seq<char> {
    match e {
        KemError::InvalidSharedSecretLength => "invalid ML-KEM-768 shared secret length"@,
        KemError::InvalidCiphertextLength => "invalid ML-KEM-768 ciphertext length"@,
        KemError::InvalidPublicKey => "invalid ML-KEM-768 public key"@,
    }
}

impl KemError {
    /// The human-readable description of the error.
    pub fn message(&self) -> (s: String)
        ensures
            s@ == kem_error_text(*self),
    {
        match self {
            KemError::InvalidSharedSecretLength => owned("invalid ML-KEM-768 shared secret length"),
            KemError::InvalidCiphertextLength => owned("invalid ML-KEM-768 ciphertext length"),
            KemError::InvalidPublicKey => owned("invalid ML-KEM-768 public key"),
        }
    }
}

/// A 32-byte shared secret produced by ML-KEM-768, zeroized when dropped.
pub struct MlKemSharedSecret {
    secret: SecretBytes,
}

impl MlKemSharedSecret {
    /// The secret bytes.
    pub closed spec fn bytes_view(&self) -> Seq<u8> {
        secret_bytes_of(self.secret)
    }

    fn from_slice(value: &[u8]) -> (r: Result<Self, KemError>)
        ensures
            match r {
                Ok(s) => value@.len() == 32 && s.bytes_view() == value@,
                Err(e) => value@.len() != 32 && e == KemError::InvalidSharedSecretLength,
            },
    {
        if value.len() != 32 {
            return Err(KemError::InvalidSharedSecretLength);
        }
        Ok(MlKemSharedSecret { secret: SecretBytes::new(value) })
    }

    /// Borrows the 32 secret bytes, as input to a key derivation function.
    pub fn as_bytes(&self) -> (bytes: &[u8])
        ensures
            bytes@ == self.bytes_view(),
    {
        self.secret.expose()
    }

    /// The debug text of a shared secret, which never shows the secret.
    pub fn debug_text(&self) -> (s: String)
        ensures
            s@ == "MlKemSharedSecret([REDACTED])"@,
    {
        owned("MlKemSharedSecret([REDACTED])")
    }
}

/// The ciphertext and sender-side secret from one ML-KEM-768 encapsulation.
pub struct MlKemEncapsulation {
    /// Send this ciphertext to the holder of the matching decapsulation key.
    pub ciphertext: Vec<u8>,
    /// Use this secret only as input to the transport key schedule.
    pub shared_secret: MlKemSharedSecret,
}

/// An in-memory ML-KEM-768 recipient key pair: the 64-byte seed of the decapsulation key,
/// zeroized when dropped, and the encoded encapsulation key.
pub struct MlKem768KeyPair {
    decapsulation_seed: SecretBytes,
    encapsulation_key: Vec<u8>,
}

impl MlKem768KeyPair {
    /// A decapsulation seed is 64 bytes long.
    #[verifier::type_invariant]
    closed spec fn inv(&self) -> bool {
        secret_bytes_of(self.decapsulation_seed).len() == 64
    }

    /// The seed of the decapsulation key.
    pub closed spec fn seed_view(&self) -> Seq<u8> {
        secret_bytes_of(self.decapsulation_seed)
    }

    /// The encoded encapsulation key.
    pub closed spec fn public_view(&self) -> Seq<u8> {
        self.encapsulation_key@
    }

    /// Generates a new key pair with the operating system's random source.
    pub fn generate() -> (pair: Self)
        ensures
            pair.seed_view().len() == 64,
            pair.public_view() == ml_kem_768_encapsulation_key_of(pair.seed_view()),
            pair.public_view().len() == 1184,
            ml_kem_768_key_accepted(pair.public_view()),
    {
        let (seed, key) = ml_kem_768_generate();
        MlKem768KeyPair { decapsulation_seed: SecretBytes::new(seed.as_slice()), encapsulation_key: key }
    }

    /// The debug text of a key pair, which never shows the private material.
    pub fn debug_text(&self) -> (s: String)
        ensures
            s@ == "MlKem768KeyPair { algorithm: \"ML-KEM-768\", private_material: \"[REDACTED]\" }"@,
    {
        owned("MlKem768KeyPair { algorithm: \"ML-KEM-768\", private_material: \"[REDACTED]\" }")
    }

    /// The encoded public encapsulation key.
    pub fn public_key_bytes(&self) -> (key: Vec<u8>)
        ensures
            key@ == self.public_view(),
    {
        self.encapsulation_key.clone()
    }

    /// Decapsulates one ciphertext. A ciphertext of the wrong length is refused; a correctly
    /// sized invalid ciphertext yields a pseudorandom secret (implicit rejection, FIPS 203).
    pub fn decapsulate(&self, ciphertext: &[u8]) -> (r: Result<MlKemSharedSecret, KemError>)
        ensures
            match r {
                Ok(s) => ciphertext@.len() == 1088 && s.bytes_view() == ml_kem_768_decapsulated(
                    self.seed_view(),
                    ciphertext@,
                ),
                Err(e) => ciphertext@.len() != 1088 && e == KemError::InvalidCiphertextLength,
            },
    {
        proof {
            use_type_invariant(self);
        }
        match ml_kem_768_decapsulate(self.decapsulation_seed.expose(), ciphertext) {
            Some(secret) => MlKemSharedSecret::from_slice(secret.as_slice()),
            None => Err(KemError::InvalidCiphertextLength),
        }
    }
}

/// Encapsulates to an ML-KEM-768 public key with the 32 message bytes `m`: the ciphertext and
/// the shared secret that this encapsulation gives; a key that is not accepted is refused.
pub fn encapsulate_ml_kem_768_with(public_key: &[u8], m: &[u8]) -> (r: Result<MlKemEncapsulation, KemError>)
    requires
        m@.len() == 32,
    ensures
        match r {
            Ok(enc) => ml_kem_768_key_accepted(public_key@) && public_key@.len() == 1184
                && (enc.ciphertext@, enc.shared_secret.bytes_view()) == ml_kem_768_encapsulated(
                public_key@,
                m@,
            ) && enc.ciphertext@.len() == 1088 && enc.shared_secret.bytes_view().len() == 32,
            Err(e) => !ml_kem_768_key_accepted(public_key@) && e == KemError::InvalidPublicKey,
        },
{
    match ml_kem_768_encapsulate_with(public_key, m) {
        None => Err(KemError::InvalidPublicKey),
        Some((ciphertext, secret)) => {
            let shared_secret = MlKemSharedSecret::from_slice(secret.as_slice())?;
            Ok(MlKemEncapsulation { ciphertext, shared_secret })
        },
    }
}

/// Encapsulates a fresh shared secret to an ML-KEM-768 public key: the message bytes come from
/// the operating system's random source, and the result is what encapsulating with them gives.
pub fn encapsulate_ml_kem_768(public_key: &[u8]) -> (r: Result<MlKemEncapsulation, KemError>)
    ensures
        match r {
            Ok(enc) => ml_kem_768_key_accepted(public_key@) && public_key@.len() == 1184
                && enc.ciphertext@.len() == 1088 && enc.shared_secret.bytes_view().len() == 32
                && exists|m: Seq<u8>|
                m.len() == 32 && (enc.ciphertext@, enc.shared_secret.bytes_view())
                    == #[trigger] ml_kem_768_encapsulated(public_key@, m),
            Err(e) => !ml_kem_768_key_accepted(public_key@) && e == KemError::InvalidPublicKey,
        },
{
    let m = fresh_secret_bytes();
    encapsulate_ml_kem_768_with(public_key, m.as_slice())
}

} // verus!
