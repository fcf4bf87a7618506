use base64::Engine;
use spacl::crypto::{
    Base64Fault,
    domain_message, hybrid_algorithm_name, sha256_hex, HybridIdentity, IdentityError, Material,
    PublicIdentity,
};

#[test]
fn sha256_hex_of_known_inputs() {
    assert_eq!(
        sha256_hex(b""),
        "sha256:e3b0c44298fc1c149afbf4c8996fb92427ae41e4649b934ca495991b7852b855"
    );
    assert_eq!(
        sha256_hex(b"abc"),
        "sha256:ba7816bf8f01cfea414140de5dae2223b00361a396177a9cb410ff61f20015ad"
    );
}

#[test]
fn signed_messages_carry_the_domain_prefix() {
    assert_eq!(domain_message(b"x"), b"SPACL-HYBRID-SIGNATURE-V1\0x".to_vec());
    assert_eq!(domain_message(b""), b"SPACL-HYBRID-SIGNATURE-V1\0".to_vec());
    assert_eq!(hybrid_algorithm_name(), "ML-DSA-65+Ed25519");
}

#[test]
fn generated_identity_validates_signs_and_verifies() {
    let identity = HybridIdentity::generate("robot-1");
    assert_eq!(identity.public.subject, "robot-1");
    assert_eq!(identity.public.algorithm, "ML-DSA-65+Ed25519");
    assert!(identity.public.key_id.starts_with("sha256:"));
    assert_eq!(identity.public.validate(), Ok(()));
    assert_eq!(identity.validate_private_material(), Ok(()));
    let signature = identity.sign(b"payload").unwrap();
    assert_eq!(signature.key_id, identity.public.key_id);
    assert_eq!(identity.public.verify(b"payload", &signature), Ok(()));
    assert_eq!(
        identity.public.verify(b"other payload", &signature),
        Err(IdentityError::MlDsaRejected)
    );
}

#[test]
fn identity_round_trips_through_its_stored_parts() {
    let identity = HybridIdentity::generate("robot-1");
    let (seed, secret) = identity.private_material();
    let restored =
        HybridIdentity::from_parts(identity.public.clone(), seed.to_string(), secret.to_string());
    assert_eq!(restored.validate_private_material(), Ok(()));
    let signature = restored.sign(b"hello").unwrap();
    assert_eq!(identity.public.verify(b"hello", &signature), Ok(()));
}

#[test]
fn mismatched_private_material_is_refused() {
    let identity = HybridIdentity::generate("robot-1");
    let other = HybridIdentity::generate("robot-1");
    let (seed, secret) = other.private_material();
    let mixed =
        HybridIdentity::from_parts(identity.public.clone(), seed.to_string(), secret.to_string());
    assert!(mixed.validate_private_material().is_err());
    let broken = HybridIdentity::from_parts(identity.public.clone(), "!!".into(), "".into());
    let err = broken.sign(b"x").unwrap_err();
    assert!(matches!(err, IdentityError::Undecodable(Material::MlDsaSeed, _)));
    assert_eq!(err.message(), "decode ML-DSA seed");
}

fn public(identity: &HybridIdentity) -> PublicIdentity {
    identity.public.clone()
}

#[test]
fn validation_reports_each_defect() {
    let identity = HybridIdentity::generate("robot-1");

    let mut blank = public(&identity);
    blank.subject = " \t".into();
    assert_eq!(blank.validate(), Err(IdentityError::EmptySubject));

    let mut algorithm = public(&identity);
    algorithm.algorithm = "Ed25519".into();
    assert_eq!(algorithm.validate(), Err(IdentityError::UnsupportedAlgorithm));

    let mut undecodable = public(&identity);
    undecodable.ml_dsa_65_public_key = "not base64!".into();
    let err = undecodable.validate().unwrap_err();
    assert!(matches!(err, IdentityError::Undecodable(Material::MlDsaPublicKey, _)));
    assert_eq!(err.message(), engine_error("not base64!"));

    let mut short = public(&identity);
    short.ed25519_public_key = "AAAA".into();
    assert_eq!(
        short.validate(),
        Err(IdentityError::WrongLength(Material::Ed25519PublicKey))
    );

    let mut key_id = public(&identity);
    key_id.key_id = "sha256:00".into();
    assert_eq!(key_id.validate(), Err(IdentityError::KeyIdMismatch));
}

#[test]
fn verification_reports_each_signature_defect() {
    let identity = HybridIdentity::generate("robot-1");
    let other = HybridIdentity::generate("robot-2");
    let signature = identity.sign(b"payload").unwrap();

    let foreign = other.sign(b"payload").unwrap();
    assert_eq!(
        identity.public.verify(b"payload", &foreign),
        Err(IdentityError::SignatureKeyMismatch)
    );

    let mut algorithm = signature.clone();
    algorithm.algorithm = "RSA".into();
    assert_eq!(
        identity.public.verify(b"payload", &algorithm),
        Err(IdentityError::UnsupportedSignatureAlgorithm)
    );

    let mut undecodable = signature.clone();
    undecodable.ml_dsa_65 = "***".into();
    let err = identity.public.verify(b"payload", &undecodable).unwrap_err();
    assert!(matches!(err, IdentityError::Undecodable(Material::MlDsaSignature, _)));
    assert_eq!(err.message(), engine_error("***"));

    let mut garbage = signature.clone();
    garbage.ml_dsa_65 = "AAAA".into();
    assert_eq!(
        identity.public.verify(b"payload", &garbage),
        Err(IdentityError::InvalidMlDsaSignature)
    );

    // The ML-DSA half is right, the Ed25519 half belongs to another message.
    let elsewhere = identity.sign(b"elsewhere").unwrap();
    let mut spliced = signature.clone();
    spliced.ed25519 = elsewhere.ed25519.clone();
    assert_eq!(
        identity.public.verify(b"payload", &spliced),
        Err(IdentityError::Ed25519Rejected)
    );

    let mut short = signature.clone();
    short.ed25519 = "AAAA".into();
    assert_eq!(
        identity.public.verify(b"payload", &short),
        Err(IdentityError::WrongLength(Material::Ed25519Signature))
    );
    assert_eq!(
        IdentityError::WrongLength(Material::Ed25519Signature).message(),
        "signature error"
    );
}

#[test]
fn identity_errors_describe_themselves() {
    assert_eq!(IdentityError::EmptySubject.message(), "identity subject is empty");
    assert_eq!(
        IdentityError::Undecodable(Material::MlDsaSeed, Base64Fault::InvalidPadding).message(),
        "decode ML-DSA seed"
    );
    assert_eq!(
        IdentityError::Undecodable(Material::MlDsaSignature, Base64Fault::InvalidByte(3, 32))
            .message(),
        "Invalid symbol 32, offset 3."
    );
    assert_eq!(Base64Fault::InvalidLength(5).message(), "Invalid input length: 5");
    assert_eq!(
        Base64Fault::InvalidLastSymbol(2, 66).message(),
        "Invalid last symbol 66, offset 2."
    );
    assert_eq!(
        IdentityError::InvalidEd25519PublicKey.message(),
        "signature error: Cannot decompress Edwards point"
    );
    assert_eq!(
        IdentityError::WrongLength(Material::Ed25519PublicKey).message(),
        "invalid Ed25519 public key length"
    );
    assert_eq!(
        IdentityError::KeyIdMismatch.message(),
        "identity key ID does not match the public keys"
    );
    assert_eq!(Material::Ed25519Signature.label(), "Ed25519 signature");
}

#[test]
fn debug_text_shows_the_public_half_and_redacts_secrets() {
    let identity = HybridIdentity::generate("robot \"1\"");
    let text = identity.debug_text();
    assert_eq!(
        text,
        format!(
            "HybridIdentity {{ public: {:?}, private_material: \"[REDACTED]\" }}",
            identity.public
        )
    );
    assert_eq!(identity.public.debug_text(), format!("{:?}", identity.public));
    let (seed, secret) = identity.private_material();
    assert!(!text.contains(seed));
    assert!(!text.contains(secret));
    assert!(text.contains("robot \\\"1\\\""));
}

/// The text the base64 engine gives for the error of decoding `text`.
fn engine_error(text: &str) -> String {
    base64::engine::general_purpose::URL_SAFE_NO_PAD.decode(text).unwrap_err().to_string()
}

#[test]
fn decoding_errors_carry_the_engine_text() {
    for text in ["a", "ab!d", "AB==", "AAB"] {
        let mut public = HybridIdentity::generate("robot-1").public.clone();
        public.ml_dsa_65_public_key = text.into();
        match public.validate() {
            Err(e @ IdentityError::Undecodable(Material::MlDsaPublicKey, _)) => {
                assert_eq!(e.message(), engine_error(text))
            }
            other => panic!("unexpected {other:?} for {text}"),
        }
    }
}

#[test]
fn generated_identities_validate_unless_the_subject_is_blank() {
    let blank = HybridIdentity::generate(" \u{3000}");
    assert_eq!(blank.public.validate(), Err(IdentityError::EmptySubject));
    let named = HybridIdentity::generate("robot-7");
    assert_eq!(named.public.validate(), Ok(()));
    assert_eq!(named.public.key_id.len(), 71);
}

#[test]
fn an_ed25519_key_off_the_curve_reports_the_library_text() {
    let mut bytes = [0u8; 32];
    let error = (0u8..=255)
        .find_map(|b| {
            bytes[0] = b;
            ed25519_dalek::VerifyingKey::from_bytes(&bytes).err()
        })
        .expect("a point that does not decompress");
    let mut public = HybridIdentity::generate("robot-1").public.clone();
    public.ed25519_public_key = base64::engine::general_purpose::URL_SAFE_NO_PAD.encode(bytes);
    let err = public.validate().unwrap_err();
    assert_eq!(err, IdentityError::InvalidEd25519PublicKey);
    assert_eq!(err.message(), error.to_string());
}
