use ml_kem::kem::TryKeyInit;
use spacl::key_establishment::{encapsulate_ml_kem_768, KemError, MlKem768KeyPair, ML_KEM_768_ALGORITHM};

#[test]
fn ml_kem_768_establishes_the_same_shared_secret() {
    let recipient = MlKem768KeyPair::generate();
    let public_key = recipient.public_key_bytes();
    let sender = encapsulate_ml_kem_768(&public_key).expect("encapsulate");
    let receiver = recipient
        .decapsulate(&sender.ciphertext)
        .expect("decapsulate");

    assert_eq!(public_key.len(), 1_184);
    assert_eq!(sender.ciphertext.len(), 1_088);
    assert_eq!(sender.shared_secret.as_bytes(), receiver.as_bytes());
    assert_eq!(
        sender.shared_secret.debug_text(),
        "MlKemSharedSecret([REDACTED])"
    );
}

#[test]
fn ml_kem_768_rejects_incorrect_lengths() {
    let recipient = MlKem768KeyPair::generate();

    assert!(encapsulate_ml_kem_768(&[0_u8; 32]).is_err());
    assert!(recipient.decapsulate(&[0_u8; 32]).is_err());
}

#[test]
fn ml_kem_errors_name_what_was_wrong() {
    let recipient = MlKem768KeyPair::generate();
    assert!(matches!(encapsulate_ml_kem_768(&[]), Err(KemError::InvalidPublicKey)));
    assert!(matches!(recipient.decapsulate(&[0_u8; 1_089]), Err(KemError::InvalidCiphertextLength)));
    assert_eq!(KemError::InvalidPublicKey.message(), "invalid ML-KEM-768 public key");
    assert_eq!(ML_KEM_768_ALGORITHM, "ML-KEM-768");
}

#[test]
fn secret_is_32_bytes_and_differs_between_encapsulations() {
    let recipient = MlKem768KeyPair::generate();
    let public_key = recipient.public_key_bytes();
    let first = encapsulate_ml_kem_768(&public_key).unwrap();
    let second = encapsulate_ml_kem_768(&public_key).unwrap();
    assert_eq!(first.shared_secret.as_bytes().len(), 32);
    assert_ne!(first.ciphertext, second.ciphertext);
    let a = recipient.decapsulate(&first.ciphertext).unwrap();
    let b = recipient.decapsulate(&second.ciphertext).unwrap();
    assert_eq!(a.as_bytes(), first.shared_secret.as_bytes());
    assert_eq!(b.as_bytes(), second.shared_secret.as_bytes());
}

#[test]
fn key_pair_debug_text_redacts_the_private_material() {
    let recipient = MlKem768KeyPair::generate();
    assert_eq!(
        recipient.debug_text(),
        "MlKem768KeyPair { algorithm: \"ML-KEM-768\", private_material: \"[REDACTED]\" }"
    );
}

#[test]
fn encapsulation_with_given_message_bytes_is_deterministic() {
    let recipient = MlKem768KeyPair::generate();
    let public_key = recipient.public_key_bytes();
    let m = [7u8; 32];
    let first = spacl::key_establishment::encapsulate_ml_kem_768_with(&public_key, &m).unwrap();
    let again = spacl::key_establishment::encapsulate_ml_kem_768_with(&public_key, &m).unwrap();
    assert_eq!(first.ciphertext, again.ciphertext);
    assert_eq!(first.shared_secret.as_bytes(), again.shared_secret.as_bytes());
    let other = spacl::key_establishment::encapsulate_ml_kem_768_with(&public_key, &[8u8; 32]).unwrap();
    assert_ne!(first.ciphertext, other.ciphertext);
    let key = ml_kem::EncapsulationKey768::new_from_slice(&public_key).unwrap();
    let (ciphertext, secret) = key.encapsulate_deterministic(&ml_kem::B32::from(m));
    assert_eq!(first.ciphertext, ciphertext.to_vec());
    assert_eq!(first.shared_secret.as_bytes(), secret.as_slice());
    let received = recipient.decapsulate(&first.ciphertext).unwrap();
    assert_eq!(received.as_bytes(), first.shared_secret.as_bytes());
    assert!(matches!(
        spacl::key_establishment::encapsulate_ml_kem_768_with(&[0u8; 10], &m),
        Err(KemError::InvalidPublicKey)
    ));
}
