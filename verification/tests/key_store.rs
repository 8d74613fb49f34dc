use pumpkin_net::key_store::{auth_digest, read_decrypted, EncryptionError, KeyStore};
use rsa::pkcs8::{DecodePrivateKey, DecodePublicKey, EncodePublicKey};
use rsa::traits::PublicKeyParts;
use rsa::{Pkcs1v15Encrypt, RsaPrivateKey, RsaPublicKey};
use sha1::Digest;

#[test]
fn test_property_rsa_key_minimum_2048_bits() {
    // Generate multiple keys to ensure consistency
    for _ in 0..5 {
        let key = KeyStore::generate_private_key();
        let key = RsaPrivateKey::from_pkcs8_der(&key).unwrap();
        let key_bits = key.n().bits();

        assert!(
            key_bits >= 2048,
            "RSA key length should be at least 2048 bits, but got {key_bits} bits",
        );
    }
}

#[test]
fn test_keystore_creates_valid_keys() {
    let keystore = KeyStore::new();

    // Verify private key has correct bit length
    let private_key = RsaPrivateKey::from_pkcs8_der(keystore.private_key()).unwrap();
    let key_bits = private_key.n().bits();
    assert!(
        key_bits >= 2048,
        "KeyStore private key should be at least 2048 bits, got {key_bits} bits",
    );
    assert_eq!(keystore.key_bits(), key_bits);

    // Verify public key DER is not empty
    assert!(
        !keystore.public_key_der().is_empty(),
        "Public key DER should not be empty"
    );
}

#[test]
fn test_decrypt_roundtrip() {
    let keystore = KeyStore::new();
    let original_data = b"test encryption data";

    // Encrypt with public key
    let public_key = RsaPublicKey::from_public_key_der(keystore.public_key_der()).unwrap();
    let mut rng = rand::rng();
    let encrypted = public_key
        .encrypt(&mut rng, Pkcs1v15Encrypt, original_data)
        .expect("Encryption should succeed");

    // Decrypt with private key
    let decrypted = keystore
        .decrypt(&encrypted)
        .expect("Decryption should succeed");

    assert_eq!(
        decrypted, original_data,
        "Decrypted data should match original"
    );
}

#[test]
fn public_key_belongs_to_the_private_key() {
    let keystore = KeyStore::new();
    let private_key = RsaPrivateKey::from_pkcs8_der(keystore.private_key()).unwrap();
    let public_key = private_key.to_public_key().to_public_key_der().unwrap();
    assert_eq!(keystore.public_key_der(), public_key.as_bytes());
}

#[test]
fn data_of_a_wrong_length_does_not_decrypt() {
    let keystore = KeyStore::new();
    for length in [0usize, 1, 255, 257] {
        let data = vec![1u8; length];
        assert_eq!(keystore.decrypt(&data), Err(EncryptionError::FailedDecrypt));
    }
}

#[test]
fn every_decryption_error_is_the_same() {
    assert_eq!(
        read_decrypted(Err(rsa::Error::Decryption)),
        Err(EncryptionError::FailedDecrypt)
    );
    assert_eq!(
        read_decrypted(Err(rsa::Error::Internal)),
        Err(EncryptionError::FailedDecrypt)
    );
    assert_eq!(read_decrypted(Ok(vec![1, 2])), Ok(vec![1, 2]));
}

#[test]
fn request_carries_the_public_key() {
    let keystore = KeyStore::new();
    let request = keystore.encryption_request("server", &[1, 2, 3, 4], true);
    assert_eq!(request.server_id, "server");
    assert_eq!(request.public_key, keystore.public_key_der());
    assert_eq!(request.verify_token, [1, 2, 3, 4]);
    assert!(request.should_authenticate);
}

#[test]
fn digests_of_known_names() {
    assert_eq!(
        auth_digest(&sha1::Sha1::digest(b"Notch")),
        "4ed1f46bbe04bc756bcb17c0c7ce3e4632f06a48"
    );
    assert_eq!(
        auth_digest(&sha1::Sha1::digest(b"jeb_")),
        "-7c9d5b0044c130109a5d7b5fb5c317c02b4e28c1"
    );
    assert_eq!(
        auth_digest(&sha1::Sha1::digest(b"simon")),
        "88e16a1019277b15d58faf0541e11910eb756f6"
    );
}

#[test]
fn digests_at_the_edges() {
    assert_eq!(auth_digest(&[]), "0");
    assert_eq!(auth_digest(&[0, 0]), "0");
    assert_eq!(auth_digest(&[0x7f]), "7f");
    assert_eq!(auth_digest(&[0x80]), "-80");
    assert_eq!(auth_digest(&[0xff]), "-1");
    assert_eq!(auth_digest(&[0xff, 0x00]), "-100");
    assert_eq!(auth_digest(&[0x00, 0xff]), "ff");
}

#[test]
fn digest_is_of_the_secret_and_the_public_key() {
    let keystore = KeyStore::new();
    let mut data = b"shared secret".to_vec();
    data.extend_from_slice(keystore.public_key_der());
    assert_eq!(
        keystore.get_digest(b"shared secret"),
        auth_digest(&sha1::Sha1::digest(&data))
    );
    assert_ne!(keystore.get_digest(b"other secret"), keystore.get_digest(b"shared secret"));
}

#[test]
fn different_digests_have_different_texts() {
    let mut texts: Vec<String> = Vec::new();
    for high in 0..=255u8 {
        for low in [0u8, 1, 127, 128, 255] {
            texts.push(auth_digest(&[high, low]));
        }
    }
    let count = texts.len();
    texts.sort();
    texts.dedup();
    assert_eq!(texts.len(), count);
}

#[test]
fn texts_of_digests_are_short() {
    assert_eq!(auth_digest(&[0x80; 20]).len(), 41);
    assert_eq!(auth_digest(&[0x7f; 20]).len(), 40);
    let keystore = KeyStore::new();
    for secret in 0..100u8 {
        assert!(keystore.get_digest(&[secret; 16]).len() <= 41);
    }
}

#[test]
fn digests_of_one_number_have_one_text() {
    assert_eq!(auth_digest(&[0x00, 0x7f]), auth_digest(&[0x7f]));
    assert_eq!(auth_digest(&[0xff, 0x80]), auth_digest(&[0x80]));
    assert_ne!(auth_digest(&[0x00, 0x80]), auth_digest(&[0x80]));
}
