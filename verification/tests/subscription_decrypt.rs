use aes_gcm::aead::{Aead, KeyInit};
use aes_gcm::{Aes256Gcm, Key, Nonce};
use base64::engine::general_purpose::STANDARD;
use base64::Engine;
use hkdf::Hkdf;
use prfitem::headers::is_encrypted_response;
use prfitem::subscription_decrypt::{decrypt_subscription, DecryptError};
use sha2::Sha256;

const SALT: &[u8] = b"v2board-subscribe-key";
const INFO: &[u8] = b"aes-256-gcm-key";

fn encrypt_for(uuid: &str, iv: [u8; 12], plaintext: &[u8]) -> String {
    let hk = Hkdf::<Sha256>::new(Some(SALT), uuid.as_bytes());
    let mut key = [0u8; 32];
    hk.expand(INFO, &mut key).unwrap();
    let cipher = Aes256Gcm::new(Key::<Aes256Gcm>::from_slice(&key));
    let sealed = cipher.encrypt(Nonce::from_slice(&iv), plaintext).unwrap();
    let mut data = iv.to_vec();
    data.extend_from_slice(&sealed);
    STANDARD.encode(data)
}

#[test]
fn test_is_encrypted_response() {
    let mut headers = reqwest::header::HeaderMap::new();
    assert!(!is_encrypted_response(&headers));

    headers.insert("X-Encrypted", "1".parse().unwrap());
    assert!(is_encrypted_response(&headers));

    headers.insert("X-Encrypted", "0".parse().unwrap());
    assert!(!is_encrypted_response(&headers));
}

#[test]
fn test_decrypt_invalid_base64() {
    let result = decrypt_subscription("not-valid-base64!!!", "test-uuid");
    assert!(result.is_err());
    assert!(result.unwrap_err().message().contains("Base64"));
}

#[test]
fn test_decrypt_too_short() {
    let result = decrypt_subscription("YWJjZA==", "test-uuid"); // "abcd" = 4 bytes
    assert!(result.is_err());
    assert!(result.unwrap_err().message().contains("too short"));
}

#[test]
fn too_short_reports_both_lengths() {
    let err = decrypt_subscription("YWJjZA==", "test-uuid").unwrap_err();
    assert_eq!(err, DecryptError::TooShort { expected: 28, actual: 4 });
    assert_eq!(err.message(), "Encrypted data too short: expected at least 28 bytes, got 4");
}

#[test]
fn decrypts_what_was_encrypted_for_the_uuid() {
    let uuid = "123e4567-e89b-12d3-a456-426614174000";
    let text = "proxies: []\nrules: []\n";
    let encrypted = encrypt_for(uuid, [7u8; 12], text.as_bytes());
    assert_eq!(decrypt_subscription(&encrypted, uuid).unwrap(), text);
}

#[test]
fn surrounding_whitespace_is_ignored() {
    let uuid = "abc";
    let encrypted = encrypt_for(uuid, [1u8; 12], "订阅 data".as_bytes());
    let padded = format!("  \n{encrypted}\t \r\n");
    assert_eq!(decrypt_subscription(&padded, uuid).unwrap(), "订阅 data");
}

#[test]
fn wrong_uuid_fails_to_decrypt() {
    let encrypted = encrypt_for("right", [2u8; 12], b"secret");
    let err = decrypt_subscription(&encrypted, "wrong").unwrap_err();
    assert_eq!(err, DecryptError::DecryptionFailed);
    assert_eq!(err.message(), "Decryption failed: please verify UUID is correct");
}

#[test]
fn non_utf8_plaintext_is_refused() {
    let encrypted = encrypt_for("u", [3u8; 12], &[0xff, 0xfe, 0x00]);
    let err = decrypt_subscription(&encrypted, "u").unwrap_err();
    assert_eq!(err, DecryptError::InvalidUtf8);
}

#[test]
fn exactly_nonce_and_tag_decrypts_to_empty_text() {
    let encrypted = encrypt_for("u", [4u8; 12], b"");
    assert_eq!(STANDARD.decode(&encrypted).unwrap().len(), 28);
    assert_eq!(decrypt_subscription(&encrypted, "u").unwrap(), "");
}

#[test]
fn twenty_seven_bytes_are_too_short() {
    let encrypted = STANDARD.encode([0u8; 27]);
    assert_eq!(
        decrypt_subscription(&encrypted, "u").unwrap_err(),
        DecryptError::TooShort { expected: 28, actual: 27 }
    );
}

#[test]
fn encrypted_header_reads_first_value_only() {
    let mut headers = reqwest::header::HeaderMap::new();
    headers.append("x-encrypted", "0".parse().unwrap());
    headers.append("x-encrypted", "1".parse().unwrap());
    assert!(!is_encrypted_response(&headers));
    let mut headers = reqwest::header::HeaderMap::new();
    headers.insert("X-Encrypted", " 1".parse().unwrap());
    assert!(!is_encrypted_response(&headers));
}
