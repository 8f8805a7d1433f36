//! Decryption of encrypted subscriptions: AES-256-GCM with a key derived from
//! the user's UUID by HKDF-SHA256.

use aes_gcm::aead::Aead;
use aes_gcm::aead::KeyInit;
use aes_gcm::{Aes256Gcm, Key, Nonce};
use base64::engine::general_purpose::STANDARD;
use base64::Engine;
use hkdf::Hkdf;
use sha2::Sha256;
use vstd::prelude::*;
use vstd::utf8::*;
use crate::text::{decimal, push_decimal, trim, trimmed};

verus! {

/// Length of the AES-GCM nonce that starts the decoded data.
pub const IV_LENGTH: usize = 12;

/// Length of the AES-GCM authentication tag that ends the decoded data.
pub const TAG_LENGTH: usize = 16;

/// Shortest decoded data that can hold a nonce and a tag.
pub const MIN_CIPHERTEXT_LENGTH: usize = IV_LENGTH + TAG_LENGTH;

/// Length of the derived AES-256 key.
pub const KEY_LENGTH: usize = 32;

/// The HKDF salt of the subscription protocol, the ASCII text `v2board-subscribe-key`.
pub open spec fn hkdf_salt() -> Seq<u8> {
    seq![
        0x76u8, 0x32u8, 0x62u8, 0x6fu8, 0x61u8, 0x72u8, 0x64u8, 0x2du8, 0x73u8, 0x75u8, 0x62u8,
        0x73u8, 0x63u8, 0x72u8, 0x69u8, 0x62u8, 0x65u8, 0x2du8, 0x6bu8, 0x65u8, 0x79u8,
    ]
}

/// The HKDF info of the subscription protocol, the ASCII text `aes-256-gcm-key`.
pub open spec fn hkdf_info() -> Seq<u8> {
    seq![
        0x61u8, 0x65u8, 0x73u8, 0x2du8, 0x32u8, 0x35u8, 0x36u8, 0x2du8, 0x67u8, 0x63u8, 0x6du8,
        0x2du8, 0x6bu8, 0x65u8, 0x79u8,
    ]
}

fn bytes_of(bytes: &[u8]) -> (res: Vec<u8>)
    ensures
        res@ == bytes@,
{
    let mut res: Vec<u8> = Vec::new();
    let mut i: usize = 0;
    while i < bytes.len()
        invariant
            i <= bytes@.len(),
            res@ == bytes@.take(i as int),
        decreases bytes.len() - i,
    {
        res.push(bytes[i]);
        proof {
            assert(bytes@.take(i + 1) =~= bytes@.take(i as int).push(bytes@[i as int]));
        }
        i = i + 1;
    }
    proof {
        assert(bytes@.take(bytes@.len() as int) =~= bytes@);
    }
    res
}

fn hkdf_salt_bytes() -> (res: Vec<u8>)
    ensures
        res@ == hkdf_salt(),
{
    let salt: [u8; 21] = [
        0x76, 0x32, 0x62, 0x6f, 0x61, 0x72, 0x64, 0x2d, 0x73, 0x75, 0x62, 0x73, 0x63, 0x72, 0x69,
        0x62, 0x65, 0x2d, 0x6b, 0x65, 0x79,
    ];
    let res = bytes_of(&salt);
    assert(res@ =~= hkdf_salt());
    res
}

fn hkdf_info_bytes() -> (res: Vec<u8>)
    ensures
        res@ == hkdf_info(),
{
    let info: [u8; 15] = [
        0x61, 0x65, 0x73, 0x2d, 0x32, 0x35, 0x36, 0x2d, 0x67, 0x63, 0x6d, 0x2d, 0x6b, 0x65, 0x79,
    ];
    let res = bytes_of(&info);
    assert(res@ =~= hkdf_info());
    res
}

/// The output keying material of HKDF-SHA256 (RFC 5869) for `salt`, `ikm`, `info`,
/// `len` bytes long.
pub uninterp spec fn hkdf_sha256_okm(salt: Seq<u8>, ikm: Seq<u8>, info: Seq<u8>, len: nat) -> Seq<u8>;

/// The bytes that the standard, padded base64 engine decodes from `input`, or `None`
/// where it refuses the input.
pub uninterp spec fn base64_standard_decode(input: Seq<u8>) -> Option<Seq<u8>>;

/// The plaintext that AES-256-GCM recovers from `sealed` (ciphertext followed by the
/// tag) under `key` and `nonce` with empty associated data, or `None` where the tag
/// does not authenticate.
pub uninterp spec fn aes256gcm_open(key: Seq<u8>, nonce: Seq<u8>, sealed: Seq<u8>) -> Option<Seq<u8>>;

#[verifier::external_type_specification]
#[verifier::external_body]
pub struct ExInvalidLength(hkdf::InvalidLength);

#[verifier::external_type_specification]
#[verifier::external_body]
pub struct ExDecodeError(base64::DecodeError);

#[verifier::external_type_specification]
#[verifier::external_body]
pub struct ExAeadError(aes_gcm::Error);

#[verifier::external_type_specification]
#[verifier::external_body]
pub struct ExFromUtf8Error(std::string::FromUtf8Error);

/// `Hkdf::<Sha256>::new(Some(salt), ikm)` followed by `expand(info, okm)` into `len`
/// zeroed bytes. `expand` refuses exactly the outputs longer than 255 SHA-256 blocks
/// (8160 bytes); otherwise it fills all `len` bytes with the HKDF output.
#[verifier::external_body]
fn hkdf_sha256_expand(salt: &[u8], ikm: &[u8], info: &[u8], len: usize) -> (res: Result<
    Vec<u8>,
    hkdf::InvalidLength,
>)
    ensures
        res is Ok <==> len <= 8160,
        res matches Ok(okm) ==> okm@ == hkdf_sha256_okm(salt@, ikm@, info@, len as nat),
        res matches Ok(okm) ==> okm@.len() == len,
{
    let hk = Hkdf::<Sha256>::new(Some(salt), ikm);
    let mut okm = vec![0u8; len];
    match hk.expand(info, &mut okm) {
        Ok(()) => Ok(okm),
        Err(e) => Err(e),
    }
}

/// `STANDARD.decode(input)` of the base64 crate: the bytes named by
/// `base64_standard_decode`, or its error where that is `None`.
#[verifier::external_body]
fn base64_decode(input: &[u8]) -> (res: Result<Vec<u8>, base64::DecodeError>)
    ensures
        res is Ok <==> base64_standard_decode(input@) is Some,
        res matches Ok(data) ==> base64_standard_decode(input@) == Some(data@),
{
    STANDARD.decode(input)
}

/// `Aes256Gcm::new(Key::from_slice(key)).decrypt(Nonce::from_slice(nonce), sealed)`:
/// the plaintext named by `aes256gcm_open`, or the AEAD error where that is `None`.
/// `from_slice` panics on a key other than 32 bytes or a nonce other than 12 bytes.
#[verifier::external_body]
fn aes256gcm_decrypt(key: &[u8], nonce: &[u8], sealed: &[u8]) -> (res: Result<Vec<u8>, aes_gcm::Error>)
    requires
        key@.len() == 32,
        nonce@.len() == 12,
    ensures
        res is Ok <==> aes256gcm_open(key@, nonce@, sealed@) is Some,
        res matches Ok(plain) ==> aes256gcm_open(key@, nonce@, sealed@) == Some(plain@),
{
    let cipher = Aes256Gcm::new(Key::<Aes256Gcm>::from_slice(key));
    cipher.decrypt(Nonce::from_slice(nonce), sealed)
}

/// `String::from_utf8`: succeeds exactly on valid UTF-8, with the decoded characters.
#[verifier::external_body]
fn string_from_utf8(bytes: Vec<u8>) -> (res: Result<String, std::string::FromUtf8Error>)
    ensures
        res is Ok <==> valid_utf8(bytes@),
        res matches Ok(s) ==> s@ == decode_utf8(bytes@),
{
    String::from_utf8(bytes)
}

/// Why an encrypted subscription could not be decrypted.
#[derive(Debug, Clone, PartialEq, Eq, Structural)]
pub enum DecryptError {
    /// The key could not be derived from the UUID.
    KeyDerivation,
    /// The content is not valid base64.
    InvalidBase64,
    /// The decoded data cannot hold a nonce and a tag.
    TooShort { expected: usize, actual: usize },
    /// The tag does not authenticate: most often a wrong UUID.
    DecryptionFailed,
    /// The plaintext is not UTF-8.
    InvalidUtf8,
}

/// The AES key derived from a user's UUID.
pub open spec fn subscription_key(uuid: Seq<char>) -> Seq<u8> {
    hkdf_sha256_okm(hkdf_salt(), encode_utf8(uuid), hkdf_info(), KEY_LENGTH as nat)
}

/// What decrypting `encrypted_b64` with `uuid` yields: the base64 text is trimmed and
/// decoded; its first 12 bytes are the nonce and the rest the ciphertext with its tag;
/// the plaintext must be UTF-8.
pub open spec fn decrypted_subscription(encrypted_b64: Seq<char>, uuid: Seq<char>) -> Result<
    Seq<char>,
    DecryptError,
> {
    match base64_standard_decode(encode_utf8(trim(encrypted_b64))) {
        None => Err(DecryptError::InvalidBase64),
        Some(data) => if data.len() < MIN_CIPHERTEXT_LENGTH {
            Err(
                DecryptError::TooShort {
                    expected: MIN_CIPHERTEXT_LENGTH,
                    actual: data.len() as usize,
                },
            )
        } else {
            match aes256gcm_open(
                subscription_key(uuid),
                data.take(IV_LENGTH as int),
                data.skip(IV_LENGTH as int),
            ) {
                None => Err(DecryptError::DecryptionFailed),
                Some(plain) => if valid_utf8(plain) {
                    Ok(decode_utf8(plain))
                } else {
                    Err(DecryptError::InvalidUtf8)
                },
            }
        },
    }
}

/// Decrypts encrypted subscription content.
///
/// `encrypted_b64` is the base64 content as the server sent it; `uuid` is the user's
/// UUID, from which the key is derived.
pub fn decrypt_subscription(encrypted_b64: &str, uuid: &str) -> (res: Result<String, DecryptError>)
    ensures
        match res {
            Ok(plain) => decrypted_subscription(encrypted_b64@, uuid@) == Ok::<
                Seq<char>,
                DecryptError,
            >(plain@),
            Err(e) => decrypted_subscription(encrypted_b64@, uuid@) == Err::<Seq<char>, DecryptError>(
                e,
            ),
        },
{
    // 1. derive the key
    let salt = hkdf_salt_bytes();
    let info = hkdf_info_bytes();
    let key = match hkdf_sha256_expand(salt.as_slice(), uuid.as_bytes(), info.as_slice(), KEY_LENGTH) {
        Ok(key) => key,
        Err(_) => {
            return Err(DecryptError::KeyDerivation);
        },
    };
    // 2. decode the base64 text
    let text = trimmed(encrypted_b64);
    let mut data = match base64_decode(text.as_str().as_bytes()) {
        Ok(data) => data,
        Err(_) => {
            return Err(DecryptError::InvalidBase64);
        },
    };
    // 3. it must hold a nonce and a tag
    if data.len() < MIN_CIPHERTEXT_LENGTH {
        return Err(DecryptError::TooShort { expected: MIN_CIPHERTEXT_LENGTH, actual: data.len() });
    }
    // 4. nonce first, ciphertext with tag after it
    let ghost whole = data@;
    let sealed = data.split_off(IV_LENGTH);
    assert(data@ == whole.take(IV_LENGTH as int));
    assert(sealed@ == whole.skip(IV_LENGTH as int));
    // 5. decrypt
    let plain = match aes256gcm_decrypt(key.as_slice(), data.as_slice(), sealed.as_slice()) {
        Ok(plain) => plain,
        Err(_) => {
            return Err(DecryptError::DecryptionFailed);
        },
    };
    // 6. the plaintext is text
    match string_from_utf8(plain) {
        Ok(s) => Ok(s),
        Err(_) => Err(DecryptError::InvalidUtf8),
    }
}

/// The message that tells the user what went wrong.
pub open spec fn decrypt_error_message(e: DecryptError) -> Seq<char> {
    match e {
        DecryptError::KeyDerivation => "HKDF key derivation failed: invalid number of blocks, too large output"@,
        DecryptError::InvalidBase64 => "Failed to decode Base64: invalid subscription data"@,
        DecryptError::TooShort { expected, actual } => "Encrypted data too short: expected at least "@
            + decimal(expected as nat) + " bytes, got "@ + decimal(actual as nat),
        DecryptError::DecryptionFailed => "Decryption failed: please verify UUID is correct"@,
        DecryptError::InvalidUtf8 => "Failed to convert decrypted content to UTF-8"@,
    }
}

impl DecryptError {
    /// The message that tells the user what went wrong.
    pub fn message(&self) -> (res: String)
        ensures
            res@ == decrypt_error_message(*self),
    {
        match self {
            DecryptError::KeyDerivation => String::from_str(
                "HKDF key derivation failed: invalid number of blocks, too large output",
            ),
            DecryptError::InvalidBase64 => String::from_str(
                "Failed to decode Base64: invalid subscription data",
            ),
            DecryptError::TooShort { expected, actual } => {
                let mut s = String::from_str("Encrypted data too short: expected at least ");
                push_decimal(&mut s, *expected as u64);
                s.append(" bytes, got ");
                push_decimal(&mut s, *actual as u64);
                s
            },
            DecryptError::DecryptionFailed => String::from_str(
                "Decryption failed: please verify UUID is correct",
            ),
            DecryptError::InvalidUtf8 => String::from_str(
                "Failed to convert decrypted content to UTF-8",
            ),
        }
    }
}

/// Whitespace around the base64 content does not change what it decrypts to.
pub proof fn lemma_surrounding_whitespace_ignored(encrypted_b64: Seq<char>, uuid: Seq<char>)
    ensures
        decrypted_subscription(trim(encrypted_b64), uuid) == decrypted_subscription(
            encrypted_b64,
            uuid,
        ),
{
    crate::text::lemma_trim_idempotent(encrypted_b64);
}

/// Content that decodes to fewer bytes than a nonce and a tag is refused as too short,
/// whatever the UUID.
pub proof fn lemma_short_data_refused(encrypted_b64: Seq<char>, uuid: Seq<char>, data: Seq<u8>)
    requires
        base64_standard_decode(encode_utf8(trim(encrypted_b64))) == Some(data),
        data.len() < MIN_CIPHERTEXT_LENGTH,
    ensures
        decrypted_subscription(encrypted_b64, uuid) == Err::<Seq<char>, DecryptError>(
            DecryptError::TooShort { expected: MIN_CIPHERTEXT_LENGTH, actual: data.len() as usize },
        ),
{
}

/// Content that is not base64 is refused as such, whatever the UUID.
pub proof fn lemma_invalid_base64_refused(encrypted_b64: Seq<char>, uuid: Seq<char>)
    requires
        base64_standard_decode(encode_utf8(trim(encrypted_b64))) is None,
    ensures
        decrypted_subscription(encrypted_b64, uuid) == Err::<Seq<char>, DecryptError>(
            DecryptError::InvalidBase64,
        ),
{
}

} // verus!
