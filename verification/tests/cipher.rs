use base64::engine::general_purpose::URL_SAFE_NO_PAD;
use base64::Engine;
use pwdmngr::cipher::{
    checked_encryption_key, decrypt, decrypt_decoded, encrypt, encrypt_with_nonce,
    field_from_sealed, key_from_decoded,
    open_envelope, process_encryption_key, seal_field, text_from_opened,
};
use pwdmngr::derivation::generate_encryption_key;
use pwdmngr::encoding::VaultKey;
use pwdmngr::error::{CryptoError, ErrorKind};

const ZERO_KEY: &str = "AAAAAAAAAAAAAAAAAAAAAAAAAAAAAAAAAAAAAAAAAAA";
const COUNTING_KEY_WITH_SALT: &str =
    "AAAAAAAAAAAAAAAAAAAAAAABAgMEBQYHCAkKCwwNDg8QERITFBUWFxgZGhscHR4f";

fn sixteen_nul() -> String {
    String::from_utf8(vec![0u8; 16]).unwrap()
}

#[test]
fn round_trip_returns_the_plaintext() {
    let key = generate_encryption_key("Tr0ub4dor&3").unwrap();
    for text in ["hello", "p", "päss wörd ☃", "a much longer note\nwith two lines"] {
        let field = encrypt(text, "user-1", &key).unwrap();
        assert_eq!(decrypt(&field, &key).unwrap(), text);
    }
}

#[test]
fn round_trip_with_a_key_that_has_no_salt_prefix() {
    let field = encrypt("secret", "user-1", ZERO_KEY).unwrap();
    assert_eq!(decrypt(&field, ZERO_KEY).unwrap(), "secret");
}

#[test]
fn encrypted_field_is_nonce_ciphertext_and_tag() {
    let field = encrypt("hello", "user-1", ZERO_KEY).unwrap();
    let envelope = URL_SAFE_NO_PAD.decode(field.as_bytes()).unwrap();
    assert_eq!(envelope.len(), 12 + 5 + 16);
}

#[test]
fn encrypt_with_nonce_matches_the_published_vector() {
    let field = encrypt_with_nonce(&sixteen_nul(), "user-1", ZERO_KEY, &[0u8; 12]).unwrap();
    assert_eq!(field, "AAAAAAAAAAAAAAAAzqdAPU1ga24HTsXTuvOdGNDRyKeZmWvwJluYtdSKuRk");
}

#[test]
fn encrypt_with_nonce_on_a_short_text() {
    let field = encrypt_with_nonce("hello", "user-1", ZERO_KEY, &[0u8; 12]).unwrap();
    assert_eq!(field, "AAAAAAAAAAAAAAAApsIsUSKLkI9_Yv_Opqkvq-85v02T");
}

#[test]
fn encrypt_with_nonce_uses_the_last_32_bytes_of_the_key_material() {
    let nonce = [100u8, 101, 102, 103, 104, 105, 106, 107, 108, 109, 110, 111];
    let field =
        encrypt_with_nonce("päss wörd ☃", "user-1", COUNTING_KEY_WITH_SALT, &nonce).unwrap();
    assert_eq!(field, "ZGVmZ2hpamtsbW5vONh6FQrJIV2IEDvIOP3pmhi0agg0xdzZgoFtkZ7EbA");
    assert_eq!(decrypt(&field, COUNTING_KEY_WITH_SALT).unwrap(), "päss wörd ☃");
}

#[test]
fn encrypt_with_nonce_is_a_function_of_its_arguments() {
    let nonce = [7u8; 12];
    let first = encrypt_with_nonce("hello", "user-1", ZERO_KEY, &nonce).unwrap();
    let second = encrypt_with_nonce("hello", "user-2", ZERO_KEY, &nonce).unwrap();
    assert_eq!(first, second);
    let other = encrypt_with_nonce("hello", "user-1", ZERO_KEY, &[8u8; 12]).unwrap();
    assert_ne!(first, other);
}

#[test]
fn decrypt_a_stored_field() {
    let field = "AAAAAAAAAAAAAAAAzqdAPU1ga24HTsXTuvOdGNDRyKeZmWvwJluYtdSKuRk";
    assert_eq!(decrypt(field, ZERO_KEY).unwrap(), sixteen_nul());
    assert_eq!(
        decrypt("AAAAAAAAAAAAAAAApsIsUSKLkI9_Yv_Opqkvq-85v02T", ZERO_KEY).unwrap(),
        "hello"
    );
}

#[test]
fn flipping_any_bit_of_ciphertext_or_tag_is_detected() {
    let field = encrypt("hello", "user-1", ZERO_KEY).unwrap();
    let envelope = URL_SAFE_NO_PAD.decode(field.as_bytes()).unwrap();
    for position in 12..envelope.len() {
        for bit in 0..8 {
            let mut tampered = envelope.clone();
            tampered[position] ^= 1 << bit;
            let text = URL_SAFE_NO_PAD.encode(&tampered);
            assert_eq!(
                decrypt(&text, ZERO_KEY),
                Err(CryptoError::DecryptionError("Decryption failed".to_string()))
            );
        }
    }
}

#[test]
fn flipping_any_bit_of_the_nonce_is_detected() {
    let field = encrypt("hello", "user-1", ZERO_KEY).unwrap();
    let envelope = URL_SAFE_NO_PAD.decode(field.as_bytes()).unwrap();
    for position in 0..12 {
        for bit in 0..8 {
            let mut tampered = envelope.clone();
            tampered[position] ^= 1 << bit;
            let text = URL_SAFE_NO_PAD.encode(&tampered);
            assert!(matches!(decrypt(&text, ZERO_KEY), Err(CryptoError::DecryptionError(_))));
        }
    }
}

#[test]
fn a_truncated_field_is_refused() {
    let field = encrypt("hello", "user-1", ZERO_KEY).unwrap();
    let envelope = URL_SAFE_NO_PAD.decode(field.as_bytes()).unwrap();
    let text = URL_SAFE_NO_PAD.encode(&envelope[..envelope.len() - 1]);
    assert!(matches!(decrypt(&text, ZERO_KEY), Err(CryptoError::DecryptionError(_))));
}

#[test]
fn another_key_does_not_decrypt() {
    let first = generate_encryption_key("first password").unwrap();
    let second = generate_encryption_key("second password").unwrap();
    let field = encrypt("hello", "user-1", &first).unwrap();
    assert_eq!(
        decrypt(&field, &second),
        Err(CryptoError::DecryptionError("Decryption failed".to_string()))
    );
    assert_eq!(decrypt(&field, &first).unwrap(), "hello");
}

#[test]
fn two_encryptions_of_one_text_differ() {
    let first = encrypt("hello", "user-1", ZERO_KEY).unwrap();
    let second = encrypt("hello", "user-1", ZERO_KEY).unwrap();
    assert_ne!(first, second);
    assert_eq!(decrypt(&first, ZERO_KEY).unwrap(), "hello");
    assert_eq!(decrypt(&second, ZERO_KEY).unwrap(), "hello");
}

#[test]
fn encrypt_refuses_an_empty_text() {
    assert_eq!(
        encrypt("", "user-1", ZERO_KEY),
        Err(CryptoError::EncryptionError("Input cannot be empty".to_string()))
    );
    assert_eq!(
        encrypt_with_nonce("", "user-1", ZERO_KEY, &[0u8; 12]),
        Err(CryptoError::EncryptionError("Input cannot be empty".to_string()))
    );
}

#[test]
fn encrypt_refuses_an_empty_owner() {
    assert_eq!(
        encrypt("hello", "", ZERO_KEY),
        Err(CryptoError::EncryptionError("User ID cannot be empty".to_string()))
    );
}

#[test]
fn encrypt_checks_the_text_before_the_owner_and_the_key() {
    assert_eq!(
        encrypt("", "", ""),
        Err(CryptoError::EncryptionError("Input cannot be empty".to_string()))
    );
    assert_eq!(
        encrypt("hello", "", ""),
        Err(CryptoError::EncryptionError("User ID cannot be empty".to_string()))
    );
    assert_eq!(
        checked_encryption_key("hello", "user-1", "").err(),
        Some(CryptoError::EncryptionError("Encryption key cannot be empty".to_string()))
    );
}

#[test]
fn encrypt_refuses_a_bad_key() {
    assert_eq!(
        encrypt("hello", "user-1", ""),
        Err(CryptoError::EncryptionError("Encryption key cannot be empty".to_string()))
    );
    assert_eq!(
        encrypt("hello", "user-1", "AAAA"),
        Err(CryptoError::EncryptionError("Encryption key is too short".to_string()))
    );
    assert_eq!(
        encrypt("hello", "user-1", "not base64!"),
        Err(CryptoError::EncryptionError("Invalid Encryption key".to_string()))
    );
}

#[test]
fn the_refusal_of_a_key_says_nothing_of_the_key() {
    let keys = ["not base64!", "AAAA=", "%%%%", "AAAAB", "A", "s3cr3t key", "AAA\u{e4}"];
    for key in keys {
        let error = encrypt("hello", "user-1", key).unwrap_err();
        assert_eq!(error.kind(), ErrorKind::Encryption);
        assert_eq!(error.detail(), "Invalid Encryption key");
        assert_eq!(error.message(), "Encryption failed: Invalid Encryption key");
    }
    let field = encrypt("hello", "user-1", ZERO_KEY).unwrap();
    for key in keys {
        assert_eq!(
            decrypt(&field, key),
            Err(CryptoError::EncryptionError("Invalid Decryption key".to_string()))
        );
    }
}

#[test]
fn decrypt_refuses_an_empty_field() {
    assert_eq!(
        decrypt("", ZERO_KEY),
        Err(CryptoError::DecryptionError("Encrypted data cannot be empty".to_string()))
    );
}

#[test]
fn decrypt_refuses_a_field_of_twelve_bytes_or_fewer() {
    let too_short = Err(CryptoError::DecryptionError("Encrypted data is too short".to_string()));
    assert_eq!(decrypt("AAAAAAAAAAAAAAAA", ZERO_KEY), too_short);
    assert_eq!(decrypt("AAAA", ZERO_KEY), too_short);
    assert_eq!(decrypt("AA", ZERO_KEY), too_short);
}

#[test]
fn decrypt_of_thirteen_bytes_reaches_the_cipher() {
    assert_eq!(
        decrypt("AAAAAAAAAAAAAAAAAA", ZERO_KEY),
        Err(CryptoError::DecryptionError("Decryption failed".to_string()))
    );
}

#[test]
fn decrypt_refuses_text_that_is_not_base64() {
    for field in ["not base64!", "AAAA=", "%%%%", "A"] {
        assert_eq!(
            decrypt(field, ZERO_KEY),
            Err(CryptoError::DecryptionError("Invalid encrypted data".to_string()))
        );
    }
}

#[test]
fn decrypt_checks_the_field_before_the_key() {
    assert_eq!(
        decrypt("", ""),
        Err(CryptoError::DecryptionError("Encrypted data cannot be empty".to_string()))
    );
    assert_eq!(
        decrypt("AAAA", ""),
        Err(CryptoError::DecryptionError("Encrypted data is too short".to_string()))
    );
}

#[test]
fn decrypt_reports_a_bad_key_as_an_encryption_failure() {
    let field = encrypt("hello", "user-1", ZERO_KEY).unwrap();
    assert_eq!(
        decrypt(&field, ""),
        Err(CryptoError::EncryptionError("Decryption key cannot be empty".to_string()))
    );
    assert_eq!(
        decrypt(&field, "AAAA"),
        Err(CryptoError::EncryptionError("Decryption key is too short".to_string()))
    );
    assert_eq!(
        decrypt(&field, "***"),
        Err(CryptoError::EncryptionError("Invalid Decryption key".to_string()))
    );
}

#[test]
fn process_encryption_key_takes_the_last_32_bytes() {
    let key = process_encryption_key(COUNTING_KEY_WITH_SALT, true).unwrap();
    let expected: Vec<u8> = (0u8..32).collect();
    assert_eq!(key.as_bytes(), expected.as_slice());
    let bare = process_encryption_key(ZERO_KEY, false).unwrap();
    assert_eq!(bare.as_bytes(), [0u8; 32].as_slice());
}

#[test]
fn process_encryption_key_accepts_any_prefix_length() {
    for prefix in [0usize, 1, 8, 16, 33, 100] {
        let mut material = vec![0xABu8; prefix];
        material.extend(0u8..32);
        let text = URL_SAFE_NO_PAD.encode(&material);
        let key = process_encryption_key(&text, true).unwrap();
        let expected: Vec<u8> = (0u8..32).collect();
        assert_eq!(key.as_bytes(), expected.as_slice());
    }
}

#[test]
fn process_encryption_key_refuses_31_bytes() {
    let text = URL_SAFE_NO_PAD.encode([1u8; 31]);
    assert_eq!(
        process_encryption_key(&text, true).err(),
        Some(CryptoError::EncryptionError("Encryption key is too short".to_string()))
    );
}

#[test]
fn key_from_decoded_takes_the_tail_or_refuses() {
    assert_eq!(
        key_from_decoded(None, false).err(),
        Some(CryptoError::EncryptionError("Invalid Decryption key".to_string()))
    );
    assert_eq!(
        key_from_decoded(None, true).err(),
        Some(CryptoError::EncryptionError("Invalid Encryption key".to_string()))
    );
    assert_eq!(
        key_from_decoded(Some(vec![9u8; 31]), true).err(),
        Some(CryptoError::EncryptionError("Encryption key is too short".to_string()))
    );
    let key = key_from_decoded(Some(vec![9u8; 40]), true).unwrap();
    assert_eq!(key.as_bytes(), [9u8; 32].as_slice());
}

#[test]
fn text_from_opened_checks_authentication_and_utf8() {
    assert_eq!(
        text_from_opened(None),
        Err(CryptoError::DecryptionError("Decryption failed".to_string()))
    );
    assert_eq!(
        text_from_opened(Some(vec![0xff, 0xfe])),
        Err(CryptoError::DecryptionError("Decrypted data is not valid UTF-8".to_string()))
    );
    assert_eq!(text_from_opened(Some(vec![0xc3, 0xa4])), Ok("ä".to_string()));
    assert_eq!(text_from_opened(Some(vec![])), Ok(String::new()));
}

#[test]
fn decrypt_decoded_refuses_what_did_not_decode() {
    assert_eq!(
        decrypt_decoded(None, ZERO_KEY),
        Err(CryptoError::DecryptionError("Invalid encrypted data".to_string()))
    );
    assert_eq!(
        decrypt_decoded(Some(vec![0u8; 12]), ZERO_KEY),
        Err(CryptoError::DecryptionError("Encrypted data is too short".to_string()))
    );
}

#[test]
fn a_payload_shorter_than_a_tag_is_refused() {
    let failed = Err(CryptoError::DecryptionError("Decryption failed".to_string()));
    for len in 13..28 {
        assert_eq!(open_envelope(&vec![0u8; len], ZERO_KEY), failed);
        assert_eq!(decrypt_decoded(Some(vec![0u8; len]), ZERO_KEY), failed);
    }
    assert_eq!(decrypt(&"A".repeat(18), &"A".repeat(43)), failed);
    assert_eq!(
        open_envelope(&[0u8; 13], ""),
        Err(CryptoError::EncryptionError("Decryption key cannot be empty".to_string()))
    );
}

#[test]
fn a_field_has_the_shape_of_its_text() {
    for text in ["a", "hello", "p\u{e4}ss w\u{f6}rd", "0123456789abcdef0123456789abcdef!"] {
        let field = encrypt(text, "user-1", ZERO_KEY).unwrap();
        assert_eq!(field.len(), (4 * (text.len() + 28) + 2) / 3);
        assert!(field.chars().all(|c| c.is_ascii_alphanumeric() || c == '-' || c == '_'));
        let envelope = URL_SAFE_NO_PAD.decode(field.as_bytes()).unwrap();
        assert_eq!(envelope.len(), text.len() + 28);
        assert_eq!(decrypt(&field, ZERO_KEY).unwrap().len() + 28, envelope.len());
    }
}

#[test]
fn open_envelope_opens_what_seal_field_made() {
    let key = VaultKey::from_bytes(&[3u8; 32]).unwrap();
    let field = seal_field("hello", &key, &[1u8; 12]).unwrap();
    let envelope = URL_SAFE_NO_PAD.decode(field.as_bytes()).unwrap();
    assert_eq!(&envelope[..12], [1u8; 12].as_slice());
    let key_text = URL_SAFE_NO_PAD.encode([3u8; 32]);
    assert_eq!(open_envelope(&envelope, &key_text).unwrap(), "hello");
}

#[test]
fn an_empty_text_that_was_sealed_elsewhere_decrypts_to_nothing() {
    let key = VaultKey::from_bytes(&[0u8; 32]).unwrap();
    let field = seal_field("", &key, &[0u8; 12]).unwrap();
    assert_eq!(decrypt(&field, ZERO_KEY).unwrap(), "");
}

#[test]
fn field_from_sealed_frames_nonce_then_payload() {
    assert_eq!(
        field_from_sealed(None, &[0u8; 12]),
        Err(CryptoError::EncryptionError("Encryption failed!".to_string()))
    );
    let field = field_from_sealed(Some(vec![0xffu8; 3]), &[0u8; 12]).unwrap();
    assert_eq!(field, "AAAAAAAAAAAAAAAA____");
    let envelope = URL_SAFE_NO_PAD.decode(field.as_bytes()).unwrap();
    assert_eq!(envelope.len(), 15);
    assert_eq!(&envelope[12..], [0xffu8; 3].as_slice());
}

#[test]
fn the_field_begins_with_the_nonce_that_was_given() {
    let nonce = [1u8, 2, 3, 4, 5, 6, 7, 8, 9, 10, 11, 12];
    let field = encrypt_with_nonce("hello", "user-1", ZERO_KEY, &nonce).unwrap();
    let envelope = URL_SAFE_NO_PAD.decode(field.as_bytes()).unwrap();
    assert_eq!(&envelope[..12], nonce.as_slice());
    assert_eq!(envelope.len(), 12 + 5 + 16);
}
