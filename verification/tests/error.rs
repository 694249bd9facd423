use pwdmngr::error::{CryptoError, ErrorKind};

#[test]
fn messages_start_with_the_sentence_of_the_kind() {
    assert_eq!(
        CryptoError::HashingError("x".to_string()).message(),
        "Failed to hash password: x"
    );
    assert_eq!(
        CryptoError::KeyDerivationError("x".to_string()).message(),
        "Key derivation failed: x"
    );
    assert_eq!(CryptoError::EncryptionError("x".to_string()).message(), "Encryption failed: x");
    assert_eq!(CryptoError::DecryptionError("x".to_string()).message(), "Decryption failed: x");
    assert_eq!(CryptoError::VerifyError("x".to_string()).message(), "Verification failed: x");
}

#[test]
fn kinds_are_distinct() {
    let kinds = [
        ErrorKind::Hashing,
        ErrorKind::KeyDerivation,
        ErrorKind::Encryption,
        ErrorKind::Decryption,
        ErrorKind::Verify,
    ];
    for (i, a) in kinds.iter().enumerate() {
        for (j, b) in kinds.iter().enumerate() {
            assert_eq!(a == b, i == j);
        }
    }
}

#[test]
fn new_builds_the_variant_of_the_kind() {
    assert_eq!(
        CryptoError::new(ErrorKind::Hashing, "a".to_string()),
        CryptoError::HashingError("a".to_string())
    );
    assert_eq!(
        CryptoError::new(ErrorKind::KeyDerivation, "b".to_string()),
        CryptoError::KeyDerivationError("b".to_string())
    );
    assert_eq!(
        CryptoError::new(ErrorKind::Encryption, "c".to_string()),
        CryptoError::EncryptionError("c".to_string())
    );
    assert_eq!(
        CryptoError::new(ErrorKind::Decryption, "d".to_string()),
        CryptoError::DecryptionError("d".to_string())
    );
    assert_eq!(
        CryptoError::new(ErrorKind::Verify, "e".to_string()),
        CryptoError::VerifyError("e".to_string())
    );
}

#[test]
fn kind_and_detail_read_the_variant() {
    let error = CryptoError::VerifyError("stored hash unreadable".to_string());
    assert_eq!(error.kind(), ErrorKind::Verify);
    assert_eq!(error.detail(), "stored hash unreadable");
    let empty = CryptoError::DecryptionError(String::new());
    assert_eq!(empty.kind(), ErrorKind::Decryption);
    assert_eq!(empty.detail(), "");
    assert_eq!(empty.message(), "Decryption failed: ");
}
