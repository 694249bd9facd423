use pwdmngr::encoding::{
    action_word, bundle_key_material, frame_envelope, joined, key_from_material, split_envelope,
    VaultKey,
};
use pwdmngr::error::CryptoError;
use pwdmngr::primitives::{DIGEST_LEN, KEY_LEN, NONCE_LEN, TAG_LEN};

#[test]
fn lengths_of_the_scheme() {
    assert_eq!(KEY_LEN, 32);
    assert_eq!(NONCE_LEN, 12);
    assert_eq!(TAG_LEN, 16);
    assert_eq!(DIGEST_LEN, 32);
}

#[test]
fn joined_appends() {
    assert_eq!(joined(&[1, 2], &[3]), vec![1u8, 2, 3]);
    assert_eq!(joined(&[], &[3]), vec![3u8]);
    assert_eq!(joined(&[1], &[]), vec![1u8]);
    assert_eq!(joined(&[], &[]), Vec::<u8>::new());
}

#[test]
fn split_envelope_at_twelve() {
    let envelope: Vec<u8> = (1u8..=14).collect();
    let (nonce, payload) = split_envelope(&envelope).unwrap();
    assert_eq!(nonce, (1u8..=12).collect::<Vec<u8>>());
    assert_eq!(payload, vec![13u8, 14]);
}

#[test]
fn split_envelope_needs_thirteen_bytes() {
    let too_short = Err(CryptoError::DecryptionError("Encrypted data is too short".to_string()));
    assert_eq!(split_envelope(&[]), too_short);
    assert_eq!(split_envelope(&[0u8; 12]), too_short);
    let (nonce, payload) = split_envelope(&[5u8; 13]).unwrap();
    assert_eq!(nonce.len(), 12);
    assert_eq!(payload, vec![5u8]);
}

#[test]
fn split_undoes_frame() {
    let nonce = [9u8; 12];
    let sealed = [1u8, 2, 3, 4];
    let envelope = frame_envelope(&nonce, &sealed);
    assert_eq!(envelope.len(), 16);
    assert_eq!(split_envelope(&envelope), Ok((nonce.to_vec(), sealed.to_vec())));
}

#[test]
fn key_from_material_takes_the_tail() {
    let mut material = vec![0xEEu8; 16];
    material.extend(0u8..32);
    let key = key_from_material(&material, true).unwrap();
    assert_eq!(key.as_bytes(), (0u8..32).collect::<Vec<u8>>().as_slice());
    let exact = key_from_material(&[4u8; 32], false).unwrap();
    assert_eq!(exact.as_bytes(), [4u8; 32].as_slice());
}

#[test]
fn key_from_material_refuses_short_material() {
    assert_eq!(
        key_from_material(&[0u8; 31], true).err(),
        Some(CryptoError::EncryptionError("Encryption key is too short".to_string()))
    );
    assert_eq!(
        key_from_material(&[], false).err(),
        Some(CryptoError::EncryptionError("Decryption key is too short".to_string()))
    );
}

#[test]
fn key_of_a_bundle_is_the_key() {
    let key: Vec<u8> = (100u8..132).collect();
    for salt_len in [0usize, 16, 20] {
        let material = bundle_key_material(&vec![7u8; salt_len], &key);
        assert_eq!(material.len(), salt_len + 32);
        assert_eq!(key_from_material(&material, true).unwrap().as_bytes(), key.as_slice());
    }
}

#[test]
fn vault_key_has_32_bytes() {
    assert!(VaultKey::from_bytes(&[0u8; 31]).is_none());
    assert!(VaultKey::from_bytes(&[0u8; 33]).is_none());
    assert!(VaultKey::from_bytes(&[]).is_none());
    let key = VaultKey::from_bytes(&[8u8; 32]).unwrap();
    assert_eq!(key.as_bytes(), [8u8; 32].as_slice());
}

#[test]
fn action_words() {
    assert_eq!(action_word(true), "Encryption");
    assert_eq!(action_word(false), "Decryption");
}
