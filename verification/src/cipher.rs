//! Authenticated encryption of single fields with AES-256-GCM. A field is
//! stored as the URL-safe base64 text of a fresh 12-byte nonce followed by
//! the ciphertext and its 16-byte tag. The owner's identifier is asked for
//! and must not be empty, but it is not bound into the ciphertext.

use crate::encoding::{
    action_name, action_word, decryption_failure, encryption_failure, envelope_parts,
    frame_envelope, key_from_material, key_outcome, lemma_material_key_same_for_both,
    lemma_split_of_frame, material_key, split_envelope, VaultKey,
};
use crate::error::{text_outcome, CryptoError, ErrorKind, Failure};
use crate::primitives::{
    aes256_gcm_opened, aes256_gcm_sealed, base64url_decoded, base64url_encoded, decode_base64url,
    decodes_to, encode_base64url, in_base64url_alphabet, open_aes256_gcm, optional_bytes,
    random_array, seal_aes256_gcm, text_from_utf8, NONCE_LEN, TAG_LEN,
};
use vstd::prelude::*;
use vstd::string::*;
use vstd::utf8::*;

verus! {

/// The key that a decoding of an encoded key material leads to: the
/// material's last 32 bytes. The refusal of a text that did not decode says
/// nothing of the text.
pub open spec fn decoded_key(decoded: Option<Seq<u8>>, for_encryption: bool) -> Result<
    Seq<u8>,
    Failure,
> {
    match decoded {
        None => Err(encryption_failure("Invalid "@ + action_name(for_encryption) + " key"@)),
        Some(material) => material_key(material, for_encryption),
    }
}

/// The key that an encoded key material stands for. Every refusal is of
/// kind `Encryption`, also where the key was wanted for decryption.
pub open spec fn unwrapped_key(encryption_key: Seq<char>, for_encryption: bool) -> Result<
    Seq<u8>,
    Failure,
> {
    if encryption_key.len() == 0 {
        Err(encryption_failure(action_name(for_encryption) + " key cannot be empty"@))
    } else {
        decoded_key(base64url_decoded(encryption_key), for_encryption)
    }
}

/// The text that opened bytes stand for: they must have authenticated, and
/// they must be valid UTF-8.
pub open spec fn opened_text(opened: Option<Seq<u8>>) -> Result<Seq<char>, Failure> {
    match opened {
        None => Err(decryption_failure("Decryption failed"@)),
        Some(bytes) => if valid_utf8(bytes) {
            Ok(decode_utf8(bytes))
        } else {
            Err(decryption_failure("Decrypted data is not valid UTF-8"@))
        },
    }
}

/// The text that a decoded envelope holds under an encoded key. A payload
/// shorter than a tag cannot authenticate.
pub open spec fn envelope_text(envelope: Seq<u8>, encryption_key: Seq<char>) -> Result<
    Seq<char>,
    Failure,
> {
    match envelope_parts(envelope) {
        Err(failure) => Err(failure),
        Ok(parts) => match unwrapped_key(encryption_key, false) {
            Err(failure) => Err(failure),
            Ok(key) => if parts.1.len() < TAG_LEN {
                opened_text(None)
            } else {
                opened_text(aes256_gcm_opened(key, parts.0, parts.1))
            },
        },
    }
}

/// The text that a decoding of an encrypted field leads to under an encoded
/// key.
pub open spec fn decoded_text(decoded: Option<Seq<u8>>, encryption_key: Seq<char>) -> Result<
    Seq<char>,
    Failure,
> {
    match decoded {
        None => Err(decryption_failure("Invalid encrypted data"@)),
        Some(envelope) => envelope_text(envelope, encryption_key),
    }
}

/// What decrypting an encrypted field under an encoded key gives.
pub open spec fn decrypted(encrypted_data: Seq<char>, encryption_key: Seq<char>) -> Result<
    Seq<char>,
    Failure,
> {
    if encrypted_data.len() == 0 {
        Err(decryption_failure("Encrypted data cannot be empty"@))
    } else {
        decoded_text(base64url_decoded(encrypted_data), encryption_key)
    }
}

/// The key under which a field is encrypted, once the inputs are accepted:
/// neither the text nor the owner's identifier may be empty.
pub open spec fn encryption_key_for(
    input: Seq<char>,
    user_id: Seq<char>,
    encryption_key: Seq<char>,
) -> Result<Seq<u8>, Failure> {
    if input.len() == 0 {
        Err(encryption_failure("Input cannot be empty"@))
    } else if user_id.len() == 0 {
        Err(encryption_failure("User ID cannot be empty"@))
    } else {
        unwrapped_key(encryption_key, true)
    }
}

/// The encrypted field made of a nonce and what sealing under it gave.
pub open spec fn sealed_field(sealed: Option<Seq<u8>>, nonce: Seq<u8>) -> Result<
    Seq<char>,
    Failure,
> {
    match sealed {
        None => Err(encryption_failure("Encryption failed!"@)),
        Some(payload) => Ok(base64url_encoded(nonce + payload)),
    }
}

/// What encrypting a text under an encoded key gives when the given nonce
/// is drawn.
pub open spec fn encrypted_with(
    input: Seq<char>,
    user_id: Seq<char>,
    encryption_key: Seq<char>,
    nonce: Seq<u8>,
) -> Result<Seq<char>, Failure> {
    match encryption_key_for(input, user_id, encryption_key) {
        Err(failure) => Err(failure),
        Ok(key) => sealed_field(aes256_gcm_sealed(key, nonce, encode_utf8(input)), nonce),
    }
}

/// Whether an outcome is one that encrypting a text under an encoded key may
/// have: the refusal of the inputs; or, once they are accepted, the failure
/// to draw a nonce, or what encrypting gives with some 12-byte nonce.
pub open spec fn encryption_allows(
    input: Seq<char>,
    user_id: Seq<char>,
    encryption_key: Seq<char>,
    outcome: Result<Seq<char>, Failure>,
) -> bool {
    match encryption_key_for(input, user_id, encryption_key) {
        Err(failure) => outcome == Err::<Seq<char>, Failure>(failure),
        Ok(_) => {
            ||| outcome == Err::<Seq<char>, Failure>(
                encryption_failure("Failed to generate nonce"@),
            )
            ||| exists|nonce: Seq<u8>|
                nonce.len() == NONCE_LEN && outcome == #[trigger] encrypted_with(
                    input,
                    user_id,
                    encryption_key,
                    nonce,
                )
        },
    }
}

/// Whether an encrypted field is the well-formed envelope of a sealing that
/// opens, under the key, to the given text.
pub open spec fn field_opens_to(field: Seq<char>, key: Seq<u8>, text: Seq<char>) -> bool {
    &&& field.len() > 0
    &&& base64url_decoded(field) matches Some(envelope) && envelope_parts(envelope) matches Ok(
        parts,
    ) && parts.1.len() >= TAG_LEN && aes256_gcm_opened(key, parts.0, parts.1) == Some(
        encode_utf8(text),
    )
}

/// Whether an encrypted field has the shape of one that holds a text of
/// `text_len` bytes: it is the unpadded URL-safe base64 text of the 12 bytes
/// of the nonce, as many bytes of ciphertext as the text has, and the 16
/// bytes of the tag.
pub open spec fn field_shape(field: Seq<char>, text_len: int) -> bool {
    &&& field.len() == (4 * (text_len + NONCE_LEN + TAG_LEN) + 2) / 3
    &&& in_base64url_alphabet(field)
    &&& base64url_decoded(field) matches Some(envelope) && envelope.len() == text_len + NONCE_LEN
        + TAG_LEN
}

/// Whether a failure is one of the two that an encryption with accepted
/// inputs can end in: no nonce could be drawn, or the cipher refused.
pub open spec fn sealing_failure(failure: Failure) -> bool {
    ||| failure == encryption_failure("Failed to generate nonce"@)
    ||| failure == encryption_failure("Encryption failed!"@)
}

/// An encryption whose inputs are accepted fails only in the drawing of the
/// nonce or in the sealing.
pub proof fn lemma_accepted_inputs_fail_only_in_sealing(
    input: Seq<char>,
    user_id: Seq<char>,
    encryption_key: Seq<char>,
    failure: Failure,
)
    requires
        encryption_key_for(input, user_id, encryption_key) is Ok,
        encryption_allows(input, user_id, encryption_key, Err(failure)),
    ensures
        sealing_failure(failure),
{
}

/// Whether an encrypted field is the text of a well-formed envelope that
/// begins with the given nonce.
pub open spec fn field_carries_nonce(field: Seq<char>, nonce: Seq<u8>) -> bool {
    base64url_decoded(field) matches Some(envelope) && envelope_parts(envelope) matches Ok(parts)
        && parts.0 == nonce
}

/// Two encrypted fields that carry different nonces are different texts: as
/// long as no nonce is drawn twice, no two encryptions give the same field.
pub proof fn lemma_fields_with_distinct_nonces_differ(
    first: Seq<char>,
    first_nonce: Seq<u8>,
    second: Seq<char>,
    second_nonce: Seq<u8>,
)
    requires
        field_carries_nonce(first, first_nonce),
        field_carries_nonce(second, second_nonce),
        first_nonce != second_nonce,
    ensures
        first != second,
{
}

/// An encoded key material stands for the same key whether it is wanted for
/// encryption or for decryption.
pub proof fn lemma_key_same_for_both(encryption_key: Seq<char>)
    ensures
        unwrapped_key(encryption_key, true) is Ok <==> unwrapped_key(encryption_key, false) is Ok,
        unwrapped_key(encryption_key, true) is Ok ==> unwrapped_key(encryption_key, true)
            == unwrapped_key(encryption_key, false),
{
    if encryption_key.len() > 0 {
        match base64url_decoded(encryption_key) {
            Some(material) => {
                lemma_material_key_same_for_both(material);
            },
            None => {},
        }
    }
}

/// A field that opens to a text under a key decrypts to that text under
/// every encoded key material that stands for the key.
pub proof fn lemma_opening_field_decrypts(
    field: Seq<char>,
    key: Seq<u8>,
    text: Seq<char>,
    encryption_key: Seq<char>,
)
    requires
        field_opens_to(field, key, text),
        unwrapped_key(encryption_key, false) matches Ok(found) && found == key,
    ensures
        decrypted(field, encryption_key) matches Ok(plain) && plain == text,
{
    encode_utf8_valid_utf8(text);
    encode_utf8_decode_utf8(text);
}

/// An empty field is refused before anything else is looked at, and so is
/// an empty text.
pub proof fn lemma_empty_inputs_are_refused(user_id: Seq<char>, encryption_key: Seq<char>)
    ensures
        decrypted(Seq::empty(), encryption_key) == Err::<Seq<char>, Failure>(
            decryption_failure("Encrypted data cannot be empty"@),
        ),
        encryption_key_for(Seq::empty(), user_id, encryption_key) == Err::<Seq<u8>, Failure>(
            encryption_failure("Input cannot be empty"@),
        ),
        forall|nonce: Seq<u8>|
            #[trigger] encrypted_with(Seq::empty(), user_id, encryption_key, nonce) == Err::<
                Seq<char>,
                Failure,
            >(encryption_failure("Input cannot be empty"@)),
{
}

/// An envelope of 12 bytes or fewer is refused as too short, whatever the
/// key.
pub proof fn lemma_short_envelope_is_refused(envelope: Seq<u8>, encryption_key: Seq<char>)
    requires
        envelope.len() <= NONCE_LEN,
    ensures
        envelope_text(envelope, encryption_key) == Err::<Seq<char>, Failure>(
            decryption_failure("Encrypted data is too short"@),
        ),
{
}

/// An envelope whose payload is shorter than a tag is refused as one that
/// does not authenticate, where the key unwraps.
pub proof fn lemma_short_payload_is_refused(envelope: Seq<u8>, encryption_key: Seq<char>)
    requires
        NONCE_LEN < envelope.len() < NONCE_LEN + TAG_LEN,
    ensures
        unwrapped_key(encryption_key, false) is Ok ==> envelope_text(envelope, encryption_key)
            == Err::<Seq<char>, Failure>(decryption_failure("Decryption failed"@)),
        unwrapped_key(encryption_key, false) matches Err(failure) ==> envelope_text(
            envelope,
            encryption_key,
        ) == Err::<Seq<char>, Failure>(failure),
{
}

/// Every refusal of a field is of kind `Decryption`, unless it is the key
/// that is refused; and no text comes back unless the payload is at least as
/// long as a tag, authenticated under the key and is the UTF-8 encoding of
/// that text.
pub proof fn lemma_decryption_fails_closed(envelope: Seq<u8>, encryption_key: Seq<char>)
    ensures
        envelope_text(envelope, encryption_key) matches Ok(text) ==> {
            &&& envelope.len() >= NONCE_LEN + TAG_LEN
            &&& envelope_parts(envelope) matches Ok(parts)
            &&& unwrapped_key(encryption_key, false) matches Ok(key)
            &&& aes256_gcm_opened(key, parts.0, parts.1) == Some(encode_utf8(text))
        },
        envelope_text(envelope, encryption_key) matches Err(failure) ==> {
            ||| failure.kind == ErrorKind::Decryption
            ||| unwrapped_key(encryption_key, false) == Err::<Seq<u8>, Failure>(failure)
        },
{
    if let Ok(text) = envelope_text(envelope, encryption_key) {
        let parts = envelope_parts(envelope)->Ok_0;
        let key = unwrapped_key(encryption_key, false)->Ok_0;
        let bytes = aes256_gcm_opened(key, parts.0, parts.1)->Some_0;
        decode_utf8_encode_utf8(bytes);
    }
}

/// Turns what decoding an encoded key material gave into the key: the last
/// 32 bytes of the material. The refusal of a text that did not decode is
/// worded without a word about the text.
pub fn key_from_decoded(decoded: Option<Vec<u8>>, for_encryption: bool) -> (result: Result<
    VaultKey,
    CryptoError,
>)
    ensures
        key_outcome(result) == decoded_key(optional_bytes(decoded), for_encryption),
{
    match decoded {
        None => {
            let detail = String::from_str("Invalid ").concat(action_word(for_encryption)).concat(
                " key",
            );
            Err(CryptoError::EncryptionError(detail))
        },
        Some(material) => key_from_material(material.as_slice(), for_encryption),
    }
}

/// Unwraps an encoded key material to the key it holds: the text is decoded
/// as URL-safe base64 and the last 32 bytes are taken, so that a salt of any
/// length may stand before the key. An empty text, a text that does not
/// decode and a material shorter than a key are refused.
pub fn process_encryption_key(encryption_key: &str, for_encryption: bool) -> (result: Result<
    VaultKey,
    CryptoError,
>)
    ensures
        key_outcome(result) == unwrapped_key(encryption_key@, for_encryption),
{
    if encryption_key.is_empty() {
        let detail = String::from_str(action_word(for_encryption)).concat(" key cannot be empty");
        return Err(CryptoError::EncryptionError(detail));
    }
    key_from_decoded(decode_base64url(encryption_key), for_encryption)
}

/// Turns what opening a sealed payload gave into the text: a payload that
/// did not authenticate, and bytes that are not UTF-8, are refused. A text
/// that comes back is the one that the opened bytes encode.
pub fn text_from_opened(opened: Option<Vec<u8>>) -> (result: Result<String, CryptoError>)
    ensures
        text_outcome(result) == opened_text(optional_bytes(opened)),
        result matches Ok(text) ==> opened matches Some(bytes) && encode_utf8(text@) == bytes@,
{
    match opened {
        None => Err(CryptoError::DecryptionError(String::from_str("Decryption failed"))),
        Some(bytes) => {
            proof {
                if valid_utf8(bytes@) {
                    decode_utf8_encode_utf8(bytes@);
                }
            }
            match text_from_utf8(bytes) {
                Some(text) => Ok(text),
                None => Err(
                    CryptoError::DecryptionError(
                        String::from_str("Decrypted data is not valid UTF-8"),
                    ),
                ),
            }
        },
    }
}

/// Opens a decoded envelope under an encoded key: the first 12 bytes are the
/// nonce, the rest is the sealed payload. A text comes back only from an
/// envelope of at least 28 bytes, and is 28 bytes shorter than it.
pub fn open_envelope(envelope: &[u8], encryption_key: &str) -> (result: Result<
    String,
    CryptoError,
>)
    ensures
        text_outcome(result) == envelope_text(envelope@, encryption_key@),
        result matches Ok(text) ==> encode_utf8(text@).len() + NONCE_LEN + TAG_LEN
            == envelope@.len(),
{
    let (nonce, payload) = match split_envelope(envelope) {
        Ok(parts) => parts,
        Err(error) => {
            return Err(error);
        },
    };
    let key = match process_encryption_key(encryption_key, false) {
        Ok(key) => key,
        Err(error) => {
            return Err(error);
        },
    };
    text_from_opened(open_aes256_gcm(key.as_bytes(), nonce.as_slice(), payload.as_slice()))
}

/// Turns what decoding an encrypted field gave into the text it holds under
/// an encoded key. The refusal of a field that did not decode is worded
/// without a word about the field.
pub fn decrypt_decoded(decoded: Option<Vec<u8>>, encryption_key: &str) -> (result: Result<
    String,
    CryptoError,
>)
    ensures
        text_outcome(result) == decoded_text(optional_bytes(decoded), encryption_key@),
        result matches Ok(text) ==> decoded matches Some(envelope) && encode_utf8(text@).len()
            + NONCE_LEN + TAG_LEN == envelope@.len(),
{
    match decoded {
        None => Err(CryptoError::DecryptionError(String::from_str("Invalid encrypted data"))),
        Some(envelope) => open_envelope(envelope.as_slice(), encryption_key),
    }
}

/// Decrypts an encrypted field under an encoded key. The field is refused,
/// with a failure of kind `Decryption`, when it is empty, does not decode,
/// is 12 bytes or shorter, does not authenticate under the key, or holds
/// bytes that are not UTF-8; a key that cannot be unwrapped is refused with
/// a failure of kind `Encryption`. Nothing of a refused field is returned,
/// and no description says anything of the field or of the key. A text that
/// comes back is 28 bytes shorter than what the field decodes to.
pub fn decrypt(encrypted_data: &str, encryption_key: &str) -> (result: Result<String, CryptoError>)
    ensures
        text_outcome(result) == decrypted(encrypted_data@, encryption_key@),
        result matches Ok(text) ==> base64url_decoded(encrypted_data@) matches Some(envelope)
            && encode_utf8(text@).len() + NONCE_LEN + TAG_LEN == envelope.len(),
{
    if encrypted_data.is_empty() {
        return Err(
            CryptoError::DecryptionError(String::from_str("Encrypted data cannot be empty")),
        );
    }
    decrypt_decoded(decode_base64url(encrypted_data), encryption_key)
}

/// Checks the inputs of an encryption and unwraps the key: an empty text, an
/// empty owner and a key that cannot be unwrapped are refused, in this
/// order.
pub fn checked_encryption_key(input: &str, user_id: &str, encryption_key: &str) -> (result: Result<
    VaultKey,
    CryptoError,
>)
    ensures
        key_outcome(result) == encryption_key_for(input@, user_id@, encryption_key@),
{
    if input.is_empty() {
        return Err(CryptoError::EncryptionError(String::from_str("Input cannot be empty")));
    }
    if user_id.is_empty() {
        return Err(CryptoError::EncryptionError(String::from_str("User ID cannot be empty")));
    }
    process_encryption_key(encryption_key, true)
}

/// Frames what sealing under a nonce gave as an encrypted field: the
/// unpadded URL-safe base64 text of the nonce followed by the sealed bytes.
/// A sealing that failed is a failure of kind `Encryption`.
pub fn field_from_sealed(sealed: Option<Vec<u8>>, nonce: &[u8]) -> (result: Result<
    String,
    CryptoError,
>)
    ensures
        text_outcome(result) == sealed_field(optional_bytes(sealed), nonce@),
        result matches Ok(field) ==> sealed matches Some(payload) && field@.len() == (4 * (
            nonce@.len() + payload@.len()) + 2) / 3 && in_base64url_alphabet(field@) && decodes_to(
            field@,
            nonce@ + payload@,
        ),
{
    match sealed {
        None => Err(CryptoError::EncryptionError(String::from_str("Encryption failed!"))),
        Some(payload) => {
            let envelope = frame_envelope(nonce, payload.as_slice());
            Ok(encode_base64url(envelope.as_slice()))
        },
    }
}

/// Seals a text under a key and a nonce and frames the result as an
/// encrypted field. A field that comes back has the shape of a field for
/// the text, begins with the nonce and opens, under the same key, to the
/// text.
pub fn seal_field(input: &str, key: &VaultKey, nonce: &[u8; 12]) -> (result: Result<
    String,
    CryptoError,
>)
    ensures
        text_outcome(result) == sealed_field(
            aes256_gcm_sealed(key@, nonce@, encode_utf8(input@)),
            nonce@,
        ),
        result matches Ok(field) ==> field_shape(field@, encode_utf8(input@).len() as int),
        result matches Ok(field) ==> field_opens_to(field@, key@, input@),
        result matches Ok(field) ==> field_carries_nonce(field@, nonce@),
{
    let sealed = seal_aes256_gcm(key.as_bytes(), nonce.as_slice(), input.as_bytes());
    proof {
        if let Some(payload) = &sealed {
            lemma_split_of_frame(nonce@, payload@);
        }
    }
    field_from_sealed(sealed, nonce.as_slice())
}

/// Encrypts a text under an encoded key with the given nonce. The outcome is
/// a function of the four arguments; a field that comes back has the shape
/// of a field for the text, begins with the nonce and decrypts, under the
/// same encoded key, to the text. The nonce must never be used twice with
/// one key.
pub fn encrypt_with_nonce(
    input: &str,
    user_id: &str,
    encryption_key: &str,
    nonce: &[u8; 12],
) -> (result: Result<String, CryptoError>)
    ensures
        text_outcome(result) == encrypted_with(input@, user_id@, encryption_key@, nonce@),
        result matches Ok(field) ==> field_shape(field@, encode_utf8(input@).len() as int),
        result matches Ok(field) ==> (decrypted(field@, encryption_key@) matches Ok(plain) && plain
            == input@),
        result matches Ok(field) ==> field_carries_nonce(field@, nonce@),
{
    let key = match checked_encryption_key(input, user_id, encryption_key) {
        Ok(key) => key,
        Err(error) => {
            return Err(error);
        },
    };
    let result = seal_field(input, &key, nonce);
    proof {
        if let Ok(field) = &result {
            lemma_key_same_for_both(encryption_key@);
            lemma_opening_field_decrypts(field@, key@, input@, encryption_key@);
        }
    }
    result
}

/// Encrypts a text for storage under an encoded key. An empty text, an
/// empty owner and a key that cannot be unwrapped are refused; otherwise a
/// fresh random 12-byte nonce is drawn and the text is sealed under it, so
/// that two encryptions of one text differ. A field that comes back has the
/// shape of a field for the text and decrypts, under the same encoded key,
/// to the text. No description of a failure says anything of the text or of
/// the key.
pub fn encrypt(input: &str, user_id: &str, encryption_key: &str) -> (result: Result<
    String,
    CryptoError,
>)
    ensures
        encryption_allows(input@, user_id@, encryption_key@, text_outcome(result)),
        result matches Ok(field) ==> field_shape(field@, encode_utf8(input@).len() as int),
        result matches Ok(field) ==> (decrypted(field@, encryption_key@) matches Ok(plain) && plain
            == input@),
{
    let key = match checked_encryption_key(input, user_id, encryption_key) {
        Ok(key) => key,
        Err(error) => {
            return Err(error);
        },
    };
    match random_array::<12>() {
        None => Err(CryptoError::EncryptionError(String::from_str("Failed to generate nonce"))),
        Some(nonce) => {
            let result = seal_field(input, &key, &nonce);
            proof {
                assert(text_outcome(result) == encrypted_with(
                    input@,
                    user_id@,
                    encryption_key@,
                    nonce@,
                ));
                if let Ok(field) = &result {
                    lemma_key_same_for_both(encryption_key@);
                    lemma_opening_field_decrypts(field@, key@, input@, encryption_key@);
                }
            }
            result
        },
    }
}

} // verus!
