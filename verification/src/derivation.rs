//! Derivation of the vault key from the master password. The salt is taken
//! from the password itself, so the same password always gives the same key
//! material and nothing but the password has to be kept to derive it again.
//! The material is the text of the salt followed by the key.

use crate::cipher::unwrapped_key;
use crate::encoding::{bundle_key_material, joined, lemma_key_of_bundle};
use crate::error::{text_outcome, CryptoError, ErrorKind, Failure};
use crate::primitives::{
    base64url_encoded, decodes_to, encode_base64url, in_base64url_alphabet, pbkdf2_hmac_sha256,
    pbkdf2_sha256, sha256, sha256_digest, KEY_LEN,
};
use vstd::prelude::*;
use vstd::slice::*;
use vstd::string::*;
use vstd::utf8::*;

verus! {

/// Length in bytes of the salt that stands before the key in a key material.
pub const SALT_LEN: usize = 16;

/// The longest password, in bytes, whose salt source SHA-256 accepts: 12
/// bytes of prefix less than the longest input whose length in bits fits in
/// 64 bits.
pub const MAX_PASSWORD_LEN: u64 = 0x1FFF_FFFF_FFFF_FFF3;

/// Number of PBKDF2 iterations that stretch the password into the key.
pub const KDF_ITERATIONS: u32 = 100_000;

/// The bytes that the salt is digested from: a fixed prefix, then the
/// password.
pub open spec fn salt_source(password: Seq<char>) -> Seq<u8> {
    encode_utf8("salt-prefix-"@) + encode_utf8(password)
}

/// The salt of a password: the first 16 bytes of the SHA-256 digest of its
/// salt source.
pub open spec fn derivation_salt(password: Seq<char>) -> Seq<u8> {
    sha256_digest(salt_source(password)).subrange(0, SALT_LEN as int)
}

/// The vault key of a password: 32 bytes of PBKDF2-HMAC-SHA256 over the
/// password with its own salt.
pub open spec fn derived_key(password: Seq<char>) -> Seq<u8> {
    pbkdf2_hmac_sha256(
        KDF_ITERATIONS,
        derivation_salt(password),
        encode_utf8(password),
        KEY_LEN as nat,
    )
}

/// The encoded key material of a password: the text of its salt followed by
/// its key.
pub open spec fn key_material(password: Seq<char>) -> Seq<char> {
    base64url_encoded(derivation_salt(password) + derived_key(password))
}

/// Whether a text is the encoded key material of a salt and a key: 64
/// characters of the URL-safe base64 alphabet that decode to the 16 bytes of
/// the salt followed by the 32 bytes of the key.
pub open spec fn material_holds(material: Seq<char>, salt: Seq<u8>, key: Seq<u8>) -> bool {
    &&& salt.len() == SALT_LEN
    &&& key.len() == KEY_LEN
    &&& material.len() == 64
    &&& in_base64url_alphabet(material)
    &&& decodes_to(material, salt + key)
}

/// Whether a password, with the salt prefix before it, is within what
/// SHA-256 accepts.
pub open spec fn password_fits(password: Seq<char>) -> bool {
    encode_utf8(password).len() <= MAX_PASSWORD_LEN
}

/// What deriving the key material of a password gives: the material, or a
/// refusal of a password that does not fit.
pub open spec fn derived_material(password: Seq<char>) -> Result<Seq<char>, Failure> {
    if password_fits(password) {
        Ok(key_material(password))
    } else {
        Err(Failure { kind: ErrorKind::KeyDerivation, detail: "Password is too long"@ })
    }
}

/// Whether a length is at most a 64-bit bound.
pub fn fits_u64(len: usize, bound: u64) -> (fits: bool)
    ensures
        fits == (len <= bound),
{
    len as u64 <= bound
}

/// The bytes from which the salt of a password is digested.
pub fn salt_source_bytes(password: &str) -> (source: Vec<u8>)
    ensures
        source@ == salt_source(password@),
        source@.len() == 12 + encode_utf8(password@).len(),
{
    let prefix = "salt-prefix-";
    proof {
        reveal_strlit("salt-prefix-");
        is_ascii_chars_encode_utf8(prefix@);
    }
    joined(prefix.as_bytes(), password.as_bytes())
}

/// Deriving is a function of the password: whatever two derivations from
/// one password give, they give the same, bit for bit.
pub proof fn lemma_derivation_is_deterministic(
    password: Seq<char>,
    first: Result<Seq<char>, Failure>,
    second: Result<Seq<char>, Failure>,
)
    requires
        first == derived_material(password),
        second == derived_material(password),
    ensures
        first == second,
{
}

/// Encodes a salt and a key as one key material: the unpadded URL-safe
/// base64 text of the salt followed by the key. Where the key has 32 bytes,
/// unwrapping the material gives the key back, whatever the length of the
/// salt.
pub fn encode_key_material(salt: &[u8], key: &[u8]) -> (material: String)
    ensures
        material@ == base64url_encoded(salt@ + key@),
        material@.len() == (4 * (salt@.len() + key@.len()) + 2) / 3,
        in_base64url_alphabet(material@),
        decodes_to(material@, salt@ + key@),
        key@.len() == KEY_LEN ==> forall|for_encryption: bool|
            (#[trigger] unwrapped_key(material@, for_encryption) matches Ok(found) && found
                == key@),
{
    let bundle = bundle_key_material(salt, key);
    let material = encode_base64url(bundle.as_slice());
    proof {
        if key@.len() == KEY_LEN {
            assert forall|for_encryption: bool|
                (#[trigger] unwrapped_key(material@, for_encryption) matches Ok(found) && found
                    == key@) by {
                lemma_key_of_bundle(salt@, key@, for_encryption);
            }
        }
    }
    material
}

/// Derives the encoded key material of a master password. The outcome is a
/// function of the password alone: two derivations from one password give
/// the same text. It is the material whenever the password fits: 64
/// characters that decode to the 16 bytes of the salt followed by the 32
/// bytes of the key, which is the key that the material unwraps to.
pub fn generate_encryption_key(password: &str) -> (result: Result<String, CryptoError>)
    ensures
        text_outcome(result) == derived_material(password@),
        result matches Ok(material) ==> material_holds(
            material@,
            derivation_salt(password@),
            derived_key(password@),
        ),
        result matches Ok(material) ==> forall|for_encryption: bool|
            (#[trigger] unwrapped_key(material@, for_encryption) matches Ok(found) && found
                == derived_key(password@)),
{
    let secret = password.as_bytes();
    if !fits_u64(secret.len(), MAX_PASSWORD_LEN) {
        return Err(CryptoError::KeyDerivationError(String::from_str("Password is too long")));
    }
    let source = salt_source_bytes(password);
    let digest = sha256(source.as_slice());
    let salt = slice_subrange(digest.as_slice(), 0, SALT_LEN);
    let key = pbkdf2_sha256(KDF_ITERATIONS, salt, secret, KEY_LEN);
    Ok(encode_key_material(salt, key.as_slice()))
}

} // verus!
