//! The byte framing shared by key material and encrypted fields: a key is
//! the last 32 bytes of its material, whatever salt stands before it, and an
//! encrypted field is a 12-byte nonce followed by the sealed payload.

use crate::error::{CryptoError, ErrorKind, Failure};
use crate::primitives::{KEY_LEN, NONCE_LEN};
use vstd::prelude::*;
use vstd::slice::*;
use vstd::string::*;

verus! {

/// A failure of kind `Encryption` with the given description.
pub open spec fn encryption_failure(detail: Seq<char>) -> Failure {
    Failure { kind: ErrorKind::Encryption, detail }
}

/// A failure of kind `Decryption` with the given description.
pub open spec fn decryption_failure(detail: Seq<char>) -> Failure {
    Failure { kind: ErrorKind::Decryption, detail }
}

/// The word that names, in a description, what a key was wanted for.
pub open spec fn action_name(for_encryption: bool) -> Seq<char> {
    if for_encryption {
        "Encryption"@
    } else {
        "Decryption"@
    }
}

/// The key held in a key material: its last 32 bytes. Material shorter than
/// a key holds none.
pub open spec fn material_key(material: Seq<u8>, for_encryption: bool) -> Result<Seq<u8>, Failure> {
    if material.len() < KEY_LEN {
        Err(encryption_failure(action_name(for_encryption) + " key is too short"@))
    } else {
        Ok(material.subrange(material.len() - KEY_LEN, material.len() as int))
    }
}

/// The nonce and the sealed payload of an envelope: its first 12 bytes and
/// the rest, of which there must be at least one byte.
pub open spec fn envelope_parts(envelope: Seq<u8>) -> Result<(Seq<u8>, Seq<u8>), Failure> {
    if envelope.len() <= NONCE_LEN {
        Err(decryption_failure("Encrypted data is too short"@))
    } else {
        Ok(
            (
                envelope.subrange(0, NONCE_LEN as int),
                envelope.subrange(NONCE_LEN as int, envelope.len() as int),
            ),
        )
    }
}

/// A symmetric key for AES-256: exactly 32 bytes. It lives only as long as
/// the caller holds it and is never written anywhere by this library.
pub struct VaultKey {
    bytes: Vec<u8>,
}

impl View for VaultKey {
    type V = Seq<u8>;

    closed spec fn view(&self) -> Seq<u8> {
        self.bytes@
    }
}

impl VaultKey {
    #[verifier::type_invariant]
    spec fn has_key_length(&self) -> bool {
        self.bytes@.len() == KEY_LEN
    }

    /// The key made of the given bytes, where there are exactly 32 of them.
    pub fn from_bytes(bytes: &[u8]) -> (key: Option<VaultKey>)
        ensures
            key is Some <==> bytes@.len() == KEY_LEN,
            key matches Some(k) ==> k@ == bytes@,
    {
        if bytes.len() == KEY_LEN {
            Some(VaultKey { bytes: slice_to_vec(bytes) })
        } else {
            None
        }
    }

    /// The 32 bytes of the key.
    pub fn as_bytes(&self) -> (bytes: &[u8])
        ensures
            bytes@ == self@,
            bytes@.len() == KEY_LEN,
    {
        proof {
            use_type_invariant(self);
        }
        self.bytes.as_slice()
    }
}

/// The mathematical value of a result that carries a key on success.
pub open spec fn key_outcome(result: Result<VaultKey, CryptoError>) -> Result<Seq<u8>, Failure> {
    match result {
        Ok(key) => Ok(key@),
        Err(error) => Err(error@),
    }
}

/// The mathematical value of a result that carries the two parts of an
/// envelope on success.
pub open spec fn parts_outcome(result: Result<(Vec<u8>, Vec<u8>), CryptoError>) -> Result<
    (Seq<u8>, Seq<u8>),
    Failure,
> {
    match result {
        Ok(parts) => Ok((parts.0@, parts.1@)),
        Err(error) => Err(error@),
    }
}

/// The word for what a key is wanted for: `"Encryption"` or `"Decryption"`.
pub fn action_word(for_encryption: bool) -> (word: &'static str)
    ensures
        word@ == action_name(for_encryption),
{
    if for_encryption {
        "Encryption"
    } else {
        "Decryption"
    }
}

/// The bytes of `head` followed by the bytes of `tail`.
pub fn joined(head: &[u8], tail: &[u8]) -> (out: Vec<u8>)
    ensures
        out@ == head@ + tail@,
{
    let mut out: Vec<u8> = Vec::new();
    let mut i: usize = 0;
    while i < head.len()
        invariant
            i <= head@.len(),
            out@ == head@.subrange(0, i as int),
        decreases head@.len() - i,
    {
        out.push(head[i]);
        i += 1;
        assert(out@ =~= head@.subrange(0, i as int));
    }
    assert(out@ =~= head@);
    let mut j: usize = 0;
    while j < tail.len()
        invariant
            j <= tail@.len(),
            out@ == head@ + tail@.subrange(0, j as int),
        decreases tail@.len() - j,
    {
        out.push(tail[j]);
        j += 1;
        assert(out@ =~= head@ + tail@.subrange(0, j as int));
    }
    assert(out@ =~= head@ + tail@);
    out
}

/// Takes the key out of a decoded key material: its last 32 bytes, whatever
/// stands before them. Material shorter than a key is refused.
pub fn key_from_material(material: &[u8], for_encryption: bool) -> (result: Result<
    VaultKey,
    CryptoError,
>)
    ensures
        key_outcome(result) == material_key(material@, for_encryption),
{
    let len = material.len();
    if len < KEY_LEN {
        let detail = String::from_str(action_word(for_encryption)).concat(" key is too short");
        return Err(CryptoError::EncryptionError(detail));
    }
    let tail = slice_subrange(material, len - KEY_LEN, len);
    Ok(VaultKey { bytes: slice_to_vec(tail) })
}

/// Splits a decoded envelope into its nonce, the first 12 bytes, and its
/// sealed payload, the rest. An envelope of 12 bytes or fewer is refused.
pub fn split_envelope(envelope: &[u8]) -> (result: Result<(Vec<u8>, Vec<u8>), CryptoError>)
    ensures
        parts_outcome(result) == envelope_parts(envelope@),
{
    let len = envelope.len();
    if len <= NONCE_LEN {
        return Err(CryptoError::DecryptionError(String::from_str("Encrypted data is too short")));
    }
    let nonce = slice_to_vec(slice_subrange(envelope, 0, NONCE_LEN));
    let payload = slice_to_vec(slice_subrange(envelope, NONCE_LEN, len));
    Ok((nonce, payload))
}

/// Frames a nonce and a sealed payload as one envelope: the nonce, then the
/// payload.
pub fn frame_envelope(nonce: &[u8], sealed: &[u8]) -> (envelope: Vec<u8>)
    ensures
        envelope@ == nonce@ + sealed@,
{
    joined(nonce, sealed)
}

/// Bundles a salt and a key as one key material: the salt, then the key.
pub fn bundle_key_material(salt: &[u8], key: &[u8]) -> (material: Vec<u8>)
    ensures
        material@ == salt@ + key@,
{
    joined(salt, key)
}

/// Splitting the frame of a 12-byte nonce and a payload of at least one byte
/// gives the nonce and the payload back.
pub proof fn lemma_split_of_frame(nonce: Seq<u8>, sealed: Seq<u8>)
    requires
        nonce.len() == NONCE_LEN,
        sealed.len() > 0,
    ensures
        envelope_parts(nonce + sealed) matches Ok(parts) && parts.0 == nonce && parts.1 == sealed,
{
    let envelope = nonce + sealed;
    assert(envelope.subrange(0, NONCE_LEN as int) =~= nonce);
    assert(envelope.subrange(NONCE_LEN as int, envelope.len() as int) =~= sealed);
}

/// The key found in the bundle of any salt with a 32-byte key is that key,
/// whatever the key is wanted for.
pub proof fn lemma_key_of_bundle(salt: Seq<u8>, key: Seq<u8>, for_encryption: bool)
    requires
        key.len() == KEY_LEN,
    ensures
        material_key(salt + key, for_encryption) matches Ok(found) && found == key,
{
    let material = salt + key;
    assert(material.subrange(material.len() - KEY_LEN, material.len() as int) =~= key);
}

/// What a key is wanted for changes the description of a refusal, never the
/// key that is found.
pub proof fn lemma_material_key_same_for_both(material: Seq<u8>)
    ensures
        material_key(material, true) is Ok <==> material_key(material, false) is Ok,
        material_key(material, true) is Ok ==> material_key(material, true) == material_key(
            material,
            false,
        ),
{
}

} // verus!
