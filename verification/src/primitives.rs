//! The calls into `ring`, `argon2`, `base64` and the std functions that
//! vstd leaves unspecified. Nothing in this file is proved: each function
//! states what the library relies on, and every other module is verified
//! against these statements.

use argon2::password_hash::{PasswordHash, PasswordHasher, PasswordVerifier, SaltString};
use argon2::Argon2;
use base64::engine::general_purpose::URL_SAFE_NO_PAD;
use base64::Engine;
use ring::aead::{Aad, LessSafeKey, Nonce, UnboundKey, AES_256_GCM};
use ring::rand::{SecureRandom, SystemRandom};
use vstd::prelude::*;
use vstd::utf8::*;

verus! {

/// Length in bytes of an AES-256 key.
pub const KEY_LEN: usize = 32;

/// Length in bytes of an AES-GCM nonce.
pub const NONCE_LEN: usize = 12;

/// Length in bytes of an AES-GCM authentication tag.
pub const TAG_LEN: usize = 16;

/// Length in bytes of a SHA-256 digest.
pub const DIGEST_LEN: usize = 32;

/// The longest input, in bytes, that SHA-256 is defined for: its length in
/// bits must fit in 64 bits.
pub open spec fn max_digest_input() -> int {
    0x1FFF_FFFF_FFFF_FFFF
}

/// The URL-safe, unpadded base64 text of a byte sequence.
pub uninterp spec fn base64url_encoded(bytes: Seq<u8>) -> Seq<char>;

/// What decoding a text as URL-safe, unpadded base64 gives: the bytes, or
/// nothing where the text is no such encoding.
pub uninterp spec fn base64url_decoded(text: Seq<char>) -> Option<Seq<u8>>;

/// The SHA-256 digest of a byte sequence.
pub uninterp spec fn sha256_digest(data: Seq<u8>) -> Seq<u8>;

/// The first `length` bytes of the PBKDF2-HMAC-SHA256 stream for the given
/// iteration count, salt and secret.
pub uninterp spec fn pbkdf2_hmac_sha256(
    iterations: u32,
    salt: Seq<u8>,
    secret: Seq<u8>,
    length: nat,
) -> Seq<u8>;

/// What AES-256-GCM sealing without associated data gives: the ciphertext
/// followed by the tag, or nothing where the cipher refuses the input.
pub uninterp spec fn aes256_gcm_sealed(key: Seq<u8>, nonce: Seq<u8>, plaintext: Seq<u8>) -> Option<
    Seq<u8>,
>;

/// What AES-256-GCM opening without associated data gives: the plaintext, or
/// nothing where the tag does not authenticate the ciphertext.
pub uninterp spec fn aes256_gcm_opened(key: Seq<u8>, nonce: Seq<u8>, sealed: Seq<u8>) -> Option<
    Seq<u8>,
>;

/// What Argon2id with its default parameters gives for a password and the
/// bytes of a salt: the self-describing hash string, or nothing where the
/// hashing fails.
pub uninterp spec fn argon2_hashed(password: Seq<char>, salt: Seq<u8>) -> Option<Seq<char>>;

/// Whether a text reads as a password hash string.
pub uninterp spec fn phc_string_reads(text: Seq<char>) -> bool;

/// Whether a stored hash string parses and Argon2, run on the password with
/// the parameters and salt found in it, reproduces its digest.
pub uninterp spec fn argon2_verified(password: Seq<char>, stored: Seq<char>) -> bool;

/// The lowercase form of a text, as Unicode defines it.
pub uninterp spec fn lowercase_of(text: Seq<char>) -> Seq<char>;

/// Whether a text begins with the given characters.
pub open spec fn begins_with(text: Seq<char>, head: Seq<char>) -> bool {
    head.len() <= text.len() && text.subrange(0, head.len() as int) == head
}

/// Whether the characters of `pattern` stand somewhere in `text`, one after
/// the other.
pub open spec fn occurs_in(pattern: Seq<char>, text: Seq<char>) -> bool {
    exists|start: int|
        0 <= start <= text.len() - pattern.len() && #[trigger] text.subrange(
            start,
            start + pattern.len(),
        ) == pattern
}

/// Whether a text decodes, as URL-safe unpadded base64, to the given bytes.
pub open spec fn decodes_to(text: Seq<char>, bytes: Seq<u8>) -> bool {
    base64url_decoded(text) == Some(bytes)
}

/// Whether a character belongs to the URL-safe base64 alphabet: a letter, a
/// digit, `-` or `_`.
pub open spec fn is_base64url_char(c: char) -> bool {
    ||| 'A' <= c <= 'Z'
    ||| 'a' <= c <= 'z'
    ||| '0' <= c <= '9'
    ||| c == '-'
    ||| c == '_'
}

/// Whether a text holds only characters of the URL-safe base64 alphabet, and
/// so no padding.
pub open spec fn in_base64url_alphabet(text: Seq<char>) -> bool {
    forall|i: int| 0 <= i < text.len() ==> is_base64url_char(#[trigger] text[i])
}

/// The longest password, in bytes, that Argon2 takes.
pub open spec fn max_hashed_password() -> int {
    0xFFFF_FFFF
}

/// The mathematical value of an optional text.
pub open spec fn optional_text(text: Option<String>) -> Option<Seq<char>> {
    match text {
        Some(t) => Some(t@),
        None => None,
    }
}

/// The mathematical value of optional bytes.
pub open spec fn optional_bytes(bytes: Option<Vec<u8>>) -> Option<Seq<u8>> {
    match bytes {
        Some(b) => Some(b@),
        None => None,
    }
}

/// `Engine::encode` of `base64`, on the `URL_SAFE_NO_PAD` engine. Trusted: the
/// text is the encoding of the bytes, it has four characters for every three
/// bytes and two or three for a remainder of one or two, every character is
/// of the URL-safe alphabet, and decoding it with the same engine gives the
/// bytes back. The call cannot overflow its length computation, since no
/// slice is longer than `isize::MAX` bytes.
#[verifier::external_body]
pub(crate) fn encode_base64url(bytes: &[u8]) -> (text: String)
    ensures
        text@ == base64url_encoded(bytes@),
        text@.len() == (4 * bytes@.len() + 2) / 3,
        in_base64url_alphabet(text@),
        decodes_to(text@, bytes@),
{
    URL_SAFE_NO_PAD.encode(bytes)
}

/// `Engine::decode` of `base64`, on the `URL_SAFE_NO_PAD` engine, with the
/// error dropped. Trusted: the outcome depends on the text alone.
#[verifier::external_body]
pub(crate) fn decode_base64url(text: &str) -> (decoded: Option<Vec<u8>>)
    ensures
        optional_bytes(decoded) == base64url_decoded(text@),
{
    URL_SAFE_NO_PAD.decode(text.as_bytes()).ok()
}

/// `SecureRandom::fill` of `ring`, on a fresh `SystemRandom` and a buffer of
/// `N` bytes. Nothing is promised of the bytes that come back, nor of when
/// the system's generator answers.
#[verifier::external_body]
pub(crate) fn random_array<const N: usize>() -> (drawn: Option<[u8; N]>) {
    let mut bytes = [0u8; N];
    SystemRandom::new().fill(&mut bytes).ok()?;
    Some(bytes)
}

/// `digest::digest` of `ring`, with `SHA256`. Trusted: the digest depends on
/// the data alone and is 32 bytes long. The call panics on data longer than
/// SHA-256 is defined for, which `requires` leaves out.
#[verifier::external_body]
pub(crate) fn sha256(data: &[u8]) -> (digest: Vec<u8>)
    requires
        data@.len() <= max_digest_input(),
    ensures
        digest@ == sha256_digest(data@),
        digest@.len() == DIGEST_LEN,
{
    ring::digest::digest(&ring::digest::SHA256, data).as_ref().to_vec()
}

/// `pbkdf2::derive` of `ring`, with `PBKDF2_HMAC_SHA256`, into a fresh buffer
/// of `length` bytes. Trusted: the buffer is filled with the derived bytes,
/// which depend on the four arguments alone. The call panics on a secret or
/// salt too long for SHA-256 and on more output than 2^32 - 1 blocks, which
/// `requires` leaves out.
#[verifier::external_body]
pub(crate) fn pbkdf2_sha256(iterations: u32, salt: &[u8], secret: &[u8], length: usize) -> (out:
    Vec<u8>)
    requires
        iterations > 0,
        salt@.len() + 68 <= max_digest_input(),
        secret@.len() <= max_digest_input(),
        length <= 0xFFFF_FFFF,
    ensures
        out@ == pbkdf2_hmac_sha256(iterations, salt@, secret@, length as nat),
        out@.len() == length,
{
    let mut out = vec![0u8; length];
    let rounds = iterations.try_into().unwrap();
    ring::pbkdf2::derive(ring::pbkdf2::PBKDF2_HMAC_SHA256, rounds, salt, secret, &mut out);
    out
}

/// `LessSafeKey::seal_in_place_append_tag` of `ring`, with `AES_256_GCM` and
/// empty associated data, on a copy of the plaintext. Trusted: the outcome
/// depends on key, nonce and plaintext alone; what is sealed is the
/// ciphertext, as long as the plaintext, followed by the 16-byte tag; and
/// opening it with the same key and nonce gives the plaintext back.
#[verifier::external_body]
pub(crate) fn seal_aes256_gcm(key: &[u8], nonce: &[u8], plaintext: &[u8]) -> (sealed: Option<
    Vec<u8>,
>)
    requires
        key@.len() == KEY_LEN,
        nonce@.len() == NONCE_LEN,
    ensures
        optional_bytes(sealed) == aes256_gcm_sealed(key@, nonce@, plaintext@),
        sealed matches Some(s) ==> s@.len() == plaintext@.len() + TAG_LEN,
        sealed matches Some(s) ==> aes256_gcm_opened(key@, nonce@, s@) == Some(plaintext@),
{
    let key = LessSafeKey::new(UnboundKey::new(&AES_256_GCM, key).ok()?);
    let nonce = Nonce::try_assume_unique_for_key(nonce).ok()?;
    let mut in_out = plaintext.to_vec();
    key.seal_in_place_append_tag(nonce, Aad::empty(), &mut in_out).ok()?;
    Some(in_out)
}

/// `LessSafeKey::open_in_place` of `ring`, with `AES_256_GCM` and empty
/// associated data, on a copy of the sealed bytes. Trusted: the outcome
/// depends on key, nonce and sealed bytes alone, and a plaintext that comes
/// back is 16 bytes shorter than what was sealed.
#[verifier::external_body]
pub(crate) fn open_aes256_gcm(key: &[u8], nonce: &[u8], sealed: &[u8]) -> (opened: Option<Vec<u8>>)
    requires
        key@.len() == KEY_LEN,
        nonce@.len() == NONCE_LEN,
    ensures
        optional_bytes(opened) == aes256_gcm_opened(key@, nonce@, sealed@),
        opened matches Some(p) ==> p@.len() + TAG_LEN == sealed@.len(),
{
    let key = LessSafeKey::new(UnboundKey::new(&AES_256_GCM, key).ok()?);
    let nonce = Nonce::try_assume_unique_for_key(nonce).ok()?;
    let mut in_out = sealed.to_vec();
    let plaintext = key.open_in_place(nonce, Aad::empty(), &mut in_out).ok()?;
    Some(plaintext.to_vec())
}

/// `PasswordHasher::hash_password` of `argon2`, on `Argon2::default()`, with
/// the salt encoded by `SaltString::encode_b64` and the hash turned into
/// text. Trusted: the outcome depends on password and salt alone; a password
/// of at most 2^32 - 1 bytes is hashed, whatever the 16 bytes of the salt;
/// and a hash string that comes back begins with the identifier of Argon2id,
/// reads as a hash string and verifies against the password it was made
/// from.
#[verifier::external_body]
pub(crate) fn argon2_hash(password: &str, salt: &[u8; 16]) -> (hashed: Option<String>)
    ensures
        optional_text(hashed) == argon2_hashed(password@, salt@),
        encode_utf8(password@).len() <= max_hashed_password() ==> hashed is Some,
        hashed matches Some(h) ==> begins_with(h@, "$argon2id$"@),
        hashed matches Some(h) ==> phc_string_reads(h@),
        hashed matches Some(h) ==> argon2_verified(password@, h@),
{
    let salt = SaltString::encode_b64(salt).ok()?;
    let hashed = Argon2::default().hash_password(password.as_bytes(), &salt).ok()?;
    Some(hashed.to_string())
}

/// `PasswordHash::new` of `password-hash`, as `argon2` exports it, with the
/// parsed value and the error dropped. Trusted: whether the text reads
/// depends on the text alone.
#[verifier::external_body]
pub(crate) fn check_phc_string(text: &str) -> (reads: bool)
    ensures
        reads == phc_string_reads(text@),
{
    PasswordHash::new(text).is_ok()
}

/// `PasswordVerifier::verify_password` of `argon2`, on `Argon2::default()`,
/// with the stored text read by `PasswordHash::new`. Trusted: whether the
/// stored text parses and the password verifies against it depends on the
/// two texts alone.
#[verifier::external_body]
pub(crate) fn argon2_verify(password: &str, stored: &str) -> (accepted: bool)
    ensures
        accepted == argon2_verified(password@, stored@),
{
    match PasswordHash::new(stored) {
        Ok(parsed) => Argon2::default().verify_password(password.as_bytes(), &parsed).is_ok(),
        Err(_) => false,
    }
}

/// `String::from_utf8` of std, with the error dropped. Trusted, as std
/// documents it: the bytes become a string exactly when they are valid
/// UTF-8, and the string then holds the characters that they encode.
#[verifier::external_body]
pub(crate) fn text_from_utf8(bytes: Vec<u8>) -> (text: Option<String>)
    ensures
        text is Some <==> valid_utf8(bytes@),
        text matches Some(t) ==> t@ == decode_utf8(bytes@),
{
    String::from_utf8(bytes).ok()
}

/// `str::to_lowercase` of std. Trusted: the outcome depends on the text
/// alone.
#[verifier::external_body]
pub(crate) fn lowercase(text: &str) -> (lower: String)
    ensures
        lower@ == lowercase_of(text@),
{
    text.to_lowercase()
}

/// `str::contains` of std, with a text as the pattern. Trusted, as std
/// documents it: the answer is whether the pattern is a sub-slice of the
/// text.
#[verifier::external_body]
pub(crate) fn contains_text(text: &str, pattern: &str) -> (found: bool)
    ensures
        found == occurs_in(pattern@, text@),
{
    text.contains(pattern)
}

} // verus!
