//! Hashing and checking of the master password for login, with Argon2id.
//! The stored hash is one self-describing string that holds the parameters,
//! the salt and the digest. A wrong password is an ordinary answer; a stored
//! string that cannot be read is a failure.
//!
//! The salt goes into the hash in the alphabet of the hash string format, so
//! that every salt is taken. No description of a failure says anything of
//! the password, of the salt or of the stored hash.

use crate::error::{text_outcome, CryptoError, ErrorKind, Failure};
use crate::primitives::{
    argon2_hash, argon2_hashed, argon2_verified, argon2_verify, begins_with, check_phc_string,
    max_hashed_password, optional_text, phc_string_reads, random_array,
};
use vstd::prelude::*;
use vstd::string::*;
use vstd::utf8::*;

verus! {

/// Length in bytes of the random salt of a password hash.
pub const HASH_SALT_LEN: usize = 16;

/// A failure of kind `Hashing` with the given description.
pub open spec fn hashing_failure(detail: Seq<char>) -> Failure {
    Failure { kind: ErrorKind::Hashing, detail }
}

/// Whether a password is within what Argon2 takes: at most 2^32 - 1 bytes.
pub open spec fn hashable(password: Seq<char>) -> bool {
    encode_utf8(password).len() <= max_hashed_password()
}

/// The stored hash that a hashing leads to.
pub open spec fn hash_text(hashed: Option<Seq<char>>) -> Result<Seq<char>, Failure> {
    match hashed {
        Some(text) => Ok(text),
        None => Err(hashing_failure("Password hashing failed"@)),
    }
}

/// What hashing a password with the given salt gives.
pub open spec fn hashed_with_salt(password: Seq<char>, salt: Seq<u8>) -> Result<
    Seq<char>,
    Failure,
> {
    hash_text(argon2_hashed(password, salt))
}

/// Whether an outcome is one that hashing a password may have: the failure
/// to draw a salt, or what hashing gives with some 16-byte salt.
pub open spec fn hashing_allows(password: Seq<char>, outcome: Result<Seq<char>, Failure>) -> bool {
    ||| outcome == Err::<Seq<char>, Failure>(hashing_failure("Failed to generate salt"@))
    ||| exists|salt: Seq<u8>|
        salt.len() == HASH_SALT_LEN && outcome == #[trigger] hashed_with_salt(password, salt)
}

/// Whether a text is a stored hash of a password: it begins with the
/// identifier of Argon2id, reads as a hash string, and the password
/// verifies against it.
pub open spec fn stored_hash_of(hash: Seq<char>, password: Seq<char>) -> bool {
    &&& begins_with(hash, "$argon2id$"@)
    &&& phc_string_reads(hash)
    &&& argon2_verified(password, hash)
}

/// The answer of a check, given whether the stored hash reads and what
/// Argon2 answered.
pub open spec fn check_answer(reads: bool, accepted: bool) -> Result<bool, Failure> {
    if reads {
        Ok(accepted)
    } else {
        Err(hashing_failure("Invalid password hash"@))
    }
}

/// What checking a password against a stored hash gives: whether it
/// matches, or a failure where the stored hash cannot be read.
pub open spec fn verified(password: Seq<char>, stored_hash: Seq<char>) -> Result<bool, Failure> {
    check_answer(phc_string_reads(stored_hash), argon2_verified(password, stored_hash))
}

/// The mathematical value of the result of a check.
pub open spec fn check_outcome(result: Result<bool, CryptoError>) -> Result<bool, Failure> {
    match result {
        Ok(matches) => Ok(matches),
        Err(error) => Err(error@),
    }
}

/// A stored hash that cannot be read is a failure, never the answer
/// `false`; one that can be read always gets an answer.
pub proof fn lemma_unreadable_hash_is_a_failure(password: Seq<char>, stored_hash: Seq<char>)
    ensures
        !phc_string_reads(stored_hash) ==> verified(password, stored_hash) == Err::<
            bool,
            Failure,
        >(hashing_failure("Invalid password hash"@)),
        phc_string_reads(stored_hash) ==> verified(password, stored_hash) is Ok,
{
}

/// The password that a stored hash was made from verifies against it, and
/// every other password gets an answer from it, not a failure.
pub proof fn lemma_stored_hash_answers(hash: Seq<char>, password: Seq<char>, other: Seq<char>)
    requires
        stored_hash_of(hash, password),
    ensures
        verified(password, hash) == Ok::<bool, Failure>(true),
        verified(other, hash) is Ok,
{
}

/// Turns what Argon2 gave for a password into the stored hash, or into the
/// failure of the hashing.
pub fn hash_from_hashed(hashed: Option<String>) -> (result: Result<String, CryptoError>)
    ensures
        text_outcome(result) == hash_text(optional_text(hashed)),
{
    match hashed {
        Some(text) => Ok(text),
        None => Err(CryptoError::HashingError(String::from_str("Password hashing failed"))),
    }
}

/// Hashes a password with the given salt. The outcome is a function of the
/// two arguments. Every password that Argon2 takes is hashed, whatever the
/// salt, and a hash that comes back is a stored hash of the password.
pub fn hash_password_with_salt(password: &str, salt: &[u8; 16]) -> (result: Result<
    String,
    CryptoError,
>)
    ensures
        text_outcome(result) == hashed_with_salt(password@, salt@),
        hashable(password@) ==> result is Ok,
        result matches Ok(hash) ==> stored_hash_of(hash@, password@),
{
    hash_from_hashed(argon2_hash(password, salt))
}

/// Hashes a password for storage, with a fresh random 16-byte salt and the
/// default parameters of Argon2id. Once a salt is drawn, every password that
/// Argon2 takes is hashed. A hash that comes back is a stored hash of the
/// password: it verifies against it. Neither the password nor the salt
/// leaves this function other than inside the hash.
pub fn hash_password(password: &str) -> (result: Result<String, CryptoError>)
    ensures
        hashing_allows(password@, text_outcome(result)),
        hashable(password@) && result is Err ==> text_outcome(result) == Err::<
            Seq<char>,
            Failure,
        >(hashing_failure("Failed to generate salt"@)),
        result matches Ok(hash) ==> stored_hash_of(hash@, password@),
{
    match random_array::<16>() {
        None => Err(CryptoError::HashingError(String::from_str("Failed to generate salt"))),
        Some(salt) => {
            let result = hash_password_with_salt(password, &salt);
            assert(text_outcome(result) == hashed_with_salt(password@, salt@));
            result
        },
    }
}

/// Turns the reading of a stored hash and the answer of Argon2 into the
/// answer of a check: a stored hash that does not read is a failure,
/// whatever Argon2 answered; otherwise the answer stands.
pub fn check_from_parts(reads: bool, accepted: bool) -> (result: Result<bool, CryptoError>)
    ensures
        check_outcome(result) == check_answer(reads, accepted),
{
    if reads {
        Ok(accepted)
    } else {
        Err(CryptoError::HashingError(String::from_str("Invalid password hash")))
    }
}

/// Checks a password against a stored hash. A password that does not match
/// gives `false`; only a stored hash that cannot be read gives a failure, so
/// that a caller can tell a wrong password from a damaged record.
pub fn verify_password(password: &str, stored_hash: &str) -> (result: Result<bool, CryptoError>)
    ensures
        check_outcome(result) == verified(password@, stored_hash@),
{
    let reads = check_phc_string(stored_hash);
    let accepted = reads && argon2_verify(password, stored_hash);
    check_from_parts(reads, accepted)
}

} // verus!
