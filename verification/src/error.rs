//! The closed set of failures that the vault's cryptography reports.

use vstd::prelude::*;
use vstd::string::*;

verus! {

/// Which of the five kinds a failure belongs to.
#[derive(Clone, Copy, Debug, PartialEq, Eq, Structural)]
pub enum ErrorKind {
    Hashing,
    KeyDerivation,
    Encryption,
    Decryption,
    Verify,
}

/// A failure of one of the cryptographic operations. Every variant carries a
/// description for people; none carries secret material.
#[derive(Debug, PartialEq, Eq)]
pub enum CryptoError {
    HashingError(String),
    KeyDerivationError(String),
    EncryptionError(String),
    DecryptionError(String),
    VerifyError(String),
}

/// The mathematical value of a [`CryptoError`]: its kind and its description.
pub struct Failure {
    pub kind: ErrorKind,
    pub detail: Seq<char>,
}

/// The sentence that introduces the description of a failure of each kind.
pub open spec fn kind_prefix(kind: ErrorKind) -> Seq<char> {
    match kind {
        ErrorKind::Hashing => "Failed to hash password: "@,
        ErrorKind::KeyDerivation => "Key derivation failed: "@,
        ErrorKind::Encryption => "Encryption failed: "@,
        ErrorKind::Decryption => "Decryption failed: "@,
        ErrorKind::Verify => "Verification failed: "@,
    }
}

impl View for CryptoError {
    type V = Failure;

    open spec fn view(&self) -> Failure {
        match self {
            CryptoError::HashingError(m) => Failure { kind: ErrorKind::Hashing, detail: m@ },
            CryptoError::KeyDerivationError(m) => Failure {
                kind: ErrorKind::KeyDerivation,
                detail: m@,
            },
            CryptoError::EncryptionError(m) => Failure { kind: ErrorKind::Encryption, detail: m@ },
            CryptoError::DecryptionError(m) => Failure { kind: ErrorKind::Decryption, detail: m@ },
            CryptoError::VerifyError(m) => Failure { kind: ErrorKind::Verify, detail: m@ },
        }
    }
}

impl Failure {
    /// The full text shown for this failure.
    pub open spec fn message(self) -> Seq<char> {
        kind_prefix(self.kind) + self.detail
    }
}

impl CryptoError {
    /// Builds the error of the given kind with the given description.
    pub fn new(kind: ErrorKind, detail: String) -> (error: CryptoError)
        ensures
            error@ == (Failure { kind, detail: detail@ }),
    {
        match kind {
            ErrorKind::Hashing => CryptoError::HashingError(detail),
            ErrorKind::KeyDerivation => CryptoError::KeyDerivationError(detail),
            ErrorKind::Encryption => CryptoError::EncryptionError(detail),
            ErrorKind::Decryption => CryptoError::DecryptionError(detail),
            ErrorKind::Verify => CryptoError::VerifyError(detail),
        }
    }

    /// The kind of this failure.
    pub fn kind(&self) -> (kind: ErrorKind)
        ensures
            kind == self@.kind,
    {
        match self {
            CryptoError::HashingError(_) => ErrorKind::Hashing,
            CryptoError::KeyDerivationError(_) => ErrorKind::KeyDerivation,
            CryptoError::EncryptionError(_) => ErrorKind::Encryption,
            CryptoError::DecryptionError(_) => ErrorKind::Decryption,
            CryptoError::VerifyError(_) => ErrorKind::Verify,
        }
    }

    /// The description carried by this failure, without the kind's sentence.
    pub fn detail(&self) -> (detail: &str)
        ensures
            detail@ == self@.detail,
    {
        match self {
            CryptoError::HashingError(m) => m.as_str(),
            CryptoError::KeyDerivationError(m) => m.as_str(),
            CryptoError::EncryptionError(m) => m.as_str(),
            CryptoError::DecryptionError(m) => m.as_str(),
            CryptoError::VerifyError(m) => m.as_str(),
        }
    }

    /// The full text shown for this failure: the kind's sentence, then the
    /// description.
    pub fn message(&self) -> (text: String)
        ensures
            text@ == self@.message(),
    {
        let prefix = match self {
            CryptoError::HashingError(_) => "Failed to hash password: ",
            CryptoError::KeyDerivationError(_) => "Key derivation failed: ",
            CryptoError::EncryptionError(_) => "Encryption failed: ",
            CryptoError::DecryptionError(_) => "Decryption failed: ",
            CryptoError::VerifyError(_) => "Verification failed: ",
        };
        String::from_str(prefix).concat(self.detail())
    }
}

/// The mathematical value of a result that carries text on success.
pub open spec fn text_outcome(result: Result<String, CryptoError>) -> Result<Seq<char>, Failure> {
    match result {
        Ok(text) => Ok(text@),
        Err(error) => Err(error@),
    }
}

} // verus!
