//! Credential cryptography for a local password vault: login hashing,
//! derivation of the vault key from the master password, and authenticated
//! encryption of single fields, with the text framing shared by all three.

pub mod cipher;
pub mod derivation;
pub mod encoding;
pub mod error;
pub mod hashing;
pub mod primitives;
pub mod user_state;
pub mod vault;
