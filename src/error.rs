use vstd::prelude::*;

verus! {

/// Every way an envelope operation can fail.
#[derive(Debug, PartialEq, Eq)]
pub enum CryptoError {
    /// Text that should hold standard padded base64 does not.
    InvalidEncoding,
    /// Key material decodes to fewer than 32 bytes.
    KeyTooShort,
    /// An encrypted blob decodes to fewer than the 12 bytes of its nonce.
    BlobTooShort,
    /// A supplied salt is not a valid PHC salt string; carries the reason.
    InvalidSalt(argon2::password_hash::Error),
    /// The password hash rejected its inputs.
    DerivationFailed,
    /// The cipher refused to encrypt.
    EncryptionFailed,
    /// Authentication failed: wrong key or tampered data.
    DecryptionFailed,
    /// Decrypted bytes are not valid UTF-8.
    InvalidUtf8,
}

/// The salt error of the password-hash crate, carried inside `CryptoError`.
#[verifier::external_type_specification]
#[verifier::external_body]
pub struct ExPasswordHashError(argon2::password_hash::Error);

} // verus!
