//! A client-side cryptographic envelope: P-256 keypair generation,
//! Argon2id password-based key derivation, and AES-256-GCM sealing of
//! private keys and text payloads into self-describing base64 blobs.
pub mod error;
pub mod codec;
pub mod aead;
pub mod kdf;
pub mod keys;
pub mod envelope;

pub use error::CryptoError;

pub use keys::{KeyPair, generate_keypair, generate_random_key};
pub use kdf::{DerivedKey, derive_key, derive_key_with_salt};
pub use aead::{encrypt, decrypt, seal_with_nonce, seal_blob, open_blob};
pub use envelope::{encrypt_private_key, decrypt_private_key, encrypt_data, decrypt_data};
pub use codec::{encode_base64, decode_base64};
