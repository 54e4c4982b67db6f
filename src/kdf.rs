use vstd::prelude::*;
use vstd::utf8::encode_utf8;
use argon2::password_hash::{PasswordHasher, Salt, SaltString};
use crate::codec::{base64_of, encode_base64};
use crate::error::CryptoError;

verus! {

/// Length of the salts that derivation generates: 16 random bytes in
/// unpadded B64.
pub const FRESH_SALT_LEN: usize = 22;

/// Length in bytes of the Argon2id output with default parameters.
pub const HASH_LEN: usize = 32;

/// A character allowed in a PHC salt string: `[a-zA-Z0-9/+.-]`.
pub open spec fn is_salt_char(c: char) -> bool {
    ('a' <= c && c <= 'z') || ('A' <= c && c <= 'Z') || ('0' <= c && c <= '9') || c == '/' || c == '+'
        || c == '.' || c == '-'
}

/// A salt string that the password-hash crate accepts: 4 to 64 salt
/// characters.
pub open spec fn valid_salt_text(salt: Seq<char>) -> bool {
    &&& 4 <= salt.len() <= 64
    &&& forall|i: int| 0 <= i < salt.len() ==> is_salt_char(#[trigger] salt[i])
}

/// The longest password, in bytes, that Argon2 accepts.
pub const MAX_PASSWORD_LEN: u64 = 0xFFFFFFFF;

/// A character of the unpadded B64 alphabet `[A-Za-z0-9+/]`.
pub open spec fn is_b64_char(c: char) -> bool {
    ('A' <= c && c <= 'Z') || ('a' <= c && c <= 'z') || ('0' <= c && c <= '9') || c == '+' || c == '/'
}

/// The six-bit value of a B64 character.
pub open spec fn b64_digit(c: char) -> int {
    if 'A' <= c && c <= 'Z' {
        (c as u32) as int - ('A' as u32) as int
    } else if 'a' <= c && c <= 'z' {
        (c as u32) as int - ('a' as u32) as int + 26
    } else if '0' <= c && c <= '9' {
        (c as u32) as int - ('0' as u32) as int + 52
    } else if c == '+' {
        62
    } else {
        63
    }
}

/// The shape of a generated salt: the canonical unpadded B64 text of 16
/// bytes, i.e. 22 B64 characters whose last one carries no stray bits.
pub open spec fn is_fresh_salt_text(salt: Seq<char>) -> bool {
    &&& salt.len() == FRESH_SALT_LEN
    &&& forall|i: int| 0 <= i < salt.len() ==> is_b64_char(#[trigger] salt[i])
    &&& b64_digit(salt[FRESH_SALT_LEN as int - 1]) % 16 == 0
}

/// A salt string that Argon2 can hash with: canonical unpadded B64 (no
/// dangling character, no stray bits in the last one) of 8 to 48 bytes.
pub open spec fn is_hashable_salt_text(salt: Seq<char>) -> bool {
    &&& 11 <= salt.len() <= 64
    &&& salt.len() % 4 != 1
    &&& forall|i: int| 0 <= i < salt.len() ==> is_b64_char(#[trigger] salt[i])
    &&& salt.len() % 4 == 2 ==> b64_digit(salt[salt.len() - 1]) % 16 == 0
    &&& salt.len() % 4 == 3 ==> b64_digit(salt[salt.len() - 1]) % 4 == 0
}

/// The raw output of Argon2id with argon2's default parameters over the
/// password bytes and the B64 salt string, or `None` when hashing fails.
pub uninterp spec fn argon2id_default(password: Seq<u8>, salt: Seq<char>) -> Option<Seq<u8>>;

/// A key and the salt it was derived with, both as text.
pub struct DerivedKey {
    pub key: String,
    pub salt: String,
}

impl DerivedKey {
    /// The derived key, standard padded base64.
    pub fn key(&self) -> (r: String)
        ensures
            r@ == self.key@,
    {
        self.key.clone()
    }

    /// The salt, in its canonical B64 string form.
    pub fn salt(&self) -> (r: String)
        ensures
            r@ == self.salt@,
    {
        self.salt.clone()
    }
}

/// Relies on `SaltString::from_b64` (password-hash): accepts exactly the
/// strings of 4 to 64 characters from `[a-zA-Z0-9/+.-]` and keeps them as
/// they are.
#[verifier::external_body]
fn check_salt(salt: &str) -> (r: Result<String, argon2::password_hash::Error>)
    ensures
        r is Ok <==> valid_salt_text(salt@),
        r is Ok ==> r->Ok_0@ == salt@,
{
    match SaltString::from_b64(salt) {
        Ok(s) => Ok(s.as_str().to_string()),
        Err(e) => Err(e),
    }
}

/// Relies on `SaltString::generate` (password-hash) fed by `thread_rng`:
/// 16 random bytes in canonical unpadded B64, 22 characters of
/// `[A-Za-z0-9+/]`.
#[verifier::external_body]
fn fresh_salt() -> (r: String)
    ensures
        valid_salt_text(r@),
        is_fresh_salt_text(r@),
{
    SaltString::generate(&mut rand::thread_rng()).as_str().to_string()
}

/// Relies on `Argon2::default().hash_password` (argon2): a deterministic
/// function of the password and salt, whose hash field is always set and
/// holds the 32-byte default output. It succeeds whenever the password has
/// at most `MAX_PWD_LEN` bytes and the salt is canonical unpadded B64 that
/// decodes to at least `MIN_SALT_LEN` bytes.
#[verifier::external_body]
fn argon2_hash(password: &[u8], salt: &str) -> (r: Result<Option<Vec<u8>>, argon2::password_hash::Error>)
    ensures
        r is Ok ==> r->Ok_0 is Some && argon2id_default(password@, salt@) == Some(r->Ok_0->0@),
        r is Ok ==> r->Ok_0->0@.len() == HASH_LEN,
        r is Err ==> argon2id_default(password@, salt@) is None,
        password@.len() <= MAX_PASSWORD_LEN && is_hashable_salt_text(salt@) ==> r is Ok,
{
    let salt = Salt::from_b64(salt)?;
    let hash = argon2::Argon2::default().hash_password(password, salt)?;
    Ok(hash.hash.map(|out| out.as_bytes().to_vec()))
}

/// `r` is what deriving a key from `password` with the given salt yields.
pub open spec fn derivation_yields(password: Seq<char>, salt: Seq<char>, r: Result<DerivedKey, CryptoError>) -> bool {
    if !valid_salt_text(salt) {
        r is Err && r->Err_0 is InvalidSalt
    } else {
        match argon2id_default(encode_utf8(password), salt) {
            None => r is Err && r->Err_0 is DerivationFailed,
            Some(h) => {
                &&& r is Ok
                &&& r->Ok_0.key@ == base64_of(h)
                &&& r->Ok_0.salt@ == salt
                &&& h.len() == HASH_LEN
            },
        }
    }
}

/// Derives a key from a password and a given salt string.
pub fn derive_key_with_salt(password: &str, salt: &str) -> (r: Result<DerivedKey, CryptoError>)
    ensures
        derivation_yields(password@, salt@, r),
        is_hashable_salt_text(salt@) && encode_utf8(password@).len() <= MAX_PASSWORD_LEN ==> r is Ok,
{
    proof {
        if is_hashable_salt_text(salt@) {
            assert forall|i: int| 0 <= i < salt@.len() implies is_salt_char(#[trigger] salt@[i]) by {
                assert(is_b64_char(salt@[i]));
            }
        }
    }
    let salt = match check_salt(salt) {
        Ok(s) => s,
        Err(e) => return Err(CryptoError::InvalidSalt(e)),
    };
    match argon2_hash(password.as_bytes(), salt.as_str()) {
        Ok(Some(hash)) => Ok(DerivedKey { key: encode_base64(hash.as_slice()), salt }),
        _ => Err(CryptoError::DerivationFailed),
    }
}

/// Derives a key from a password, with the given salt or, when there is
/// none, a fresh random one.
pub fn derive_key(password: &str, existing_salt: Option<String>) -> (r: Result<DerivedKey, CryptoError>)
    ensures
        existing_salt is Some ==> derivation_yields(password@, existing_salt->0@, r),
        existing_salt is Some && is_hashable_salt_text(existing_salt->0@)
            && encode_utf8(password@).len() <= MAX_PASSWORD_LEN ==> r is Ok,
        existing_salt is None ==> exists|salt: Seq<char>|
            is_fresh_salt_text(salt) && #[trigger] derivation_yields(password@, salt, r),
        existing_salt is None && encode_utf8(password@).len() <= MAX_PASSWORD_LEN ==> r is Ok,
{
    match existing_salt {
        Some(s) => derive_key_with_salt(password, s.as_str()),
        None => {
            let salt = fresh_salt();
            let r = derive_key_with_salt(password, salt.as_str());
            assert(is_hashable_salt_text(salt@));
            assert(is_fresh_salt_text(salt@) && derivation_yields(password@, salt@, r));
            r
        },
    }
}

/// Deriving twice from the same password and salt gives the same outcome:
/// both succeed with the same key and salt, or both fail.
pub proof fn lemma_derivation_deterministic(
    password: Seq<char>,
    salt: Seq<char>,
    first: Result<DerivedKey, CryptoError>,
    second: Result<DerivedKey, CryptoError>,
)
    requires
        derivation_yields(password, salt, first),
        derivation_yields(password, salt, second),
    ensures
        first is Ok <==> second is Ok,
        first is Ok ==> first->Ok_0.key@ == second->Ok_0.key@ && first->Ok_0.salt@ == second->Ok_0.salt@,
{
}

/// Re-deriving from the same password with the salt that a successful
/// derivation emitted gives back that derivation's key.
pub proof fn lemma_salt_reuse(
    password: Seq<char>,
    first: Result<DerivedKey, CryptoError>,
    second: Result<DerivedKey, CryptoError>,
)
    requires
        first is Ok,
        derivation_yields(password, first->Ok_0.salt@, first),
        derivation_yields(password, first->Ok_0.salt@, second),
    ensures
        second is Ok,
        second->Ok_0.key@ == first->Ok_0.key@,
        second->Ok_0.salt@ == first->Ok_0.salt@,
{
}

} // verus!
