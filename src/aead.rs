use vstd::prelude::*;
use vstd::slice::{slice_subrange, slice_to_vec};
use aes_gcm::aead::{Aead, KeyInit};
use crate::codec::{base64_of, base64_len, encode_base64, decode_base64};
use crate::error::CryptoError;
use crate::keys::fill_random;

verus! {

/// Length in bytes of a symmetric key.
pub const KEY_LEN: usize = 32;

/// Length in bytes of the nonce that opens every blob.
pub const NONCE_LEN: usize = 12;

/// Length in bytes of the authentication tag that follows a ciphertext.
pub const TAG_LEN: usize = 16;

/// The longest plaintext that aes-gcm encrypts (its `P_MAX`).
pub const GCM_PLAINTEXT_MAX: u64 = 68719476736;

/// The longest tag-less ciphertext that aes-gcm decrypts (its `C_MAX`).
pub const GCM_CIPHERTEXT_MAX: u64 = 68719476752;

/// The ciphertext followed by its 16-byte tag that AES-256-GCM computes
/// for `plaintext` under `key` and `nonce`, with no associated data; the
/// aes-gcm cipher hands it out for plaintexts of up to `P_MAX` bytes.
pub uninterp spec fn aes256gcm_sealed(key: Seq<u8>, nonce: Seq<u8>, plaintext: Seq<u8>) -> Seq<u8>;

/// The error of the AEAD traits: opaque by design.
#[verifier::external_type_specification]
#[verifier::external_body]
pub struct ExAeadError(aes_gcm::Error);

/// Relies on `Aes256Gcm::encrypt` (aes-gcm): fails exactly when the
/// plaintext exceeds `P_MAX`, else returns ciphertext followed by the tag.
#[verifier::external_body]
#[allow(deprecated)]
fn gcm_encrypt(key: &[u8], nonce: &[u8], plaintext: &[u8]) -> (r: Result<Vec<u8>, aes_gcm::Error>)
    requires
        key@.len() == KEY_LEN,
        nonce@.len() == NONCE_LEN,
    ensures
        r is Ok <==> plaintext@.len() <= GCM_PLAINTEXT_MAX,
        r is Ok ==> r->Ok_0@ == aes256gcm_sealed(key@, nonce@, plaintext@),
        r is Ok ==> r->Ok_0@.len() == plaintext@.len() + TAG_LEN,
{
    let cipher = aes_gcm::Aes256Gcm::new(aes_gcm::Key::<aes_gcm::Aes256Gcm>::from_slice(key));
    cipher.encrypt(aes_gcm::Nonce::from_slice(nonce), plaintext)
}

/// Relies on `Aes256Gcm::decrypt` (aes-gcm): it succeeds exactly when the
/// input is the sealing of some plaintext of at most `C_MAX` bytes under
/// this key and nonce (the tag verifies), and then returns that plaintext.
#[verifier::external_body]
#[allow(deprecated)]
fn gcm_decrypt(key: &[u8], nonce: &[u8], ciphertext: &[u8]) -> (r: Result<Vec<u8>, aes_gcm::Error>)
    requires
        key@.len() == KEY_LEN,
        nonce@.len() == NONCE_LEN,
    ensures
        r is Ok ==> r->Ok_0@.len() <= GCM_CIPHERTEXT_MAX
            && aes256gcm_sealed(key@, nonce@, r->Ok_0@) == ciphertext@,
        r is Ok ==> ciphertext@.len() >= TAG_LEN && r->Ok_0@.len() + TAG_LEN == ciphertext@.len(),
        forall|p: Seq<u8>|
            #[trigger] aes256gcm_sealed(key@, nonce@, p) == ciphertext@ && p.len() <= GCM_CIPHERTEXT_MAX
                ==> (r is Ok && r->Ok_0@ == p),
{
    let cipher = aes_gcm::Aes256Gcm::new(aes_gcm::Key::<aes_gcm::Aes256Gcm>::from_slice(key));
    cipher.decrypt(aes_gcm::Nonce::from_slice(nonce), ciphertext)
}

/// `out` is what AES-256-GCM decryption of `ciphertext` yields: the one
/// plaintext (of at most `C_MAX` bytes, and a tag's length shorter than
/// the ciphertext) that seals to it, or
/// `DecryptionFailed` when there is none.
pub open spec fn gcm_opens_to(key: Seq<u8>, nonce: Seq<u8>, ciphertext: Seq<u8>, out: Result<Seq<u8>, CryptoError>) -> bool {
    match out {
        Ok(p) => {
            &&& p.len() <= GCM_CIPHERTEXT_MAX
            &&& aes256gcm_sealed(key, nonce, p) == ciphertext
            &&& ciphertext.len() == p.len() + TAG_LEN
            &&& forall|q: Seq<u8>|
                q.len() <= GCM_CIPHERTEXT_MAX && #[trigger] aes256gcm_sealed(key, nonce, q) == ciphertext ==> q == p
        },
        Err(e) => {
            &&& e == CryptoError::DecryptionFailed
            &&& forall|q: Seq<u8>|
                q.len() <= GCM_CIPHERTEXT_MAX ==> #[trigger] aes256gcm_sealed(key, nonce, q) != ciphertext
        },
    }
}

/// The raw blob `nonce || ciphertext || tag` for a plaintext under the
/// first 32 bytes of `key`, or the error that encryption reports.
pub open spec fn sealed_blob(plaintext: Seq<u8>, key: Seq<u8>, nonce: Seq<u8>) -> Result<Seq<u8>, CryptoError> {
    if key.len() < KEY_LEN {
        Err(CryptoError::KeyTooShort)
    } else if plaintext.len() > GCM_PLAINTEXT_MAX {
        Err(CryptoError::EncryptionFailed)
    } else {
        Ok(nonce + aes256gcm_sealed(key.take(KEY_LEN as int), nonce, plaintext))
    }
}

/// `out` is what opening the raw blob `nonce || ciphertext || tag` under
/// the first 32 bytes of `key` yields.
pub open spec fn opens_to(blob: Seq<u8>, key: Seq<u8>, out: Result<Seq<u8>, CryptoError>) -> bool {
    if key.len() < KEY_LEN {
        out == Err::<Seq<u8>, CryptoError>(CryptoError::KeyTooShort)
    } else if blob.len() < NONCE_LEN {
        out == Err::<Seq<u8>, CryptoError>(CryptoError::BlobTooShort)
    } else {
        gcm_opens_to(key.take(KEY_LEN as int), blob.take(NONCE_LEN as int), blob.skip(NONCE_LEN as int), out)
    }
}

/// The base64 text of the sealed blob.
pub open spec fn encrypted_text(plaintext: Seq<u8>, key: Seq<u8>, nonce: Seq<u8>) -> Result<Seq<char>, CryptoError> {
    match sealed_blob(plaintext, key, nonce) {
        Ok(b) => Ok(base64_of(b)),
        Err(e) => Err(e),
    }
}

/// `out` is what decrypting base64 blob text under `key` yields: the key
/// is checked before the blob is decoded.
pub open spec fn decrypts_to(blob: Seq<char>, key: Seq<u8>, out: Result<Seq<u8>, CryptoError>) -> bool {
    if key.len() < KEY_LEN {
        out == Err::<Seq<u8>, CryptoError>(CryptoError::KeyTooShort)
    } else if !exists|b: Seq<u8>| base64_of(b) == blob {
        out == Err::<Seq<u8>, CryptoError>(CryptoError::InvalidEncoding)
    } else {
        forall|b: Seq<u8>| #[trigger] base64_of(b) == blob ==> opens_to(b, key, out)
    }
}

/// The view of a byte result.
pub open spec fn bytes_result(r: Result<Vec<u8>, CryptoError>) -> Result<Seq<u8>, CryptoError> {
    match r {
        Ok(v) => Ok(v@),
        Err(e) => Err(e),
    }
}

/// The view of a text result.
pub open spec fn text_result(r: Result<String, CryptoError>) -> Result<Seq<char>, CryptoError> {
    match r {
        Ok(s) => Ok(s@),
        Err(e) => Err(e),
    }
}

/// Seals `plaintext` under the first 32 bytes of `key` with the given nonce
/// into a raw blob `nonce || ciphertext || tag`.
pub fn seal_blob(plaintext: &[u8], key: &[u8], nonce: &[u8]) -> (r: Result<Vec<u8>, CryptoError>)
    requires
        nonce@.len() == NONCE_LEN,
    ensures
        bytes_result(r) == sealed_blob(plaintext@, key@, nonce@),
        r is Ok ==> r->Ok_0@.len() == NONCE_LEN + plaintext@.len() + TAG_LEN,
{
    if key.len() < KEY_LEN {
        return Err(CryptoError::KeyTooShort);
    }
    let key32 = slice_subrange(key, 0, KEY_LEN);
    match gcm_encrypt(key32, nonce, plaintext) {
        Ok(ct) => {
            let mut ct = ct;
            let mut out = slice_to_vec(nonce);
            out.append(&mut ct);
            Ok(out)
        },
        Err(_) => Err(CryptoError::EncryptionFailed),
    }
}

/// Opens a raw blob `nonce || ciphertext || tag` under the first 32 bytes
/// of `key`.
pub fn open_blob(blob: &[u8], key: &[u8]) -> (r: Result<Vec<u8>, CryptoError>)
    ensures
        opens_to(blob@, key@, bytes_result(r)),
{
    if key.len() < KEY_LEN {
        return Err(CryptoError::KeyTooShort);
    }
    if blob.len() < NONCE_LEN {
        return Err(CryptoError::BlobTooShort);
    }
    let key32 = slice_subrange(key, 0, KEY_LEN);
    let (nonce, ciphertext) = blob.split_at(NONCE_LEN);
    assert(nonce@ == blob@.take(NONCE_LEN as int));
    assert(ciphertext@ == blob@.skip(NONCE_LEN as int));
    match gcm_decrypt(key32, nonce, ciphertext) {
        Ok(p) => {
            Ok(p)
        },
        Err(_) => Err(CryptoError::DecryptionFailed),
    }
}

/// Encrypts with a caller-chosen nonce into base64 blob text.
pub fn seal_with_nonce(plaintext: &[u8], key: &[u8], nonce: &[u8]) -> (r: Result<String, CryptoError>)
    requires
        nonce@.len() == NONCE_LEN,
    ensures
        text_result(r) == encrypted_text(plaintext@, key@, nonce@),
        r is Ok ==> exists|raw: Seq<u8>|
            raw.len() == NONCE_LEN + plaintext@.len() + TAG_LEN && r->Ok_0@ == #[trigger] base64_of(raw),
        r is Ok ==> r->Ok_0@.len() == base64_len((NONCE_LEN + plaintext@.len() + TAG_LEN) as nat),
{
    match seal_blob(plaintext, key, nonce) {
        Ok(blob) => {
            let text = encode_base64(blob.as_slice());
            assert(base64_of(blob@) == text@);
            Ok(text)
        },
        Err(e) => Err(e),
    }
}

/// Encrypts `plaintext` under the first 32 bytes of `key` with a fresh
/// random nonce; a short key is rejected before any randomness is drawn.
pub fn encrypt(plaintext: &[u8], key: &[u8]) -> (r: Result<String, CryptoError>)
    ensures
        key@.len() < KEY_LEN ==> r == Err::<String, CryptoError>(CryptoError::KeyTooShort),
        exists|nonce: Seq<u8>|
            nonce.len() == NONCE_LEN && text_result(r) == #[trigger] encrypted_text(plaintext@, key@, nonce),
        r is Ok ==> exists|raw: Seq<u8>|
            raw.len() == NONCE_LEN + plaintext@.len() + TAG_LEN && r->Ok_0@ == #[trigger] base64_of(raw),
        r is Ok ==> r->Ok_0@.len() == base64_len((NONCE_LEN + plaintext@.len() + TAG_LEN) as nat),
{
    if key.len() < KEY_LEN {
        let r = Err(CryptoError::KeyTooShort);
        assert(text_result(r) == encrypted_text(plaintext@, key@, Seq::new(12, |i: int| 0u8)));
        return r;
    }
    let mut nonce: Vec<u8> = vec![0u8; NONCE_LEN];
    fill_random(&mut nonce);
    let r = seal_with_nonce(plaintext, key, nonce.as_slice());
    assert(text_result(r) == encrypted_text(plaintext@, key@, nonce@));
    r
}

/// Decrypts base64 blob text under the first 32 bytes of `key`.
pub fn decrypt(blob: &str, key: &[u8]) -> (r: Result<Vec<u8>, CryptoError>)
    ensures
        decrypts_to(blob@, key@, bytes_result(r)),
{
    if key.len() < KEY_LEN {
        return Err(CryptoError::KeyTooShort);
    }
    match decode_base64(blob) {
        Ok(bytes) => open_blob(bytes.as_slice(), key),
        Err(e) => Err(e),
    }
}

/// Decrypting what encryption produced, under the same key, returns the
/// original plaintext, whatever nonce was used.
pub proof fn lemma_round_trip(
    plaintext: Seq<u8>,
    key: Seq<u8>,
    nonce: Seq<u8>,
    blob: Seq<char>,
    out: Result<Seq<u8>, CryptoError>,
)
    requires
        nonce.len() == NONCE_LEN,
        encrypted_text(plaintext, key, nonce) == Ok::<Seq<char>, CryptoError>(blob),
        decrypts_to(blob, key, out),
    ensures
        out == Ok::<Seq<u8>, CryptoError>(plaintext),
{
    let raw = nonce + aes256gcm_sealed(key.take(KEY_LEN as int), nonce, plaintext);
    assert(base64_of(raw) == blob);
    assert(opens_to(raw, key, out));
    assert(raw.take(NONCE_LEN as int) =~= nonce);
    assert(raw.skip(NONCE_LEN as int) =~= aes256gcm_sealed(key.take(KEY_LEN as int), nonce, plaintext));
}

/// Opening never invents a plaintext: on a blob of at least a nonce's
/// length under a full-length key, it either fails with `DecryptionFailed`
/// or returns a plaintext whose sealing under this key and the blob's own
/// nonce is exactly the rest of the blob. A blob altered after sealing, or
/// sealed under another key, opens only if it is itself such a sealing.
pub proof fn lemma_open_is_authentic(blob: Seq<u8>, key: Seq<u8>, out: Result<Seq<u8>, CryptoError>)
    requires
        key.len() >= KEY_LEN,
        blob.len() >= NONCE_LEN,
        opens_to(blob, key, out),
    ensures
        out is Err ==> out->Err_0 == CryptoError::DecryptionFailed,
        out is Ok ==> blob == blob.take(NONCE_LEN as int) + aes256gcm_sealed(
            key.take(KEY_LEN as int),
            blob.take(NONCE_LEN as int),
            out->Ok_0,
        ),
{
    assert(blob =~= blob.take(NONCE_LEN as int) + blob.skip(NONCE_LEN as int));
}

/// A key of fewer than 32 bytes is refused by both directions, whatever
/// the payload, nonce or blob.
pub proof fn lemma_short_key_rejected(
    plaintext: Seq<u8>,
    key: Seq<u8>,
    nonce: Seq<u8>,
    blob: Seq<char>,
    out: Result<Seq<u8>, CryptoError>,
)
    requires
        key.len() < KEY_LEN,
        decrypts_to(blob, key, out),
    ensures
        encrypted_text(plaintext, key, nonce) == Err::<Seq<char>, CryptoError>(CryptoError::KeyTooShort),
        out == Err::<Seq<u8>, CryptoError>(CryptoError::KeyTooShort),
{
}

/// Under a full-length key, blob text that is not base64 fails with
/// `InvalidEncoding`, base64 of fewer than 12 bytes with `BlobTooShort`,
/// and base64 of a nonce with no room for a tag after it with
/// `DecryptionFailed`.
pub proof fn lemma_malformed_blob_rejected(blob: Seq<char>, key: Seq<u8>, out: Result<Seq<u8>, CryptoError>)
    requires
        key.len() >= KEY_LEN,
        decrypts_to(blob, key, out),
    ensures
        !(exists|b: Seq<u8>| base64_of(b) == blob) ==> out == Err::<Seq<u8>, CryptoError>(CryptoError::InvalidEncoding),
        forall|b: Seq<u8>| #[trigger] base64_of(b) == blob && b.len() < NONCE_LEN
            ==> out == Err::<Seq<u8>, CryptoError>(CryptoError::BlobTooShort),
        forall|b: Seq<u8>| #[trigger] base64_of(b) == blob && NONCE_LEN <= b.len() < NONCE_LEN + TAG_LEN
            ==> out == Err::<Seq<u8>, CryptoError>(CryptoError::DecryptionFailed),
{
}

} // verus!
