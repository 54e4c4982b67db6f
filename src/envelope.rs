use vstd::prelude::*;
use vstd::utf8::{encode_utf8, valid_utf8};
use crate::codec::{base64_of, base64_len, decode_base64};
use crate::aead::{encrypt, decrypt, encrypted_text, decrypts_to, text_result, bytes_result, lemma_round_trip, NONCE_LEN, TAG_LEN};
use crate::error::CryptoError;
use crate::keys::KeyPair;

verus! {

/// Relies on `String::from_utf8`: it succeeds exactly on valid UTF-8, and
/// the string then holds those very bytes.
#[verifier::external_body]
fn string_from_utf8(bytes: Vec<u8>) -> (r: Option<String>)
    ensures
        r is Some <==> valid_utf8(bytes@),
        r is Some ==> encode_utf8(r->0@) == bytes@,
{
    String::from_utf8(bytes).ok()
}

/// `r` is what encrypting `plaintext` under base64 key text yields: the
/// key text must decode, and the decoded key then drives the encryption
/// with some 12-byte nonce; a blob decodes to nonce, ciphertext and tag.
pub open spec fn encrypts_to(plaintext: Seq<u8>, key_text: Seq<char>, r: Result<Seq<char>, CryptoError>) -> bool {
    &&& r is Ok ==> exists|raw: Seq<u8>|
        raw.len() == NONCE_LEN + plaintext.len() + TAG_LEN && r->Ok_0 == #[trigger] base64_of(raw)
    &&& r is Ok ==> r->Ok_0.len() == base64_len((NONCE_LEN + plaintext.len() + TAG_LEN) as nat)
    &&& if !exists|k: Seq<u8>| base64_of(k) == key_text {
        r == Err::<Seq<char>, CryptoError>(CryptoError::InvalidEncoding)
    } else {
        forall|k: Seq<u8>| #[trigger] base64_of(k) == key_text ==> exists|nonce: Seq<u8>|
            nonce.len() == NONCE_LEN && r == #[trigger] encrypted_text(plaintext, k, nonce)
    }
}

/// `out` is what decrypting blob text under base64 key text yields.
pub open spec fn decrypts_with(blob: Seq<char>, key_text: Seq<char>, out: Result<Seq<u8>, CryptoError>) -> bool {
    if !exists|k: Seq<u8>| base64_of(k) == key_text {
        out == Err::<Seq<u8>, CryptoError>(CryptoError::InvalidEncoding)
    } else {
        forall|k: Seq<u8>| #[trigger] base64_of(k) == key_text ==> decrypts_to(blob, k, out)
    }
}

/// `r` is the text that decrypted bytes `out` stand for: their UTF-8
/// decoding, `InvalidUtf8` when they are not UTF-8, or the same error.
pub open spec fn text_of(out: Result<Seq<u8>, CryptoError>, r: Result<String, CryptoError>) -> bool {
    match out {
        Ok(bytes) => if valid_utf8(bytes) {
            r is Ok && encode_utf8(r->Ok_0@) == bytes
        } else {
            r is Err && r->Err_0 is InvalidUtf8
        },
        Err(e) => r == Err::<String, CryptoError>(e),
    }
}

fn encrypt_with_key_text(plaintext: &[u8], key_text: &str) -> (r: Result<String, CryptoError>)
    ensures
        encrypts_to(plaintext@, key_text@, text_result(r)),
{
    match decode_base64(key_text) {
        Ok(key) => {
            let r = encrypt(plaintext, key.as_slice());
            proof {
                assert forall|k: Seq<u8>| #[trigger] base64_of(k) == key_text@ implies exists|nonce: Seq<u8>|
                    nonce.len() == NONCE_LEN && text_result(r) == #[trigger] encrypted_text(plaintext@, k, nonce) by {
                    assert(k == key@);
                }
            }
            r
        },
        Err(e) => Err(e),
    }
}

fn decrypt_with_key_text(blob: &str, key_text: &str) -> (r: Result<Vec<u8>, CryptoError>)
    ensures
        decrypts_with(blob@, key_text@, bytes_result(r)),
{
    match decode_base64(key_text) {
        Ok(key) => {
            let r = decrypt(blob, key.as_slice());
            proof {
                assert forall|k: Seq<u8>| #[trigger] base64_of(k) == key_text@ implies decrypts_to(blob@, k, bytes_result(r)) by {
                    assert(k == key@);
                }
            }
            r
        },
        Err(e) => Err(e),
    }
}

/// Encrypts the keypair's private key bytes under a derived key given as
/// base64 text.
pub fn encrypt_private_key(keypair: &KeyPair, derived_key: &str) -> (r: Result<String, CryptoError>)
    ensures
        encrypts_to(keypair.private_key@, derived_key@, text_result(r)),
{
    encrypt_with_key_text(keypair.private_key.as_slice(), derived_key)
}

/// Recovers private key bytes from blob text under a derived key given as
/// base64 text.
pub fn decrypt_private_key(encrypted_key: &str, derived_key: &str) -> (r: Result<Vec<u8>, CryptoError>)
    ensures
        decrypts_with(encrypted_key@, derived_key@, bytes_result(r)),
{
    decrypt_with_key_text(encrypted_key, derived_key)
}

/// Encrypts the UTF-8 bytes of `data` under a key given as base64 text.
pub fn encrypt_data(data: &str, key: &str) -> (r: Result<String, CryptoError>)
    ensures
        encrypts_to(encode_utf8(data@), key@, text_result(r)),
{
    encrypt_with_key_text(data.as_bytes(), key)
}

/// Decrypts blob text under a key given as base64 text, and reads the
/// plaintext back as UTF-8.
pub fn decrypt_data(encrypted_data_str: &str, key: &str) -> (r: Result<String, CryptoError>)
    ensures
        exists|out: Result<Seq<u8>, CryptoError>|
            #[trigger] decrypts_with(encrypted_data_str@, key@, out) && text_of(out, r),
{
    let bytes = decrypt_with_key_text(encrypted_data_str, key);
    let ghost out = bytes_result(bytes);
    let r = match bytes {
        Ok(b) => match string_from_utf8(b) {
            Some(s) => Ok(s),
            None => Err(CryptoError::InvalidUtf8),
        },
        Err(e) => Err(e),
    };
    assert(decrypts_with(encrypted_data_str@, key@, out) && text_of(out, r));
    r
}

/// Decrypting, under the same key text, what encryption produced returns
/// the original bytes.
pub proof fn lemma_key_text_round_trip(
    plaintext: Seq<u8>,
    key_text: Seq<char>,
    blob: Seq<char>,
    out: Result<Seq<u8>, CryptoError>,
)
    requires
        encrypts_to(plaintext, key_text, Ok::<Seq<char>, CryptoError>(blob)),
        decrypts_with(blob, key_text, out),
    ensures
        out == Ok::<Seq<u8>, CryptoError>(plaintext),
{
    let k = choose|k: Seq<u8>| base64_of(k) == key_text;
    assert(base64_of(k) == key_text);
    let nonce = choose|nonce: Seq<u8>|
        nonce.len() == NONCE_LEN && Ok::<Seq<char>, CryptoError>(blob) == #[trigger] encrypted_text(plaintext, k, nonce);
    assert(decrypts_to(blob, k, out));
    lemma_round_trip(plaintext, k, nonce, blob, out);
}

/// Text encrypted with `encrypt_data` comes back unchanged from
/// `decrypt_data` under the same key text.
pub proof fn lemma_text_round_trip(
    data: Seq<char>,
    key_text: Seq<char>,
    blob: Seq<char>,
    r: Result<String, CryptoError>,
)
    requires
        encrypts_to(encode_utf8(data), key_text, Ok::<Seq<char>, CryptoError>(blob)),
        exists|out: Result<Seq<u8>, CryptoError>| #[trigger] decrypts_with(blob, key_text, out) && text_of(out, r),
    ensures
        r is Ok,
        r->Ok_0@ == data,
{
    let out = choose|out: Result<Seq<u8>, CryptoError>| #[trigger] decrypts_with(blob, key_text, out) && text_of(out, r);
    lemma_key_text_round_trip(encode_utf8(data), key_text, blob, out);
    vstd::utf8::encode_utf8_valid_utf8(data);
    vstd::utf8::encode_utf8_decode_utf8(data);
    vstd::utf8::encode_utf8_decode_utf8(r->Ok_0@);
}

} // verus!
