use vstd::prelude::*;
use base64::Engine;
use crate::error::CryptoError;

verus! {

/// Standard padded base64 (RFC 4648 alphabet) of the given bytes, as
/// produced by base64's `STANDARD` engine.
pub uninterp spec fn base64_of(bytes: Seq<u8>) -> Seq<char>;

/// A character of the standard base64 alphabet or its padding.
pub open spec fn is_base64_text_char(c: char) -> bool {
    ('A' <= c && c <= 'Z') || ('a' <= c && c <= 'z') || ('0' <= c && c <= '9') || c == '+' || c == '/'
        || c == '='
}

/// The length of the padded base64 text of `n` bytes.
pub open spec fn base64_len(n: nat) -> nat {
    4 * ((n + 2) / 3)
}

/// How many `=` close the padded base64 text of `n` bytes.
pub open spec fn base64_padding(n: nat) -> nat {
    if n % 3 == 0 {
        0
    } else {
        (3 - n % 3) as nat
    }
}

/// The decoding error of the base64 crate.
#[verifier::external_type_specification]
#[verifier::external_body]
pub struct ExDecodeError(base64::DecodeError);

/// Relies on base64's `STANDARD.encode`: the canonical padded encoding of
/// the bytes. It panics only when the output length overflows `usize`,
/// which no slice can cause: a slice holds at most `isize::MAX` bytes.
#[verifier::external_body]
fn standard_encode(bytes: &[u8]) -> (r: String)
    ensures
        r@ == base64_of(bytes@),
        r@.len() == base64_len(bytes@.len()),
        forall|i: int| 0 <= i < r@.len() ==> is_base64_text_char(#[trigger] r@[i]),
        forall|i: int| 0 <= i < r@.len() ==> (#[trigger] r@[i] == '=' <==> i >= r@.len() - base64_padding(bytes@.len())),
{
    base64::engine::general_purpose::STANDARD.encode(bytes)
}

/// Relies on base64's `STANDARD.decode`, whose configuration requires
/// canonical padding and zero trailing bits: it accepts exactly the strings
/// that `STANDARD.encode` produces, and returns the bytes they encode; a
/// character outside the alphabet and `=` is always an error.
#[verifier::external_body]
fn standard_decode(text: &str) -> (r: Result<Vec<u8>, base64::DecodeError>)
    ensures
        r is Ok ==> base64_of(r->Ok_0@) == text@,
        forall|b: Seq<u8>| #[trigger] base64_of(b) == text@ ==> (r is Ok && r->Ok_0@ == b),
        (exists|i: int| 0 <= i < text@.len() && !is_base64_text_char(#[trigger] text@[i])) ==> r is Err,
{
    base64::engine::general_purpose::STANDARD.decode(text)
}

/// Encodes bytes as standard padded base64.
pub fn encode_base64(bytes: &[u8]) -> (r: String)
    ensures
        r@ == base64_of(bytes@),
        r@.len() == base64_len(bytes@.len()),
        forall|i: int| 0 <= i < r@.len() ==> is_base64_text_char(#[trigger] r@[i]),
        forall|i: int| 0 <= i < r@.len() ==> (#[trigger] r@[i] == '=' <==> i >= r@.len() - base64_padding(bytes@.len())),
{
    standard_encode(bytes)
}

/// Decodes standard padded base64; malformed text is `InvalidEncoding`.
/// The decoded bytes are the only ones whose encoding is `text`.
pub fn decode_base64(text: &str) -> (r: Result<Vec<u8>, CryptoError>)
    ensures
        r is Ok <==> exists|b: Seq<u8>| base64_of(b) == text@,
        r is Ok ==> base64_of(r->Ok_0@) == text@,
        r is Ok ==> forall|b: Seq<u8>| #[trigger] base64_of(b) == text@ ==> b == r->Ok_0@,
        r is Err ==> r->Err_0 is InvalidEncoding,
        (exists|i: int| 0 <= i < text@.len() && !is_base64_text_char(#[trigger] text@[i])) ==> r is Err,
{
    match standard_decode(text) {
        Ok(v) => Ok(v),
        Err(_) => Err(CryptoError::InvalidEncoding),
    }
}

} // verus!
