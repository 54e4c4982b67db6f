use vstd::prelude::*;
use vstd::slice::slice_to_vec;
use rand::RngCore;
use crate::codec::{base64_of, base64_len, encode_base64};
use crate::aead::KEY_LEN;

verus! {

/// Length in bytes of a P-256 private scalar.
pub const PRIVATE_KEY_LEN: usize = 32;

/// Length in bytes of an uncompressed SEC1 P-256 point.
pub const PUBLIC_POINT_LEN: usize = 65;

/// The value of bytes read as a big-endian unsigned integer.
pub open spec fn be_value(bytes: Seq<u8>) -> nat
    decreases bytes.len(),
{
    if bytes.len() == 0 {
        0
    } else {
        be_value(bytes.drop_last()) * 256 + bytes.last() as nat
    }
}

/// The order of the P-256 base point, as 32 big-endian bytes.
pub open spec fn p256_order_bytes() -> Seq<u8> {
    seq![
        0xFFu8, 0xFF, 0xFF, 0xFF, 0x00, 0x00, 0x00, 0x00, 0xFF, 0xFF, 0xFF, 0xFF, 0xFF, 0xFF, 0xFF, 0xFF,
        0xBC, 0xE6, 0xFA, 0xAD, 0xA7, 0x17, 0x9E, 0x84, 0xF3, 0xB9, 0xCA, 0xC2, 0xFC, 0x63, 0x25, 0x51,
    ]
}

/// A valid P-256 private scalar: 32 big-endian bytes of a value that is
/// nonzero and below the group order.
pub open spec fn is_p256_scalar(bytes: Seq<u8>) -> bool {
    &&& bytes.len() == PRIVATE_KEY_LEN
    &&& 0 < be_value(bytes)
    &&& be_value(bytes) < be_value(p256_order_bytes())
}

/// The uncompressed SEC1 encoding of the P-256 public point whose private
/// scalar has the given 32 big-endian bytes.
pub uninterp spec fn p256_public_sec1(private_key: Seq<u8>) -> Seq<u8>;

/// A P-256 signing keypair: the public point as base64 of its uncompressed
/// SEC1 encoding, and the raw private scalar.
pub struct KeyPair {
    pub public_key: String,
    pub private_key: Vec<u8>,
}

impl KeyPair {
    /// The public point, base64 of its 65-byte uncompressed SEC1 encoding.
    pub fn public_key(&self) -> (r: String)
        ensures
            r@ == self.public_key@,
    {
        self.public_key.clone()
    }

    /// The 32 raw bytes of the private scalar.
    pub fn private_key(&self) -> (r: Vec<u8>)
        ensures
            r@ == self.private_key@,
    {
        slice_to_vec(self.private_key.as_slice())
    }
}

/// Relies on `SigningKey::random` (p256, ecdsa) fed by `thread_rng`, then
/// `VerifyingKey::from` and `EncodedPoint::from`: a random `NonZeroScalar`
/// (nonzero, below the group order) as 32 big-endian bytes, and its public
/// point, which p256 encodes uncompressed (0x04, then x, then y).
#[verifier::external_body]
fn random_p256_keypair() -> (r: (Vec<u8>, Vec<u8>))
    ensures
        is_p256_scalar(r.0@),
        r.1@ == p256_public_sec1(r.0@),
        r.1@.len() == PUBLIC_POINT_LEN,
        r.1@[0] == 4,
{
    let signing_key = p256::ecdsa::SigningKey::random(&mut rand::thread_rng());
    let point = p256::EncodedPoint::from(p256::ecdsa::VerifyingKey::from(&signing_key));
    (signing_key.to_bytes().to_vec(), point.as_bytes().to_vec())
}

/// Relies on `rand::thread_rng().fill_bytes`: overwrites the buffer with
/// bytes from the thread-local CSPRNG; nothing is known of their values.
#[verifier::external_body]
pub(crate) fn fill_random(buf: &mut Vec<u8>)
    ensures
        final(buf)@.len() == old(buf)@.len(),
{
    rand::thread_rng().fill_bytes(buf.as_mut_slice())
}

/// Generates a fresh P-256 keypair from the system CSPRNG.
pub fn generate_keypair() -> (r: KeyPair)
    ensures
        is_p256_scalar(r.private_key@),
        r.public_key@ == base64_of(p256_public_sec1(r.private_key@)),
        p256_public_sec1(r.private_key@).len() == PUBLIC_POINT_LEN,
        p256_public_sec1(r.private_key@)[0] == 4,
        r.public_key@.len() == base64_len(PUBLIC_POINT_LEN as nat),
{
    let (private_key, point) = random_p256_keypair();
    let public_key = encode_base64(point.as_slice());
    KeyPair { public_key, private_key }
}

/// Generates 32 random bytes for use as a symmetric key, as base64.
pub fn generate_random_key() -> (r: String)
    ensures
        exists|bytes: Seq<u8>| bytes.len() == KEY_LEN && r@ == #[trigger] base64_of(bytes),
        r@.len() == base64_len(KEY_LEN as nat),
        r@.last() == '=',
{
    let mut key: Vec<u8> = vec![0u8; KEY_LEN];
    fill_random(&mut key);
    encode_base64(key.as_slice())
}

} // verus!
