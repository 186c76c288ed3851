//! The cryptographic primitives, as libsodium computes them through sodiumoxide.
//!
//! Each primitive's output is named by a spec function of its inputs alone;
//! the wrappers below state that the call returns exactly that value.
use sodiumoxide::crypto::box_::curve25519xsalsa20poly1305 as nbox;
use sodiumoxide::crypto::scalarmult::curve25519 as x25519;
use vstd::prelude::*;

verus! {

/// SHA-256 digest of a byte string.
pub uninterp spec fn sha256_of(m: Seq<u8>) -> Seq<u8>;

/// SHA-512 digest of a byte string.
pub uninterp spec fn sha512_of(m: Seq<u8>) -> Seq<u8>;

/// X25519 product of scalar `n` and point `p` (all zero for a point of small order).
pub uninterp spec fn scalarmult_of(n: Seq<u8>, p: Seq<u8>) -> Seq<u8>;

/// X25519 product of scalar `n` and the standard base point.
pub uninterp spec fn scalarmult_base_of(n: Seq<u8>) -> Seq<u8>;

/// NaCl `box` precomputed key for secret key `sk` and public key `pk`.
pub uninterp spec fn precompute_of(pk: Seq<u8>, sk: Seq<u8>) -> Seq<u8>;

/// XSalsa20-Poly1305 ciphertext (tag first) of `m` under key `k` and nonce `n`.
pub uninterp spec fn seal_of(k: Seq<u8>, n: Seq<u8>, m: Seq<u8>) -> Seq<u8>;

/// XSalsa20-Poly1305 opening of `c` under key `k` and nonce `n`: the plaintext,
/// or `None` when the tag does not verify.
pub uninterp spec fn open_of(k: Seq<u8>, n: Seq<u8>, c: Seq<u8>) -> Option<Seq<u8>>;

/// Relies on `sodiumoxide::crypto::hash::sha256::hash`: the 32-byte digest of `m`.
#[verifier::external_body]
pub fn sha256(m: &[u8]) -> (r: [u8; 32])
    ensures
        r@ == sha256_of(m@),
{
    sodiumoxide::crypto::hash::sha256::hash(m).0
}

/// Relies on `sodiumoxide::crypto::hash::sha512::hash`: the 64-byte digest of `m`.
#[verifier::external_body]
pub fn sha512(m: &[u8]) -> (r: [u8; 64])
    ensures
        r@ == sha512_of(m@),
{
    sodiumoxide::crypto::hash::sha512::hash(m).0
}

/// Relies on `sodiumoxide::crypto::scalarmult::curve25519::scalarmult`: the product,
/// or `Err` when the product is all zero (a point of small order).
#[verifier::external_body]
pub fn scalarmult(n: &[u8; 32], p: &[u8; 32]) -> (r: Option<[u8; 32]>)
    ensures
        r is Some ==> r->0@ == scalarmult_of(n@, p@),
        r is None ==> scalarmult_of(n@, p@) == Seq::new(32, |i: int| 0u8),
{
    x25519::scalarmult(&x25519::Scalar(*n), &x25519::GroupElement(*p)).ok().map(|q| q.0)
}

/// Relies on `sodiumoxide::crypto::scalarmult::curve25519::scalarmult_base`: the public
/// key that belongs to the private key `n`.
#[verifier::external_body]
pub fn scalarmult_base(n: &[u8; 32]) -> (r: [u8; 32])
    ensures
        r@ == scalarmult_base_of(n@),
{
    x25519::scalarmult_base(&x25519::Scalar(*n)).0
}

/// Relies on `sodiumoxide::crypto::box_::curve25519xsalsa20poly1305::precompute`: the
/// shared key of a `box` between `sk` and `pk`.
#[verifier::external_body]
pub fn precompute(pk: &[u8; 32], sk: &[u8; 32]) -> (r: [u8; 32])
    ensures
        r@ == precompute_of(pk@, sk@),
{
    nbox::precompute(&nbox::PublicKey(*pk), &nbox::SecretKey(*sk)).0
}

/// Relies on `sodiumoxide::crypto::box_::curve25519xsalsa20poly1305::seal_precomputed`:
/// the ciphertext is 16 bytes longer than `m`, and `open_precomputed` with the same key
/// and nonce gives `m` back.
#[verifier::external_body]
pub fn seal_precomputed(m: &[u8], n: &[u8; 24], k: &[u8; 32]) -> (r: Vec<u8>)
    ensures
        r@ == seal_of(k@, n@, m@),
        r@.len() == m@.len() + 16,
        open_of(k@, n@, r@) == Some(m@),
{
    nbox::seal_precomputed(m, &nbox::Nonce(*n), &nbox::PrecomputedKey(*k))
}

/// Relies on `sodiumoxide::crypto::box_::curve25519xsalsa20poly1305::open_precomputed`:
/// the plaintext, 16 bytes shorter than `c`, or `Err` when the tag does not verify.
#[verifier::external_body]
pub fn open_precomputed(c: &[u8], n: &[u8; 24], k: &[u8; 32]) -> (r: Option<Vec<u8>>)
    ensures
        r is Some <==> open_of(k@, n@, c@) is Some,
        r is Some ==> r->0@ == open_of(k@, n@, c@)->0 && r->0@.len() + 16 == c@.len(),
{
    nbox::open_precomputed(c, &nbox::Nonce(*n), &nbox::PrecomputedKey(*k)).ok()
}

/// Relies on `sodiumoxide::randombytes::randombytes`: `size` bytes from the CSPRNG.
#[verifier::external_body]
pub fn random_bytes(size: usize) -> (r: Vec<u8>)
    ensures
        r@.len() == size,
{
    sodiumoxide::randombytes::randombytes(size)
}

} // verus!
