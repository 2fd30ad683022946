//! Hash functions and signature checks. The arithmetic is done by the
//! cryptographic library; this module names its results and guards its
//! limits.

use ring::signature;
use vstd::prelude::*;

verus! {

/// Hash function of the SHA-2 family.
#[derive(Clone, Copy, Debug, PartialEq, Eq, Structural)]
pub enum HashFunction {
    /// SHA-256.
    Sha256,
    /// SHA-384.
    Sha384,
    /// SHA-512.
    Sha512,
}

/// Padding scheme of an RSA signature.
#[derive(Clone, Copy, Debug, PartialEq, Eq, Structural)]
pub enum RsaPadding {
    /// RSASSA-PKCS1-v1_5.
    Pkcs1V15,
    /// RSASSA-PSS.
    Pss,
}

/// Longest input, in bytes, that the hash functions take: its length in bits
/// must fit in 64 bits.
pub const MAX_HASH_INPUT_BYTES: u64 = 0x1FFF_FFFF_FFFF_FFFF;

/// The digest of `data` under `hash`.
pub uninterp spec fn digest_of(hash: HashFunction, data: Seq<u8>) -> Seq<u8>;

/// Whether `signature` is a valid RSA signature of `message` under the
/// public key with modulus `n` and exponent `e` (big-endian), for a modulus
/// of 2048 to 8192 bits.
pub uninterp spec fn rsa_signature_valid(
    padding: RsaPadding,
    hash: HashFunction,
    n: Seq<u8>,
    e: Seq<u8>,
    message: Seq<u8>,
    signature: Seq<u8>,
) -> bool;

/// Whether `tag` is the HMAC of `message` under `key`.
pub uninterp spec fn hmac_tag_valid(
    hash: HashFunction,
    key: Seq<u8>,
    message: Seq<u8>,
    tag: Seq<u8>,
) -> bool;

/// Whether the hash functions take an input of `len` bytes.
pub open spec fn hashable(len: nat) -> bool {
    len <= MAX_HASH_INPUT_BYTES
}

/// Whether a slice is short enough to be hashed.
pub fn is_hashable(data: &[u8]) -> (b: bool)
    ensures
        b == hashable(data@.len()),
{
    data.len() as u64 <= MAX_HASH_INPUT_BYTES
}

/// Hashes with `ring::digest::digest`, which panics on an input whose length
/// in bits does not fit in 64 bits; `requires` leaves such inputs out. The
/// digest depends on the algorithm and the data alone.
#[verifier::external_body]
pub(crate) fn digest(hash: HashFunction, data: &[u8]) -> (r: Vec<u8>)
    requires
        hashable(data@.len()),
    ensures
        r@ == digest_of(hash, data@),
{
    let algorithm = match hash {
        HashFunction::Sha256 => &ring::digest::SHA256,
        HashFunction::Sha384 => &ring::digest::SHA384,
        HashFunction::Sha512 => &ring::digest::SHA512,
    };
    ring::digest::digest(algorithm, data).as_ref().to_vec()
}

/// Checks an RSA signature with
/// `ring::signature::RsaPublicKeyComponents::verify`, under the parameters
/// `RSA_PKCS1_2048_8192_*` or `RSA_PSS_2048_8192_*` of the hash given. It
/// returns an error for a key it does not accept and for a signature that
/// does not match; both come back as `false`. It hashes the message, hence
/// the `requires`.
#[verifier::external_body]
pub(crate) fn rsa_verify(
    padding: RsaPadding,
    hash: HashFunction,
    n: &[u8],
    e: &[u8],
    message: &[u8],
    tag: &[u8],
) -> (valid: bool)
    requires
        hashable(message@.len()),
    ensures
        valid == rsa_signature_valid(padding, hash, n@, e@, message@, tag@),
{
    let params = match (padding, hash) {
        (RsaPadding::Pkcs1V15, HashFunction::Sha256) => &signature::RSA_PKCS1_2048_8192_SHA256,
        (RsaPadding::Pkcs1V15, HashFunction::Sha384) => &signature::RSA_PKCS1_2048_8192_SHA384,
        (RsaPadding::Pkcs1V15, HashFunction::Sha512) => &signature::RSA_PKCS1_2048_8192_SHA512,
        (RsaPadding::Pss, HashFunction::Sha256) => &signature::RSA_PSS_2048_8192_SHA256,
        (RsaPadding::Pss, HashFunction::Sha384) => &signature::RSA_PSS_2048_8192_SHA384,
        (RsaPadding::Pss, HashFunction::Sha512) => &signature::RSA_PSS_2048_8192_SHA512,
    };
    signature::RsaPublicKeyComponents { n, e }.verify(params, message, tag).is_ok()
}

/// Checks an HMAC tag with `ring::hmac::verify` under a key made by
/// `ring::hmac::Key::new`, which hashes a key longer than a block and so
/// panics on a key too long to be hashed; `requires` leaves such keys out.
/// A message too long to be hashed is reported as a mismatch.
#[verifier::external_body]
pub(crate) fn hmac_verify(hash: HashFunction, key: &[u8], message: &[u8], tag: &[u8]) -> (valid:
    bool)
    requires
        hashable(key@.len()),
    ensures
        valid == hmac_tag_valid(hash, key@, message@, tag@),
{
    let algorithm = match hash {
        HashFunction::Sha256 => ring::hmac::HMAC_SHA256,
        HashFunction::Sha384 => ring::hmac::HMAC_SHA384,
        HashFunction::Sha512 => ring::hmac::HMAC_SHA512,
    };
    ring::hmac::verify(&ring::hmac::Key::new(algorithm, key), message, tag).is_ok()
}

} // verus!
