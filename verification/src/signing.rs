//! What each signing algorithm is made of, and the check of one signature
//! under one key.

use vstd::prelude::*;

use crate::core_types::{CoreJsonWebKeyType, CoreJwsSigningAlgorithm};
use crate::crypto::{HashFunction, RsaPadding};

verus! {

/// Why a signature was not accepted.
#[derive(Clone, Copy, Debug, PartialEq, Eq, Structural)]
pub enum SignatureVerificationError {
    /// The key cannot be used for the algorithm: it is of another type, is
    /// meant for encryption, or lacks a parameter.
    InvalidKey,
    /// No key of the set fits the algorithm and key identifier of the token.
    NoMatchingKey,
    /// More than one key of the set fits.
    AmbiguousKey,
    /// The algorithm is not implemented.
    UnsupportedAlg,
    /// The algorithm is not among those the verifier allows.
    DisallowedAlg,
    /// The cryptographic library cannot take the input.
    CryptoError,
    /// The signature does not match the signed bytes under the key.
    InvalidSignature,
}

impl CoreJwsSigningAlgorithm {
    /// The hash function named in the algorithm, which also serves for the
    /// `at_hash` and `c_hash` claims; none for unsigned tokens.
    pub open spec fn hash_function(self) -> Option<HashFunction> {
        match self {
            CoreJwsSigningAlgorithm::HmacSha256
            | CoreJwsSigningAlgorithm::RsaSsaPkcs1V15Sha256
            | CoreJwsSigningAlgorithm::EcdsaP256Sha256
            | CoreJwsSigningAlgorithm::RsaSsaPssSha256 => Some(HashFunction::Sha256),
            CoreJwsSigningAlgorithm::HmacSha384
            | CoreJwsSigningAlgorithm::RsaSsaPkcs1V15Sha384
            | CoreJwsSigningAlgorithm::EcdsaP384Sha384
            | CoreJwsSigningAlgorithm::RsaSsaPssSha384 => Some(HashFunction::Sha384),
            CoreJwsSigningAlgorithm::HmacSha512
            | CoreJwsSigningAlgorithm::RsaSsaPkcs1V15Sha512
            | CoreJwsSigningAlgorithm::EcdsaP521Sha512
            | CoreJwsSigningAlgorithm::RsaSsaPssSha512 => Some(HashFunction::Sha512),
            CoreJwsSigningAlgorithm::Unsigned => None,
        }
    }

    /// The RSA padding of the algorithm, where it is an RSA algorithm.
    pub open spec fn rsa_scheme(self) -> Option<RsaPadding> {
        match self {
            CoreJwsSigningAlgorithm::RsaSsaPkcs1V15Sha256
            | CoreJwsSigningAlgorithm::RsaSsaPkcs1V15Sha384
            | CoreJwsSigningAlgorithm::RsaSsaPkcs1V15Sha512 => Some(RsaPadding::Pkcs1V15),
            CoreJwsSigningAlgorithm::RsaSsaPssSha256
            | CoreJwsSigningAlgorithm::RsaSsaPssSha384
            | CoreJwsSigningAlgorithm::RsaSsaPssSha512 => Some(RsaPadding::Pss),
            _ => None,
        }
    }

    /// Whether the algorithm signs with a secret shared by both sides.
    pub open spec fn symmetric(self) -> bool {
        self == CoreJwsSigningAlgorithm::HmacSha256 || self == CoreJwsSigningAlgorithm::HmacSha384
            || self == CoreJwsSigningAlgorithm::HmacSha512
    }

    /// The type of key that the algorithm works with; none for unsigned
    /// tokens.
    pub open spec fn key_kind(self) -> Option<CoreJsonWebKeyType> {
        if self.symmetric() {
            Some(CoreJsonWebKeyType::Symmetric)
        } else if self.rsa_scheme() is Some {
            Some(CoreJsonWebKeyType::RSA)
        } else if self == CoreJwsSigningAlgorithm::Unsigned {
            None
        } else {
            Some(CoreJsonWebKeyType::EllipticCurve)
        }
    }

    /// Whether this library can check signatures of the algorithm.
    pub open spec fn implemented(self) -> bool {
        self.symmetric() || self.rsa_scheme() is Some
    }

    /// The hash function named in the algorithm.
    pub fn hash(&self) -> (r: Option<HashFunction>)
        ensures
            r == self.hash_function(),
    {
        match self {
            CoreJwsSigningAlgorithm::HmacSha256
            | CoreJwsSigningAlgorithm::RsaSsaPkcs1V15Sha256
            | CoreJwsSigningAlgorithm::EcdsaP256Sha256
            | CoreJwsSigningAlgorithm::RsaSsaPssSha256 => Some(HashFunction::Sha256),
            CoreJwsSigningAlgorithm::HmacSha384
            | CoreJwsSigningAlgorithm::RsaSsaPkcs1V15Sha384
            | CoreJwsSigningAlgorithm::EcdsaP384Sha384
            | CoreJwsSigningAlgorithm::RsaSsaPssSha384 => Some(HashFunction::Sha384),
            CoreJwsSigningAlgorithm::HmacSha512
            | CoreJwsSigningAlgorithm::RsaSsaPkcs1V15Sha512
            | CoreJwsSigningAlgorithm::EcdsaP521Sha512
            | CoreJwsSigningAlgorithm::RsaSsaPssSha512 => Some(HashFunction::Sha512),
            CoreJwsSigningAlgorithm::Unsigned => None,
        }
    }

    /// The RSA padding of the algorithm, where it is an RSA algorithm.
    pub fn rsa_padding(&self) -> (r: Option<RsaPadding>)
        ensures
            r == self.rsa_scheme(),
    {
        match self {
            CoreJwsSigningAlgorithm::RsaSsaPkcs1V15Sha256
            | CoreJwsSigningAlgorithm::RsaSsaPkcs1V15Sha384
            | CoreJwsSigningAlgorithm::RsaSsaPkcs1V15Sha512 => Some(RsaPadding::Pkcs1V15),
            CoreJwsSigningAlgorithm::RsaSsaPssSha256
            | CoreJwsSigningAlgorithm::RsaSsaPssSha384
            | CoreJwsSigningAlgorithm::RsaSsaPssSha512 => Some(RsaPadding::Pss),
            _ => None,
        }
    }

    /// Whether the algorithm signs with a secret shared by both sides.
    pub fn is_symmetric(&self) -> (r: bool)
        ensures
            r == self.symmetric(),
    {
        match self {
            CoreJwsSigningAlgorithm::HmacSha256
            | CoreJwsSigningAlgorithm::HmacSha384
            | CoreJwsSigningAlgorithm::HmacSha512 => true,
            _ => false,
        }
    }

    /// The type of key that the algorithm works with.
    pub fn key_type(&self) -> (r: Option<CoreJsonWebKeyType>)
        ensures
            r == self.key_kind(),
    {
        if self.is_symmetric() {
            Some(CoreJsonWebKeyType::Symmetric)
        } else if self.rsa_padding().is_some() {
            Some(CoreJsonWebKeyType::RSA)
        } else {
            match self {
                CoreJwsSigningAlgorithm::Unsigned => None,
                _ => Some(CoreJsonWebKeyType::EllipticCurve),
            }
        }
    }

    /// Whether this library can check signatures of the algorithm.
    pub fn is_implemented(&self) -> (r: bool)
        ensures
            r == self.implemented(),
    {
        self.is_symmetric() || self.rsa_padding().is_some()
    }
}

} // verus!
