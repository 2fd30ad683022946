//! The checks that stand between a token as it arrived and the claims in
//! it: the algorithm of its header, the choice of a key, the signature, and
//! the claims about issuer, audience, time, nonce and authentication.

use vstd::prelude::*;

use crate::claims::ClaimName;
use crate::core_types::{CoreJsonWebKeyUse, CoreJwsSigningAlgorithm};
use crate::crypto::{digest, digest_of, hashable, is_hashable, HashFunction};
use crate::encoding::{base64url_encode, base64url_text};
use crate::jwk::{key_verdict, key_views, CoreJsonWebKey, JsonWebKeySet, JsonWebKeyView};
use crate::jwt::{JsonWebToken, JsonWebTokenAlgorithm, JsonWebTokenView};
use crate::signing::SignatureVerificationError;
use crate::text::str_eq;
use crate::types::{ClientSecret, JsonWebKeyId, Nonce};

verus! {

/// A reason for turning claims down that has no variant of its own.
#[derive(Clone, Copy, Debug, PartialEq, Eq, Structural)]
pub enum OtherReason {
    /// The payload is not a JSON object.
    NotJson,
    /// The token claims to have been issued after the present time.
    IssuedInFuture,
    /// The token was issued longer ago than the verifier allows.
    TokenTooOld,
}

/// Why the claims of a token or of a UserInfo response were not accepted.
#[derive(Clone, Copy, Debug, PartialEq, Eq, Structural)]
pub enum ClaimsVerificationError {
    /// A claim that is required is not there.
    MissingClaim(ClaimName),
    /// The issuer is not the one the verifier expects.
    InvalidIssuer,
    /// The audience does not name this client.
    InvalidAudience,
    /// There are several audiences and no authorized party.
    MissingAzp,
    /// The authorized party is not this client.
    InvalidAzp,
    /// The token has expired.
    Expired,
    /// A signed response was required and the response is not signed.
    NoSignature,
    /// The access token hash does not belong to the access token.
    InvalidAtHash,
    /// The authorization code hash does not belong to the code.
    InvalidCHash,
    /// The nonce is not the expected one.
    InvalidNonce,
    /// The end user authenticated longer ago than the verifier allows.
    AuthTimeExceeded,
    /// The authentication context class is not one of those required.
    AcrMismatch,
    /// The subject is not the expected one.
    InvalidSubject,
    /// The signature was not accepted.
    SignatureVerification(SignatureVerificationError),
    /// Another reason.
    Other(OtherReason),
}

/// The view of an optional key identifier.
pub open spec fn key_id_view(kid: Option<&JsonWebKeyId>) -> Option<Seq<char>> {
    match kid {
        Some(id) => Some(id@),
        None => None,
    }
}

/// Whether `key` can be the key of a token signed with `alg` whose header
/// names the key identifier `kid`: it is of the type that the algorithm
/// works with, it is meant for signatures or for nothing in particular, and
/// it carries the identifier where the header names one.
pub open spec fn key_fits(
    key: JsonWebKeyView,
    alg: CoreJwsSigningAlgorithm,
    kid: Option<Seq<char>>,
) -> bool {
    &&& alg.key_kind() == Some(key.kty)
    &&& (key.key_use is None || key.key_use == Some(CoreJsonWebKeyUse::Signature))
    &&& (kid is None || key.kid == kid)
}

/// The positions, in ascending order, of the keys of `keys` that fit.
pub open spec fn fitting_keys(
    keys: Seq<JsonWebKeyView>,
    alg: CoreJwsSigningAlgorithm,
    kid: Option<Seq<char>>,
) -> Seq<int>
    decreases keys.len(),
{
    if keys.len() == 0 {
        Seq::empty()
    } else {
        let before = fitting_keys(keys.drop_last(), alg, kid);
        if key_fits(keys.last(), alg, kid) {
            before.push(keys.len() - 1)
        } else {
            before
        }
    }
}

/// The one key of `keys` that fits; an error where none or several fit.
pub open spec fn key_choice(
    keys: Seq<JsonWebKeyView>,
    alg: CoreJwsSigningAlgorithm,
    kid: Option<Seq<char>>,
) -> Result<JsonWebKeyView, SignatureVerificationError> {
    let fitting = fitting_keys(keys, alg, kid);
    if fitting.len() == 0 {
        Err(SignatureVerificationError::NoMatchingKey)
    } else if fitting.len() > 1 {
        Err(SignatureVerificationError::AmbiguousKey)
    } else {
        Ok(keys[fitting[0]])
    }
}

/// The keys that fit among the first keys of a set also fit in the set.
pub proof fn lemma_fitting_keys_prefix(
    keys: Seq<JsonWebKeyView>,
    alg: CoreJwsSigningAlgorithm,
    kid: Option<Seq<char>>,
    n: int,
)
    requires
        0 <= n <= keys.len(),
    ensures
        fitting_keys(keys.take(n), alg, kid).len() <= fitting_keys(keys, alg, kid).len(),
    decreases keys.len(),
{
    if n < keys.len() {
        assert(keys.drop_last().take(n) =~= keys.take(n));
        lemma_fitting_keys_prefix(keys.drop_last(), alg, kid, n);
    } else {
        assert(keys.take(n) =~= keys);
    }
}

/// What the part of a verifier that deals with signatures holds, as plain
/// values.
pub struct SignatureVerifierView {
    /// The client secret, where the client has one.
    pub client_secret: Option<Seq<char>>,
    /// The keys of the provider.
    pub jwks: Seq<JsonWebKeyView>,
    /// The algorithms that are allowed; `None` allows every algorithm.
    pub allowed_algs: Option<Seq<CoreJwsSigningAlgorithm>>,
    /// Whether tokens without a signature are accepted.
    pub accept_unsigned: bool,
}

/// The symmetric key that a client secret makes: its bytes in UTF-8.
pub open spec fn secret_key(secret: Seq<char>) -> JsonWebKeyView {
    JsonWebKeyView {
        kty: crate::core_types::CoreJsonWebKeyType::Symmetric,
        key_use: None,
        kid: None,
        n: None,
        e: None,
        k: Some(vstd::utf8::encode_utf8(secret)),
    }
}

impl SignatureVerifierView {
    /// Whether the verifier allows the algorithm.
    pub open spec fn allows(self, alg: CoreJwsSigningAlgorithm) -> bool {
        self.allowed_algs is None || self.allowed_algs->0.contains(alg)
    }

    /// The outcome of inspecting the algorithm of a header: the signing
    /// algorithm to go on with, or the error that ends the verification.
    pub open spec fn header_verdict(self, alg: JsonWebTokenAlgorithm) -> Result<
        CoreJwsSigningAlgorithm,
        SignatureVerificationError,
    > {
        match alg {
            JsonWebTokenAlgorithm::Encryption(_) => if self.allowed_algs is Some {
                Err(SignatureVerificationError::DisallowedAlg)
            } else {
                Err(SignatureVerificationError::UnsupportedAlg)
            },
            JsonWebTokenAlgorithm::Signature(alg) => if alg == CoreJwsSigningAlgorithm::Unsigned
                && !self.accept_unsigned {
                Err(SignatureVerificationError::DisallowedAlg)
            } else if !self.allows(alg) {
                Err(SignatureVerificationError::DisallowedAlg)
            } else if alg != CoreJwsSigningAlgorithm::Unsigned && !alg.implemented() {
                Err(SignatureVerificationError::UnsupportedAlg)
            } else {
                Ok(alg)
            },
        }
    }

    /// The key under which a token signed with `alg` is checked: for a
    /// symmetric algorithm the client secret, which a public client does not
    /// have; else the one key of the set that fits.
    pub open spec fn key_for(self, alg: CoreJwsSigningAlgorithm, kid: Option<Seq<char>>) -> Result<
        JsonWebKeyView,
        SignatureVerificationError,
    > {
        if alg.symmetric() {
            match self.client_secret {
                Some(secret) => Ok(secret_key(secret)),
                None => Err(SignatureVerificationError::DisallowedAlg),
            }
        } else {
            key_choice(self.jwks, alg, kid)
        }
    }

    /// The outcome of the checks on header, key and signature of a token:
    /// the signing algorithm of an accepted token.
    pub open spec fn signature_verdict(self, token: JsonWebTokenView) -> Result<
        CoreJwsSigningAlgorithm,
        SignatureVerificationError,
    > {
        match self.header_verdict(token.header.alg) {
            Err(e) => Err(e),
            Ok(alg) => if alg == CoreJwsSigningAlgorithm::Unsigned {
                Ok(alg)
            } else {
                match self.key_for(alg, token.header.kid) {
                    Err(e) => Err(e),
                    Ok(key) => match key_verdict(key, alg, token.signing_input, token.signature) {
                        Err(e) => Err(e),
                        Ok(_) => Ok(alg),
                    },
                }
            },
        }
    }
}

/// The part of a verifier that deals with signatures: the keys, the client
/// secret, and the algorithms that are allowed.
pub struct SignatureVerifier {
    client_secret: Option<ClientSecret>,
    jwks: JsonWebKeySet,
    allowed_algs: Option<Vec<CoreJwsSigningAlgorithm>>,
    accept_unsigned: bool,
}

impl View for SignatureVerifier {
    type V = SignatureVerifierView;

    closed spec fn view(&self) -> SignatureVerifierView {
        SignatureVerifierView {
            client_secret: match self.client_secret {
                Some(s) => Some(s@),
                None => None,
            },
            jwks: self.jwks@,
            allowed_algs: match self.allowed_algs {
                Some(algs) => Some(algs@),
                None => None,
            },
            accept_unsigned: self.accept_unsigned,
        }
    }
}

/// Whether a key fits an algorithm and a key identifier.
pub fn fits(key: &CoreJsonWebKey, alg: CoreJwsSigningAlgorithm, kid: Option<&JsonWebKeyId>) -> (b:
    bool)
    ensures
        b == key_fits(key@, alg, key_id_view(kid)),
{
    let right_type = match alg.key_type() {
        Some(t) => t == key.key_type(),
        None => false,
    };
    let right_use = match key.key_use() {
        None => true,
        Some(u) => u == CoreJsonWebKeyUse::Signature,
    };
    let right_id = match kid {
        None => true,
        Some(wanted) => match key.key_id() {
            Some(id) => str_eq(id.as_str(), wanted.as_str()),
            None => false,
        },
    };
    right_type && right_use && right_id
}

/// Picks the one key of `keys` that fits.
pub fn select_key<'a>(
    keys: &'a Vec<CoreJsonWebKey>,
    alg: CoreJwsSigningAlgorithm,
    kid: Option<&JsonWebKeyId>,
) -> (r: Result<&'a CoreJsonWebKey, SignatureVerificationError>)
    ensures
        match r {
            Ok(key) => key_choice(key_views(keys@), alg, key_id_view(kid)) == Ok::<
                JsonWebKeyView,
                SignatureVerificationError,
            >(key@),
            Err(e) => key_choice(key_views(keys@), alg, key_id_view(kid)) == Err::<
                JsonWebKeyView,
                SignatureVerificationError,
            >(e),
        },
{
    let ghost views = key_views(keys@);
    let ghost wanted = key_id_view(kid);
    let n = keys.len();
    let mut found: Option<usize> = None;
    let mut i: usize = 0;
    assert(views.take(0) =~= Seq::empty());
    while i < n
        invariant
            n == keys@.len(),
            i <= n,
            views == key_views(keys@),
            wanted == key_id_view(kid),
            match found {
                Some(f) => f < i && fitting_keys(views.take(i as int), alg, wanted) == seq![
                    f as int,
                ],
                None => fitting_keys(views.take(i as int), alg, wanted) == Seq::<int>::empty(),
            },
        decreases n - i,
    {
        proof {
            assert(views.take(i as int + 1).drop_last() =~= views.take(i as int));
            assert(views.take(i as int + 1).last() == keys@[i as int]@);
        }
        if fits(&keys[i], alg, kid) {
            match found {
                Some(_) => {
                    proof {
                        lemma_fitting_keys_prefix(views, alg, wanted, i as int + 1);
                    }
                    return Err(SignatureVerificationError::AmbiguousKey);
                },
                None => {
                    found = Some(i);
                    proof {
                        assert(Seq::<int>::empty().push(i as int) =~= seq![i as int]);
                    }
                },
            }
        }
        i = i + 1;
    }
    proof {
        assert(views.take(n as int) =~= views);
    }
    match found {
        Some(f) => Ok(&keys[f]),
        None => Err(SignatureVerificationError::NoMatchingKey),
    }
}

impl SignatureVerifier {
    /// A verifier for a client with the secret and the provider keys given,
    /// which allows `RS256` only and accepts no unsigned token.
    pub fn new(client_secret: Option<ClientSecret>, jwks: JsonWebKeySet) -> (r: Self)
        ensures
            r@ == (SignatureVerifierView {
                client_secret: match client_secret {
                    Some(s) => Some(s@),
                    None => None,
                },
                jwks: jwks@,
                allowed_algs: Some(seq![CoreJwsSigningAlgorithm::RsaSsaPkcs1V15Sha256]),
                accept_unsigned: false,
            }),
    {
        let mut algs: Vec<CoreJwsSigningAlgorithm> = Vec::new();
        algs.push(CoreJwsSigningAlgorithm::RsaSsaPkcs1V15Sha256);
        assert(algs@ =~= seq![CoreJwsSigningAlgorithm::RsaSsaPkcs1V15Sha256]);
        SignatureVerifier { client_secret, jwks, allowed_algs: Some(algs), accept_unsigned: false }
    }

    /// Allows the algorithms given and no others.
    pub fn set_allowed_algs(self, algs: Vec<CoreJwsSigningAlgorithm>) -> (r: Self)
        ensures
            r@ == (SignatureVerifierView { allowed_algs: Some(algs@), ..self@ }),
    {
        let mut r = self;
        r.allowed_algs = Some(algs);
        r
    }

    /// Allows every algorithm.
    pub fn allow_any_alg(self) -> (r: Self)
        ensures
            r@ == (SignatureVerifierView { allowed_algs: None, ..self@ }),
    {
        let mut r = self;
        r.allowed_algs = None;
        r
    }

    /// Accepts tokens without a signature, where the algorithm `none` is
    /// allowed. Such tokens prove nothing about who made them.
    pub fn insecure_accept_unsigned(self) -> (r: Self)
        ensures
            r@ == (SignatureVerifierView { accept_unsigned: true, ..self@ }),
    {
        let mut r = self;
        r.accept_unsigned = true;
        r
    }

    /// Whether the verifier allows the algorithm.
    pub fn allows(&self, alg: CoreJwsSigningAlgorithm) -> (b: bool)
        ensures
            b == self@.allows(alg),
    {
        match &self.allowed_algs {
            None => true,
            Some(algs) => {
                let n = algs.len();
                let mut i: usize = 0;
                while i < n
                    invariant
                        n == algs@.len(),
                        i <= n,
                        self@.allowed_algs == Some(algs@),
                        forall|j: int| 0 <= j < i ==> algs@[j] != alg,
                    decreases n - i,
                {
                    if algs[i] == alg {
                        assert(algs@[i as int] == alg);
                        return true;
                    }
                    i = i + 1;
                }
                false
            },
        }
    }

    /// Inspects the algorithm of a header.
    pub fn check_header(&self, alg: JsonWebTokenAlgorithm) -> (r: Result<
        CoreJwsSigningAlgorithm,
        SignatureVerificationError,
    >)
        ensures
            r == self@.header_verdict(alg),
    {
        match alg {
            JsonWebTokenAlgorithm::Encryption(_) => {
                if self.allowed_algs.is_some() {
                    Err(SignatureVerificationError::DisallowedAlg)
                } else {
                    Err(SignatureVerificationError::UnsupportedAlg)
                }
            },
            JsonWebTokenAlgorithm::Signature(alg) => {
                let unsigned = alg == CoreJwsSigningAlgorithm::Unsigned;
                if unsigned && !self.accept_unsigned {
                    Err(SignatureVerificationError::DisallowedAlg)
                } else if !self.allows(alg) {
                    Err(SignatureVerificationError::DisallowedAlg)
                } else if !unsigned && !alg.is_implemented() {
                    Err(SignatureVerificationError::UnsupportedAlg)
                } else {
                    Ok(alg)
                }
            },
        }
    }

    /// Checks header, key and signature of a token, and returns the signing
    /// algorithm of an accepted token.
    pub fn check_signature(&self, token: &JsonWebToken) -> (r: Result<
        CoreJwsSigningAlgorithm,
        SignatureVerificationError,
    >)
        ensures
            r == self@.signature_verdict(token@),
    {
        let header = token.header_ref();
        let alg = match self.check_header(header.algorithm()) {
            Ok(alg) => alg,
            Err(e) => return Err(e),
        };
        if alg == CoreJwsSigningAlgorithm::Unsigned {
            return Ok(alg);
        }
        let checked = if alg.is_symmetric() {
            match &self.client_secret {
                None => return Err(SignatureVerificationError::DisallowedAlg),
                Some(secret) => {
                    let key = CoreJsonWebKey::new_symmetric(
                        crate::jwt::copy_bytes(secret.secret().as_str().as_bytes()),
                    );
                    key.verify_signature(&alg, token.signing_input(), token.signature())
                },
            }
        } else {
            match select_key(self.jwks.keys(), alg, header.key_id()) {
                Err(e) => return Err(e),
                Ok(key) => key.verify_signature(&alg, token.signing_input(), token.signature()),
            }
        };
        match checked {
            Ok(_) => Ok(alg),
            Err(e) => Err(e),
        }
    }
}

impl Clone for SignatureVerifier {
    fn clone(&self) -> (r: Self)
        ensures
            r@ == self@,
    {
        SignatureVerifier {
            client_secret: match &self.client_secret {
                Some(s) => Some(s.clone()),
                None => None,
            },
            jwks: self.jwks.clone(),
            allowed_algs: match &self.allowed_algs {
                Some(algs) => {
                    let copy = algs.clone();
                    assert(copy@ =~= algs@);
                    Some(copy)
                },
                None => None,
            },
            accept_unsigned: self.accept_unsigned,
        }
    }
}

/// The value that a hash claim must have for `token` under the hash
/// function of `alg`: the left half of the digest of the token's bytes, in
/// unpadded URL-safe base64. `None` where the algorithm names no hash
/// function or the token is too long to be hashed.
pub open spec fn hash_claim_of(alg: CoreJwsSigningAlgorithm, token: Seq<char>) -> Option<Seq<char>> {
    match alg.hash_function() {
        None => None,
        Some(hash) => {
            let bytes = vstd::utf8::encode_utf8(token);
            if hashable(bytes.len()) {
                Some(left_half_text(digest_of(hash, bytes)))
            } else {
                None
            }
        },
    }
}

/// The left half of `digest`, in unpadded URL-safe base64.
pub open spec fn left_half_text(digest: Seq<u8>) -> Seq<char> {
    base64url_text(digest.subrange(0, (digest.len() / 2) as int))
}

/// Encodes the left half of a digest: its first `len / 2` bytes.
pub fn encode_left_half(digest: &[u8]) -> (r: String)
    ensures
        r@ == left_half_text(digest@),
{
    let half = digest.len() / 2;
    let mut left: Vec<u8> = Vec::new();
    let mut i: usize = 0;
    while i < half
        invariant
            half == digest@.len() / 2,
            i <= half,
            left@ == digest@.subrange(0, i as int),
        decreases half - i,
    {
        left.push(digest[i]);
        assert(left@ =~= digest@.subrange(0, i as int + 1));
        i = i + 1;
    }
    base64url_encode(left.as_slice())
}

/// Computes the value that a hash claim must have for `token`.
pub fn hash_claim(alg: CoreJwsSigningAlgorithm, token: &str) -> (r: Option<String>)
    ensures
        match r {
            Some(h) => hash_claim_of(alg, token@) == Some(h@),
            None => hash_claim_of(alg, token@) is None,
        },
{
    let hash: HashFunction = match alg.hash() {
        Some(h) => h,
        None => return None,
    };
    let bytes = token.as_bytes();
    if !is_hashable(bytes) {
        return None;
    }
    let d = digest(hash, bytes);
    Some(encode_left_half(d.as_slice()))
}

/// Decides whether the nonce of an ID token is acceptable.
pub trait NonceVerifier {
    /// The outcome for a token with the nonce claim given.
    spec fn verdict(&self, nonce: Option<Seq<char>>) -> Result<(), ClaimsVerificationError>;

    /// Checks the nonce claim of a token.
    fn verify(&self, nonce: Option<&Nonce>) -> (r: Result<(), ClaimsVerificationError>)
        ensures
            r == self.verdict(
                match nonce {
                    Some(n) => Some(n@),
                    None => None,
                },
            ),
    ;
}

/// A nonce verifies the token that carries the same nonce.
impl NonceVerifier for Nonce {
    open spec fn verdict(&self, nonce: Option<Seq<char>>) -> Result<(), ClaimsVerificationError> {
        match nonce {
            None => Err(ClaimsVerificationError::MissingClaim(ClaimName::Nonce)),
            Some(n) => if n == self@ {
                Ok(())
            } else {
                Err(ClaimsVerificationError::InvalidNonce)
            },
        }
    }

    fn verify(&self, nonce: Option<&Nonce>) -> (r: Result<(), ClaimsVerificationError>) {
        match nonce {
            None => Err(ClaimsVerificationError::MissingClaim(ClaimName::Nonce)),
            Some(n) => {
                if str_eq(n.secret().as_str(), self.secret().as_str()) {
                    Ok(())
                } else {
                    Err(ClaimsVerificationError::InvalidNonce)
                }
            },
        }
    }
}

/// What to make of the nonce claim where the request carried no nonce.
#[derive(Clone, Copy, Debug, PartialEq, Eq, Structural)]
pub enum NoNonce {
    /// The token must carry no nonce.
    MustBeAbsent,
    /// The nonce claim is not looked at.
    NotChecked,
}

impl NonceVerifier for NoNonce {
    open spec fn verdict(&self, nonce: Option<Seq<char>>) -> Result<(), ClaimsVerificationError> {
        if *self == NoNonce::MustBeAbsent && nonce is Some {
            Err(ClaimsVerificationError::InvalidNonce)
        } else {
            Ok(())
        }
    }

    fn verify(&self, nonce: Option<&Nonce>) -> (r: Result<(), ClaimsVerificationError>) {
        match self {
            NoNonce::MustBeAbsent => {
                if nonce.is_some() {
                    Err(ClaimsVerificationError::InvalidNonce)
                } else {
                    Ok(())
                }
            },
            NoNonce::NotChecked => Ok(()),
        }
    }
}

/// A token without an acceptable algorithm is turned down for its
/// algorithm, whatever its keys and signature: an unsigned token, unless the
/// verifier accepts unsigned tokens; and a token whose algorithm is not
/// among those allowed.
pub proof fn lemma_disallowed_algorithms(verifier: SignatureVerifierView, token: JsonWebTokenView)
    ensures
        token.header.alg == JsonWebTokenAlgorithm::Signature(CoreJwsSigningAlgorithm::Unsigned)
            && !verifier.accept_unsigned ==> verifier.signature_verdict(token) == Err::<
            CoreJwsSigningAlgorithm,
            SignatureVerificationError,
        >(SignatureVerificationError::DisallowedAlg),
        token.header.alg is Signature && !verifier.allows(token.header.alg->Signature_0)
            ==> verifier.signature_verdict(token) == Err::<
            CoreJwsSigningAlgorithm,
            SignatureVerificationError,
        >(SignatureVerificationError::DisallowedAlg),
        token.header.alg is Encryption && verifier.allowed_algs is Some
            ==> verifier.signature_verdict(token) == Err::<
            CoreJwsSigningAlgorithm,
            SignatureVerificationError,
        >(SignatureVerificationError::DisallowedAlg),
{
}

} // verus!
