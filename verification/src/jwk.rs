//! JSON Web Keys and key sets: the public keys of a provider, and the check
//! of a signature under one of them.

use vstd::prelude::*;

use crate::core_types::{CoreJsonWebKeyType, CoreJsonWebKeyUse, CoreJwsSigningAlgorithm};
use crate::crypto::{
    hashable, hmac_tag_valid, hmac_verify, is_hashable, rsa_signature_valid, rsa_verify,
};
use crate::encoding::{base64url_bytes, base64url_decode};
use crate::json::{byte_views, json_list, json_text, list_member, text_member};
use crate::signing::SignatureVerificationError;
use crate::types::JsonWebKeyId;

verus! {

/// What a JSON Web Key holds, as plain values.
pub struct JsonWebKeyView {
    /// The key type (`kty`).
    pub kty: CoreJsonWebKeyType,
    /// The intended use (`use`), where the key names one.
    pub key_use: Option<CoreJsonWebKeyUse>,
    /// The key identifier (`kid`), where the key has one.
    pub kid: Option<Seq<char>>,
    /// The RSA modulus, big-endian.
    pub n: Option<Seq<u8>>,
    /// The RSA public exponent, big-endian.
    pub e: Option<Seq<u8>>,
    /// The octets of a symmetric key.
    pub k: Option<Seq<u8>>,
}

/// Why a JSON document was not accepted as a key or a key set.
#[derive(Clone, Copy, Debug, PartialEq, Eq, Structural)]
pub enum JsonWebKeyError {
    /// A key set without an array `keys`.
    MissingKeys,
    /// A key without a string `kty`.
    MissingKeyType,
    /// A key of a type other than `RSA`, `EC` and `oct`.
    UnknownKeyType,
    /// A key with a `use` other than `sig` and `enc`.
    UnknownKeyUse,
    /// A key parameter that is not unpadded URL-safe base64.
    InvalidEncoding,
}

/// The bytes of an optional base64 parameter: `Ok(None)` where the
/// parameter is absent, an error where it does not decode.
pub open spec fn decoded_parameter(text: Option<Seq<char>>) -> Result<
    Option<Seq<u8>>,
    JsonWebKeyError,
> {
    match text {
        None => Ok(None),
        Some(t) => match base64url_bytes(vstd::utf8::encode_utf8(t)) {
            Some(bytes) => Ok(Some(bytes)),
            None => Err(JsonWebKeyError::InvalidEncoding),
        },
    }
}

/// The key that the JSON object `doc` describes. Members other than `kty`,
/// `use`, `kid`, `n`, `e` and `k` are not looked at.
pub open spec fn key_of_json(doc: Seq<u8>) -> Result<JsonWebKeyView, JsonWebKeyError> {
    match json_text(doc, "kty"@) {
        None => Err(JsonWebKeyError::MissingKeyType),
        Some(kty_text) => match CoreJsonWebKeyType::named(kty_text) {
            None => Err(JsonWebKeyError::UnknownKeyType),
            Some(kty) => {
                let use_text = json_text(doc, "use"@);
                if use_text is Some && CoreJsonWebKeyUse::named(use_text->0) is None {
                    Err(JsonWebKeyError::UnknownKeyUse)
                } else {
                    let key_use = match use_text {
                        Some(t) => CoreJsonWebKeyUse::named(t),
                        None => None,
                    };
                    match decoded_parameter(json_text(doc, "n"@)) {
                        Err(e) => Err(e),
                        Ok(n) => match decoded_parameter(json_text(doc, "e"@)) {
                            Err(e) => Err(e),
                            Ok(e) => match decoded_parameter(json_text(doc, "k"@)) {
                                Err(e) => Err(e),
                                Ok(k) => Ok(
                                    JsonWebKeyView {
                                        kty,
                                        key_use,
                                        kid: json_text(doc, "kid"@),
                                        n,
                                        e,
                                        k,
                                    },
                                ),
                            },
                        },
                    }
                }
            },
        },
    }
}

/// The outcome of checking `signature` over `message` under `key` with the
/// algorithm `alg`.
pub open spec fn key_verdict(
    key: JsonWebKeyView,
    alg: CoreJwsSigningAlgorithm,
    message: Seq<u8>,
    signature: Seq<u8>,
) -> Result<(), SignatureVerificationError> {
    if key.key_use == Some(CoreJsonWebKeyUse::Encryption) {
        Err(SignatureVerificationError::InvalidKey)
    } else if !alg.implemented() {
        Err(SignatureVerificationError::UnsupportedAlg)
    } else if alg.key_kind() != Some(key.kty) {
        Err(SignatureVerificationError::InvalidKey)
    } else if alg.symmetric() {
        if key.k is None {
            Err(SignatureVerificationError::InvalidKey)
        } else if !hashable(key.k->0.len()) {
            Err(SignatureVerificationError::CryptoError)
        } else if hmac_tag_valid(alg.hash_function()->0, key.k->0, message, signature) {
            Ok(())
        } else {
            Err(SignatureVerificationError::InvalidSignature)
        }
    } else {
        if key.n is None || key.e is None {
            Err(SignatureVerificationError::InvalidKey)
        } else if !hashable(message.len()) {
            Err(SignatureVerificationError::CryptoError)
        } else if rsa_signature_valid(
            alg.rsa_scheme()->0,
            alg.hash_function()->0,
            key.n->0,
            key.e->0,
            message,
            signature,
        ) {
            Ok(())
        } else {
            Err(SignatureVerificationError::InvalidSignature)
        }
    }
}

/// A JSON Web Key: an RSA public key or a symmetric key, with the
/// identifier and the intended use that its set gives it.
#[derive(Debug, PartialEq, Eq)]
pub struct CoreJsonWebKey {
    kty: CoreJsonWebKeyType,
    key_use: Option<CoreJsonWebKeyUse>,
    kid: Option<JsonWebKeyId>,
    n: Option<Vec<u8>>,
    e: Option<Vec<u8>>,
    k: Option<Vec<u8>>,
}

/// The view of an optional byte vector.
pub open spec fn optional_bytes(v: Option<Vec<u8>>) -> Option<Seq<u8>> {
    match v {
        Some(b) => Some(b@),
        None => None,
    }
}

impl View for CoreJsonWebKey {
    type V = JsonWebKeyView;

    closed spec fn view(&self) -> JsonWebKeyView {
        JsonWebKeyView {
            kty: self.kty,
            key_use: self.key_use,
            kid: match self.kid {
                Some(id) => Some(id@),
                None => None,
            },
            n: optional_bytes(self.n),
            e: optional_bytes(self.e),
            k: optional_bytes(self.k),
        }
    }
}

/// Reads an optional base64 parameter of a key.
fn parameter(doc: &[u8], name: &str) -> (r: Result<Option<Vec<u8>>, JsonWebKeyError>)
    ensures
        match r {
            Ok(v) => decoded_parameter(json_text(doc@, name@)) == Ok::<
                Option<Seq<u8>>,
                JsonWebKeyError,
            >(optional_bytes(v)),
            Err(e) => decoded_parameter(json_text(doc@, name@)) == Err::<
                Option<Seq<u8>>,
                JsonWebKeyError,
            >(e),
        },
{
    match text_member(doc, name) {
        None => Ok(None),
        Some(t) => match base64url_decode(t.as_str().as_bytes()) {
            Some(bytes) => Ok(Some(bytes)),
            None => Err(JsonWebKeyError::InvalidEncoding),
        },
    }
}

impl CoreJsonWebKey {
    /// An RSA public key for signatures, from its modulus and public
    /// exponent as big-endian bytes.
    pub fn new_rsa(n: Vec<u8>, e: Vec<u8>, kid: Option<JsonWebKeyId>) -> (r: Self)
        ensures
            r@ == (JsonWebKeyView {
                kty: CoreJsonWebKeyType::RSA,
                key_use: Some(CoreJsonWebKeyUse::Signature),
                kid: match kid {
                    Some(id) => Some(id@),
                    None => None,
                },
                n: Some(n@),
                e: Some(e@),
                k: None,
            }),
    {
        CoreJsonWebKey {
            kty: CoreJsonWebKeyType::RSA,
            key_use: Some(CoreJsonWebKeyUse::Signature),
            kid,
            n: Some(n),
            e: Some(e),
            k: None,
        }
    }

    /// A symmetric key from its raw bytes, as used for the HMAC algorithms
    /// with the client secret as the key.
    pub fn new_symmetric(key: Vec<u8>) -> (r: Self)
        ensures
            r@ == (JsonWebKeyView {
                kty: CoreJsonWebKeyType::Symmetric,
                key_use: None,
                kid: None,
                n: None,
                e: None,
                k: Some(key@),
            }),
    {
        CoreJsonWebKey {
            kty: CoreJsonWebKeyType::Symmetric,
            key_use: None,
            kid: None,
            n: None,
            e: None,
            k: Some(key),
        }
    }

    /// Reads a key from the JSON object that describes it.
    pub fn from_json(doc: &[u8]) -> (r: Result<Self, JsonWebKeyError>)
        ensures
            match r {
                Ok(key) => key_of_json(doc@) == Ok::<JsonWebKeyView, JsonWebKeyError>(key@),
                Err(e) => key_of_json(doc@) == Err::<JsonWebKeyView, JsonWebKeyError>(e),
            },
    {
        let kty_text = match text_member(doc, "kty") {
            Some(t) => t,
            None => return Err(JsonWebKeyError::MissingKeyType),
        };
        let kty = match CoreJsonWebKeyType::from_text(kty_text.as_str()) {
            Some(k) => k,
            None => return Err(JsonWebKeyError::UnknownKeyType),
        };
        let key_use = match text_member(doc, "use") {
            Some(t) => match CoreJsonWebKeyUse::from_text(t.as_str()) {
                Some(u) => Some(u),
                None => return Err(JsonWebKeyError::UnknownKeyUse),
            },
            None => None,
        };
        let n = match parameter(doc, "n") {
            Ok(v) => v,
            Err(e) => return Err(e),
        };
        let e = match parameter(doc, "e") {
            Ok(v) => v,
            Err(e) => return Err(e),
        };
        let k = match parameter(doc, "k") {
            Ok(v) => v,
            Err(e) => return Err(e),
        };
        let kid = match text_member(doc, "kid") {
            Some(t) => Some(JsonWebKeyId::new(t)),
            None => None,
        };
        Ok(CoreJsonWebKey { kty, key_use, kid, n, e, k })
    }

    /// The key identifier, where the key has one.
    pub fn key_id(&self) -> (r: Option<&JsonWebKeyId>)
        ensures
            match r {
                Some(id) => self@.kid == Some(id@),
                None => self@.kid is None,
            },
    {
        self.kid.as_ref()
    }

    /// The key type.
    pub fn key_type(&self) -> (r: CoreJsonWebKeyType)
        ensures
            r == self@.kty,
    {
        self.kty
    }

    /// The intended use, where the key names one.
    pub fn key_use(&self) -> (r: Option<CoreJsonWebKeyUse>)
        ensures
            r == self@.key_use,
    {
        self.key_use
    }

    /// Checks that `signature` is a signature of `message` under this key
    /// with the algorithm `alg`.
    pub fn verify_signature(
        &self,
        alg: &CoreJwsSigningAlgorithm,
        message: &[u8],
        signature: &[u8],
    ) -> (r: Result<(), SignatureVerificationError>)
        ensures
            r == key_verdict(self@, *alg, message@, signature@),
    {
        match self.key_use {
            Some(CoreJsonWebKeyUse::Encryption) => {
                return Err(SignatureVerificationError::InvalidKey);
            },
            _ => {},
        }
        if !alg.is_implemented() {
            return Err(SignatureVerificationError::UnsupportedAlg);
        }
        let hash = match alg.hash() {
            Some(h) => h,
            None => return Err(SignatureVerificationError::UnsupportedAlg),
        };
        match alg.key_type() {
            Some(t) => {
                if t != self.kty {
                    return Err(SignatureVerificationError::InvalidKey);
                }
            },
            None => return Err(SignatureVerificationError::UnsupportedAlg),
        }
        if alg.is_symmetric() {
            match &self.k {
                None => Err(SignatureVerificationError::InvalidKey),
                Some(key) => {
                    if !is_hashable(key.as_slice()) {
                        Err(SignatureVerificationError::CryptoError)
                    } else if hmac_verify(hash, key.as_slice(), message, signature) {
                        Ok(())
                    } else {
                        Err(SignatureVerificationError::InvalidSignature)
                    }
                },
            }
        } else {
            let padding = match alg.rsa_padding() {
                Some(p) => p,
                None => return Err(SignatureVerificationError::UnsupportedAlg),
            };
            match (&self.n, &self.e) {
                (Some(n), Some(e)) => {
                    if !is_hashable(message) {
                        Err(SignatureVerificationError::CryptoError)
                    } else if rsa_verify(
                        padding,
                        hash,
                        n.as_slice(),
                        e.as_slice(),
                        message,
                        signature,
                    ) {
                        Ok(())
                    } else {
                        Err(SignatureVerificationError::InvalidSignature)
                    }
                },
                _ => Err(SignatureVerificationError::InvalidKey),
            }
        }
    }
}

impl Clone for CoreJsonWebKey {
    fn clone(&self) -> (r: Self)
        ensures
            r@ == self@,
    {
        CoreJsonWebKey {
            kty: self.kty,
            key_use: self.key_use,
            kid: match &self.kid {
                Some(id) => Some(id.clone()),
                None => None,
            },
            n: clone_bytes(&self.n),
            e: clone_bytes(&self.e),
            k: clone_bytes(&self.k),
        }
    }
}

/// Copies an optional byte vector.
fn clone_bytes(v: &Option<Vec<u8>>) -> (r: Option<Vec<u8>>)
    ensures
        optional_bytes(r) == optional_bytes(*v),
{
    match v {
        Some(b) => {
            let c = b.clone();
            assert(c@ =~= b@);
            Some(c)
        },
        None => None,
    }
}

/// The views of a list of keys.
pub open spec fn key_views(keys: Seq<CoreJsonWebKey>) -> Seq<JsonWebKeyView> {
    Seq::new(keys.len(), |i: int| keys[i]@)
}

/// The keys that a list of JSON objects describes, where each describes one;
/// else the error of the first that does not. With `skip_unknown` set, an
/// object of an unknown key type is left out instead.
pub open spec fn keys_of_json(docs: Seq<Seq<u8>>, skip_unknown: bool) -> Result<
    Seq<JsonWebKeyView>,
    JsonWebKeyError,
>
    decreases docs.len(),
{
    if docs.len() == 0 {
        Ok(Seq::empty())
    } else {
        match keys_of_json(docs.drop_last(), skip_unknown) {
            Err(e) => Err(e),
            Ok(keys) => match key_of_json(docs.last()) {
                Ok(key) => Ok(keys.push(key)),
                Err(e) => if skip_unknown && e == JsonWebKeyError::UnknownKeyType {
                    Ok(keys)
                } else {
                    Err(e)
                },
            },
        }
    }
}

/// The key set that the JSON document `doc` describes.
pub open spec fn key_set_of_json(doc: Seq<u8>, skip_unknown: bool) -> Result<
    Seq<JsonWebKeyView>,
    JsonWebKeyError,
> {
    match json_list(doc, "keys"@) {
        None => Err(JsonWebKeyError::MissingKeys),
        Some(docs) => keys_of_json(docs, skip_unknown),
    }
}

/// An ordered set of JSON Web Keys. Two keys of a set may carry the same
/// identifier.
#[derive(Debug, PartialEq, Eq)]
pub struct JsonWebKeySet {
    keys: Vec<CoreJsonWebKey>,
}

impl View for JsonWebKeySet {
    type V = Seq<JsonWebKeyView>;

    closed spec fn view(&self) -> Seq<JsonWebKeyView> {
        key_views(self.keys@)
    }
}

impl JsonWebKeySet {
    /// A set of the keys given, in this order.
    pub fn new(keys: Vec<CoreJsonWebKey>) -> (r: Self)
        ensures
            r@ == key_views(keys@),
    {
        JsonWebKeySet { keys }
    }

    /// The keys of the set, in order.
    pub fn keys(&self) -> (r: &Vec<CoreJsonWebKey>)
        ensures
            key_views(r@) == self@,
    {
        &self.keys
    }

    /// Reads a key set from its JSON document: an object with an array
    /// `keys` of keys. Other members are not looked at. A key that cannot be
    /// read makes the whole set fail, except that a key of an unknown type
    /// is left out where `skip_unknown` is set.
    pub fn from_json(doc: &[u8], skip_unknown: bool) -> (r: Result<Self, JsonWebKeyError>)
        ensures
            match r {
                Ok(set) => key_set_of_json(doc@, skip_unknown) == Ok::<
                    Seq<JsonWebKeyView>,
                    JsonWebKeyError,
                >(set@),
                Err(e) => key_set_of_json(doc@, skip_unknown) == Err::<
                    Seq<JsonWebKeyView>,
                    JsonWebKeyError,
                >(e),
            },
    {
        let docs = match list_member(doc, "keys") {
            Some(d) => d,
            None => return Err(JsonWebKeyError::MissingKeys),
        };
        let mut keys: Vec<CoreJsonWebKey> = Vec::new();
        let n = docs.len();
        let mut i: usize = 0;
        assert(key_views(keys@) =~= Seq::empty());
        assert(byte_views(docs@).take(0) =~= Seq::empty());
        while i < n
            invariant
                n == docs@.len(),
                i <= n,
                json_list(doc@, "keys"@) == Some(byte_views(docs@)),
                keys_of_json(byte_views(docs@).take(i as int), skip_unknown) == Ok::<
                    Seq<JsonWebKeyView>,
                    JsonWebKeyError,
                >(key_views(keys@)),
            decreases n - i,
        {
            proof {
                let all = byte_views(docs@);
                assert(all.take(i as int + 1).drop_last() =~= all.take(i as int));
                assert(all.take(i as int + 1).last() == docs@[i as int]@);
            }
            let ghost before = key_views(keys@);
            match CoreJsonWebKey::from_json(docs[i].as_slice()) {
                Ok(key) => {
                    let ghost kv = key@;
                    keys.push(key);
                    assert(key_views(keys@) =~= before.push(kv));
                },
                Err(e) => {
                    if skip_unknown && e == JsonWebKeyError::UnknownKeyType {
                    } else {
                        proof {
                            let all = byte_views(docs@);
                            assert(keys_of_json(all.take(i as int + 1), skip_unknown) == Err::<
                                Seq<JsonWebKeyView>,
                                JsonWebKeyError,
                            >(e));
                            lemma_keys_of_json_error(
                                byte_views(docs@),
                                skip_unknown,
                                i as int + 1,
                            );
                        }
                        return Err(e);
                    }
                },
            }
            i = i + 1;
        }
        proof {
            assert(byte_views(docs@).take(n as int) =~= byte_views(docs@));
        }
        Ok(JsonWebKeySet { keys })
    }
}

impl Default for JsonWebKeySet {
    fn default() -> (r: Self)
        ensures
            r@ == Seq::<JsonWebKeyView>::empty(),
    {
        let r = JsonWebKeySet { keys: Vec::new() };
        assert(r@ =~= Seq::empty());
        r
    }
}

impl Clone for JsonWebKeySet {
    fn clone(&self) -> (r: Self)
        ensures
            r@ == self@,
    {
        let mut keys: Vec<CoreJsonWebKey> = Vec::new();
        let n = self.keys.len();
        let mut i: usize = 0;
        while i < n
            invariant
                n == self.keys@.len(),
                i <= n,
                key_views(keys@) == key_views(self.keys@).take(i as int),
            decreases n - i,
        {
            let ghost before = key_views(keys@);
            let key = self.keys[i].clone();
            let ghost kv = key@;
            keys.push(key);
            assert(key_views(keys@) =~= before.push(kv));
            assert(before.push(kv) =~= key_views(self.keys@).take(i as int + 1));
            i = i + 1;
        }
        assert(key_views(self.keys@).take(n as int) =~= key_views(self.keys@));
        JsonWebKeySet { keys }
    }
}

/// An error among the first `n` documents is the error of the whole list.
pub proof fn lemma_keys_of_json_error(docs: Seq<Seq<u8>>, skip_unknown: bool, n: int)
    requires
        0 <= n <= docs.len(),
        keys_of_json(docs.take(n), skip_unknown) is Err,
    ensures
        keys_of_json(docs, skip_unknown) == keys_of_json(docs.take(n), skip_unknown),
    decreases docs.len(),
{
    if n < docs.len() {
        assert(docs.drop_last().take(n) =~= docs.take(n));
        lemma_keys_of_json_error(docs.drop_last(), skip_unknown, n);
    } else {
        assert(docs.take(n) =~= docs);
    }
}

} // verus!
