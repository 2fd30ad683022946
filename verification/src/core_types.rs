//! The value sets of OpenID Connect Core: response types, display and prompt
//! hints, key types and uses, and signing algorithms, each with the exact
//! text that stands for it on the wire.

use vstd::prelude::*;

use crate::text::{str_eq, AsText};

verus! {

/// Marks the values that can be a response type of an authorization request.
pub trait ResponseType: AsText {

}

/// Marks the values that can be a `display` hint.
pub trait AuthDisplay: AsText {

}

/// Marks the values that can be a `prompt` entry.
pub trait AuthPrompt: AsText {

}

/// Response type that a client may ask of the authorization endpoint.
#[derive(Clone, Copy, Debug, PartialEq, Eq, Hash, Structural)]
pub enum CoreResponseType {
    /// An authorization code. Written `code`.
    Code,
    /// An ID token. Written `id_token`.
    IdToken,
    /// Nothing: the request only confirms that access was granted. Written
    /// `none`.
    NoResponse,
    /// An access token. Written `token`.
    Token,
}

impl CoreResponseType {
    /// The wire text of a value.
    pub open spec fn name(self) -> Seq<char> {
        match self {
            CoreResponseType::Code => "code"@,
            CoreResponseType::IdToken => "id_token"@,
            CoreResponseType::NoResponse => "none"@,
            CoreResponseType::Token => "token"@,
        }
    }

    /// The value that `text` stands for, if it stands for one.
    pub open spec fn named(text: Seq<char>) -> Option<CoreResponseType> {
        if text == "code"@ {
            Some(CoreResponseType::Code)
        } else if text == "id_token"@ {
            Some(CoreResponseType::IdToken)
        } else if text == "none"@ {
            Some(CoreResponseType::NoResponse)
        } else if text == "token"@ {
            Some(CoreResponseType::Token)
        } else {
            None
        }
    }

    /// The wire text of this value.
    pub fn as_str(&self) -> (r: &'static str)
        ensures
            r@ == self.name(),
    {
        match self {
            CoreResponseType::Code => "code",
            CoreResponseType::IdToken => "id_token",
            CoreResponseType::NoResponse => "none",
            CoreResponseType::Token => "token",
        }
    }

    /// Reads a value from its wire text. The text must match exactly.
    pub fn from_text(text: &str) -> (r: Option<CoreResponseType>)
        ensures
            r == CoreResponseType::named(text@),
    {
        if str_eq(text, "code") {
            Some(CoreResponseType::Code)
        } else if str_eq(text, "id_token") {
            Some(CoreResponseType::IdToken)
        } else if str_eq(text, "none") {
            Some(CoreResponseType::NoResponse)
        } else if str_eq(text, "token") {
            Some(CoreResponseType::Token)
        } else {
            None
        }
    }

    /// Reading back the text of a value gives that value.
    pub proof fn lemma_named_name(self)
        ensures
            CoreResponseType::named(self.name()) == Some(self),
    {
        reveal_strlit("code");
        reveal_strlit("id_token");
        reveal_strlit("none");
        reveal_strlit("token");
        assert("code"@.len() == 4);
        assert("id_token"@.len() == 8);
        assert("none"@.len() == 4);
        assert("token"@.len() == 5);
        assert("code"@[0] != "none"@[0]);
    }
}

impl AsText for CoreResponseType {
    open spec fn text(&self) -> Seq<char> {
        self.name()
    }

    fn as_text(&self) -> (r: &str) {
        self.as_str()
    }
}

impl ResponseType for CoreResponseType {

}

/// How the provider should show its authentication and consent pages.
#[derive(Clone, Copy, Debug, PartialEq, Eq, Hash, Structural)]
pub enum CoreAuthDisplay {
    /// A full page in the user agent. Written `page`.
    Page,
    /// A popup window. Written `popup`.
    Popup,
    /// A page for a device with a touch interface. Written `touch`.
    Touch,
    /// A page for a feature phone. Written `wap`.
    Wap,
}

impl CoreAuthDisplay {
    /// The wire text of a value.
    pub open spec fn name(self) -> Seq<char> {
        match self {
            CoreAuthDisplay::Page => "page"@,
            CoreAuthDisplay::Popup => "popup"@,
            CoreAuthDisplay::Touch => "touch"@,
            CoreAuthDisplay::Wap => "wap"@,
        }
    }

    /// The value that `text` stands for, if it stands for one.
    pub open spec fn named(text: Seq<char>) -> Option<CoreAuthDisplay> {
        if text == "page"@ {
            Some(CoreAuthDisplay::Page)
        } else if text == "popup"@ {
            Some(CoreAuthDisplay::Popup)
        } else if text == "touch"@ {
            Some(CoreAuthDisplay::Touch)
        } else if text == "wap"@ {
            Some(CoreAuthDisplay::Wap)
        } else {
            None
        }
    }

    /// The wire text of this value.
    pub fn as_str(&self) -> (r: &'static str)
        ensures
            r@ == self.name(),
    {
        match self {
            CoreAuthDisplay::Page => "page",
            CoreAuthDisplay::Popup => "popup",
            CoreAuthDisplay::Touch => "touch",
            CoreAuthDisplay::Wap => "wap",
        }
    }

    /// Reads a value from its wire text. The text must match exactly.
    pub fn from_text(text: &str) -> (r: Option<CoreAuthDisplay>)
        ensures
            r == CoreAuthDisplay::named(text@),
    {
        if str_eq(text, "page") {
            Some(CoreAuthDisplay::Page)
        } else if str_eq(text, "popup") {
            Some(CoreAuthDisplay::Popup)
        } else if str_eq(text, "touch") {
            Some(CoreAuthDisplay::Touch)
        } else if str_eq(text, "wap") {
            Some(CoreAuthDisplay::Wap)
        } else {
            None
        }
    }

    /// Reading back the text of a value gives that value.
    pub proof fn lemma_named_name(self)
        ensures
            CoreAuthDisplay::named(self.name()) == Some(self),
    {
        reveal_strlit("page");
        reveal_strlit("popup");
        reveal_strlit("touch");
        reveal_strlit("wap");
        assert("page"@.len() == 4);
        assert("popup"@.len() == 5);
        assert("touch"@.len() == 5);
        assert("wap"@.len() == 3);
        assert("popup"@[0] != "touch"@[0]);
    }
}

impl AsText for CoreAuthDisplay {
    open spec fn text(&self) -> Seq<char> {
        self.name()
    }

    fn as_text(&self) -> (r: &str) {
        self.as_str()
    }
}

impl AuthDisplay for CoreAuthDisplay {

}

/// Whether the provider should ask the end user to authenticate or consent
/// again.
#[derive(Clone, Copy, Debug, PartialEq, Eq, Hash, Structural)]
pub enum CoreAuthPrompt {
    /// Ask for consent. Written `consent`.
    Consent,
    /// Ask the end user to authenticate again. Written `login`.
    Login,
    /// Show no page at all. Written `none`.
    NoPrompt,
    /// Ask the end user to pick an account. Written `select_account`.
    SelectAccount,
}

impl CoreAuthPrompt {
    /// The wire text of a value.
    pub open spec fn name(self) -> Seq<char> {
        match self {
            CoreAuthPrompt::Consent => "consent"@,
            CoreAuthPrompt::Login => "login"@,
            CoreAuthPrompt::NoPrompt => "none"@,
            CoreAuthPrompt::SelectAccount => "select_account"@,
        }
    }

    /// The value that `text` stands for, if it stands for one.
    pub open spec fn named(text: Seq<char>) -> Option<CoreAuthPrompt> {
        if text == "consent"@ {
            Some(CoreAuthPrompt::Consent)
        } else if text == "login"@ {
            Some(CoreAuthPrompt::Login)
        } else if text == "none"@ {
            Some(CoreAuthPrompt::NoPrompt)
        } else if text == "select_account"@ {
            Some(CoreAuthPrompt::SelectAccount)
        } else {
            None
        }
    }

    /// The wire text of this value.
    pub fn as_str(&self) -> (r: &'static str)
        ensures
            r@ == self.name(),
    {
        match self {
            CoreAuthPrompt::Consent => "consent",
            CoreAuthPrompt::Login => "login",
            CoreAuthPrompt::NoPrompt => "none",
            CoreAuthPrompt::SelectAccount => "select_account",
        }
    }

    /// Reads a value from its wire text. The text must match exactly.
    pub fn from_text(text: &str) -> (r: Option<CoreAuthPrompt>)
        ensures
            r == CoreAuthPrompt::named(text@),
    {
        if str_eq(text, "consent") {
            Some(CoreAuthPrompt::Consent)
        } else if str_eq(text, "login") {
            Some(CoreAuthPrompt::Login)
        } else if str_eq(text, "none") {
            Some(CoreAuthPrompt::NoPrompt)
        } else if str_eq(text, "select_account") {
            Some(CoreAuthPrompt::SelectAccount)
        } else {
            None
        }
    }

    /// Reading back the text of a value gives that value.
    pub proof fn lemma_named_name(self)
        ensures
            CoreAuthPrompt::named(self.name()) == Some(self),
    {
        reveal_strlit("consent");
        reveal_strlit("login");
        reveal_strlit("none");
        reveal_strlit("select_account");
        assert("consent"@.len() == 7);
        assert("login"@.len() == 5);
        assert("none"@.len() == 4);
        assert("select_account"@.len() == 14);
    }
}

impl AsText for CoreAuthPrompt {
    open spec fn text(&self) -> Seq<char> {
        self.name()
    }

    fn as_text(&self) -> (r: &str) {
        self.as_str()
    }
}

impl AuthPrompt for CoreAuthPrompt {

}

/// Family of keys that a JSON Web Key belongs to (`kty`).
#[derive(Clone, Copy, Debug, PartialEq, Eq, Hash, Structural)]
pub enum CoreJsonWebKeyType {
    /// An elliptic-curve key. Written `EC`.
    EllipticCurve,
    /// An RSA key. Written `RSA`.
    RSA,
    /// A symmetric key, given as a sequence of octets. Written `oct`.
    Symmetric,
}

impl CoreJsonWebKeyType {
    /// The wire text of a value.
    pub open spec fn name(self) -> Seq<char> {
        match self {
            CoreJsonWebKeyType::EllipticCurve => "EC"@,
            CoreJsonWebKeyType::RSA => "RSA"@,
            CoreJsonWebKeyType::Symmetric => "oct"@,
        }
    }

    /// The value that `text` stands for, if it stands for one.
    pub open spec fn named(text: Seq<char>) -> Option<CoreJsonWebKeyType> {
        if text == "EC"@ {
            Some(CoreJsonWebKeyType::EllipticCurve)
        } else if text == "RSA"@ {
            Some(CoreJsonWebKeyType::RSA)
        } else if text == "oct"@ {
            Some(CoreJsonWebKeyType::Symmetric)
        } else {
            None
        }
    }

    /// The wire text of this value.
    pub fn as_str(&self) -> (r: &'static str)
        ensures
            r@ == self.name(),
    {
        match self {
            CoreJsonWebKeyType::EllipticCurve => "EC",
            CoreJsonWebKeyType::RSA => "RSA",
            CoreJsonWebKeyType::Symmetric => "oct",
        }
    }

    /// Reads a value from its wire text. The text must match exactly.
    pub fn from_text(text: &str) -> (r: Option<CoreJsonWebKeyType>)
        ensures
            r == CoreJsonWebKeyType::named(text@),
    {
        if str_eq(text, "EC") {
            Some(CoreJsonWebKeyType::EllipticCurve)
        } else if str_eq(text, "RSA") {
            Some(CoreJsonWebKeyType::RSA)
        } else if str_eq(text, "oct") {
            Some(CoreJsonWebKeyType::Symmetric)
        } else {
            None
        }
    }

    /// Reading back the text of a value gives that value.
    pub proof fn lemma_named_name(self)
        ensures
            CoreJsonWebKeyType::named(self.name()) == Some(self),
    {
        reveal_strlit("EC");
        reveal_strlit("RSA");
        reveal_strlit("oct");
        assert("EC"@.len() == 2);
        assert("RSA"@.len() == 3);
        assert("oct"@.len() == 3);
        assert("RSA"@[0] != "oct"@[0]);
    }
}

impl AsText for CoreJsonWebKeyType {
    open spec fn text(&self) -> Seq<char> {
        self.name()
    }

    fn as_text(&self) -> (r: &str) {
        self.as_str()
    }
}

/// What a JSON Web Key is meant to be used for (`use`).
#[derive(Clone, Copy, Debug, PartialEq, Eq, Hash, Structural)]
pub enum CoreJsonWebKeyUse {
    /// Signing and verifying. Written `sig`.
    Signature,
    /// Encrypting and decrypting. Written `enc`.
    Encryption,
}

impl CoreJsonWebKeyUse {
    /// The wire text of a value.
    pub open spec fn name(self) -> Seq<char> {
        match self {
            CoreJsonWebKeyUse::Signature => "sig"@,
            CoreJsonWebKeyUse::Encryption => "enc"@,
        }
    }

    /// The value that `text` stands for, if it stands for one.
    pub open spec fn named(text: Seq<char>) -> Option<CoreJsonWebKeyUse> {
        if text == "sig"@ {
            Some(CoreJsonWebKeyUse::Signature)
        } else if text == "enc"@ {
            Some(CoreJsonWebKeyUse::Encryption)
        } else {
            None
        }
    }

    /// The wire text of this value.
    pub fn as_str(&self) -> (r: &'static str)
        ensures
            r@ == self.name(),
    {
        match self {
            CoreJsonWebKeyUse::Signature => "sig",
            CoreJsonWebKeyUse::Encryption => "enc",
        }
    }

    /// Reads a value from its wire text. The text must match exactly.
    pub fn from_text(text: &str) -> (r: Option<CoreJsonWebKeyUse>)
        ensures
            r == CoreJsonWebKeyUse::named(text@),
    {
        if str_eq(text, "sig") {
            Some(CoreJsonWebKeyUse::Signature)
        } else if str_eq(text, "enc") {
            Some(CoreJsonWebKeyUse::Encryption)
        } else {
            None
        }
    }

    /// Reading back the text of a value gives that value.
    pub proof fn lemma_named_name(self)
        ensures
            CoreJsonWebKeyUse::named(self.name()) == Some(self),
    {
        reveal_strlit("sig");
        reveal_strlit("enc");
        assert("sig"@.len() == 3);
        assert("enc"@.len() == 3);
        assert("sig"@[0] != "enc"@[0]);
    }
}

impl AsText for CoreJsonWebKeyUse {
    open spec fn text(&self) -> Seq<char> {
        self.name()
    }

    fn as_text(&self) -> (r: &str) {
        self.as_str()
    }
}

/// Algorithm named in the `alg` header of a signed token.
#[derive(Clone, Copy, Debug, PartialEq, Eq, Hash, Structural)]
pub enum CoreJwsSigningAlgorithm {
    /// HMAC with SHA-256. Written `HS256`.
    HmacSha256,
    /// HMAC with SHA-384. Written `HS384`.
    HmacSha384,
    /// HMAC with SHA-512. Written `HS512`.
    HmacSha512,
    /// RSASSA-PKCS1-v1_5 with SHA-256. Written `RS256`.
    RsaSsaPkcs1V15Sha256,
    /// RSASSA-PKCS1-v1_5 with SHA-384. Written `RS384`.
    RsaSsaPkcs1V15Sha384,
    /// RSASSA-PKCS1-v1_5 with SHA-512. Written `RS512`.
    RsaSsaPkcs1V15Sha512,
    /// ECDSA on P-256 with SHA-256. Written `ES256`.
    EcdsaP256Sha256,
    /// ECDSA on P-384 with SHA-384. Written `ES384`.
    EcdsaP384Sha384,
    /// ECDSA on P-521 with SHA-512. Written `ES512`.
    EcdsaP521Sha512,
    /// RSASSA-PSS with SHA-256. Written `PS256`.
    RsaSsaPssSha256,
    /// RSASSA-PSS with SHA-384. Written `PS384`.
    RsaSsaPssSha384,
    /// RSASSA-PSS with SHA-512. Written `PS512`.
    RsaSsaPssSha512,
    /// No signature at all. Written `none`.
    Unsigned,
}

impl CoreJwsSigningAlgorithm {
    /// The wire text of a value.
    pub open spec fn name(self) -> Seq<char> {
        match self {
            CoreJwsSigningAlgorithm::HmacSha256 => "HS256"@,
            CoreJwsSigningAlgorithm::HmacSha384 => "HS384"@,
            CoreJwsSigningAlgorithm::HmacSha512 => "HS512"@,
            CoreJwsSigningAlgorithm::RsaSsaPkcs1V15Sha256 => "RS256"@,
            CoreJwsSigningAlgorithm::RsaSsaPkcs1V15Sha384 => "RS384"@,
            CoreJwsSigningAlgorithm::RsaSsaPkcs1V15Sha512 => "RS512"@,
            CoreJwsSigningAlgorithm::EcdsaP256Sha256 => "ES256"@,
            CoreJwsSigningAlgorithm::EcdsaP384Sha384 => "ES384"@,
            CoreJwsSigningAlgorithm::EcdsaP521Sha512 => "ES512"@,
            CoreJwsSigningAlgorithm::RsaSsaPssSha256 => "PS256"@,
            CoreJwsSigningAlgorithm::RsaSsaPssSha384 => "PS384"@,
            CoreJwsSigningAlgorithm::RsaSsaPssSha512 => "PS512"@,
            CoreJwsSigningAlgorithm::Unsigned => "none"@,
        }
    }

    /// The value that `text` stands for, if it stands for one.
    pub open spec fn named(text: Seq<char>) -> Option<CoreJwsSigningAlgorithm> {
        if text == "HS256"@ {
            Some(CoreJwsSigningAlgorithm::HmacSha256)
        } else if text == "HS384"@ {
            Some(CoreJwsSigningAlgorithm::HmacSha384)
        } else if text == "HS512"@ {
            Some(CoreJwsSigningAlgorithm::HmacSha512)
        } else if text == "RS256"@ {
            Some(CoreJwsSigningAlgorithm::RsaSsaPkcs1V15Sha256)
        } else if text == "RS384"@ {
            Some(CoreJwsSigningAlgorithm::RsaSsaPkcs1V15Sha384)
        } else if text == "RS512"@ {
            Some(CoreJwsSigningAlgorithm::RsaSsaPkcs1V15Sha512)
        } else if text == "ES256"@ {
            Some(CoreJwsSigningAlgorithm::EcdsaP256Sha256)
        } else if text == "ES384"@ {
            Some(CoreJwsSigningAlgorithm::EcdsaP384Sha384)
        } else if text == "ES512"@ {
            Some(CoreJwsSigningAlgorithm::EcdsaP521Sha512)
        } else if text == "PS256"@ {
            Some(CoreJwsSigningAlgorithm::RsaSsaPssSha256)
        } else if text == "PS384"@ {
            Some(CoreJwsSigningAlgorithm::RsaSsaPssSha384)
        } else if text == "PS512"@ {
            Some(CoreJwsSigningAlgorithm::RsaSsaPssSha512)
        } else if text == "none"@ {
            Some(CoreJwsSigningAlgorithm::Unsigned)
        } else {
            None
        }
    }

    /// The wire text of this value.
    pub fn as_str(&self) -> (r: &'static str)
        ensures
            r@ == self.name(),
    {
        match self {
            CoreJwsSigningAlgorithm::HmacSha256 => "HS256",
            CoreJwsSigningAlgorithm::HmacSha384 => "HS384",
            CoreJwsSigningAlgorithm::HmacSha512 => "HS512",
            CoreJwsSigningAlgorithm::RsaSsaPkcs1V15Sha256 => "RS256",
            CoreJwsSigningAlgorithm::RsaSsaPkcs1V15Sha384 => "RS384",
            CoreJwsSigningAlgorithm::RsaSsaPkcs1V15Sha512 => "RS512",
            CoreJwsSigningAlgorithm::EcdsaP256Sha256 => "ES256",
            CoreJwsSigningAlgorithm::EcdsaP384Sha384 => "ES384",
            CoreJwsSigningAlgorithm::EcdsaP521Sha512 => "ES512",
            CoreJwsSigningAlgorithm::RsaSsaPssSha256 => "PS256",
            CoreJwsSigningAlgorithm::RsaSsaPssSha384 => "PS384",
            CoreJwsSigningAlgorithm::RsaSsaPssSha512 => "PS512",
            CoreJwsSigningAlgorithm::Unsigned => "none",
        }
    }

    /// Reads a value from its wire text. The text must match exactly.
    pub fn from_text(text: &str) -> (r: Option<CoreJwsSigningAlgorithm>)
        ensures
            r == CoreJwsSigningAlgorithm::named(text@),
    {
        if str_eq(text, "HS256") {
            Some(CoreJwsSigningAlgorithm::HmacSha256)
        } else if str_eq(text, "HS384") {
            Some(CoreJwsSigningAlgorithm::HmacSha384)
        } else if str_eq(text, "HS512") {
            Some(CoreJwsSigningAlgorithm::HmacSha512)
        } else if str_eq(text, "RS256") {
            Some(CoreJwsSigningAlgorithm::RsaSsaPkcs1V15Sha256)
        } else if str_eq(text, "RS384") {
            Some(CoreJwsSigningAlgorithm::RsaSsaPkcs1V15Sha384)
        } else if str_eq(text, "RS512") {
            Some(CoreJwsSigningAlgorithm::RsaSsaPkcs1V15Sha512)
        } else if str_eq(text, "ES256") {
            Some(CoreJwsSigningAlgorithm::EcdsaP256Sha256)
        } else if str_eq(text, "ES384") {
            Some(CoreJwsSigningAlgorithm::EcdsaP384Sha384)
        } else if str_eq(text, "ES512") {
            Some(CoreJwsSigningAlgorithm::EcdsaP521Sha512)
        } else if str_eq(text, "PS256") {
            Some(CoreJwsSigningAlgorithm::RsaSsaPssSha256)
        } else if str_eq(text, "PS384") {
            Some(CoreJwsSigningAlgorithm::RsaSsaPssSha384)
        } else if str_eq(text, "PS512") {
            Some(CoreJwsSigningAlgorithm::RsaSsaPssSha512)
        } else if str_eq(text, "none") {
            Some(CoreJwsSigningAlgorithm::Unsigned)
        } else {
            None
        }
    }

    /// Reading back the text of a value gives that value.
    pub proof fn lemma_named_name(self)
        ensures
            CoreJwsSigningAlgorithm::named(self.name()) == Some(self),
    {
        reveal_strlit("HS256");
        reveal_strlit("HS384");
        reveal_strlit("HS512");
        reveal_strlit("RS256");
        reveal_strlit("RS384");
        reveal_strlit("RS512");
        reveal_strlit("ES256");
        reveal_strlit("ES384");
        reveal_strlit("ES512");
        reveal_strlit("PS256");
        reveal_strlit("PS384");
        reveal_strlit("PS512");
        reveal_strlit("none");
        assert("HS256"@.len() == 5);
        assert("HS384"@.len() == 5);
        assert("HS512"@.len() == 5);
        assert("RS256"@.len() == 5);
        assert("RS384"@.len() == 5);
        assert("RS512"@.len() == 5);
        assert("ES256"@.len() == 5);
        assert("ES384"@.len() == 5);
        assert("ES512"@.len() == 5);
        assert("PS256"@.len() == 5);
        assert("PS384"@.len() == 5);
        assert("PS512"@.len() == 5);
        assert("none"@.len() == 4);
        assert("HS256"@[2] != "HS384"@[2]);
        assert("HS256"@[2] != "HS512"@[2]);
        assert("HS256"@[0] != "RS256"@[0]);
        assert("HS256"@[0] != "RS384"@[0]);
        assert("HS256"@[0] != "RS512"@[0]);
        assert("HS256"@[0] != "ES256"@[0]);
        assert("HS256"@[0] != "ES384"@[0]);
        assert("HS256"@[0] != "ES512"@[0]);
        assert("HS256"@[0] != "PS256"@[0]);
        assert("HS256"@[0] != "PS384"@[0]);
        assert("HS256"@[0] != "PS512"@[0]);
        assert("HS384"@[2] != "HS512"@[2]);
        assert("HS384"@[0] != "RS256"@[0]);
        assert("HS384"@[0] != "RS384"@[0]);
        assert("HS384"@[0] != "RS512"@[0]);
        assert("HS384"@[0] != "ES256"@[0]);
        assert("HS384"@[0] != "ES384"@[0]);
        assert("HS384"@[0] != "ES512"@[0]);
        assert("HS384"@[0] != "PS256"@[0]);
        assert("HS384"@[0] != "PS384"@[0]);
        assert("HS384"@[0] != "PS512"@[0]);
        assert("HS512"@[0] != "RS256"@[0]);
        assert("HS512"@[0] != "RS384"@[0]);
        assert("HS512"@[0] != "RS512"@[0]);
        assert("HS512"@[0] != "ES256"@[0]);
        assert("HS512"@[0] != "ES384"@[0]);
        assert("HS512"@[0] != "ES512"@[0]);
        assert("HS512"@[0] != "PS256"@[0]);
        assert("HS512"@[0] != "PS384"@[0]);
        assert("HS512"@[0] != "PS512"@[0]);
        assert("RS256"@[2] != "RS384"@[2]);
        assert("RS256"@[2] != "RS512"@[2]);
        assert("RS256"@[0] != "ES256"@[0]);
        assert("RS256"@[0] != "ES384"@[0]);
        assert("RS256"@[0] != "ES512"@[0]);
        assert("RS256"@[0] != "PS256"@[0]);
        assert("RS256"@[0] != "PS384"@[0]);
        assert("RS256"@[0] != "PS512"@[0]);
        assert("RS384"@[2] != "RS512"@[2]);
        assert("RS384"@[0] != "ES256"@[0]);
        assert("RS384"@[0] != "ES384"@[0]);
        assert("RS384"@[0] != "ES512"@[0]);
        assert("RS384"@[0] != "PS256"@[0]);
        assert("RS384"@[0] != "PS384"@[0]);
        assert("RS384"@[0] != "PS512"@[0]);
        assert("RS512"@[0] != "ES256"@[0]);
        assert("RS512"@[0] != "ES384"@[0]);
        assert("RS512"@[0] != "ES512"@[0]);
        assert("RS512"@[0] != "PS256"@[0]);
        assert("RS512"@[0] != "PS384"@[0]);
        assert("RS512"@[0] != "PS512"@[0]);
        assert("ES256"@[2] != "ES384"@[2]);
        assert("ES256"@[2] != "ES512"@[2]);
        assert("ES256"@[0] != "PS256"@[0]);
        assert("ES256"@[0] != "PS384"@[0]);
        assert("ES256"@[0] != "PS512"@[0]);
        assert("ES384"@[2] != "ES512"@[2]);
        assert("ES384"@[0] != "PS256"@[0]);
        assert("ES384"@[0] != "PS384"@[0]);
        assert("ES384"@[0] != "PS512"@[0]);
        assert("ES512"@[0] != "PS256"@[0]);
        assert("ES512"@[0] != "PS384"@[0]);
        assert("ES512"@[0] != "PS512"@[0]);
        assert("PS256"@[2] != "PS384"@[2]);
        assert("PS256"@[2] != "PS512"@[2]);
        assert("PS384"@[2] != "PS512"@[2]);
    }
}

impl AsText for CoreJwsSigningAlgorithm {
    open spec fn text(&self) -> Seq<char> {
        self.name()
    }

    fn as_text(&self) -> (r: &str) {
        self.as_str()
    }
}

/// Key management algorithm named in the `alg` header of an encrypted token.
/// Encrypted tokens are told apart by it; none of them is decrypted.
#[derive(Clone, Copy, Debug, PartialEq, Eq, Hash, Structural)]
pub enum CoreJweKeyManagementAlgorithm {
    /// RSAES-PKCS1-v1_5. Written `RSA1_5`.
    RsaPkcs1V15,
    /// RSAES OAEP with the default parameters. Written `RSA-OAEP`.
    RsaOaep,
    /// RSAES OAEP with SHA-256 and MGF1 with SHA-256. Written `RSA-OAEP-256`.
    RsaOaepSha256,
    /// AES key wrap with a 128-bit key. Written `A128KW`.
    AesKeyWrap128,
    /// AES key wrap with a 192-bit key. Written `A192KW`.
    AesKeyWrap192,
    /// AES key wrap with a 256-bit key. Written `A256KW`.
    AesKeyWrap256,
    /// Direct use of a shared symmetric key. Written `dir`.
    Direct,
    /// ECDH ephemeral-static key agreement. Written `ECDH-ES`.
    EcdhEs,
    /// ECDH-ES with AES key wrap, 128-bit key. Written `ECDH-ES+A128KW`.
    EcdhEsAesKeyWrap128,
    /// ECDH-ES with AES key wrap, 192-bit key. Written `ECDH-ES+A192KW`.
    EcdhEsAesKeyWrap192,
    /// ECDH-ES with AES key wrap, 256-bit key. Written `ECDH-ES+A256KW`.
    EcdhEsAesKeyWrap256,
    /// Key wrapping with AES GCM, 128-bit key. Written `A128GCMKW`.
    Aes128Gcm,
    /// Key wrapping with AES GCM, 192-bit key. Written `A192GCMKW`.
    Aes192Gcm,
    /// Key wrapping with AES GCM, 256-bit key. Written `A256GCMKW`.
    Aes256Gcm,
    /// PBES2 with HMAC SHA-256 and AES key wrap, 128-bit key. Written
    /// `PBES2-HS256+A128KW`.
    PbEs2HmacSha256AesKeyWrap128,
    /// PBES2 with HMAC SHA-384 and AES key wrap, 192-bit key. Written
    /// `PBES2-HS384+A192KW`.
    PbEs2HmacSha384AesKeyWrap192,
    /// PBES2 with HMAC SHA-512 and AES key wrap, 256-bit key. Written
    /// `PBES2-HS512+A256KW`.
    PbEs2HmacSha512AesKeyWrap256,
}

impl CoreJweKeyManagementAlgorithm {
    /// The wire text of a value.
    pub open spec fn name(self) -> Seq<char> {
        match self {
            CoreJweKeyManagementAlgorithm::RsaPkcs1V15 => "RSA1_5"@,
            CoreJweKeyManagementAlgorithm::RsaOaep => "RSA-OAEP"@,
            CoreJweKeyManagementAlgorithm::RsaOaepSha256 => "RSA-OAEP-256"@,
            CoreJweKeyManagementAlgorithm::AesKeyWrap128 => "A128KW"@,
            CoreJweKeyManagementAlgorithm::AesKeyWrap192 => "A192KW"@,
            CoreJweKeyManagementAlgorithm::AesKeyWrap256 => "A256KW"@,
            CoreJweKeyManagementAlgorithm::Direct => "dir"@,
            CoreJweKeyManagementAlgorithm::EcdhEs => "ECDH-ES"@,
            CoreJweKeyManagementAlgorithm::EcdhEsAesKeyWrap128 => "ECDH-ES+A128KW"@,
            CoreJweKeyManagementAlgorithm::EcdhEsAesKeyWrap192 => "ECDH-ES+A192KW"@,
            CoreJweKeyManagementAlgorithm::EcdhEsAesKeyWrap256 => "ECDH-ES+A256KW"@,
            CoreJweKeyManagementAlgorithm::Aes128Gcm => "A128GCMKW"@,
            CoreJweKeyManagementAlgorithm::Aes192Gcm => "A192GCMKW"@,
            CoreJweKeyManagementAlgorithm::Aes256Gcm => "A256GCMKW"@,
            CoreJweKeyManagementAlgorithm::PbEs2HmacSha256AesKeyWrap128 => "PBES2-HS256+A128KW"@,
            CoreJweKeyManagementAlgorithm::PbEs2HmacSha384AesKeyWrap192 => "PBES2-HS384+A192KW"@,
            CoreJweKeyManagementAlgorithm::PbEs2HmacSha512AesKeyWrap256 => "PBES2-HS512+A256KW"@,
        }
    }

    /// The value that `text` stands for, if it stands for one.
    pub open spec fn named(text: Seq<char>) -> Option<CoreJweKeyManagementAlgorithm> {
        if text == "RSA1_5"@ {
            Some(CoreJweKeyManagementAlgorithm::RsaPkcs1V15)
        } else if text == "RSA-OAEP"@ {
            Some(CoreJweKeyManagementAlgorithm::RsaOaep)
        } else if text == "RSA-OAEP-256"@ {
            Some(CoreJweKeyManagementAlgorithm::RsaOaepSha256)
        } else if text == "A128KW"@ {
            Some(CoreJweKeyManagementAlgorithm::AesKeyWrap128)
        } else if text == "A192KW"@ {
            Some(CoreJweKeyManagementAlgorithm::AesKeyWrap192)
        } else if text == "A256KW"@ {
            Some(CoreJweKeyManagementAlgorithm::AesKeyWrap256)
        } else if text == "dir"@ {
            Some(CoreJweKeyManagementAlgorithm::Direct)
        } else if text == "ECDH-ES"@ {
            Some(CoreJweKeyManagementAlgorithm::EcdhEs)
        } else if text == "ECDH-ES+A128KW"@ {
            Some(CoreJweKeyManagementAlgorithm::EcdhEsAesKeyWrap128)
        } else if text == "ECDH-ES+A192KW"@ {
            Some(CoreJweKeyManagementAlgorithm::EcdhEsAesKeyWrap192)
        } else if text == "ECDH-ES+A256KW"@ {
            Some(CoreJweKeyManagementAlgorithm::EcdhEsAesKeyWrap256)
        } else if text == "A128GCMKW"@ {
            Some(CoreJweKeyManagementAlgorithm::Aes128Gcm)
        } else if text == "A192GCMKW"@ {
            Some(CoreJweKeyManagementAlgorithm::Aes192Gcm)
        } else if text == "A256GCMKW"@ {
            Some(CoreJweKeyManagementAlgorithm::Aes256Gcm)
        } else if text == "PBES2-HS256+A128KW"@ {
            Some(CoreJweKeyManagementAlgorithm::PbEs2HmacSha256AesKeyWrap128)
        } else if text == "PBES2-HS384+A192KW"@ {
            Some(CoreJweKeyManagementAlgorithm::PbEs2HmacSha384AesKeyWrap192)
        } else if text == "PBES2-HS512+A256KW"@ {
            Some(CoreJweKeyManagementAlgorithm::PbEs2HmacSha512AesKeyWrap256)
        } else {
            None
        }
    }

    /// The wire text of this value.
    pub fn as_str(&self) -> (r: &'static str)
        ensures
            r@ == self.name(),
    {
        match self {
            CoreJweKeyManagementAlgorithm::RsaPkcs1V15 => "RSA1_5",
            CoreJweKeyManagementAlgorithm::RsaOaep => "RSA-OAEP",
            CoreJweKeyManagementAlgorithm::RsaOaepSha256 => "RSA-OAEP-256",
            CoreJweKeyManagementAlgorithm::AesKeyWrap128 => "A128KW",
            CoreJweKeyManagementAlgorithm::AesKeyWrap192 => "A192KW",
            CoreJweKeyManagementAlgorithm::AesKeyWrap256 => "A256KW",
            CoreJweKeyManagementAlgorithm::Direct => "dir",
            CoreJweKeyManagementAlgorithm::EcdhEs => "ECDH-ES",
            CoreJweKeyManagementAlgorithm::EcdhEsAesKeyWrap128 => "ECDH-ES+A128KW",
            CoreJweKeyManagementAlgorithm::EcdhEsAesKeyWrap192 => "ECDH-ES+A192KW",
            CoreJweKeyManagementAlgorithm::EcdhEsAesKeyWrap256 => "ECDH-ES+A256KW",
            CoreJweKeyManagementAlgorithm::Aes128Gcm => "A128GCMKW",
            CoreJweKeyManagementAlgorithm::Aes192Gcm => "A192GCMKW",
            CoreJweKeyManagementAlgorithm::Aes256Gcm => "A256GCMKW",
            CoreJweKeyManagementAlgorithm::PbEs2HmacSha256AesKeyWrap128 => "PBES2-HS256+A128KW",
            CoreJweKeyManagementAlgorithm::PbEs2HmacSha384AesKeyWrap192 => "PBES2-HS384+A192KW",
            CoreJweKeyManagementAlgorithm::PbEs2HmacSha512AesKeyWrap256 => "PBES2-HS512+A256KW",
        }
    }

    /// Reads a value from its wire text. The text must match exactly.
    pub fn from_text(text: &str) -> (r: Option<CoreJweKeyManagementAlgorithm>)
        ensures
            r == CoreJweKeyManagementAlgorithm::named(text@),
    {
        if str_eq(text, "RSA1_5") {
            Some(CoreJweKeyManagementAlgorithm::RsaPkcs1V15)
        } else if str_eq(text, "RSA-OAEP") {
            Some(CoreJweKeyManagementAlgorithm::RsaOaep)
        } else if str_eq(text, "RSA-OAEP-256") {
            Some(CoreJweKeyManagementAlgorithm::RsaOaepSha256)
        } else if str_eq(text, "A128KW") {
            Some(CoreJweKeyManagementAlgorithm::AesKeyWrap128)
        } else if str_eq(text, "A192KW") {
            Some(CoreJweKeyManagementAlgorithm::AesKeyWrap192)
        } else if str_eq(text, "A256KW") {
            Some(CoreJweKeyManagementAlgorithm::AesKeyWrap256)
        } else if str_eq(text, "dir") {
            Some(CoreJweKeyManagementAlgorithm::Direct)
        } else if str_eq(text, "ECDH-ES") {
            Some(CoreJweKeyManagementAlgorithm::EcdhEs)
        } else if str_eq(text, "ECDH-ES+A128KW") {
            Some(CoreJweKeyManagementAlgorithm::EcdhEsAesKeyWrap128)
        } else if str_eq(text, "ECDH-ES+A192KW") {
            Some(CoreJweKeyManagementAlgorithm::EcdhEsAesKeyWrap192)
        } else if str_eq(text, "ECDH-ES+A256KW") {
            Some(CoreJweKeyManagementAlgorithm::EcdhEsAesKeyWrap256)
        } else if str_eq(text, "A128GCMKW") {
            Some(CoreJweKeyManagementAlgorithm::Aes128Gcm)
        } else if str_eq(text, "A192GCMKW") {
            Some(CoreJweKeyManagementAlgorithm::Aes192Gcm)
        } else if str_eq(text, "A256GCMKW") {
            Some(CoreJweKeyManagementAlgorithm::Aes256Gcm)
        } else if str_eq(text, "PBES2-HS256+A128KW") {
            Some(CoreJweKeyManagementAlgorithm::PbEs2HmacSha256AesKeyWrap128)
        } else if str_eq(text, "PBES2-HS384+A192KW") {
            Some(CoreJweKeyManagementAlgorithm::PbEs2HmacSha384AesKeyWrap192)
        } else if str_eq(text, "PBES2-HS512+A256KW") {
            Some(CoreJweKeyManagementAlgorithm::PbEs2HmacSha512AesKeyWrap256)
        } else {
            None
        }
    }

    /// Reading back the text of a value gives that value.
    pub proof fn lemma_named_name(self)
        ensures
            CoreJweKeyManagementAlgorithm::named(self.name()) == Some(self),
    {
        reveal_strlit("RSA1_5");
        reveal_strlit("RSA-OAEP");
        reveal_strlit("RSA-OAEP-256");
        reveal_strlit("A128KW");
        reveal_strlit("A192KW");
        reveal_strlit("A256KW");
        reveal_strlit("dir");
        reveal_strlit("ECDH-ES");
        reveal_strlit("ECDH-ES+A128KW");
        reveal_strlit("ECDH-ES+A192KW");
        reveal_strlit("ECDH-ES+A256KW");
        reveal_strlit("A128GCMKW");
        reveal_strlit("A192GCMKW");
        reveal_strlit("A256GCMKW");
        reveal_strlit("PBES2-HS256+A128KW");
        reveal_strlit("PBES2-HS384+A192KW");
        reveal_strlit("PBES2-HS512+A256KW");
        assert("RSA1_5"@.len() == 6);
        assert("RSA-OAEP"@.len() == 8);
        assert("RSA-OAEP-256"@.len() == 12);
        assert("A128KW"@.len() == 6);
        assert("A192KW"@.len() == 6);
        assert("A256KW"@.len() == 6);
        assert("dir"@.len() == 3);
        assert("ECDH-ES"@.len() == 7);
        assert("ECDH-ES+A128KW"@.len() == 14);
        assert("ECDH-ES+A192KW"@.len() == 14);
        assert("ECDH-ES+A256KW"@.len() == 14);
        assert("A128GCMKW"@.len() == 9);
        assert("A192GCMKW"@.len() == 9);
        assert("A256GCMKW"@.len() == 9);
        assert("PBES2-HS256+A128KW"@.len() == 18);
        assert("PBES2-HS384+A192KW"@.len() == 18);
        assert("PBES2-HS512+A256KW"@.len() == 18);
        assert("RSA1_5"@[0] != "A128KW"@[0]);
        assert("RSA1_5"@[0] != "A192KW"@[0]);
        assert("RSA1_5"@[0] != "A256KW"@[0]);
        assert("A128KW"@[2] != "A192KW"@[2]);
        assert("A128KW"@[1] != "A256KW"@[1]);
        assert("A192KW"@[1] != "A256KW"@[1]);
        assert("ECDH-ES+A128KW"@[10] != "ECDH-ES+A192KW"@[10]);
        assert("ECDH-ES+A128KW"@[9] != "ECDH-ES+A256KW"@[9]);
        assert("ECDH-ES+A192KW"@[9] != "ECDH-ES+A256KW"@[9]);
        assert("A128GCMKW"@[2] != "A192GCMKW"@[2]);
        assert("A128GCMKW"@[1] != "A256GCMKW"@[1]);
        assert("A192GCMKW"@[1] != "A256GCMKW"@[1]);
        assert("PBES2-HS256+A128KW"@[8] != "PBES2-HS384+A192KW"@[8]);
        assert("PBES2-HS256+A128KW"@[8] != "PBES2-HS512+A256KW"@[8]);
        assert("PBES2-HS384+A192KW"@[8] != "PBES2-HS512+A256KW"@[8]);
    }
}

impl AsText for CoreJweKeyManagementAlgorithm {
    open spec fn text(&self) -> Seq<char> {
        self.name()
    }

    fn as_text(&self) -> (r: &str) {
        self.as_str()
    }
}

} // verus!
