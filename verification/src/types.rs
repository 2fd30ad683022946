//! Typed wrappers around the strings of the protocol. Each wrapper holds one
//! value, compares by the exact text, and offers no way to change it, so that
//! a client identifier cannot be handed over where a nonce is expected.

use vstd::prelude::*;

use crate::endpoint::{parses_as_url, url_parses};
use crate::text::AsText;

verus! {

/// Returned when a text is not an absolute URL.
#[derive(Clone, Copy, Debug, PartialEq, Eq, Structural)]
pub struct UrlParseError;

/// Identifier that the provider issued to this client.
#[derive(Debug, PartialEq, Eq, Hash)]
pub struct ClientId(String);

impl View for ClientId {
    type V = Seq<char>;

    closed spec fn view(&self) -> Seq<char> {
        self.0@
    }
}

impl ClientId {
    /// Wraps `s`.
    pub fn new(s: String) -> (r: Self)
        ensures
            r@ == s@,
    {
        ClientId(s)
    }

    /// The wrapped text.
    pub fn as_str(&self) -> (r: &str)
        ensures
            r@ == self@,
    {
        self.0.as_str()
    }
}

impl Clone for ClientId {
    fn clone(&self) -> (r: Self)
        ensures
            r@ == self@,
    {
        ClientId(self.0.clone())
    }
}

impl AsText for ClientId {
    open spec fn text(&self) -> Seq<char> {
        self@
    }

    fn as_text(&self) -> (r: &str) {
        self.as_str()
    }
}

/// Access scope requested from, or advertised by, the provider.
#[derive(Debug, PartialEq, Eq, Hash)]
pub struct Scope(String);

impl View for Scope {
    type V = Seq<char>;

    closed spec fn view(&self) -> Seq<char> {
        self.0@
    }
}

impl Scope {
    /// Wraps `s`.
    pub fn new(s: String) -> (r: Self)
        ensures
            r@ == s@,
    {
        Scope(s)
    }

    /// The wrapped text.
    pub fn as_str(&self) -> (r: &str)
        ensures
            r@ == self@,
    {
        self.0.as_str()
    }
}

impl Clone for Scope {
    fn clone(&self) -> (r: Self)
        ensures
            r@ == self@,
    {
        Scope(self.0.clone())
    }
}

impl AsText for Scope {
    open spec fn text(&self) -> Seq<char> {
        self@
    }

    fn as_text(&self) -> (r: &str) {
        self.as_str()
    }
}

/// Intended recipient of a token, as named in its `aud` claim.
#[derive(Debug, PartialEq, Eq, Hash)]
pub struct Audience(String);

impl View for Audience {
    type V = Seq<char>;

    closed spec fn view(&self) -> Seq<char> {
        self.0@
    }
}

impl Audience {
    /// Wraps `s`.
    pub fn new(s: String) -> (r: Self)
        ensures
            r@ == s@,
    {
        Audience(s)
    }

    /// The wrapped text.
    pub fn as_str(&self) -> (r: &str)
        ensures
            r@ == self@,
    {
        self.0.as_str()
    }
}

impl Clone for Audience {
    fn clone(&self) -> (r: Self)
        ensures
            r@ == self@,
    {
        Audience(self.0.clone())
    }
}

impl AsText for Audience {
    open spec fn text(&self) -> Seq<char> {
        self@
    }

    fn as_text(&self) -> (r: &str) {
        self.as_str()
    }
}

/// Identifier of the end user at the issuer (`sub`).
#[derive(Debug, PartialEq, Eq, Hash)]
pub struct SubjectIdentifier(String);

impl View for SubjectIdentifier {
    type V = Seq<char>;

    closed spec fn view(&self) -> Seq<char> {
        self.0@
    }
}

impl SubjectIdentifier {
    /// Wraps `s`.
    pub fn new(s: String) -> (r: Self)
        ensures
            r@ == s@,
    {
        SubjectIdentifier(s)
    }

    /// The wrapped text.
    pub fn as_str(&self) -> (r: &str)
        ensures
            r@ == self@,
    {
        self.0.as_str()
    }
}

impl Clone for SubjectIdentifier {
    fn clone(&self) -> (r: Self)
        ensures
            r@ == self@,
    {
        SubjectIdentifier(self.0.clone())
    }
}

impl AsText for SubjectIdentifier {
    open spec fn text(&self) -> Seq<char> {
        self@
    }

    fn as_text(&self) -> (r: &str) {
        self.as_str()
    }
}

/// Authentication context class reference (`acr`).
#[derive(Debug, PartialEq, Eq, Hash)]
pub struct AuthenticationContextClass(String);

impl View for AuthenticationContextClass {
    type V = Seq<char>;

    closed spec fn view(&self) -> Seq<char> {
        self.0@
    }
}

impl AuthenticationContextClass {
    /// Wraps `s`.
    pub fn new(s: String) -> (r: Self)
        ensures
            r@ == s@,
    {
        AuthenticationContextClass(s)
    }

    /// The wrapped text.
    pub fn as_str(&self) -> (r: &str)
        ensures
            r@ == self@,
    {
        self.0.as_str()
    }
}

impl Clone for AuthenticationContextClass {
    fn clone(&self) -> (r: Self)
        ensures
            r@ == self@,
    {
        AuthenticationContextClass(self.0.clone())
    }
}

impl AsText for AuthenticationContextClass {
    open spec fn text(&self) -> Seq<char> {
        self@
    }

    fn as_text(&self) -> (r: &str) {
        self.as_str()
    }
}

/// Authentication method reference (an entry of `amr`).
#[derive(Debug, PartialEq, Eq, Hash)]
pub struct AuthenticationMethodReference(String);

impl View for AuthenticationMethodReference {
    type V = Seq<char>;

    closed spec fn view(&self) -> Seq<char> {
        self.0@
    }
}

impl AuthenticationMethodReference {
    /// Wraps `s`.
    pub fn new(s: String) -> (r: Self)
        ensures
            r@ == s@,
    {
        AuthenticationMethodReference(s)
    }

    /// The wrapped text.
    pub fn as_str(&self) -> (r: &str)
        ensures
            r@ == self@,
    {
        self.0.as_str()
    }
}

impl Clone for AuthenticationMethodReference {
    fn clone(&self) -> (r: Self)
        ensures
            r@ == self@,
    {
        AuthenticationMethodReference(self.0.clone())
    }
}

impl AsText for AuthenticationMethodReference {
    open spec fn text(&self) -> Seq<char> {
        self@
    }

    fn as_text(&self) -> (r: &str) {
        self.as_str()
    }
}

/// Language tag in the sense of BCP 47, such as `fr-CA`.
#[derive(Debug, PartialEq, Eq, Hash)]
pub struct LanguageTag(String);

impl View for LanguageTag {
    type V = Seq<char>;

    closed spec fn view(&self) -> Seq<char> {
        self.0@
    }
}

impl LanguageTag {
    /// Wraps `s`.
    pub fn new(s: String) -> (r: Self)
        ensures
            r@ == s@,
    {
        LanguageTag(s)
    }

    /// The wrapped text.
    pub fn as_str(&self) -> (r: &str)
        ensures
            r@ == self@,
    {
        self.0.as_str()
    }
}

impl Clone for LanguageTag {
    fn clone(&self) -> (r: Self)
        ensures
            r@ == self@,
    {
        LanguageTag(self.0.clone())
    }
}

impl AsText for LanguageTag {
    open spec fn text(&self) -> Seq<char> {
        self@
    }

    fn as_text(&self) -> (r: &str) {
        self.as_str()
    }
}

/// Key identifier (`kid`) of a JSON Web Key or a token header.
#[derive(Debug, PartialEq, Eq, Hash)]
pub struct JsonWebKeyId(String);

impl View for JsonWebKeyId {
    type V = Seq<char>;

    closed spec fn view(&self) -> Seq<char> {
        self.0@
    }
}

impl JsonWebKeyId {
    /// Wraps `s`.
    pub fn new(s: String) -> (r: Self)
        ensures
            r@ == s@,
    {
        JsonWebKeyId(s)
    }

    /// The wrapped text.
    pub fn as_str(&self) -> (r: &str)
        ensures
            r@ == self@,
    {
        self.0.as_str()
    }
}

impl Clone for JsonWebKeyId {
    fn clone(&self) -> (r: Self)
        ensures
            r@ == self@,
    {
        JsonWebKeyId(self.0.clone())
    }
}

impl AsText for JsonWebKeyId {
    open spec fn text(&self) -> Seq<char> {
        self@
    }

    fn as_text(&self) -> (r: &str) {
        self.as_str()
    }
}

/// Value of the `at_hash` claim: the encoded left half of a hash of the access
/// token.
#[derive(Debug, PartialEq, Eq, Hash)]
pub struct AccessTokenHash(String);

impl View for AccessTokenHash {
    type V = Seq<char>;

    closed spec fn view(&self) -> Seq<char> {
        self.0@
    }
}

impl AccessTokenHash {
    /// Wraps `s`.
    pub fn new(s: String) -> (r: Self)
        ensures
            r@ == s@,
    {
        AccessTokenHash(s)
    }

    /// The wrapped text.
    pub fn as_str(&self) -> (r: &str)
        ensures
            r@ == self@,
    {
        self.0.as_str()
    }
}

impl Clone for AccessTokenHash {
    fn clone(&self) -> (r: Self)
        ensures
            r@ == self@,
    {
        AccessTokenHash(self.0.clone())
    }
}

impl AsText for AccessTokenHash {
    open spec fn text(&self) -> Seq<char> {
        self@
    }

    fn as_text(&self) -> (r: &str) {
        self.as_str()
    }
}

/// Value of the `c_hash` claim: the encoded left half of a hash of the
/// authorization code.
#[derive(Debug, PartialEq, Eq, Hash)]
pub struct AuthorizationCodeHash(String);

impl View for AuthorizationCodeHash {
    type V = Seq<char>;

    closed spec fn view(&self) -> Seq<char> {
        self.0@
    }
}

impl AuthorizationCodeHash {
    /// Wraps `s`.
    pub fn new(s: String) -> (r: Self)
        ensures
            r@ == s@,
    {
        AuthorizationCodeHash(s)
    }

    /// The wrapped text.
    pub fn as_str(&self) -> (r: &str)
        ensures
            r@ == self@,
    {
        self.0.as_str()
    }
}

impl Clone for AuthorizationCodeHash {
    fn clone(&self) -> (r: Self)
        ensures
            r@ == self@,
    {
        AuthorizationCodeHash(self.0.clone())
    }
}

impl AsText for AuthorizationCodeHash {
    open spec fn text(&self) -> Seq<char> {
        self@
    }

    fn as_text(&self) -> (r: &str) {
        self.as_str()
    }
}

/// Secret that the provider issued to this client. The value is reached only
/// through [`ClientSecret::secret`].
#[derive(PartialEq, Eq)]
pub struct ClientSecret(String);

impl View for ClientSecret {
    type V = Seq<char>;

    closed spec fn view(&self) -> Seq<char> {
        self.0@
    }
}

impl ClientSecret {
    /// Wraps `s`.
    pub fn new(s: String) -> (r: Self)
        ensures
            r@ == s@,
    {
        ClientSecret(s)
    }

    /// The wrapped secret.
    pub fn secret(&self) -> (r: &String)
        ensures
            r@ == self@,
    {
        &self.0
    }
}

impl Clone for ClientSecret {
    fn clone(&self) -> (r: Self)
        ensures
            r@ == self@,
    {
        ClientSecret(self.0.clone())
    }
}

/// Opaque `state` value that ties an authorization response to its request. The
/// value is reached only through [`CsrfToken::secret`].
#[derive(PartialEq, Eq)]
pub struct CsrfToken(String);

impl View for CsrfToken {
    type V = Seq<char>;

    closed spec fn view(&self) -> Seq<char> {
        self.0@
    }
}

impl CsrfToken {
    /// Wraps `s`.
    pub fn new(s: String) -> (r: Self)
        ensures
            r@ == s@,
    {
        CsrfToken(s)
    }

    /// The wrapped secret.
    pub fn secret(&self) -> (r: &String)
        ensures
            r@ == self@,
    {
        &self.0
    }
}

impl Clone for CsrfToken {
    fn clone(&self) -> (r: Self)
        ensures
            r@ == self@,
    {
        CsrfToken(self.0.clone())
    }
}

/// Value that ties an ID token to the authorization request that asked for it.
/// The value is reached only through [`Nonce::secret`].
#[derive(PartialEq, Eq)]
pub struct Nonce(String);

impl View for Nonce {
    type V = Seq<char>;

    closed spec fn view(&self) -> Seq<char> {
        self.0@
    }
}

impl Nonce {
    /// Wraps `s`.
    pub fn new(s: String) -> (r: Self)
        ensures
            r@ == s@,
    {
        Nonce(s)
    }

    /// The wrapped secret.
    pub fn secret(&self) -> (r: &String)
        ensures
            r@ == self@,
    {
        &self.0
    }
}

impl Clone for Nonce {
    fn clone(&self) -> (r: Self)
        ensures
            r@ == self@,
    {
        Nonce(self.0.clone())
    }
}

/// Access token issued by the provider. The value is reached only through
/// [`AccessToken::secret`].
#[derive(PartialEq, Eq)]
pub struct AccessToken(String);

impl View for AccessToken {
    type V = Seq<char>;

    closed spec fn view(&self) -> Seq<char> {
        self.0@
    }
}

impl AccessToken {
    /// Wraps `s`.
    pub fn new(s: String) -> (r: Self)
        ensures
            r@ == s@,
    {
        AccessToken(s)
    }

    /// The wrapped secret.
    pub fn secret(&self) -> (r: &String)
        ensures
            r@ == self@,
    {
        &self.0
    }
}

impl Clone for AccessToken {
    fn clone(&self) -> (r: Self)
        ensures
            r@ == self@,
    {
        AccessToken(self.0.clone())
    }
}

/// Authorization code returned from the authorization endpoint. The value is
/// reached only through [`AuthorizationCode::secret`].
#[derive(PartialEq, Eq)]
pub struct AuthorizationCode(String);

impl View for AuthorizationCode {
    type V = Seq<char>;

    closed spec fn view(&self) -> Seq<char> {
        self.0@
    }
}

impl AuthorizationCode {
    /// Wraps `s`.
    pub fn new(s: String) -> (r: Self)
        ensures
            r@ == s@,
    {
        AuthorizationCode(s)
    }

    /// The wrapped secret.
    pub fn secret(&self) -> (r: &String)
        ensures
            r@ == self@,
    {
        &self.0
    }
}

impl Clone for AuthorizationCode {
    fn clone(&self) -> (r: Self)
        ensures
            r@ == self@,
    {
        AuthorizationCode(self.0.clone())
    }
}

/// Hint to the provider about the identifier the end user may use to log in.
/// The value is reached only through [`LoginHint::secret`].
#[derive(PartialEq, Eq)]
pub struct LoginHint(String);

impl View for LoginHint {
    type V = Seq<char>;

    closed spec fn view(&self) -> Seq<char> {
        self.0@
    }
}

impl LoginHint {
    /// Wraps `s`.
    pub fn new(s: String) -> (r: Self)
        ensures
            r@ == s@,
    {
        LoginHint(s)
    }

    /// The wrapped secret.
    pub fn secret(&self) -> (r: &String)
        ensures
            r@ == self@,
    {
        &self.0
    }
}

impl Clone for LoginHint {
    fn clone(&self) -> (r: Self)
        ensures
            r@ == self@,
    {
        LoginHint(self.0.clone())
    }
}

/// Refresh token, with which a new access token can be had. The value is
/// reached only through [`RefreshToken::secret`].
#[derive(PartialEq, Eq)]
pub struct RefreshToken(String);

impl View for RefreshToken {
    type V = Seq<char>;

    closed spec fn view(&self) -> Seq<char> {
        self.0@
    }
}

impl RefreshToken {
    /// Wraps `s`.
    pub fn new(s: String) -> (r: Self)
        ensures
            r@ == s@,
    {
        RefreshToken(s)
    }

    /// The wrapped secret.
    pub fn secret(&self) -> (r: &String)
        ensures
            r@ == self@,
    {
        &self.0
    }
}

impl Clone for RefreshToken {
    fn clone(&self) -> (r: Self)
        ensures
            r@ == self@,
    {
        RefreshToken(self.0.clone())
    }
}

/// PKCE code verifier, which proves at the token endpoint that the client
/// asking for tokens is the one that started the authorization request. The
/// value is reached only through [`PkceCodeVerifier::secret`].
#[derive(PartialEq, Eq)]
pub struct PkceCodeVerifier(String);

impl View for PkceCodeVerifier {
    type V = Seq<char>;

    closed spec fn view(&self) -> Seq<char> {
        self.0@
    }
}

impl PkceCodeVerifier {
    /// Wraps `s`.
    pub fn new(s: String) -> (r: Self)
        ensures
            r@ == s@,
    {
        PkceCodeVerifier(s)
    }

    /// The wrapped secret.
    pub fn secret(&self) -> (r: &String)
        ensures
            r@ == self@,
    {
        &self.0
    }
}

impl Clone for PkceCodeVerifier {
    fn clone(&self) -> (r: Self)
        ensures
            r@ == self@,
    {
        PkceCodeVerifier(self.0.clone())
    }
}

/// URL of the provider's authorization endpoint. Holds the text exactly as
/// given; the text is an absolute URL.
#[derive(Debug, PartialEq, Eq)]
pub struct AuthUrl {
    text: String,
}

impl View for AuthUrl {
    type V = Seq<char>;

    closed spec fn view(&self) -> Seq<char> {
        self.text@
    }
}

impl AuthUrl {
    #[verifier::type_invariant]
    spec fn well_formed(&self) -> bool {
        url_parses(self.text@)
    }

    /// Wraps `url` if it is an absolute URL.
    pub fn new(url: String) -> (r: Result<Self, UrlParseError>)
        ensures
            r is Ok <==> url_parses(url@),
            r is Ok ==> r->Ok_0@ == url@,
    {
        if parses_as_url(url.as_str()) {
            Ok(AuthUrl { text: url })
        } else {
            Err(UrlParseError)
        }
    }

    /// The URL as it was given.
    pub fn as_str(&self) -> (r: &str)
        ensures
            r@ == self@,
            url_parses(r@),
    {
        proof {
            use_type_invariant(self);
        }
        self.text.as_str()
    }
}

impl Clone for AuthUrl {
    fn clone(&self) -> (r: Self)
        ensures
            r@ == self@,
    {
        proof {
            use_type_invariant(self);
        }
        AuthUrl { text: self.text.clone() }
    }
}

/// URL of the provider's token endpoint. Holds the text exactly as given; the
/// text is an absolute URL.
#[derive(Debug, PartialEq, Eq)]
pub struct TokenUrl {
    text: String,
}

impl View for TokenUrl {
    type V = Seq<char>;

    closed spec fn view(&self) -> Seq<char> {
        self.text@
    }
}

impl TokenUrl {
    #[verifier::type_invariant]
    spec fn well_formed(&self) -> bool {
        url_parses(self.text@)
    }

    /// Wraps `url` if it is an absolute URL.
    pub fn new(url: String) -> (r: Result<Self, UrlParseError>)
        ensures
            r is Ok <==> url_parses(url@),
            r is Ok ==> r->Ok_0@ == url@,
    {
        if parses_as_url(url.as_str()) {
            Ok(TokenUrl { text: url })
        } else {
            Err(UrlParseError)
        }
    }

    /// The URL as it was given.
    pub fn as_str(&self) -> (r: &str)
        ensures
            r@ == self@,
            url_parses(r@),
    {
        proof {
            use_type_invariant(self);
        }
        self.text.as_str()
    }
}

impl Clone for TokenUrl {
    fn clone(&self) -> (r: Self)
        ensures
            r@ == self@,
    {
        proof {
            use_type_invariant(self);
        }
        TokenUrl { text: self.text.clone() }
    }
}

/// URL of the client's redirection endpoint. Holds the text exactly as given;
/// the text is an absolute URL.
#[derive(Debug, PartialEq, Eq)]
pub struct RedirectUrl {
    text: String,
}

impl View for RedirectUrl {
    type V = Seq<char>;

    closed spec fn view(&self) -> Seq<char> {
        self.text@
    }
}

impl RedirectUrl {
    #[verifier::type_invariant]
    spec fn well_formed(&self) -> bool {
        url_parses(self.text@)
    }

    /// Wraps `url` if it is an absolute URL.
    pub fn new(url: String) -> (r: Result<Self, UrlParseError>)
        ensures
            r is Ok <==> url_parses(url@),
            r is Ok ==> r->Ok_0@ == url@,
    {
        if parses_as_url(url.as_str()) {
            Ok(RedirectUrl { text: url })
        } else {
            Err(UrlParseError)
        }
    }

    /// The URL as it was given.
    pub fn as_str(&self) -> (r: &str)
        ensures
            r@ == self@,
            url_parses(r@),
    {
        proof {
            use_type_invariant(self);
        }
        self.text.as_str()
    }
}

impl Clone for RedirectUrl {
    fn clone(&self) -> (r: Self)
        ensures
            r@ == self@,
    {
        proof {
            use_type_invariant(self);
        }
        RedirectUrl { text: self.text.clone() }
    }
}

/// URL that the provider asserts as its issuer identifier. Holds the text
/// exactly as given; the text is an absolute URL.
#[derive(Debug, PartialEq, Eq)]
pub struct IssuerUrl {
    text: String,
}

impl View for IssuerUrl {
    type V = Seq<char>;

    closed spec fn view(&self) -> Seq<char> {
        self.text@
    }
}

impl IssuerUrl {
    #[verifier::type_invariant]
    spec fn well_formed(&self) -> bool {
        url_parses(self.text@)
    }

    /// Wraps `url` if it is an absolute URL.
    pub fn new(url: String) -> (r: Result<Self, UrlParseError>)
        ensures
            r is Ok <==> url_parses(url@),
            r is Ok ==> r->Ok_0@ == url@,
    {
        if parses_as_url(url.as_str()) {
            Ok(IssuerUrl { text: url })
        } else {
            Err(UrlParseError)
        }
    }

    /// The URL as it was given.
    pub fn as_str(&self) -> (r: &str)
        ensures
            r@ == self@,
            url_parses(r@),
    {
        proof {
            use_type_invariant(self);
        }
        self.text.as_str()
    }
}

impl Clone for IssuerUrl {
    fn clone(&self) -> (r: Self)
        ensures
            r@ == self@,
    {
        proof {
            use_type_invariant(self);
        }
        IssuerUrl { text: self.text.clone() }
    }
}

/// URL of the provider's UserInfo endpoint. Holds the text exactly as given;
/// the text is an absolute URL.
#[derive(Debug, PartialEq, Eq)]
pub struct UserInfoUrl {
    text: String,
}

impl View for UserInfoUrl {
    type V = Seq<char>;

    closed spec fn view(&self) -> Seq<char> {
        self.text@
    }
}

impl UserInfoUrl {
    #[verifier::type_invariant]
    spec fn well_formed(&self) -> bool {
        url_parses(self.text@)
    }

    /// Wraps `url` if it is an absolute URL.
    pub fn new(url: String) -> (r: Result<Self, UrlParseError>)
        ensures
            r is Ok <==> url_parses(url@),
            r is Ok ==> r->Ok_0@ == url@,
    {
        if parses_as_url(url.as_str()) {
            Ok(UserInfoUrl { text: url })
        } else {
            Err(UrlParseError)
        }
    }

    /// The URL as it was given.
    pub fn as_str(&self) -> (r: &str)
        ensures
            r@ == self@,
            url_parses(r@),
    {
        proof {
            use_type_invariant(self);
        }
        self.text.as_str()
    }
}

impl Clone for UserInfoUrl {
    fn clone(&self) -> (r: Self)
        ensures
            r@ == self@,
    {
        proof {
            use_type_invariant(self);
        }
        UserInfoUrl { text: self.text.clone() }
    }
}

/// URL of the provider's JSON Web Key Set document. Holds the text exactly as
/// given; the text is an absolute URL.
#[derive(Debug, PartialEq, Eq)]
pub struct JsonWebKeySetUrl {
    text: String,
}

impl View for JsonWebKeySetUrl {
    type V = Seq<char>;

    closed spec fn view(&self) -> Seq<char> {
        self.text@
    }
}

impl JsonWebKeySetUrl {
    #[verifier::type_invariant]
    spec fn well_formed(&self) -> bool {
        url_parses(self.text@)
    }

    /// Wraps `url` if it is an absolute URL.
    pub fn new(url: String) -> (r: Result<Self, UrlParseError>)
        ensures
            r is Ok <==> url_parses(url@),
            r is Ok ==> r->Ok_0@ == url@,
    {
        if parses_as_url(url.as_str()) {
            Ok(JsonWebKeySetUrl { text: url })
        } else {
            Err(UrlParseError)
        }
    }

    /// The URL as it was given.
    pub fn as_str(&self) -> (r: &str)
        ensures
            r@ == self@,
            url_parses(r@),
    {
        proof {
            use_type_invariant(self);
        }
        self.text.as_str()
    }
}

impl Clone for JsonWebKeySetUrl {
    fn clone(&self) -> (r: Self)
        ensures
            r@ == self@,
    {
        proof {
            use_type_invariant(self);
        }
        JsonWebKeySetUrl { text: self.text.clone() }
    }
}

/// PKCE code challenge together with the name of the method that derived it.
#[derive(Debug, PartialEq, Eq)]
pub struct PkceCodeChallenge {
    code_challenge: String,
    code_challenge_method: String,
}

impl PkceCodeChallenge {
    /// The challenge text.
    pub closed spec fn challenge(&self) -> Seq<char> {
        self.code_challenge@
    }

    /// The name of the challenge method, such as `S256`.
    pub closed spec fn method_name(&self) -> Seq<char> {
        self.code_challenge_method@
    }

    /// A challenge with the given text and method name.
    pub fn new(code_challenge: String, code_challenge_method: String) -> (r: Self)
        ensures
            r.challenge() == code_challenge@,
            r.method_name() == code_challenge_method@,
    {
        PkceCodeChallenge { code_challenge, code_challenge_method }
    }

    /// The challenge text.
    pub fn as_str(&self) -> (r: &str)
        ensures
            r@ == self.challenge(),
    {
        self.code_challenge.as_str()
    }

    /// The name of the challenge method.
    pub fn method(&self) -> (r: &str)
        ensures
            r@ == self.method_name(),
    {
        self.code_challenge_method.as_str()
    }
}

impl Clone for PkceCodeChallenge {
    fn clone(&self) -> (r: Self)
        ensures
            r.challenge() == self.challenge(),
            r.method_name() == self.method_name(),
    {
        PkceCodeChallenge {
            code_challenge: self.code_challenge.clone(),
            code_challenge_method: self.code_challenge_method.clone(),
        }
    }
}

} // verus!
