//! OpenID Connect relying-party core: typed protocol values, authorization
//! request construction, and verification of ID tokens and UserInfo
//! responses against a provider's key set.

use vstd::prelude::*;

pub mod claims;
pub mod core_types;
pub mod crypto;
pub mod discovery;
pub mod encoding;
pub mod endpoint;
pub mod id_token;
pub mod json;
pub mod jwk;
pub mod jwt;
pub mod signing;
pub mod text;
pub mod token;
pub mod types;
pub mod user_info;
pub mod verification;

pub use crate::claims::{AddressClaim, ClaimName, LocalizedClaim, StandardClaims};
pub use crate::core_types::{
    AuthDisplay, AuthPrompt, CoreAuthDisplay, CoreAuthPrompt, CoreJsonWebKeyType,
    CoreJsonWebKeyUse, CoreJwsSigningAlgorithm, CoreResponseType, ResponseType,
};
pub use crate::discovery::{DiscoveryError, ProviderMetadata, ValidationFailure};
pub use crate::id_token::{IdToken, IdTokenClaims, IdTokenVerifier};
pub use crate::jwk::{CoreJsonWebKey, JsonWebKeyError, JsonWebKeySet};
pub use crate::jwt::{JsonWebToken, JsonWebTokenAlgorithm, JsonWebTokenError, JsonWebTokenHeader};
pub use crate::signing::SignatureVerificationError;
pub use crate::token::{
    CoreRefreshTokenResponse, CoreTokenResponse, IdTokenFields, OAuth2TokenResponse,
    RefreshIdTokenFields, RefreshTokenResponse, StandardTokenResponse, TokenResponse,
    TokenResponseError,
};
pub use crate::types::{
    AccessToken, AccessTokenHash, Audience, AuthUrl, AuthenticationContextClass,
    AuthenticationMethodReference, AuthorizationCode, AuthorizationCodeHash, ClientId,
    ClientSecret, CsrfToken, IssuerUrl, JsonWebKeyId, JsonWebKeySetUrl, LanguageTag, LoginHint,
    Nonce, PkceCodeChallenge, PkceCodeVerifier, RedirectUrl, RefreshToken, Scope,
    SubjectIdentifier, TokenUrl, UrlParseError, UserInfoUrl,
};
pub use crate::user_info::{
    NoUserInfoEndpoint, UserInfoClaims, UserInfoError, UserInfoRequest, UserInfoVerifier,
};
pub use crate::verification::{
    ClaimsVerificationError, NoNonce, NonceVerifier, OtherReason, SignatureVerifier,
};

use std::marker::PhantomData;
use std::time::Duration;

use crate::discovery::{implemented_algorithms, implemented_from};
use crate::endpoint::{
    authorization_url_text, leading_pairs, pairs_utf8_len, pairs_view, url_with_query, utf8_len,
    MAX_URL_TEXT_BYTES,
};
use crate::id_token::{default_verifier, IdTokenVerifierView};
use crate::jwk::JsonWebKeyView;
use crate::text::{decimal, decimal_text, owned, space_joined, texts, AsText};
use crate::user_info::{UserInfoRequestView, UserInfoVerifierView};
use crate::verification::SignatureVerifierView;

verus! {

/// The whole seconds that a `Duration` spans.
pub uninterp spec fn duration_seconds(d: Duration) -> u64;

/// `Duration::as_secs` returns the number of whole seconds that the
/// duration spans, a function of the duration alone.
pub assume_specification[ Duration::as_secs ](d: &Duration) -> (secs: u64)
    ensures
        secs == duration_seconds(*d),
;

/// Authentication flow, which decides how the provider hands the ID token
/// and the access token to the client.
#[derive(Debug, PartialEq)]
pub enum AuthenticationFlow<RT: ResponseType> {
    /// Authorization code flow: the provider returns a code, which the client
    /// exchanges for the tokens.
    AuthorizationCode,
    /// Implicit flow: the provider returns the ID token directly, and the
    /// access token with it where the flag is set.
    Implicit(bool),
    /// Hybrid flow with the response types given, in this order.
    Hybrid(Vec<RT>),
}

impl<RT: ResponseType + Clone> Clone for AuthenticationFlow<RT> {
    /// A flow of the same kind, with a clone of each response type.
    fn clone(&self) -> (r: Self)
        ensures
            *self is AuthorizationCode ==> r is AuthorizationCode,
            *self is Implicit ==> r == *self,
            *self is Hybrid ==> r is Hybrid && r->Hybrid_0@.len() == self->Hybrid_0@.len()
                && forall|i: int|
                #![all_triggers]
                0 <= i < self->Hybrid_0@.len() ==> cloned::<RT>(
                    self->Hybrid_0@[i],
                    r->Hybrid_0@[i],
                ),
    {
        match self {
            AuthenticationFlow::AuthorizationCode => AuthenticationFlow::AuthorizationCode,
            AuthenticationFlow::Implicit(include_token) => AuthenticationFlow::Implicit(
                *include_token,
            ),
            AuthenticationFlow::Hybrid(response_types) => AuthenticationFlow::Hybrid(
                response_types.clone(),
            ),
        }
    }
}

/// The `response_type` parameter that a flow asks for.
pub open spec fn response_type_text<RT: ResponseType>(flow: AuthenticationFlow<RT>) -> Seq<char> {
    match flow {
        AuthenticationFlow::AuthorizationCode => "code"@,
        AuthenticationFlow::Implicit(include_token) => if include_token {
            "id_token token"@
        } else {
            "id_token"@
        },
        AuthenticationFlow::Hybrid(response_types) => space_joined(texts(response_types@)),
    }
}

/// Computes the `response_type` parameter of a flow.
pub fn response_type_of<RT: ResponseType>(flow: &AuthenticationFlow<RT>) -> (r: String)
    ensures
        r@ == response_type_text(*flow),
{
    match flow {
        AuthenticationFlow::AuthorizationCode => owned("code"),
        AuthenticationFlow::Implicit(include_token) => {
            if *include_token {
                owned("id_token token")
            } else {
                owned("id_token")
            }
        },
        AuthenticationFlow::Hybrid(response_types) => join_vec(response_types.as_slice()),
    }
}

/// What an authorization request holds, as plain text values.
pub struct AuthorizationRequestView {
    /// The authorization endpoint.
    pub auth_url: Seq<char>,
    /// The client identifier.
    pub client_id: Seq<char>,
    /// The `state` value.
    pub state: Seq<char>,
    /// The redirection endpoint, if one is set.
    pub redirect_uri: Option<Seq<char>>,
    /// The scopes added by the caller, in order; `openid` is not among them.
    pub scopes: Seq<Seq<char>>,
    /// The `response_type` value of the chosen flow.
    pub response_type: Seq<char>,
    /// The nonce.
    pub nonce: Seq<char>,
    /// The requested authentication context classes, in order of preference.
    pub acr_values: Seq<Seq<char>>,
    /// The preferred languages for claims, in order of preference.
    pub claims_locales: Seq<Seq<char>>,
    /// The display hint, if one is set.
    pub display: Option<Seq<char>>,
    /// The compact form of an earlier ID token, if one is given as a hint.
    pub id_token_hint: Option<Seq<char>>,
    /// The login hint, if one is set.
    pub login_hint: Option<Seq<char>>,
    /// The maximum authentication age in seconds, if one is set.
    pub max_age: Option<u64>,
    /// The prompts, in order.
    pub prompts: Seq<Seq<char>>,
    /// The preferred languages for the user interface, in order of preference.
    pub ui_locales: Seq<Seq<char>>,
    /// The PKCE challenge and the name of its method, if one is set.
    pub pkce_challenge: Option<(Seq<char>, Seq<char>)>,
    /// The parameters added by the caller, in insertion order.
    pub extra_params: Seq<(Seq<char>, Seq<char>)>,
}

/// `pairs`, followed by the parameter `name` where it has a value.
pub open spec fn with_value(
    pairs: Seq<(Seq<char>, Seq<char>)>,
    name: Seq<char>,
    value: Option<Seq<char>>,
) -> Seq<(Seq<char>, Seq<char>)> {
    match value {
        Some(v) => pairs.push((name, v)),
        None => pairs,
    }
}

/// `pairs`, followed by the parameter `name` with `values` joined by single
/// spaces where there is at least one value.
pub open spec fn with_values(
    pairs: Seq<(Seq<char>, Seq<char>)>,
    name: Seq<char>,
    values: Seq<Seq<char>>,
) -> Seq<(Seq<char>, Seq<char>)> {
    if values.len() > 0 {
        pairs.push((name, space_joined(values)))
    } else {
        pairs
    }
}

/// `pairs`, followed by the two PKCE parameters where a challenge is set.
pub open spec fn with_challenge(
    pairs: Seq<(Seq<char>, Seq<char>)>,
    challenge: Option<(Seq<char>, Seq<char>)>,
) -> Seq<(Seq<char>, Seq<char>)> {
    match challenge {
        Some(c) => pairs.push(("code_challenge"@, c.0)).push(("code_challenge_method"@, c.1)),
        None => pairs,
    }
}

impl AuthorizationRequestView {
    /// The value of the `scope` parameter: `openid`, then the caller's
    /// scopes, separated by single spaces.
    pub open spec fn scope_text(self) -> Seq<char> {
        space_joined(seq!["openid"@] + self.scopes)
    }

    /// The `max_age` value as a decimal numeral, where one is set.
    pub open spec fn max_age_text(self) -> Option<Seq<char>> {
        match self.max_age {
            Some(secs) => Some(decimal(secs as nat)),
            None => None,
        }
    }

    /// The parameters that follow `response_type`, `client_id` and `state`
    /// in the query, in the order in which they are written.
    pub open spec fn trailing_pairs(self) -> Seq<(Seq<char>, Seq<char>)> {
        let p = with_value(Seq::empty(), "redirect_uri"@, self.redirect_uri);
        let p = p.push(("scope"@, self.scope_text()));
        let p = p.push(("nonce"@, self.nonce));
        let p = with_values(p, "acr_values"@, self.acr_values);
        let p = with_values(p, "claims_locales"@, self.claims_locales);
        let p = with_value(p, "display"@, self.display);
        let p = with_value(p, "id_token_hint"@, self.id_token_hint);
        let p = with_value(p, "login_hint"@, self.login_hint);
        let p = with_value(p, "max_age"@, self.max_age_text());
        let p = with_values(p, "prompt"@, self.prompts);
        let p = with_values(p, "ui_locales"@, self.ui_locales);
        let p = with_challenge(p, self.pkce_challenge);
        p + self.extra_params
    }

    /// All query parameters of the request, in the order in which they are
    /// written.
    pub open spec fn query_pairs(self) -> Seq<(Seq<char>, Seq<char>)> {
        leading_pairs(self.response_type, self.client_id, self.state) + self.trailing_pairs()
    }

    /// Whether the texts of the request are small enough for one URL.
    pub open spec fn fits(self) -> bool {
        utf8_len(self.auth_url) + utf8_len(self.response_type) + utf8_len(self.client_id)
            + utf8_len(self.state) + pairs_utf8_len(self.trailing_pairs()) <= MAX_URL_TEXT_BYTES
    }

    /// The text of the authorization URL of the request.
    pub open spec fn url_text(self) -> Seq<char> {
        url_with_query(self.auth_url, self.query_pairs())
    }
}

/// The text of an optional value.
pub open spec fn optional_text<T: AsText>(value: Option<T>) -> Option<Seq<char>> {
    match value {
        Some(v) => Some(v.text()),
        None => None,
    }
}

/// A request to the authorization endpoint.
pub struct AuthorizationRequest<AD: AuthDisplay, P: AuthPrompt, RT: ResponseType> {
    auth_url: AuthUrl,
    client_id: ClientId,
    state: CsrfToken,
    redirect_uri: Option<RedirectUrl>,
    scopes: Vec<Scope>,
    extra_params: Vec<(String, String)>,
    pkce_challenge: Option<PkceCodeChallenge>,
    acr_values: Vec<AuthenticationContextClass>,
    authentication_flow: AuthenticationFlow<RT>,
    claims_locales: Vec<LanguageTag>,
    display: Option<AD>,
    id_token_hint: Option<String>,
    login_hint: Option<LoginHint>,
    max_age: Option<Duration>,
    nonce: Nonce,
    prompts: Vec<P>,
    ui_locales: Vec<LanguageTag>,
}

impl<AD: AuthDisplay, P: AuthPrompt, RT: ResponseType> View for AuthorizationRequest<AD, P, RT> {
    type V = AuthorizationRequestView;

    closed spec fn view(&self) -> AuthorizationRequestView {
        AuthorizationRequestView {
            auth_url: self.auth_url@,
            client_id: self.client_id@,
            state: self.state@,
            redirect_uri: match self.redirect_uri {
                Some(u) => Some(u@),
                None => None,
            },
            scopes: texts(self.scopes@),
            response_type: response_type_text(self.authentication_flow),
            nonce: self.nonce@,
            acr_values: texts(self.acr_values@),
            claims_locales: texts(self.claims_locales@),
            display: optional_text(self.display),
            id_token_hint: match self.id_token_hint {
                Some(h) => Some(h@),
                None => None,
            },
            login_hint: match self.login_hint {
                Some(h) => Some(h@),
                None => None,
            },
            max_age: match self.max_age {
                Some(d) => Some(duration_seconds(d)),
                None => None,
            },
            prompts: texts(self.prompts@),
            ui_locales: texts(self.ui_locales@),
            pkce_challenge: match self.pkce_challenge {
                Some(c) => Some((c.challenge(), c.method_name())),
                None => None,
            },
            extra_params: pairs_view(self.extra_params@),
        }
    }
}

/// Adding a value at the end of a list adds its text at the end of the texts.
pub proof fn lemma_texts_push<T: AsText>(entries: Seq<T>, entry: T)
    ensures
        texts(entries.push(entry)) == texts(entries).push(entry.text()),
{
    assert(texts(entries.push(entry)) =~= texts(entries).push(entry.text()));
}

/// Joins the texts of `entries` with single ASCII spaces.
pub fn join_vec<T: AsText>(entries: &[T]) -> (r: String)
    ensures
        r@ == space_joined(texts(entries@)),
{
    let mut out = String::new();
    let n = entries.len();
    let mut i: usize = 0;
    while i < n
        invariant
            n == entries@.len(),
            i <= n,
            out@ == space_joined(texts(entries@).take(i as int)),
        decreases n - i,
    {
        proof {
            reveal_strlit(" ");
            let all = texts(entries@);
            let next = all.take(i as int + 1);
            assert(next.drop_last() =~= all.take(i as int));
            assert(next.last() == entries@[i as int].text());
            assert(" "@ =~= seq![' ']);
            if i == 0 {
                assert(out@ =~= Seq::<char>::empty());
                assert(Seq::<char>::empty() + entries@[i as int].text() =~= next[0]);
            }
        }
        if i > 0 {
            out.append(" ");
        }
        out.append(entries[i].as_text());
        i = i + 1;
    }
    proof {
        assert(texts(entries@).take(n as int) =~= texts(entries@));
    }
    out
}

/// Adds one parameter at the end of `pairs`.
fn push_pair(pairs: &mut Vec<(String, String)>, name: &str, value: String)
    ensures
        pairs_view(final(pairs)@) == pairs_view(old(pairs)@).push((name@, value@)),
{
    let ghost before = pairs@;
    let entry = (owned(name), value);
    pairs.push(entry);
    assert(pairs_view(pairs@) =~= pairs_view(before).push((name@, value@)));
}

/// Adds the parameter `name` at the end of `pairs` where `values` is not
/// empty, with the values joined by single spaces.
fn push_joined<T: AsText>(pairs: &mut Vec<(String, String)>, name: &str, values: &Vec<T>)
    ensures
        pairs_view(final(pairs)@) == with_values(pairs_view(old(pairs)@), name@, texts(values@)),
{
    if values.len() > 0 {
        push_pair(pairs, name, join_vec(values.as_slice()));
    }
}

/// The UTF-8 sizes of a list of pairs add up over its prefixes.
pub proof fn lemma_pairs_utf8_len_prefix(pairs: Seq<(Seq<char>, Seq<char>)>, n: int)
    requires
        0 <= n <= pairs.len(),
    ensures
        pairs_utf8_len(pairs.take(n)) <= pairs_utf8_len(pairs),
    decreases pairs.len(),
{
    if n < pairs.len() {
        assert(pairs.drop_last().take(n) =~= pairs.take(n));
        lemma_pairs_utf8_len_prefix(pairs.drop_last(), n);
    } else {
        assert(pairs.take(n) =~= pairs);
    }
}

/// Adds up the UTF-8 sizes of the names and values of `pairs`, as far as the
/// sum stays within the limit for one URL.
fn pairs_size(pairs: &Vec<(String, String)>) -> (r: Option<u64>)
    ensures
        match r {
            Some(n) => n == pairs_utf8_len(pairs_view(pairs@)) && n <= MAX_URL_TEXT_BYTES,
            None => pairs_utf8_len(pairs_view(pairs@)) > MAX_URL_TEXT_BYTES,
        },
{
    let mut total: u64 = 0;
    let mut i: usize = 0;
    while i < pairs.len()
        invariant
            i <= pairs@.len(),
            total == pairs_utf8_len(pairs_view(pairs@).take(i as int)),
            total <= MAX_URL_TEXT_BYTES,
        decreases pairs@.len() - i,
    {
        let name_len = pairs[i].0.as_str().as_bytes().len();
        let value_len = pairs[i].1.as_str().as_bytes().len();
        proof {
            let all = pairs_view(pairs@);
            let next = all.take(i as int + 1);
            assert(next.drop_last() =~= all.take(i as int));
            assert(next.last() == all[i as int]);
            lemma_pairs_utf8_len_prefix(all, i as int + 1);
        }
        if name_len > MAX_URL_TEXT_BYTES as usize || value_len > MAX_URL_TEXT_BYTES as usize {
            return None;
        }
        let sum: u64 = total + name_len as u64 + value_len as u64 + 2;
        if sum > MAX_URL_TEXT_BYTES {
            return None;
        }
        total = sum;
        i = i + 1;
    }
    proof {
        assert(pairs_view(pairs@).take(pairs@.len() as int) =~= pairs_view(pairs@));
    }
    Some(total)
}

impl<AD: AuthDisplay, P: AuthPrompt, RT: ResponseType> AuthorizationRequest<AD, P, RT> {
    /// A request to `auth_url` on behalf of `client_id` with the given flow,
    /// `state` and nonce, with `redirect_uri` where one is given, and with
    /// nothing else set.
    pub fn new(
        auth_url: AuthUrl,
        client_id: ClientId,
        redirect_uri: Option<RedirectUrl>,
        authentication_flow: AuthenticationFlow<RT>,
        state: CsrfToken,
        nonce: Nonce,
    ) -> (r: Self)
        ensures
            r@ == (AuthorizationRequestView {
                auth_url: auth_url@,
                client_id: client_id@,
                state: state@,
                redirect_uri: match redirect_uri {
                    Some(u) => Some(u@),
                    None => None,
                },
                scopes: Seq::empty(),
                response_type: response_type_text(authentication_flow),
                nonce: nonce@,
                acr_values: Seq::empty(),
                claims_locales: Seq::empty(),
                display: None,
                id_token_hint: None,
                login_hint: None,
                max_age: None,
                prompts: Seq::empty(),
                ui_locales: Seq::empty(),
                pkce_challenge: None,
                extra_params: Seq::empty(),
            }),
    {
        let r = AuthorizationRequest {
            auth_url,
            client_id,
            state,
            redirect_uri,
            scopes: Vec::new(),
            extra_params: Vec::new(),
            pkce_challenge: None,
            acr_values: Vec::new(),
            authentication_flow,
            claims_locales: Vec::new(),
            display: None,
            id_token_hint: None,
            login_hint: None,
            max_age: None,
            nonce,
            prompts: Vec::new(),
            ui_locales: Vec::new(),
        };
        assert(r@.scopes =~= Seq::empty());
        assert(r@.acr_values =~= Seq::empty());
        assert(r@.claims_locales =~= Seq::empty());
        assert(r@.prompts =~= Seq::empty());
        assert(r@.ui_locales =~= Seq::empty());
        assert(r@.extra_params =~= Seq::empty());
        r
    }

    /// Appends a new scope to the authorization URL.
    pub fn add_scope(self, scope: Scope) -> (r: Self)
        ensures
            r@ == (AuthorizationRequestView { scopes: self@.scopes.push(scope@), ..self@ }),
    {
        let mut r = self;
        proof {
            lemma_texts_push(r.scopes@, scope);
        }
        r.scopes.push(scope);
        r
    }

    /// Appends an extra parameter to the authorization URL. Extra parameters
    /// are written after all others, in the order in which they were added.
    /// A name that the request manages itself is written once more; nothing
    /// is overwritten.
    pub fn add_extra_param(self, name: &str, value: &str) -> (r: Self)
        ensures
            r@ == (AuthorizationRequestView {
                extra_params: self@.extra_params.push((name@, value@)),
                ..self@
            }),
    {
        let mut r = self;
        push_pair(&mut r.extra_params, name, owned(value));
        r
    }

    /// Enables the use of Proof Key for Code Exchange (PKCE).
    pub fn set_pkce_challenge(self, pkce_code_challenge: PkceCodeChallenge) -> (r: Self)
        ensures
            r@ == (AuthorizationRequestView {
                pkce_challenge: Some(
                    (pkce_code_challenge.challenge(), pkce_code_challenge.method_name()),
                ),
                ..self@
            }),
    {
        let mut r = self;
        r.pkce_challenge = Some(pkce_code_challenge);
        r
    }

    /// Requests an authentication context class. Values should be added in
    /// order of preference.
    pub fn add_auth_context_value(self, acr_value: AuthenticationContextClass) -> (r: Self)
        ensures
            r@ == (AuthorizationRequestView {
                acr_values: self@.acr_values.push(acr_value@),
                ..self@
            }),
    {
        let mut r = self;
        proof {
            lemma_texts_push(r.acr_values@, acr_value);
        }
        r.acr_values.push(acr_value);
        r
    }

    /// Requests a preferred language for the claims that the provider
    /// returns. Languages should be added in order of preference.
    pub fn add_claims_locale(self, claims_locale: LanguageTag) -> (r: Self)
        ensures
            r@ == (AuthorizationRequestView {
                claims_locales: self@.claims_locales.push(claims_locale@),
                ..self@
            }),
    {
        let mut r = self;
        proof {
            lemma_texts_push(r.claims_locales@, claims_locale);
        }
        r.claims_locales.push(claims_locale);
        r
    }

    /// Says how the provider should show its authentication and consent
    /// pages.
    pub fn set_display(self, display: AD) -> (r: Self)
        ensures
            r@ == (AuthorizationRequestView { display: Some(display.text()), ..self@ }),
    {
        let mut r = self;
        r.display = Some(display);
        r
    }

    /// Hands the provider an ID token that it issued earlier, as a hint
    /// about the end user. The token is written in its compact form.
    pub fn set_id_token_hint(self, id_token_hint: &IdToken) -> (r: Self)
        ensures
            r@ == (AuthorizationRequestView { id_token_hint: Some(id_token_hint@.text), ..self@ }),
    {
        let mut r = self;
        r.id_token_hint = Some(id_token_hint.to_string());
        r
    }

    /// Hints at the identifier that the end user may use to log in.
    pub fn set_login_hint(self, login_hint: LoginHint) -> (r: Self)
        ensures
            r@ == (AuthorizationRequestView { login_hint: Some(login_hint@), ..self@ }),
    {
        let mut r = self;
        r.login_hint = Some(login_hint);
        r
    }

    /// Sets the longest time that may have passed since the end user last
    /// authenticated. The value is written in whole seconds.
    pub fn set_max_age(self, max_age: Duration) -> (r: Self)
        ensures
            r@ == (AuthorizationRequestView {
                max_age: Some(duration_seconds(max_age)),
                ..self@
            }),
    {
        let mut r = self;
        r.max_age = Some(max_age);
        r
    }

    /// Adds a prompt that the provider should show.
    pub fn add_prompt(self, prompt: P) -> (r: Self)
        ensures
            r@ == (AuthorizationRequestView { prompts: self@.prompts.push(prompt.text()), ..self@ }),
    {
        let mut r = self;
        proof {
            lemma_texts_push(r.prompts@, prompt);
        }
        r.prompts.push(prompt);
        r
    }

    /// Requests a preferred language for the provider's user interface.
    /// Languages should be added in order of preference.
    pub fn add_ui_locale(self, ui_locale: LanguageTag) -> (r: Self)
        ensures
            r@ == (AuthorizationRequestView {
                ui_locales: self@.ui_locales.push(ui_locale@),
                ..self@
            }),
    {
        let mut r = self;
        proof {
            lemma_texts_push(r.ui_locales@, ui_locale);
        }
        r.ui_locales.push(ui_locale);
        r
    }

    /// The value of the `scope` parameter.
    fn scope_value(&self) -> (r: String)
        ensures
            r@ == self@.scope_text(),
    {
        let mut out = owned("openid");
        let n = self.scopes.len();
        let mut i: usize = 0;
        while i < n
            invariant
                n == self.scopes@.len(),
                i <= n,
                out@ == space_joined(seq!["openid"@] + texts(self.scopes@).take(i as int)),
            decreases n - i,
        {
            proof {
                reveal_strlit(" ");
                assert(" "@ =~= seq![' ']);
                let prev = seq!["openid"@] + texts(self.scopes@).take(i as int);
                let next = seq!["openid"@] + texts(self.scopes@).take(i as int + 1);
                assert(next.drop_last() =~= prev);
                assert(next.last() == self.scopes@[i as int].text());
            }
            out.append(" ");
            out.append(self.scopes[i].as_str());
            i = i + 1;
        }
        proof {
            assert(texts(self.scopes@).take(n as int) =~= texts(self.scopes@));
        }
        out
    }

    /// The parameters that follow `response_type`, `client_id` and `state`.
    fn trailing(&self) -> (r: Vec<(String, String)>)
        ensures
            pairs_view(r@) == self@.trailing_pairs(),
    {
        let mut p: Vec<(String, String)> = Vec::new();
        assert(pairs_view(p@) =~= Seq::empty());
        match &self.redirect_uri {
            Some(u) => push_pair(&mut p, "redirect_uri", owned(u.as_str())),
            None => {},
        }
        push_pair(&mut p, "scope", self.scope_value());
        push_pair(&mut p, "nonce", self.nonce.secret().clone());
        push_joined(&mut p, "acr_values", &self.acr_values);
        push_joined(&mut p, "claims_locales", &self.claims_locales);
        match &self.display {
            Some(d) => push_pair(&mut p, "display", owned(d.as_text())),
            None => {},
        }
        match &self.id_token_hint {
            Some(h) => push_pair(&mut p, "id_token_hint", h.clone()),
            None => {},
        }
        match &self.login_hint {
            Some(h) => push_pair(&mut p, "login_hint", h.secret().clone()),
            None => {},
        }
        match &self.max_age {
            Some(d) => push_pair(&mut p, "max_age", decimal_text(d.as_secs())),
            None => {},
        }
        push_joined(&mut p, "prompt", &self.prompts);
        push_joined(&mut p, "ui_locales", &self.ui_locales);
        match &self.pkce_challenge {
            Some(c) => {
                push_pair(&mut p, "code_challenge", owned(c.as_str()));
                push_pair(&mut p, "code_challenge_method", owned(c.method()));
            },
            None => {},
        }
        let ghost managed = pairs_view(p@);
        let n = self.extra_params.len();
        let mut i: usize = 0;
        while i < n
            invariant
                n == self.extra_params@.len(),
                i <= n,
                pairs_view(p@) == managed + pairs_view(self.extra_params@).take(i as int),
            decreases n - i,
        {
            let ghost before = pairs_view(p@);
            let name = self.extra_params[i].0.clone();
            let value = self.extra_params[i].1.clone();
            push_pair(&mut p, name.as_str(), value);
            proof {
                let extras = pairs_view(self.extra_params@);
                assert(extras.take(i as int + 1) =~= extras.take(i as int).push(extras[i as int]));
                assert(before.push(extras[i as int]) =~= managed + extras.take(i as int + 1));
            }
            i = i + 1;
        }
        proof {
            let extras = pairs_view(self.extra_params@);
            assert(extras.take(n as int) =~= extras);
        }
        p
    }

    /// All query parameters of the request, in the order in which
    /// [`AuthorizationRequest::url`] writes them.
    pub fn query_pairs(&self) -> (r: Vec<(String, String)>)
        ensures
            pairs_view(r@) == self@.query_pairs(),
    {
        let mut p: Vec<(String, String)> = Vec::new();
        assert(pairs_view(p@) =~= Seq::empty());
        push_pair(&mut p, "response_type", response_type_of(&self.authentication_flow));
        push_pair(&mut p, "client_id", owned(self.client_id.as_str()));
        push_pair(&mut p, "state", self.state.secret().clone());
        assert(pairs_view(p@) =~= leading_pairs(
            self@.response_type,
            self@.client_id,
            self@.state,
        ));
        let ghost lead = pairs_view(p@);
        let rest = self.trailing();
        let n = rest.len();
        let mut i: usize = 0;
        while i < n
            invariant
                n == rest@.len(),
                i <= n,
                pairs_view(p@) == lead + pairs_view(rest@).take(i as int),
            decreases n - i,
        {
            let ghost before = pairs_view(p@);
            let name = rest[i].0.clone();
            let value = rest[i].1.clone();
            push_pair(&mut p, name.as_str(), value);
            proof {
                let more = pairs_view(rest@);
                assert(more.take(i as int + 1) =~= more.take(i as int).push(more[i as int]));
                assert(before.push(more[i as int]) =~= lead + more.take(i as int + 1));
            }
            i = i + 1;
        }
        proof {
            assert(pairs_view(rest@).take(n as int) =~= pairs_view(rest@));
        }
        p
    }

    /// Whether the texts of the request are small enough for
    /// [`AuthorizationRequest::url`] to put them into one URL.
    pub fn within_limit(&self) -> (b: bool)
        ensures
            b == self@.fits(),
    {
        let rest = self.trailing();
        let response_type = response_type_of(&self.authentication_flow);
        let a = self.auth_url.as_str().as_bytes().len();
        let b = response_type.as_str().as_bytes().len();
        let c = self.client_id.as_str().as_bytes().len();
        let d = self.state.secret().as_str().as_bytes().len();
        let limit = MAX_URL_TEXT_BYTES as usize;
        if a > limit || b > limit || c > limit || d > limit {
            return false;
        }
        match pairs_size(&rest) {
            Some(n) => a as u64 + b as u64 + c as u64 + d as u64 + n <= MAX_URL_TEXT_BYTES,
            None => false,
        }
    }

    /// Returns the full authorization URL, the CSRF state and the nonce of
    /// this request. The query holds the parameters of
    /// [`AuthorizationRequestView::query_pairs`], in that order.
    pub fn url(self) -> (r: (String, CsrfToken, Nonce))
        requires
            self@.fits(),
        ensures
            r.0@ == self@.url_text(),
            r.1@ == self@.state,
            r.2@ == self@.nonce,
    {
        let response_type = response_type_of(&self.authentication_flow);
        let params = self.trailing();
        let text = authorization_url_text(
            self.auth_url.as_str(),
            response_type.as_str(),
            self.client_id.as_str(),
            self.state.secret().as_str(),
            &params,
        );
        (text, self.state, self.nonce)
    }

    /// Returns what [`AuthorizationRequest::url`] returns, where the texts
    /// of the request are small enough for one URL, and nothing where they
    /// are not.
    pub fn checked_url(self) -> (r: Option<(String, CsrfToken, Nonce)>)
        ensures
            match r {
                Some(parts) => self@.fits() && parts.0@ == self@.url_text() && parts.1@
                    == self@.state && parts.2@ == self@.nonce,
                None => !self@.fits(),
            },
    {
        if self.within_limit() {
            Some(self.url())
        } else {
            None
        }
    }
}

/// A request with nothing set beyond what every request has is written
/// with five parameters, in this order: `response_type`, `client_id`,
/// `state`, `scope` with the value `openid`, and `nonce`.
pub proof fn lemma_minimal_query(
    client: ClientView,
    response_type: Seq<char>,
    state: Seq<char>,
    nonce: Seq<char>,
)
    requires
        client.redirect_uri is None,
    ensures
        client.authorization_request(response_type, state, nonce).query_pairs() == seq![
            ("response_type"@, response_type),
            ("client_id"@, client.client_id),
            ("state"@, state),
            ("scope"@, "openid"@),
            ("nonce"@, nonce),
        ],
{
    let request = client.authorization_request(response_type, state, nonce);
    assert(seq!["openid"@] + request.scopes =~= seq!["openid"@]);
    assert(request.scope_text() == "openid"@);
    assert(request.query_pairs() =~= seq![
        ("response_type"@, response_type),
        ("client_id"@, client.client_id),
        ("state"@, state),
        ("scope"@, "openid"@),
        ("nonce"@, nonce),
    ]);
}

/// The parameters of a request with everything set are written in this
/// order: `response_type`, `client_id`, `state`, `redirect_uri`, `scope`,
/// `nonce`, `acr_values`, `claims_locales`, `display`, `id_token_hint`,
/// `login_hint`, `max_age`, `prompt`, `ui_locales`, `code_challenge`,
/// `code_challenge_method`, and then the parameters added by the caller, in
/// the order in which they were added.
pub proof fn lemma_full_query_order(request: AuthorizationRequestView)
    requires
        request.redirect_uri is Some,
        request.acr_values.len() > 0,
        request.claims_locales.len() > 0,
        request.display is Some,
        request.id_token_hint is Some,
        request.login_hint is Some,
        request.max_age is Some,
        request.prompts.len() > 0,
        request.ui_locales.len() > 0,
        request.pkce_challenge is Some,
    ensures
        request.query_pairs() == seq![
            ("response_type"@, request.response_type),
            ("client_id"@, request.client_id),
            ("state"@, request.state),
            ("redirect_uri"@, request.redirect_uri->0),
            ("scope"@, request.scope_text()),
            ("nonce"@, request.nonce),
            ("acr_values"@, space_joined(request.acr_values)),
            ("claims_locales"@, space_joined(request.claims_locales)),
            ("display"@, request.display->0),
            ("id_token_hint"@, request.id_token_hint->0),
            ("login_hint"@, request.login_hint->0),
            ("max_age"@, decimal(request.max_age->0 as nat)),
            ("prompt"@, space_joined(request.prompts)),
            ("ui_locales"@, space_joined(request.ui_locales)),
            ("code_challenge"@, (request.pkce_challenge->0).0),
            ("code_challenge_method"@, (request.pkce_challenge->0).1),
        ] + request.extra_params,
{
    assert(request.query_pairs() =~= seq![
        ("response_type"@, request.response_type),
        ("client_id"@, request.client_id),
        ("state"@, request.state),
        ("redirect_uri"@, request.redirect_uri->0),
        ("scope"@, request.scope_text()),
        ("nonce"@, request.nonce),
        ("acr_values"@, space_joined(request.acr_values)),
        ("claims_locales"@, space_joined(request.claims_locales)),
        ("display"@, request.display->0),
        ("id_token_hint"@, request.id_token_hint->0),
        ("login_hint"@, request.login_hint->0),
        ("max_age"@, decimal(request.max_age->0 as nat)),
        ("prompt"@, space_joined(request.prompts)),
        ("ui_locales"@, space_joined(request.ui_locales)),
        ("code_challenge"@, (request.pkce_challenge->0).0),
        ("code_challenge_method"@, (request.pkce_challenge->0).1),
    ] + request.extra_params);
}

/// The authorization URL is a function of what the request holds: two
/// requests that hold the same values are written as the same URL, with the
/// same parameters in the same order.
pub proof fn lemma_url_is_fixed(first: AuthorizationRequestView, second: AuthorizationRequestView)
    requires
        first == second,
    ensures
        first.query_pairs() == second.query_pairs(),
        first.url_text() == second.url_text(),
{
}

/// Parameters added by the caller come after every parameter that the
/// request manages, and none of the managed parameters is changed by them.
pub proof fn lemma_extras_come_last(request: AuthorizationRequestView)
    ensures
        request.query_pairs() == (AuthorizationRequestView {
            extra_params: Seq::empty(),
            ..request
        }).query_pairs() + request.extra_params,
{
    let bare = AuthorizationRequestView { extra_params: Seq::empty(), ..request };
    assert(bare.trailing_pairs() + request.extra_params =~= request.trailing_pairs());
    assert(request.query_pairs() =~= bare.query_pairs() + request.extra_params);
}

/// How the client authenticates itself at the token endpoint.
#[derive(Clone, Copy, Debug, PartialEq, Eq, Structural)]
pub enum AuthType {
    /// The client identifier and secret are sent in the body of the request.
    RequestBody,
    /// The client identifier and secret are sent by HTTP Basic
    /// authentication.
    BasicAuth,
}

/// What a client holds, as plain values.
pub struct ClientView {
    /// The client identifier.
    pub client_id: Seq<char>,
    /// The client secret, where the client has one.
    pub client_secret: Option<Seq<char>>,
    /// The issuer.
    pub issuer: Seq<char>,
    /// The authorization endpoint.
    pub auth_url: Seq<char>,
    /// The token endpoint, where it is known.
    pub token_url: Option<Seq<char>>,
    /// The UserInfo endpoint, where there is one.
    pub userinfo_endpoint: Option<Seq<char>>,
    /// The keys of the provider.
    pub jwks: Seq<JsonWebKeyView>,
    /// How the client authenticates itself at the token endpoint.
    pub auth_type: AuthType,
    /// The redirection endpoint, where one is set.
    pub redirect_uri: Option<Seq<char>>,
    /// The algorithms that the provider says it signs ID tokens with.
    pub signing_algs: Seq<CoreJwsSigningAlgorithm>,
}

/// An OpenID Connect client: what a relying party knows about itself and
/// about its provider.
pub struct Client<AD: AuthDisplay, P: AuthPrompt> {
    client_id: ClientId,
    client_secret: Option<ClientSecret>,
    issuer: IssuerUrl,
    auth_url: AuthUrl,
    token_url: Option<TokenUrl>,
    userinfo_endpoint: Option<UserInfoUrl>,
    jwks: JsonWebKeySet,
    auth_type: AuthType,
    redirect_uri: Option<RedirectUrl>,
    signing_algs: Vec<CoreJwsSigningAlgorithm>,
    _phantom: PhantomData<(AD, P)>,
}

/// A client with the display and prompt values of OpenID Connect Core.
pub type CoreClient = Client<CoreAuthDisplay, CoreAuthPrompt>;

impl<AD: AuthDisplay, P: AuthPrompt> View for Client<AD, P> {
    type V = ClientView;

    closed spec fn view(&self) -> ClientView {
        ClientView {
            client_id: self.client_id@,
            client_secret: match self.client_secret {
                Some(s) => Some(s@),
                None => None,
            },
            issuer: self.issuer@,
            auth_url: self.auth_url@,
            token_url: match self.token_url {
                Some(u) => Some(u@),
                None => None,
            },
            userinfo_endpoint: match self.userinfo_endpoint {
                Some(u) => Some(u@),
                None => None,
            },
            jwks: self.jwks@,
            auth_type: self.auth_type,
            redirect_uri: match self.redirect_uri {
                Some(u) => Some(u@),
                None => None,
            },
            signing_algs: self.signing_algs@,
        }
    }
}

impl ClientView {
    /// The ID token verifier of the client: the verifier of a client
    /// without further settings, which allows those algorithms that the
    /// provider says it signs with and that this library can check.
    pub open spec fn id_token_verifier(self) -> IdTokenVerifierView {
        let plain = default_verifier(self.client_id, self.client_secret, self.issuer, self.jwks);
        IdTokenVerifierView {
            signature: SignatureVerifierView {
                allowed_algs: Some(implemented_algorithms(self.signing_algs)),
                ..plain.signature
            },
            ..plain
        }
    }

    /// The authorization request of the client for a flow, a state and a
    /// nonce: one with the redirection endpoint of the client and nothing
    /// else set.
    pub open spec fn authorization_request(
        self,
        response_type: Seq<char>,
        state: Seq<char>,
        nonce: Seq<char>,
    ) -> AuthorizationRequestView {
        AuthorizationRequestView {
            auth_url: self.auth_url,
            client_id: self.client_id,
            state,
            redirect_uri: self.redirect_uri,
            scopes: Seq::empty(),
            response_type,
            nonce,
            acr_values: Seq::empty(),
            claims_locales: Seq::empty(),
            display: None,
            id_token_hint: None,
            login_hint: None,
            max_age: None,
            prompts: Seq::empty(),
            ui_locales: Seq::empty(),
            pkce_challenge: None,
            extra_params: Seq::empty(),
        }
    }

    /// The verifier of UserInfo responses of the client.
    pub open spec fn user_info_verifier(self, expected_subject: Option<Seq<char>>)
        -> UserInfoVerifierView {
        UserInfoVerifierView {
            signature: SignatureVerifierView {
                client_secret: None,
                jwks: self.jwks,
                allowed_algs: Some(seq![CoreJwsSigningAlgorithm::RsaSsaPkcs1V15Sha256]),
                accept_unsigned: false,
            },
            client_id: self.client_id,
            issuer: self.issuer,
            expected_subject,
        }
    }
}

impl<AD: AuthDisplay, P: AuthPrompt> Client<AD, P> {
    /// Initializes a client. The provider is taken to sign ID tokens with
    /// `RS256`, which every provider supports; the client authenticates
    /// itself by HTTP Basic authentication; no redirection endpoint is set.
    pub fn new(
        client_id: ClientId,
        client_secret: Option<ClientSecret>,
        issuer: IssuerUrl,
        auth_url: AuthUrl,
        token_url: Option<TokenUrl>,
        userinfo_endpoint: Option<UserInfoUrl>,
        jwks: JsonWebKeySet,
    ) -> (r: Self)
        ensures
            r@ == (ClientView {
                client_id: client_id@,
                client_secret: match client_secret {
                    Some(s) => Some(s@),
                    None => None,
                },
                issuer: issuer@,
                auth_url: auth_url@,
                token_url: match token_url {
                    Some(u) => Some(u@),
                    None => None,
                },
                userinfo_endpoint: match userinfo_endpoint {
                    Some(u) => Some(u@),
                    None => None,
                },
                jwks: jwks@,
                auth_type: AuthType::BasicAuth,
                redirect_uri: None,
                signing_algs: seq![CoreJwsSigningAlgorithm::RsaSsaPkcs1V15Sha256],
            }),
    {
        let mut signing_algs: Vec<CoreJwsSigningAlgorithm> = Vec::new();
        signing_algs.push(CoreJwsSigningAlgorithm::RsaSsaPkcs1V15Sha256);
        assert(signing_algs@ =~= seq![CoreJwsSigningAlgorithm::RsaSsaPkcs1V15Sha256]);
        Client {
            client_id,
            client_secret,
            issuer,
            auth_url,
            token_url,
            userinfo_endpoint,
            jwks,
            auth_type: AuthType::BasicAuth,
            redirect_uri: None,
            signing_algs,
            _phantom: PhantomData,
        }
    }

    /// Initializes a client from the metadata that its provider publishes:
    /// issuer, endpoints, keys and signing algorithms are those of the
    /// metadata.
    pub fn from_provider_metadata(
        provider_metadata: ProviderMetadata,
        client_id: ClientId,
        client_secret: Option<ClientSecret>,
    ) -> (r: Self)
        ensures
            r@ == (ClientView {
                client_id: client_id@,
                client_secret: match client_secret {
                    Some(s) => Some(s@),
                    None => None,
                },
                issuer: provider_metadata@.issuer,
                auth_url: provider_metadata@.authorization_endpoint,
                token_url: provider_metadata@.token_endpoint,
                userinfo_endpoint: provider_metadata@.userinfo_endpoint,
                jwks: provider_metadata@.jwks,
                auth_type: AuthType::BasicAuth,
                redirect_uri: None,
                signing_algs: provider_metadata@.id_token_signing_alg_values_supported,
            }),
    {
        let algs = provider_metadata.id_token_signing_alg_values_supported().clone();
        assert(algs@ =~= provider_metadata@.id_token_signing_alg_values_supported);
        let mut client = Client::new(
            client_id,
            client_secret,
            provider_metadata.issuer().clone(),
            provider_metadata.authorization_endpoint().clone(),
            match provider_metadata.token_endpoint() {
                Some(u) => Some(u.clone()),
                None => None,
            },
            match provider_metadata.userinfo_endpoint() {
                Some(u) => Some(u.clone()),
                None => None,
            },
            provider_metadata.jwks().clone(),
        );
        client.signing_algs = algs;
        client
    }

    /// Sets how the client authenticates itself at the token endpoint.
    pub fn set_auth_type(self, auth_type: AuthType) -> (r: Self)
        ensures
            r@ == (ClientView { auth_type, ..self@ }),
    {
        let mut r = self;
        r.auth_type = auth_type;
        r
    }

    /// Sets the redirection endpoint that authorization requests name.
    pub fn set_redirect_uri(self, redirect_uri: RedirectUrl) -> (r: Self)
        ensures
            r@ == (ClientView { redirect_uri: Some(redirect_uri@), ..self@ }),
    {
        let mut r = self;
        r.redirect_uri = Some(redirect_uri);
        r
    }

    /// Returns an ID token verifier for use with [`IdToken::claims`]: that
    /// of a confidential client where the client has a secret, else that of
    /// a public client.
    pub fn id_token_verifier(&self) -> (r: IdTokenVerifier)
        ensures
            r@ == self@.id_token_verifier(),
    {
        let verifier = match &self.client_secret {
            Some(client_secret) => IdTokenVerifier::new_confidential_client(
                self.client_id.clone(),
                client_secret.clone(),
                self.issuer.clone(),
                self.jwks.clone(),
            ),
            None => IdTokenVerifier::new_public_client(
                self.client_id.clone(),
                self.issuer.clone(),
                self.jwks.clone(),
            ),
        };
        verifier.set_allowed_algs(implemented_from(&self.signing_algs))
    }

    /// Starts an authorization request for the flow given. `state_fn` makes
    /// the `state` value, which the caller compares with the `state` of the
    /// response, and `nonce_fn` the nonce, which the ID token must carry;
    /// both should be fresh and unpredictable.
    pub fn authorize_url<NF, RT, SF>(
        &self,
        authentication_flow: AuthenticationFlow<RT>,
        state_fn: SF,
        nonce_fn: NF,
    ) -> (r: AuthorizationRequest<AD, P, RT>) where
        NF: FnOnce() -> Nonce,
        RT: ResponseType,
        SF: FnOnce() -> CsrfToken,

        requires
            state_fn.requires(()),
            nonce_fn.requires(()),
        ensures
            exists|state: CsrfToken, nonce: Nonce|
                state_fn.ensures((), state) && nonce_fn.ensures((), nonce) && r@
                    == self@.authorization_request(
                    response_type_text(authentication_flow),
                    state@,
                    nonce@,
                ),
    {
        let state = state_fn();
        let nonce = nonce_fn();
        let ghost state_view = state;
        let ghost nonce_view = nonce;
        let r = AuthorizationRequest::new(
            self.auth_url.clone(),
            self.client_id.clone(),
            match &self.redirect_uri {
                Some(u) => Some(u.clone()),
                None => None,
            },
            authentication_flow,
            state,
            nonce,
        );
        assert(state_fn.ensures((), state_view) && nonce_fn.ensures((), nonce_view) && r@
            == self@.authorization_request(
            response_type_text(authentication_flow),
            state_view@,
            nonce_view@,
        ));
        r
    }

    /// Creates a request to exchange an authorization code for tokens. The
    /// code is taken over, since a code can be exchanged only once.
    pub fn exchange_code<'a>(&'a self, code: AuthorizationCode) -> (r: CodeTokenRequest<'a, AD, P>)
        ensures
            r.client()@ == self@,
            r.code_text() == code@,
            r.verifier_text() is None,
    {
        CodeTokenRequest { client: self, code, pkce_verifier: None }
    }

    /// Creates a request to exchange a refresh token for tokens.
    pub fn exchange_refresh_token<'a, 'b>(&'a self, refresh_token: &'b RefreshToken) -> (r:
        RefreshTokenRequest<'a, 'b, AD, P>)
        ensures
            r.client()@ == self@,
            r.token_text() == refresh_token@,
    {
        RefreshTokenRequest { client: self, refresh_token }
    }

    /// Prepares a request for the claims about the end user that
    /// `access_token` stands for. Where `expected_subject` is given, a
    /// response about another end user is turned down. Fails where the
    /// client knows no UserInfo endpoint.
    pub fn user_info(&self, access_token: AccessToken, expected_subject: Option<SubjectIdentifier>)
        -> (r: Result<UserInfoRequest, NoUserInfoEndpoint>)
        ensures
            match r {
                Ok(request) => self@.userinfo_endpoint is Some && request@
                    == (UserInfoRequestView {
                    url: self@.userinfo_endpoint->0,
                    access_token: access_token@,
                    require_signed_response: false,
                    verifier: self@.user_info_verifier(
                        match expected_subject {
                            Some(s) => Some(s@),
                            None => None,
                        },
                    ),
                    }),
                Err(_) => self@.userinfo_endpoint is None,
            },
    {
        let url = match &self.userinfo_endpoint {
            Some(u) => u.clone(),
            None => return Err(NoUserInfoEndpoint),
        };
        Ok(
            UserInfoRequest::new(
                url,
                access_token,
                UserInfoVerifier::new(
                    self.client_id.clone(),
                    self.issuer.clone(),
                    self.jwks.clone(),
                    expected_subject,
                ),
            ),
        )
    }

    /// The client identifier.
    pub fn client_id(&self) -> (r: &ClientId)
        ensures
            r@ == self@.client_id,
    {
        &self.client_id
    }

    /// The client secret, where the client has one.
    pub fn client_secret(&self) -> (r: Option<&ClientSecret>)
        ensures
            match r {
                Some(s) => self@.client_secret == Some(s@),
                None => self@.client_secret is None,
            },
    {
        self.client_secret.as_ref()
    }

    /// The authorization endpoint.
    pub fn auth_url(&self) -> (r: &AuthUrl)
        ensures
            r@ == self@.auth_url,
    {
        &self.auth_url
    }

    /// The token endpoint, where it is known.
    pub fn token_url(&self) -> (r: Option<&TokenUrl>)
        ensures
            match r {
                Some(u) => self@.token_url == Some(u@),
                None => self@.token_url is None,
            },
    {
        self.token_url.as_ref()
    }

    /// The redirection endpoint, where one is set.
    pub fn redirect_uri(&self) -> (r: Option<&RedirectUrl>)
        ensures
            match r {
                Some(u) => self@.redirect_uri == Some(u@),
                None => self@.redirect_uri is None,
            },
    {
        self.redirect_uri.as_ref()
    }

    /// How the client authenticates itself at the token endpoint.
    pub fn auth_type(&self) -> (r: AuthType)
        ensures
            r == self@.auth_type,
    {
        self.auth_type
    }

    /// The issuer.
    pub fn issuer(&self) -> (r: &IssuerUrl)
        ensures
            r@ == self@.issuer,
    {
        &self.issuer
    }

    /// The keys of the provider.
    pub fn jwks(&self) -> (r: &JsonWebKeySet)
        ensures
            r@ == self@.jwks,
    {
        &self.jwks
    }
}

/// A request to exchange an authorization code for tokens. The OAuth2 layer
/// sends it; the response is read by
/// [`StandardTokenResponse::from_json`].
pub struct CodeTokenRequest<'a, AD: AuthDisplay, P: AuthPrompt> {
    client: &'a Client<AD, P>,
    code: AuthorizationCode,
    pkce_verifier: Option<PkceCodeVerifier>,
}

impl<'a, AD: AuthDisplay, P: AuthPrompt> CodeTokenRequest<'a, AD, P> {
    /// The client that makes the request.
    pub closed spec fn client(&self) -> &'a Client<AD, P> {
        self.client
    }

    /// The authorization code.
    pub closed spec fn code_text(&self) -> Seq<char> {
        self.code@
    }

    /// The PKCE code verifier, where one is set.
    pub closed spec fn verifier_text(&self) -> Option<Seq<char>> {
        match self.pkce_verifier {
            Some(v) => Some(v@),
            None => None,
        }
    }

    /// Sets the PKCE code verifier that belongs to the challenge of the
    /// authorization request.
    pub fn set_pkce_verifier(self, pkce_verifier: PkceCodeVerifier) -> (r: Self)
        ensures
            r.client() == self.client(),
            r.code_text() == self.code_text(),
            r.verifier_text() == Some(pkce_verifier@),
    {
        let mut r = self;
        r.pkce_verifier = Some(pkce_verifier);
        r
    }

    /// The parts of the request: the client, the code, and the PKCE code
    /// verifier where one is set.
    pub fn into_parts(self) -> (r: (&'a Client<AD, P>, AuthorizationCode, Option<PkceCodeVerifier>))
        ensures
            r.0 == self.client(),
            r.1@ == self.code_text(),
            match r.2 {
                Some(v) => self.verifier_text() == Some(v@),
                None => self.verifier_text() is None,
            },
    {
        (self.client, self.code, self.pkce_verifier)
    }
}

/// A request to exchange a refresh token for tokens. The OAuth2 layer sends
/// it; the response is read by [`StandardTokenResponse::from_json`].
pub struct RefreshTokenRequest<'a, 'b, AD: AuthDisplay, P: AuthPrompt> {
    client: &'a Client<AD, P>,
    refresh_token: &'b RefreshToken,
}

impl<'a, 'b, AD: AuthDisplay, P: AuthPrompt> RefreshTokenRequest<'a, 'b, AD, P> {
    /// The client that makes the request.
    pub closed spec fn client(&self) -> &'a Client<AD, P> {
        self.client
    }

    /// The refresh token.
    pub closed spec fn token_text(&self) -> Seq<char> {
        self.refresh_token@
    }

    /// The parts of the request: the client and the refresh token.
    pub fn into_parts(self) -> (r: (&'a Client<AD, P>, &'b RefreshToken))
        ensures
            r.0 == self.client(),
            r.1@ == self.token_text(),
    {
        (self.client, self.refresh_token)
    }
}

} // verus!
