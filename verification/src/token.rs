//! The response of the token endpoint: what every OAuth2 token response
//! holds, and the ID token that comes with it.

use vstd::prelude::*;

use crate::id_token::{id_token_of, IdToken, IdTokenView};
use crate::json::{integer_member, json_integer, json_text, text_member};
use crate::jwt::JsonWebTokenError;
use crate::text::{pieces, split, text_views, texts};
use crate::types::{AccessToken, RefreshToken, Scope};

verus! {

/// What every token response holds, as plain values.
pub struct TokenFieldsView {
    /// The access token (`access_token`).
    pub access_token: Seq<char>,
    /// The type of the access token (`token_type`), such as `bearer`.
    pub token_type: Seq<char>,
    /// The lifetime of the access token in seconds (`expires_in`), where it
    /// is given.
    pub expires_in: Option<u64>,
    /// The refresh token (`refresh_token`), where there is one.
    pub refresh_token: Option<Seq<char>>,
    /// The scopes of the access token (`scope`), where they are given.
    pub scopes: Option<Seq<Seq<char>>>,
}

/// What an OAuth2 token response exposes.
pub trait OAuth2TokenResponse {
    /// The fields of the response.
    spec fn fields(&self) -> TokenFieldsView;

    /// The access token.
    fn access_token(&self) -> (r: &AccessToken)
        ensures
            r@ == self.fields().access_token,
    ;

    /// The type of the access token.
    fn token_type(&self) -> (r: &str)
        ensures
            r@ == self.fields().token_type,
    ;

    /// The lifetime of the access token in seconds, where it is given.
    fn expires_in(&self) -> (r: Option<u64>)
        ensures
            r == self.fields().expires_in,
    ;

    /// The refresh token, where there is one.
    fn refresh_token(&self) -> (r: Option<&RefreshToken>)
        ensures
            match r {
                Some(t) => self.fields().refresh_token == Some(t@),
                None => self.fields().refresh_token is None,
            },
    ;

    /// The scopes of the access token, where they are given.
    fn scopes(&self) -> (r: Option<&Vec<Scope>>)
        ensures
            match r {
                Some(s) => self.fields().scopes == Some(texts(s@)),
                None => self.fields().scopes is None,
            },
    ;
}

/// Extends the base OAuth2 token response with an ID token.
pub trait TokenResponse: OAuth2TokenResponse {
    /// The ID token of the response.
    spec fn token(&self) -> IdTokenView;

    /// Returns the ID token provided by the token response.
    fn id_token(&self) -> (r: &IdToken)
        ensures
            r@ == self.token(),
    ;
}

/// Extends the base OAuth2 token response with an optional ID token. Unlike
/// the response to a first token request, the response to a refresh request
/// may come without an ID token.
pub trait RefreshTokenResponse: OAuth2TokenResponse {
    /// The ID token of the response, where it has one.
    spec fn token(&self) -> Option<IdTokenView>;

    /// Returns the ID token provided by the refresh token response, where it
    /// provides one.
    fn id_token(&self) -> (r: Option<&IdToken>)
        ensures
            match r {
                Some(t) => self.token() == Some(t@),
                None => self.token() is None,
            },
    ;
}

/// The extra field of the response to a first token request: the ID token.
#[derive(Debug, PartialEq, Eq)]
pub struct IdTokenFields {
    id_token: IdToken,
}

impl IdTokenFields {
    /// The ID token.
    pub closed spec fn token(&self) -> IdTokenView {
        self.id_token@
    }

    /// Wraps an ID token.
    pub fn new(id_token: IdToken) -> (r: Self)
        ensures
            r.token() == id_token@,
    {
        IdTokenFields { id_token }
    }

    /// The ID token.
    pub fn id_token(&self) -> (r: &IdToken)
        ensures
            r@ == self.token(),
    {
        &self.id_token
    }
}

/// The extra field of the response to a refresh request: the ID token,
/// where there is one.
#[derive(Debug, PartialEq, Eq)]
pub struct RefreshIdTokenFields {
    id_token: Option<IdToken>,
}

impl RefreshIdTokenFields {
    /// The ID token, where there is one.
    pub closed spec fn token(&self) -> Option<IdTokenView> {
        match self.id_token {
            Some(t) => Some(t@),
            None => None,
        }
    }

    /// Wraps an optional ID token.
    pub fn new(id_token: Option<IdToken>) -> (r: Self)
        ensures
            r.token() == match id_token {
                Some(t) => Some(t@),
                None => None,
            },
    {
        RefreshIdTokenFields { id_token }
    }

    /// The ID token, where there is one.
    pub fn id_token(&self) -> (r: Option<&IdToken>)
        ensures
            match r {
                Some(t) => self.token() == Some(t@),
                None => self.token() is None,
            },
    {
        self.id_token.as_ref()
    }
}

/// A token response with extra fields of the kind `EF`.
pub struct StandardTokenResponse<EF> {
    access_token: AccessToken,
    token_type: String,
    expires_in: Option<u64>,
    refresh_token: Option<RefreshToken>,
    scopes: Option<Vec<Scope>>,
    extra_fields: EF,
}

/// The response to a first token request.
pub type CoreTokenResponse = StandardTokenResponse<IdTokenFields>;

/// The response to a refresh request.
pub type CoreRefreshTokenResponse = StandardTokenResponse<RefreshIdTokenFields>;

/// Why a document was not accepted as a token response.
#[derive(Clone, Copy, Debug, PartialEq, Eq, Structural)]
pub enum TokenResponseError {
    /// There is no string `access_token`.
    MissingAccessToken,
    /// There is no string `token_type`.
    MissingTokenType,
    /// There is no string `id_token`, where one is required.
    MissingIdToken,
    /// The ID token is not a compact token.
    InvalidIdToken(JsonWebTokenError),
}

/// The lifetime that `doc` names: its `expires_in`, where that is a number
/// of seconds that is not negative.
pub open spec fn lifetime_of(doc: Seq<u8>) -> Option<u64> {
    match json_integer(doc, "expires_in"@) {
        Some(secs) => if secs >= 0 {
            Some(secs as u64)
        } else {
            None
        },
        None => None,
    }
}

/// The scopes that `doc` names: the pieces of its `scope` between spaces.
pub open spec fn scopes_of(doc: Seq<u8>) -> Option<Seq<Seq<char>>> {
    match json_text(doc, "scope"@) {
        Some(text) => Some(pieces(text, ' ')),
        None => None,
    }
}

/// The fields that every token response holds, as `doc` gives them.
pub open spec fn token_fields_of(doc: Seq<u8>) -> Result<TokenFieldsView, TokenResponseError> {
    if json_text(doc, "access_token"@) is None {
        Err(TokenResponseError::MissingAccessToken)
    } else if json_text(doc, "token_type"@) is None {
        Err(TokenResponseError::MissingTokenType)
    } else {
        Ok(
            TokenFieldsView {
                access_token: json_text(doc, "access_token"@)->0,
                token_type: json_text(doc, "token_type"@)->0,
                expires_in: lifetime_of(doc),
                refresh_token: json_text(doc, "refresh_token"@),
                scopes: scopes_of(doc),
            },
        )
    }
}

/// The ID token that `doc` carries: none where it has no `id_token`, an
/// error where the `id_token` is not a compact token.
pub open spec fn carried_token(doc: Seq<u8>) -> Result<Option<IdTokenView>, TokenResponseError> {
    match json_text(doc, "id_token"@) {
        None => Ok(None),
        Some(text) => match id_token_of(text) {
            Ok(token) => Ok(Some(token)),
            Err(e) => Err(TokenResponseError::InvalidIdToken(e)),
        },
    }
}

impl<EF> StandardTokenResponse<EF> {
    /// The fields that every token response holds.
    pub closed spec fn base(&self) -> TokenFieldsView {
        TokenFieldsView {
            access_token: self.access_token@,
            token_type: self.token_type@,
            expires_in: self.expires_in,
            refresh_token: match self.refresh_token {
                Some(t) => Some(t@),
                None => None,
            },
            scopes: match self.scopes {
                Some(s) => Some(texts(s@)),
                None => None,
            },
        }
    }

    /// The extra fields.
    pub closed spec fn extra(&self) -> EF {
        self.extra_fields
    }

    /// A response with the access token, its type and the extra fields
    /// given, and nothing else.
    pub fn new(access_token: AccessToken, token_type: String, extra_fields: EF) -> (r: Self)
        ensures
            r.base() == (TokenFieldsView {
                access_token: access_token@,
                token_type: token_type@,
                expires_in: None,
                refresh_token: None,
                scopes: None,
            }),
            r.extra() == extra_fields,
    {
        StandardTokenResponse {
            access_token,
            token_type,
            expires_in: None,
            refresh_token: None,
            scopes: None,
            extra_fields,
        }
    }

    /// The extra fields.
    pub fn extra_fields(&self) -> (r: &EF)
        ensures
            *r == self.extra(),
    {
        &self.extra_fields
    }
}

/// Wraps each string of a list as a scope.
fn scopes_from(list: Vec<String>) -> (r: Vec<Scope>)
    ensures
        texts(r@) == text_views(list@),
{
    let mut out: Vec<Scope> = Vec::new();
    let n = list.len();
    let mut i: usize = 0;
    assert(texts(out@) =~= text_views(list@).take(0));
    while i < n
        invariant
            n == list@.len(),
            i <= n,
            texts(out@) == text_views(list@).take(i as int),
        decreases n - i,
    {
        let ghost before = texts(out@);
        let entry = Scope::new(list[i].clone());
        let ghost t = entry@;
        out.push(entry);
        assert(texts(out@) =~= before.push(t));
        assert(before.push(t) =~= text_views(list@).take(i as int + 1));
        i = i + 1;
    }
    assert(text_views(list@).take(n as int) =~= text_views(list@));
    out
}

/// Reads the fields that every token response holds, with the extra fields
/// given.
fn read_fields<EF>(doc: &[u8], extra_fields: EF) -> (r: Result<
    StandardTokenResponse<EF>,
    TokenResponseError,
>)
    ensures
        match r {
            Ok(response) => token_fields_of(doc@) == Ok::<TokenFieldsView, TokenResponseError>(
                response.base(),
            ) && response.extra() == extra_fields,
            Err(e) => token_fields_of(doc@) == Err::<TokenFieldsView, TokenResponseError>(e),
        },
{
    let access_token = match text_member(doc, "access_token") {
        Some(t) => AccessToken::new(t),
        None => return Err(TokenResponseError::MissingAccessToken),
    };
    let token_type = match text_member(doc, "token_type") {
        Some(t) => t,
        None => return Err(TokenResponseError::MissingTokenType),
    };
    let expires_in = match integer_member(doc, "expires_in") {
        Some(secs) => if secs >= 0 {
            Some(secs as u64)
        } else {
            None
        },
        None => None,
    };
    let refresh_token = match text_member(doc, "refresh_token") {
        Some(t) => Some(RefreshToken::new(t)),
        None => None,
    };
    let scopes = match text_member(doc, "scope") {
        Some(text) => Some(scopes_from(split(text.as_str(), ' '))),
        None => None,
    };
    Ok(
        StandardTokenResponse {
            access_token,
            token_type,
            expires_in,
            refresh_token,
            scopes,
            extra_fields,
        },
    )
}

/// Reads the ID token that a response carries.
fn read_token(doc: &[u8]) -> (r: Result<Option<IdToken>, TokenResponseError>)
    ensures
        match r {
            Ok(Some(t)) => carried_token(doc@) == Ok::<Option<IdTokenView>, TokenResponseError>(
                Some(t@),
            ),
            Ok(None) => carried_token(doc@) == Ok::<Option<IdTokenView>, TokenResponseError>(None),
            Err(e) => carried_token(doc@) == Err::<Option<IdTokenView>, TokenResponseError>(e),
        },
{
    match text_member(doc, "id_token") {
        None => Ok(None),
        Some(text) => match IdToken::from_str(text.as_str()) {
            Ok(token) => Ok(Some(token)),
            Err(e) => Err(TokenResponseError::InvalidIdToken(e)),
        },
    }
}

/// The response to a first token request that `doc` describes: its fields
/// and its ID token, which it must carry.
pub open spec fn token_response_of(doc: Seq<u8>) -> Result<
    (TokenFieldsView, IdTokenView),
    TokenResponseError,
> {
    match token_fields_of(doc) {
        Err(e) => Err(e),
        Ok(fields) => match carried_token(doc) {
            Err(e) => Err(e),
            Ok(None) => Err(TokenResponseError::MissingIdToken),
            Ok(Some(token)) => Ok((fields, token)),
        },
    }
}

/// The response to a refresh request that `doc` describes: its fields and
/// its ID token, where it carries one.
pub open spec fn refresh_response_of(doc: Seq<u8>) -> Result<
    (TokenFieldsView, Option<IdTokenView>),
    TokenResponseError,
> {
    match token_fields_of(doc) {
        Err(e) => Err(e),
        Ok(fields) => match carried_token(doc) {
            Err(e) => Err(e),
            Ok(token) => Ok((fields, token)),
        },
    }
}

impl StandardTokenResponse<IdTokenFields> {
    /// Reads the response to a first token request from its JSON document.
    pub fn from_json(doc: &[u8]) -> (r: Result<Self, TokenResponseError>)
        ensures
            match r {
                Ok(response) => token_response_of(doc@) == Ok::<
                    (TokenFieldsView, IdTokenView),
                    TokenResponseError,
                >((response.base(), response.extra().token())),
                Err(e) => token_response_of(doc@) == Err::<
                    (TokenFieldsView, IdTokenView),
                    TokenResponseError,
                >(e),
            },
    {
        match token_fields_of_check(doc) {
            Some(e) => return Err(e),
            None => {},
        }
        let token = match read_token(doc) {
            Err(e) => return Err(e),
            Ok(None) => return Err(TokenResponseError::MissingIdToken),
            Ok(Some(t)) => t,
        };
        read_fields(doc, IdTokenFields::new(token))
    }
}

impl StandardTokenResponse<RefreshIdTokenFields> {
    /// Reads the response to a refresh request from its JSON document.
    pub fn from_json(doc: &[u8]) -> (r: Result<Self, TokenResponseError>)
        ensures
            match r {
                Ok(response) => refresh_response_of(doc@) == Ok::<
                    (TokenFieldsView, Option<IdTokenView>),
                    TokenResponseError,
                >((response.base(), response.extra().token())),
                Err(e) => refresh_response_of(doc@) == Err::<
                    (TokenFieldsView, Option<IdTokenView>),
                    TokenResponseError,
                >(e),
            },
    {
        match token_fields_of_check(doc) {
            Some(e) => return Err(e),
            None => {},
        }
        let token = match read_token(doc) {
            Err(e) => return Err(e),
            Ok(t) => t,
        };
        read_fields(doc, RefreshIdTokenFields::new(token))
    }
}

/// The error of the fields that every token response holds, where there is
/// one.
fn token_fields_of_check(doc: &[u8]) -> (r: Option<TokenResponseError>)
    ensures
        match r {
            Some(e) => token_fields_of(doc@) == Err::<TokenFieldsView, TokenResponseError>(e),
            None => token_fields_of(doc@) is Ok,
        },
{
    if text_member(doc, "access_token").is_none() {
        Some(TokenResponseError::MissingAccessToken)
    } else if text_member(doc, "token_type").is_none() {
        Some(TokenResponseError::MissingTokenType)
    } else {
        None
    }
}

impl<EF> OAuth2TokenResponse for StandardTokenResponse<EF> {
    open spec fn fields(&self) -> TokenFieldsView {
        self.base()
    }

    fn access_token(&self) -> (r: &AccessToken) {
        &self.access_token
    }

    fn token_type(&self) -> (r: &str) {
        self.token_type.as_str()
    }

    fn expires_in(&self) -> (r: Option<u64>) {
        self.expires_in
    }

    fn refresh_token(&self) -> (r: Option<&RefreshToken>) {
        self.refresh_token.as_ref()
    }

    fn scopes(&self) -> (r: Option<&Vec<Scope>>) {
        self.scopes.as_ref()
    }
}

impl TokenResponse for StandardTokenResponse<IdTokenFields> {
    open spec fn token(&self) -> IdTokenView {
        self.extra().token()
    }

    fn id_token(&self) -> (r: &IdToken) {
        self.extra_fields().id_token()
    }
}

impl RefreshTokenResponse for StandardTokenResponse<RefreshIdTokenFields> {
    open spec fn token(&self) -> Option<IdTokenView> {
        self.extra().token()
    }

    fn id_token(&self) -> (r: Option<&IdToken>) {
        self.extra_fields().id_token()
    }
}

} // verus!
