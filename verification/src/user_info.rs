//! The UserInfo endpoint: the claims it returns, the check that they are
//! about the expected end user, and the reading of its two kinds of
//! response.

use vstd::prelude::*;

use crate::claims::{standard_claims_of, ClaimName, StandardClaims, StandardClaimsView};
use crate::core_types::CoreJwsSigningAlgorithm;
use crate::id_token::{audiences_in, audiences_of};
use crate::json::{json_member_names, json_text, member_names, text_member};
use crate::jwk::JsonWebKeySet;
use crate::jwt::{copy_bytes, optional_string, token_of, JsonWebToken, JsonWebTokenView};
use crate::text::{has_prefix, owned, starts_with, str_eq, texts};
use crate::types::{AccessToken, Audience, ClientId, IssuerUrl, SubjectIdentifier, UserInfoUrl};
use crate::verification::{
    ClaimsVerificationError, OtherReason, SignatureVerifier, SignatureVerifierView,
};

verus! {

/// Returned where user information is asked of a client that knows no
/// UserInfo endpoint.
#[derive(Clone, Copy, Debug, PartialEq, Eq, Structural)]
pub struct NoUserInfoEndpoint;

/// What the claims of a UserInfo response hold, as plain values.
pub struct UserInfoClaimsView {
    /// The issuer (`iss`), where the response names one.
    pub iss: Option<Seq<char>>,
    /// The audiences (`aud`), where the response names them.
    pub aud: Option<Seq<Seq<char>>>,
    /// The standard claims about the end user.
    pub standard_claims: StandardClaimsView,
    /// The JSON document that holds all claims, further ones included.
    pub document: Seq<u8>,
}

/// The claims that the JSON document `doc` of a UserInfo response holds.
pub open spec fn user_info_claims_of(doc: Seq<u8>) -> Result<
    UserInfoClaimsView,
    ClaimsVerificationError,
> {
    if json_member_names(doc) is None {
        Err(ClaimsVerificationError::Other(OtherReason::NotJson))
    } else {
        match standard_claims_of(doc) {
            None => Err(ClaimsVerificationError::MissingClaim(ClaimName::Subject)),
            Some(standard_claims) => Ok(
                UserInfoClaimsView {
                    iss: json_text(doc, "iss"@),
                    aud: audiences_of(doc),
                    standard_claims,
                    document: doc,
                },
            ),
        }
    }
}

/// The claims of a UserInfo response.
#[derive(Debug, PartialEq, Eq)]
pub struct UserInfoClaims {
    issuer: Option<String>,
    audiences: Option<Vec<Audience>>,
    standard_claims: StandardClaims,
    document: Vec<u8>,
}

impl View for UserInfoClaims {
    type V = UserInfoClaimsView;

    closed spec fn view(&self) -> UserInfoClaimsView {
        UserInfoClaimsView {
            iss: optional_string(self.issuer),
            aud: match self.audiences {
                Some(a) => Some(texts(a@)),
                None => None,
            },
            standard_claims: self.standard_claims@,
            document: self.document@,
        }
    }
}

impl UserInfoClaims {
    /// Reads the claims of a UserInfo response from their JSON document.
    /// Only `sub` is required. Only verifiers call this.
    pub(crate) fn from_json(doc: &[u8]) -> (r: Result<Self, ClaimsVerificationError>)
        ensures
            match r {
                Ok(c) => user_info_claims_of(doc@) == Ok::<
                    UserInfoClaimsView,
                    ClaimsVerificationError,
                >(c@),
                Err(e) => user_info_claims_of(doc@) == Err::<
                    UserInfoClaimsView,
                    ClaimsVerificationError,
                >(e),
            },
    {
        if member_names(doc).is_none() {
            return Err(ClaimsVerificationError::Other(OtherReason::NotJson));
        }
        let standard_claims = match StandardClaims::from_json(doc) {
            Some(c) => c,
            None => return Err(ClaimsVerificationError::MissingClaim(ClaimName::Subject)),
        };
        Ok(
            UserInfoClaims {
                issuer: text_member(doc, "iss"),
                audiences: audiences_in(doc),
                standard_claims,
                document: copy_bytes(doc),
            },
        )
    }

    /// The issuer, where the response names one.
    pub fn issuer(&self) -> (r: Option<&String>)
        ensures
            match r {
                Some(i) => self@.iss == Some(i@),
                None => self@.iss is None,
            },
    {
        self.issuer.as_ref()
    }

    /// The audiences, where the response names them.
    pub fn audiences(&self) -> (r: Option<&Vec<Audience>>)
        ensures
            match r {
                Some(a) => self@.aud == Some(texts(a@)),
                None => self@.aud is None,
            },
    {
        self.audiences.as_ref()
    }

    /// The subject identifier.
    pub fn subject(&self) -> (r: &SubjectIdentifier)
        ensures
            r@ == self@.standard_claims.sub,
    {
        self.standard_claims.subject()
    }

    /// The standard claims about the end user.
    pub fn standard_claims(&self) -> (r: &StandardClaims)
        ensures
            r@ == self@.standard_claims,
    {
        &self.standard_claims
    }

    /// The JSON document that holds all claims.
    pub fn document(&self) -> (r: &[u8])
        ensures
            r@ == self@.document,
    {
        self.document.as_slice()
    }
}

/// What a UserInfo verifier holds, as plain values.
pub struct UserInfoVerifierView {
    /// The part that deals with signatures.
    pub signature: SignatureVerifierView,
    /// The identifier of this client.
    pub client_id: Seq<char>,
    /// The issuer that signed responses must come from.
    pub issuer: Seq<char>,
    /// The end user that the response must be about, where one is expected.
    pub expected_subject: Option<Seq<char>>,
}

impl UserInfoVerifierView {
    /// The outcome of the checks on the claims of a response, signed or
    /// not: the subject is the expected one, where one is expected; issuer
    /// and audience, where the response names them, are this provider and
    /// this client; a signed response names both.
    pub open spec fn claims_verdict(self, claims: UserInfoClaimsView, signed: bool) -> Result<
        (),
        ClaimsVerificationError,
    > {
        if self.expected_subject is Some && claims.standard_claims.sub
            != self.expected_subject->0 {
            Err(ClaimsVerificationError::InvalidSubject)
        } else if signed && claims.iss is None {
            Err(ClaimsVerificationError::MissingClaim(ClaimName::Issuer))
        } else if claims.iss is Some && claims.iss->0 != self.issuer {
            Err(ClaimsVerificationError::InvalidIssuer)
        } else if signed && claims.aud is None {
            Err(ClaimsVerificationError::MissingClaim(ClaimName::Audience))
        } else if claims.aud is Some && !claims.aud->0.contains(self.client_id) {
            Err(ClaimsVerificationError::InvalidAudience)
        } else {
            Ok(())
        }
    }

    /// The outcome of verifying an unsigned response with the body `doc`.
    pub open spec fn json_verdict(self, doc: Seq<u8>) -> Result<
        UserInfoClaimsView,
        ClaimsVerificationError,
    > {
        match user_info_claims_of(doc) {
            Err(e) => Err(e),
            Ok(claims) => match self.claims_verdict(claims, false) {
                Err(e) => Err(e),
                Ok(_) => Ok(claims),
            },
        }
    }

    /// The outcome of verifying a signed response.
    pub open spec fn jwt_verdict(self, token: JsonWebTokenView) -> Result<
        UserInfoClaimsView,
        ClaimsVerificationError,
    > {
        match self.signature.signature_verdict(token) {
            Err(e) => Err(ClaimsVerificationError::SignatureVerification(e)),
            Ok(_) => match user_info_claims_of(token.payload) {
                Err(e) => Err(e),
                Ok(claims) => match self.claims_verdict(claims, true) {
                    Err(e) => Err(e),
                    Ok(_) => Ok(claims),
                },
            },
        }
    }
}

/// Decides whether a UserInfo response is to be believed.
pub struct UserInfoVerifier {
    signature: SignatureVerifier,
    client_id: ClientId,
    issuer: IssuerUrl,
    expected_subject: Option<SubjectIdentifier>,
}

impl View for UserInfoVerifier {
    type V = UserInfoVerifierView;

    closed spec fn view(&self) -> UserInfoVerifierView {
        UserInfoVerifierView {
            signature: self.signature@,
            client_id: self.client_id@,
            issuer: self.issuer@,
            expected_subject: match self.expected_subject {
                Some(s) => Some(s@),
                None => None,
            },
        }
    }
}

impl UserInfoVerifier {
    /// A verifier for the client and provider given, which expects the
    /// response to be about `expected_subject` where one is given. Signed
    /// responses are checked against `jwks`, with `RS256` allowed only.
    pub fn new(
        client_id: ClientId,
        issuer: IssuerUrl,
        jwks: JsonWebKeySet,
        expected_subject: Option<SubjectIdentifier>,
    ) -> (r: Self)
        ensures
            r@ == (UserInfoVerifierView {
                signature: SignatureVerifierView {
                    client_secret: None,
                    jwks: jwks@,
                    allowed_algs: Some(seq![CoreJwsSigningAlgorithm::RsaSsaPkcs1V15Sha256]),
                    accept_unsigned: false,
                },
                client_id: client_id@,
                issuer: issuer@,
                expected_subject: match expected_subject {
                    Some(s) => Some(s@),
                    None => None,
                },
            }),
    {
        UserInfoVerifier {
            signature: SignatureVerifier::new(None, jwks),
            client_id,
            issuer,
            expected_subject,
        }
    }

    /// Allows the signing algorithms given and no others.
    pub fn set_allowed_algs(self, algs: Vec<CoreJwsSigningAlgorithm>) -> (r: Self)
        ensures
            r@ == (UserInfoVerifierView {
                signature: SignatureVerifierView { allowed_algs: Some(algs@), ..self@.signature },
                ..self@
            }),
    {
        let mut r = self;
        r.signature = r.signature.set_allowed_algs(algs);
        r
    }

    /// Checks the claims of a response.
    #[verifier::loop_isolation(false)]
    pub fn check_claims(&self, claims: &UserInfoClaims, signed: bool) -> (r: Result<
        (),
        ClaimsVerificationError,
    >)
        ensures
            r == self@.claims_verdict(claims@, signed),
    {
        match &self.expected_subject {
            Some(expected) => {
                if !str_eq(claims.subject().as_str(), expected.as_str()) {
                    return Err(ClaimsVerificationError::InvalidSubject);
                }
            },
            None => {},
        }
        match &claims.issuer {
            None => {
                if signed {
                    return Err(ClaimsVerificationError::MissingClaim(ClaimName::Issuer));
                }
            },
            Some(iss) => {
                if !str_eq(iss.as_str(), self.issuer.as_str()) {
                    return Err(ClaimsVerificationError::InvalidIssuer);
                }
            },
        }
        match &claims.audiences {
            None => {
                if signed {
                    Err(ClaimsVerificationError::MissingClaim(ClaimName::Audience))
                } else {
                    Ok(())
                }
            },
            Some(list) => {
                let n = list.len();
                let mut i: usize = 0;
                while i < n
                    invariant
                        n == list@.len(),
                        i <= n,
                        forall|j: int| 0 <= j < i ==> texts(list@)[j] != self@.client_id,
                    decreases n - i,
                {
                    if str_eq(list[i].as_str(), self.client_id.as_str()) {
                        assert(texts(list@)[i as int] == self@.client_id);
                        return Ok(());
                    }
                    i = i + 1;
                }
                Err(ClaimsVerificationError::InvalidAudience)
            },
        }
    }

    /// Reads and checks an unsigned response.
    pub fn verified_json(&self, doc: &[u8]) -> (r: Result<
        UserInfoClaims,
        ClaimsVerificationError,
    >)
        ensures
            match r {
                Ok(c) => self@.json_verdict(doc@) == Ok::<
                    UserInfoClaimsView,
                    ClaimsVerificationError,
                >(c@),
                Err(e) => self@.json_verdict(doc@) == Err::<
                    UserInfoClaimsView,
                    ClaimsVerificationError,
                >(e),
            },
    {
        let claims = match UserInfoClaims::from_json(doc) {
            Ok(c) => c,
            Err(e) => return Err(e),
        };
        match self.check_claims(&claims, false) {
            Err(e) => Err(e),
            Ok(_) => Ok(claims),
        }
    }

    /// Checks the signature of a signed response, then reads and checks its
    /// claims.
    pub fn verified_jwt(&self, token: &JsonWebToken) -> (r: Result<
        UserInfoClaims,
        ClaimsVerificationError,
    >)
        ensures
            match r {
                Ok(c) => self@.jwt_verdict(token@) == Ok::<
                    UserInfoClaimsView,
                    ClaimsVerificationError,
                >(c@),
                Err(e) => self@.jwt_verdict(token@) == Err::<
                    UserInfoClaimsView,
                    ClaimsVerificationError,
                >(e),
            },
    {
        match self.signature.check_signature(token) {
            Err(e) => return Err(ClaimsVerificationError::SignatureVerification(e)),
            Ok(_) => {},
        }
        let claims = match UserInfoClaims::from_json(token.unverified_payload()) {
            Ok(c) => c,
            Err(e) => return Err(e),
        };
        match self.check_claims(&claims, true) {
            Err(e) => Err(e),
            Ok(_) => Ok(claims),
        }
    }
}

/// Why user information could not be had.
#[derive(Debug, PartialEq, Eq)]
pub enum UserInfoError {
    /// The request could not be made or answered.
    Request,
    /// The provider answered with a status other than 200; the status and
    /// the body of the answer.
    Response(u16, Vec<u8>),
    /// The response is of a media type that is neither JSON nor a token;
    /// the content type as it arrived, empty where there was none.
    ContentType(String),
    /// The claims of the response were not accepted.
    ClaimsVerification(ClaimsVerificationError),
    /// The body is not what its media type says.
    Parse,
}

/// Why user information could not be had, as plain values.
pub enum UserInfoErrorView {
    /// The request could not be made or answered.
    Request,
    /// A status other than 200, with the body.
    Response(u16, Seq<u8>),
    /// An unexpected content type.
    ContentType(Seq<char>),
    /// The claims were not accepted.
    ClaimsVerification(ClaimsVerificationError),
    /// The body is not what its media type says.
    Parse,
}

impl View for UserInfoError {
    type V = UserInfoErrorView;

    open spec fn view(&self) -> UserInfoErrorView {
        match self {
            UserInfoError::Request => UserInfoErrorView::Request,
            UserInfoError::Response(status, body) => UserInfoErrorView::Response(*status, body@),
            UserInfoError::ContentType(actual) => UserInfoErrorView::ContentType(actual@),
            UserInfoError::ClaimsVerification(e) => UserInfoErrorView::ClaimsVerification(*e),
            UserInfoError::Parse => UserInfoErrorView::Parse,
        }
    }
}

/// Whether the content type `actual` names the media type `expected`: it is
/// that text, or that text followed by `;` and parameters.
pub open spec fn names_media_type(actual: Seq<char>, expected: Seq<char>) -> bool {
    actual == expected || (has_prefix(actual, expected) && actual.len() > expected.len()
        && actual[expected.len() as int] == ';')
}

/// Tests whether a content type names a media type.
pub fn is_media_type(actual: &str, expected: &str) -> (b: bool)
    ensures
        b == names_media_type(actual@, expected@),
{
    if str_eq(actual, expected) {
        return true;
    }
    if !starts_with(actual, expected) {
        return false;
    }
    let n = actual.unicode_len();
    let e = expected.unicode_len();
    n > e && actual.get_char(e) == ';'
}

/// The error that stands for turned-down claims in the outcome of a
/// request: a body that is not JSON is a parse error.
pub open spec fn claims_failure(e: ClaimsVerificationError) -> UserInfoErrorView {
    if e == ClaimsVerificationError::Other(OtherReason::NotJson) {
        UserInfoErrorView::Parse
    } else {
        UserInfoErrorView::ClaimsVerification(e)
    }
}

/// The outcome of a UserInfo request, given the response to it: the status,
/// the content type where the response has one, and the body.
pub open spec fn user_info_outcome(
    verifier: UserInfoVerifierView,
    require_signed: bool,
    status: u16,
    content_type: Option<Seq<char>>,
    body: Seq<u8>,
) -> Result<UserInfoClaimsView, UserInfoErrorView> {
    if status != 200 {
        Err(UserInfoErrorView::Response(status, body))
    } else if content_type is Some && names_media_type(content_type->0, "application/json"@) {
        if require_signed {
            Err(UserInfoErrorView::ClaimsVerification(ClaimsVerificationError::NoSignature))
        } else {
            match verifier.json_verdict(body) {
                Ok(claims) => Ok(claims),
                Err(e) => Err(claims_failure(e)),
            }
        }
    } else if content_type is Some && names_media_type(content_type->0, "application/jwt"@) {
        match token_of(body) {
            Err(_) => Err(UserInfoErrorView::Parse),
            Ok(token) => match verifier.jwt_verdict(token) {
                Ok(claims) => Ok(claims),
                Err(e) => Err(claims_failure(e)),
            },
        }
    } else {
        Err(
            UserInfoErrorView::ContentType(
                match content_type {
                    Some(t) => t,
                    None => Seq::empty(),
                },
            ),
        )
    }
}

/// A request for the claims about the end user that an access token stands
/// for. The library says what to send and reads what came back; sending is
/// left to the caller.
pub struct UserInfoRequest {
    url: UserInfoUrl,
    access_token: AccessToken,
    require_signed_response: bool,
    signed_response_verifier: UserInfoVerifier,
}

/// What a UserInfo request holds, as plain values.
pub struct UserInfoRequestView {
    /// The UserInfo endpoint.
    pub url: Seq<char>,
    /// The access token.
    pub access_token: Seq<char>,
    /// Whether an unsigned response is turned down.
    pub require_signed_response: bool,
    /// The verifier of the response.
    pub verifier: UserInfoVerifierView,
}

impl View for UserInfoRequest {
    type V = UserInfoRequestView;

    closed spec fn view(&self) -> UserInfoRequestView {
        UserInfoRequestView {
            url: self.url@,
            access_token: self.access_token@,
            require_signed_response: self.require_signed_response,
            verifier: self.signed_response_verifier@,
        }
    }
}

/// Maps turned-down claims to the outcome of a request.
fn failure(e: ClaimsVerificationError) -> (r: UserInfoError)
    ensures
        r@ == claims_failure(e),
{
    match e {
        ClaimsVerificationError::Other(OtherReason::NotJson) => UserInfoError::Parse,
        _ => UserInfoError::ClaimsVerification(e),
    }
}

impl UserInfoRequest {
    /// A request to `url` with `access_token`, whose response is checked by
    /// `verifier`. Unsigned responses are accepted.
    pub fn new(url: UserInfoUrl, access_token: AccessToken, verifier: UserInfoVerifier) -> (r: Self)
        ensures
            r@ == (UserInfoRequestView {
                url: url@,
                access_token: access_token@,
                require_signed_response: false,
                verifier: verifier@,
            }),
    {
        UserInfoRequest {
            url,
            access_token,
            require_signed_response: false,
            signed_response_verifier: verifier,
        }
    }

    /// Says whether an unsigned response is to be turned down.
    pub fn require_signed_response(self, require_signed_response: bool) -> (r: Self)
        ensures
            r@ == (UserInfoRequestView { require_signed_response, ..self@ }),
    {
        let mut r = self;
        r.require_signed_response = require_signed_response;
        r
    }

    /// The URL to send the request to.
    pub fn url(&self) -> (r: &UserInfoUrl)
        ensures
            r@ == self@.url,
    {
        &self.url
    }

    /// The value of the `Authorization` header of the request: the access
    /// token as a bearer token.
    pub fn authorization_header(&self) -> (r: String)
        ensures
            r@ == "Bearer "@ + self@.access_token,
    {
        owned("Bearer ").concat(self.access_token.secret().as_str())
    }

    /// Reads the response to the request: a status other than 200 is an
    /// error; a JSON body holds the claims as they are, and is turned down
    /// where a signed response is required; a token body is verified and
    /// holds the claims as its payload; any other content type is an error.
    pub fn response(&self, status: u16, content_type: Option<&str>, body: &[u8]) -> (r: Result<
        UserInfoClaims,
        UserInfoError,
    >)
        ensures
            match r {
                Ok(c) => user_info_outcome(
                    self@.verifier,
                    self@.require_signed_response,
                    status,
                    match content_type {
                        Some(t) => Some(t@),
                        None => None,
                    },
                    body@,
                ) == Ok::<UserInfoClaimsView, UserInfoErrorView>(c@),
                Err(e) => user_info_outcome(
                    self@.verifier,
                    self@.require_signed_response,
                    status,
                    match content_type {
                        Some(t) => Some(t@),
                        None => None,
                    },
                    body@,
                ) == Err::<UserInfoClaimsView, UserInfoErrorView>(e@),
            },
    {
        if status != 200 {
            return Err(UserInfoError::Response(status, copy_bytes(body)));
        }
        let actual = match content_type {
            Some(t) => t,
            None => return Err(UserInfoError::ContentType(String::new())),
        };
        if is_media_type(actual, "application/json") {
            if self.require_signed_response {
                return Err(UserInfoError::ClaimsVerification(ClaimsVerificationError::NoSignature));
            }
            match self.signed_response_verifier.verified_json(body) {
                Ok(claims) => Ok(claims),
                Err(e) => Err(failure(e)),
            }
        } else if is_media_type(actual, "application/jwt") {
            let token = match JsonWebToken::parse(body) {
                Ok(t) => t,
                Err(_) => return Err(UserInfoError::Parse),
            };
            match self.signed_response_verifier.verified_jwt(&token) {
                Ok(claims) => Ok(claims),
                Err(e) => Err(failure(e)),
            }
        } else {
            Err(UserInfoError::ContentType(owned(actual)))
        }
    }
}

/// A response that is accepted is about the expected end user, where one
/// is expected: a response about another end user is never accepted, signed
/// or not.
pub proof fn lemma_accepted_response_is_about_expected_subject(
    verifier: UserInfoVerifierView,
    doc: Seq<u8>,
    token: JsonWebTokenView,
)
    requires
        verifier.expected_subject is Some,
    ensures
        verifier.json_verdict(doc) is Ok ==> verifier.json_verdict(doc)->Ok_0.standard_claims.sub
            == verifier.expected_subject->0,
        verifier.jwt_verdict(token) is Ok ==> verifier.jwt_verdict(
            token,
        )->Ok_0.standard_claims.sub == verifier.expected_subject->0,
        verifier.jwt_verdict(token) is Ok ==> verifier.signature.signature_verdict(token) is Ok,
{
}

} // verus!
