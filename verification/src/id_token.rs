//! ID tokens: the claims of one, the verifier that decides whether to
//! believe them, and the token itself, which hands its claims out only to
//! a verifier.

use vstd::prelude::*;

use crate::claims::{standard_claims_of, ClaimName, StandardClaims, StandardClaimsView};
use crate::core_types::CoreJwsSigningAlgorithm;
use crate::json::{
    integer_member, json_integer, json_member_names, json_text, json_text_list, member_names,
    text_list_member, text_member,
};
use crate::jwk::JsonWebKeySet;
use crate::jwt::{
    copy_bytes, token_of, JsonWebToken, JsonWebTokenAlgorithm, JsonWebTokenError,
    JsonWebTokenHeader, JsonWebTokenView,
};
use crate::text::{owned, str_eq, text_views, texts};
use crate::types::{
    AccessToken, AccessTokenHash, Audience, AuthenticationContextClass,
    AuthenticationMethodReference, AuthorizationCode, AuthorizationCodeHash, ClientId,
    ClientSecret, IssuerUrl, Nonce,
};
use crate::verification::{
    hash_claim, hash_claim_of, ClaimsVerificationError, NonceVerifier, OtherReason,
    SignatureVerifier, SignatureVerifierView,
};

verus! {

/// What the claims of an ID token hold, as plain values.
pub struct IdTokenClaimsView {
    /// The issuer (`iss`).
    pub iss: Seq<char>,
    /// The audiences (`aud`), in order.
    pub aud: Seq<Seq<char>>,
    /// The expiration time (`exp`), in seconds since the epoch.
    pub exp: i64,
    /// The time of issue (`iat`), in seconds since the epoch.
    pub iat: i64,
    /// The time of authentication (`auth_time`), where it is given.
    pub auth_time: Option<i64>,
    /// The nonce (`nonce`), where there is one.
    pub nonce: Option<Seq<char>>,
    /// The authentication context class (`acr`), where it is given.
    pub acr: Option<Seq<char>>,
    /// The authentication methods (`amr`), where they are given.
    pub amr: Option<Seq<Seq<char>>>,
    /// The authorized party (`azp`), where there is one.
    pub azp: Option<Seq<char>>,
    /// The access token hash (`at_hash`), where there is one.
    pub at_hash: Option<Seq<char>>,
    /// The authorization code hash (`c_hash`), where there is one.
    pub c_hash: Option<Seq<char>>,
    /// The standard claims about the end user.
    pub standard_claims: StandardClaimsView,
    /// The JSON document that holds all claims, further ones included.
    pub document: Seq<u8>,
}

/// The audiences that `doc` names: one where `aud` is a string, those of the
/// array where it is an array of strings.
pub open spec fn audiences_of(doc: Seq<u8>) -> Option<Seq<Seq<char>>> {
    match json_text(doc, "aud"@) {
        Some(one) => Some(seq![one]),
        None => json_text_list(doc, "aud"@),
    }
}

/// The claims that the payload `doc` of an ID token holds; the first
/// required claim that is missing, as an error.
pub open spec fn id_token_claims_of(doc: Seq<u8>) -> Result<
    IdTokenClaimsView,
    ClaimsVerificationError,
> {
    if json_member_names(doc) is None {
        Err(ClaimsVerificationError::Other(OtherReason::NotJson))
    } else if json_text(doc, "iss"@) is None {
        Err(ClaimsVerificationError::MissingClaim(ClaimName::Issuer))
    } else if standard_claims_of(doc) is None {
        Err(ClaimsVerificationError::MissingClaim(ClaimName::Subject))
    } else if audiences_of(doc) is None {
        Err(ClaimsVerificationError::MissingClaim(ClaimName::Audience))
    } else if json_integer(doc, "exp"@) is None {
        Err(ClaimsVerificationError::MissingClaim(ClaimName::Expiration))
    } else if json_integer(doc, "iat"@) is None {
        Err(ClaimsVerificationError::MissingClaim(ClaimName::IssuedAt))
    } else {
        Ok(
            IdTokenClaimsView {
                iss: json_text(doc, "iss"@)->0,
                aud: audiences_of(doc)->0,
                exp: json_integer(doc, "exp"@)->0,
                iat: json_integer(doc, "iat"@)->0,
                auth_time: json_integer(doc, "auth_time"@),
                nonce: json_text(doc, "nonce"@),
                acr: json_text(doc, "acr"@),
                amr: json_text_list(doc, "amr"@),
                azp: json_text(doc, "azp"@),
                at_hash: json_text(doc, "at_hash"@),
                c_hash: json_text(doc, "c_hash"@),
                standard_claims: standard_claims_of(doc)->0,
                document: doc,
            },
        )
    }
}

/// The claims of an ID token. They cannot be printed for debugging, since
/// the nonce is among them.
#[derive(PartialEq, Eq)]
pub struct IdTokenClaims {
    issuer: String,
    audiences: Vec<Audience>,
    expiration: i64,
    issue_time: i64,
    auth_time: Option<i64>,
    nonce: Option<Nonce>,
    auth_context_ref: Option<AuthenticationContextClass>,
    auth_method_refs: Option<Vec<AuthenticationMethodReference>>,
    authorized_party: Option<ClientId>,
    access_token_hash: Option<AccessTokenHash>,
    code_hash: Option<AuthorizationCodeHash>,
    standard_claims: StandardClaims,
    document: Vec<u8>,
}

impl View for IdTokenClaims {
    type V = IdTokenClaimsView;

    closed spec fn view(&self) -> IdTokenClaimsView {
        IdTokenClaimsView {
            iss: self.issuer@,
            aud: texts(self.audiences@),
            exp: self.expiration,
            iat: self.issue_time,
            auth_time: self.auth_time,
            nonce: match self.nonce {
                Some(n) => Some(n@),
                None => None,
            },
            acr: match self.auth_context_ref {
                Some(a) => Some(a@),
                None => None,
            },
            amr: match self.auth_method_refs {
                Some(m) => Some(texts(m@)),
                None => None,
            },
            azp: match self.authorized_party {
                Some(a) => Some(a@),
                None => None,
            },
            at_hash: match self.access_token_hash {
                Some(h) => Some(h@),
                None => None,
            },
            c_hash: match self.code_hash {
                Some(h) => Some(h@),
                None => None,
            },
            standard_claims: self.standard_claims@,
            document: self.document@,
        }
    }
}

/// Wraps each string of a list as an audience.
pub(crate) fn audiences_from(list: Vec<String>) -> (r: Vec<Audience>)
    ensures
        texts(r@) == text_views(list@),
{
    let mut out: Vec<Audience> = Vec::new();
    let n = list.len();
    let mut i: usize = 0;
    assert(texts(out@) =~= text_views(list@).take(0));
    while i < n
        invariant
            n == list@.len(),
            i <= n,
            texts(out@) == text_views(list@).take(i as int),
        decreases n - i,
    {
        let ghost before = texts(out@);
        let entry = Audience::new(list[i].clone());
        let ghost t = entry@;
        out.push(entry);
        assert(texts(out@) =~= before.push(t));
        assert(before.push(t) =~= text_views(list@).take(i as int + 1));
        i = i + 1;
    }
    assert(text_views(list@).take(n as int) =~= text_views(list@));
    out
}

/// Wraps each string of a list as an authentication method reference.
pub(crate) fn method_references_from(list: Vec<String>) -> (r: Vec<AuthenticationMethodReference>)
    ensures
        texts(r@) == text_views(list@),
{
    let mut out: Vec<AuthenticationMethodReference> = Vec::new();
    let n = list.len();
    let mut i: usize = 0;
    assert(texts(out@) =~= text_views(list@).take(0));
    while i < n
        invariant
            n == list@.len(),
            i <= n,
            texts(out@) == text_views(list@).take(i as int),
        decreases n - i,
    {
        let ghost before = texts(out@);
        let entry = AuthenticationMethodReference::new(list[i].clone());
        let ghost t = entry@;
        out.push(entry);
        assert(texts(out@) =~= before.push(t));
        assert(before.push(t) =~= text_views(list@).take(i as int + 1));
        i = i + 1;
    }
    assert(text_views(list@).take(n as int) =~= text_views(list@));
    out
}

/// Reads the audiences of a document.
pub(crate) fn audiences_in(doc: &[u8]) -> (r: Option<Vec<Audience>>)
    ensures
        match r {
            Some(list) => audiences_of(doc@) == Some(texts(list@)),
            None => audiences_of(doc@) is None,
        },
{
    match text_member(doc, "aud") {
        Some(one) => {
            let mut list: Vec<String> = Vec::new();
            list.push(one);
            assert(text_views(list@) =~= seq![one@]);
            Some(audiences_from(list))
        },
        None => match text_list_member(doc, "aud") {
            Some(list) => Some(audiences_from(list)),
            None => None,
        },
    }
}

impl IdTokenClaims {
    /// Reads the claims of an ID token from its payload. The claims `iss`,
    /// `sub`, `aud`, `exp` and `iat` are required; `aud` may be one string
    /// or an array of strings. Only verifiers call this.
    pub(crate) fn from_json(doc: &[u8]) -> (r: Result<Self, ClaimsVerificationError>)
        ensures
            match r {
                Ok(c) => id_token_claims_of(doc@) == Ok::<
                    IdTokenClaimsView,
                    ClaimsVerificationError,
                >(c@),
                Err(e) => id_token_claims_of(doc@) == Err::<
                    IdTokenClaimsView,
                    ClaimsVerificationError,
                >(e),
            },
    {
        if member_names(doc).is_none() {
            return Err(ClaimsVerificationError::Other(OtherReason::NotJson));
        }
        let issuer = match text_member(doc, "iss") {
            Some(t) => t,
            None => return Err(ClaimsVerificationError::MissingClaim(ClaimName::Issuer)),
        };
        let standard_claims = match StandardClaims::from_json(doc) {
            Some(c) => c,
            None => return Err(ClaimsVerificationError::MissingClaim(ClaimName::Subject)),
        };
        let audiences = match audiences_in(doc) {
            Some(a) => a,
            None => return Err(ClaimsVerificationError::MissingClaim(ClaimName::Audience)),
        };
        let expiration = match integer_member(doc, "exp") {
            Some(t) => t,
            None => return Err(ClaimsVerificationError::MissingClaim(ClaimName::Expiration)),
        };
        let issue_time = match integer_member(doc, "iat") {
            Some(t) => t,
            None => return Err(ClaimsVerificationError::MissingClaim(ClaimName::IssuedAt)),
        };
        Ok(
            IdTokenClaims {
                issuer,
                audiences,
                expiration,
                issue_time,
                auth_time: integer_member(doc, "auth_time"),
                nonce: match text_member(doc, "nonce") {
                    Some(t) => Some(Nonce::new(t)),
                    None => None,
                },
                auth_context_ref: match text_member(doc, "acr") {
                    Some(t) => Some(AuthenticationContextClass::new(t)),
                    None => None,
                },
                auth_method_refs: match text_list_member(doc, "amr") {
                    Some(list) => Some(method_references_from(list)),
                    None => None,
                },
                authorized_party: match text_member(doc, "azp") {
                    Some(t) => Some(ClientId::new(t)),
                    None => None,
                },
                access_token_hash: match text_member(doc, "at_hash") {
                    Some(t) => Some(AccessTokenHash::new(t)),
                    None => None,
                },
                code_hash: match text_member(doc, "c_hash") {
                    Some(t) => Some(AuthorizationCodeHash::new(t)),
                    None => None,
                },
                standard_claims,
                document: copy_bytes(doc),
            },
        )
    }

    /// The issuer.
    pub fn issuer(&self) -> (r: &str)
        ensures
            r@ == self@.iss,
    {
        self.issuer.as_str()
    }

    /// The audiences, in order.
    pub fn audiences(&self) -> (r: &Vec<Audience>)
        ensures
            texts(r@) == self@.aud,
    {
        &self.audiences
    }

    /// The expiration time, in seconds since the epoch.
    pub fn expiration(&self) -> (r: i64)
        ensures
            r == self@.exp,
    {
        self.expiration
    }

    /// The time of issue, in seconds since the epoch.
    pub fn issue_time(&self) -> (r: i64)
        ensures
            r == self@.iat,
    {
        self.issue_time
    }

    /// The time of authentication, where it is given.
    pub fn auth_time(&self) -> (r: Option<i64>)
        ensures
            r == self@.auth_time,
    {
        self.auth_time
    }

    /// The nonce, where there is one.
    pub fn nonce(&self) -> (r: Option<&Nonce>)
        ensures
            match r {
                Some(n) => self@.nonce == Some(n@),
                None => self@.nonce is None,
            },
    {
        self.nonce.as_ref()
    }

    /// The authentication context class, where it is given.
    pub fn auth_context_ref(&self) -> (r: Option<&AuthenticationContextClass>)
        ensures
            match r {
                Some(a) => self@.acr == Some(a@),
                None => self@.acr is None,
            },
    {
        self.auth_context_ref.as_ref()
    }

    /// The authentication methods, where they are given.
    pub fn auth_method_refs(&self) -> (r: Option<&Vec<AuthenticationMethodReference>>)
        ensures
            match r {
                Some(m) => self@.amr == Some(texts(m@)),
                None => self@.amr is None,
            },
    {
        self.auth_method_refs.as_ref()
    }

    /// The authorized party, where there is one.
    pub fn authorized_party(&self) -> (r: Option<&ClientId>)
        ensures
            match r {
                Some(a) => self@.azp == Some(a@),
                None => self@.azp is None,
            },
    {
        self.authorized_party.as_ref()
    }

    /// The access token hash, where there is one.
    pub fn access_token_hash(&self) -> (r: Option<&AccessTokenHash>)
        ensures
            match r {
                Some(h) => self@.at_hash == Some(h@),
                None => self@.at_hash is None,
            },
    {
        self.access_token_hash.as_ref()
    }

    /// The authorization code hash, where there is one.
    pub fn code_hash(&self) -> (r: Option<&AuthorizationCodeHash>)
        ensures
            match r {
                Some(h) => self@.c_hash == Some(h@),
                None => self@.c_hash is None,
            },
    {
        self.code_hash.as_ref()
    }

    /// The standard claims about the end user.
    pub fn standard_claims(&self) -> (r: &StandardClaims)
        ensures
            r@ == self@.standard_claims,
    {
        &self.standard_claims
    }

    /// The JSON document that holds all claims, for reading claims beyond
    /// the standard ones.
    pub fn document(&self) -> (r: &[u8])
        ensures
            r@ == self@.document,
    {
        self.document.as_slice()
    }
}

/// What an ID token verifier holds, as plain values.
pub struct IdTokenVerifierView {
    /// The part that deals with signatures.
    pub signature: SignatureVerifierView,
    /// The identifier of this client.
    pub client_id: Seq<char>,
    /// The issuer that tokens must come from.
    pub issuer: Seq<char>,
    /// The clock skew that is tolerated, in seconds.
    pub clock_skew: u64,
    /// The longest time since issue that is tolerated, in seconds, where
    /// there is a limit.
    pub max_token_age: Option<u64>,
    /// The longest time since authentication that is tolerated, in seconds,
    /// where there is a limit.
    pub max_auth_age: Option<u64>,
    /// The authentication context classes of which a token must name one;
    /// empty where nothing is required.
    pub acr_values: Seq<Seq<char>>,
}

/// The outcome of comparing a hash claim with the token it should belong
/// to: nothing is compared unless both are there.
pub open spec fn hash_matches(
    alg: CoreJwsSigningAlgorithm,
    claim: Option<Seq<char>>,
    token: Option<Seq<char>>,
) -> bool {
    claim is Some && token is Some ==> hash_claim_of(alg, token->0) == claim
}

/// The outcome of the checks on the two hash claims.
pub open spec fn hash_verdict(
    alg: CoreJwsSigningAlgorithm,
    claims: IdTokenClaimsView,
    access_token: Option<Seq<char>>,
    code: Option<Seq<char>>,
) -> Result<(), ClaimsVerificationError> {
    if !hash_matches(alg, claims.at_hash, access_token) {
        Err(ClaimsVerificationError::InvalidAtHash)
    } else if !hash_matches(alg, claims.c_hash, code) {
        Err(ClaimsVerificationError::InvalidCHash)
    } else {
        Ok(())
    }
}

impl IdTokenVerifierView {
    /// The outcome of the checks on audience and authorized party: the
    /// audience names this client; with several audiences an authorized
    /// party is required; an authorized party is this client.
    pub open spec fn audience_verdict(self, claims: IdTokenClaimsView) -> Result<
        (),
        ClaimsVerificationError,
    > {
        if !claims.aud.contains(self.client_id) {
            Err(ClaimsVerificationError::InvalidAudience)
        } else if claims.aud.len() > 1 && claims.azp is None {
            Err(ClaimsVerificationError::MissingAzp)
        } else if claims.azp is Some && claims.azp->0 != self.client_id {
            Err(ClaimsVerificationError::InvalidAzp)
        } else {
            Ok(())
        }
    }

    /// The outcome of the checks on expiration and time of issue at the
    /// time `now`: the expiration lies after `now` less the clock skew; the
    /// time of issue lies not after `now` plus the clock skew, and not
    /// longer ago than the age limit.
    pub open spec fn time_verdict(self, claims: IdTokenClaimsView, now: i64) -> Result<
        (),
        ClaimsVerificationError,
    > {
        if !(claims.exp > now - self.clock_skew) {
            Err(ClaimsVerificationError::Expired)
        } else if claims.iat > now + self.clock_skew {
            Err(ClaimsVerificationError::Other(OtherReason::IssuedInFuture))
        } else if self.max_token_age is Some && now - claims.iat > self.max_token_age->0 {
            Err(ClaimsVerificationError::Other(OtherReason::TokenTooOld))
        } else {
            Ok(())
        }
    }

    /// The outcome of the checks on the authentication event at the time
    /// `now`: with an age limit, the time of authentication is given and
    /// lies within it; with required context classes, the class is given and
    /// is one of them.
    pub open spec fn authentication_verdict(self, claims: IdTokenClaimsView, now: i64) -> Result<
        (),
        ClaimsVerificationError,
    > {
        if self.max_auth_age is Some && claims.auth_time is None {
            Err(ClaimsVerificationError::MissingClaim(ClaimName::AuthTime))
        } else if self.max_auth_age is Some && now - claims.auth_time->0 > self.max_auth_age->0 {
            Err(ClaimsVerificationError::AuthTimeExceeded)
        } else if self.acr_values.len() > 0 && claims.acr is None {
            Err(ClaimsVerificationError::MissingClaim(ClaimName::AuthContextRef))
        } else if self.acr_values.len() > 0 && !self.acr_values.contains(claims.acr->0) {
            Err(ClaimsVerificationError::AcrMismatch)
        } else {
            Ok(())
        }
    }

    /// The outcome of the checks on the claims of a token whose signature
    /// was accepted: issuer, audience, times, nonce and authentication, in
    /// this order; the first failure is the outcome.
    pub open spec fn claims_verdict<N: NonceVerifier>(
        self,
        claims: IdTokenClaimsView,
        nonce_verifier: N,
        now: i64,
    ) -> Result<(), ClaimsVerificationError> {
        if claims.iss != self.issuer {
            Err(ClaimsVerificationError::InvalidIssuer)
        } else if self.audience_verdict(claims) is Err {
            self.audience_verdict(claims)
        } else if self.time_verdict(claims, now) is Err {
            self.time_verdict(claims, now)
        } else if nonce_verifier.verdict(claims.nonce) is Err {
            nonce_verifier.verdict(claims.nonce)
        } else {
            self.authentication_verdict(claims, now)
        }
    }

    /// The outcome of verifying a token: its claims, where the signature is
    /// accepted, the payload holds the required claims, and the claims pass
    /// every check; else the first failure.
    pub open spec fn verdict<N: NonceVerifier>(
        self,
        token: JsonWebTokenView,
        nonce_verifier: N,
        access_token: Option<Seq<char>>,
        code: Option<Seq<char>>,
        now: i64,
    ) -> Result<IdTokenClaimsView, ClaimsVerificationError> {
        match self.signature.signature_verdict(token) {
            Err(e) => Err(ClaimsVerificationError::SignatureVerification(e)),
            Ok(alg) => match id_token_claims_of(token.payload) {
                Err(e) => Err(e),
                Ok(claims) => if self.claims_verdict(claims, nonce_verifier, now) is Err {
                    Err(self.claims_verdict(claims, nonce_verifier, now)->Err_0)
                } else if hash_verdict(alg, claims, access_token, code) is Err {
                    Err(hash_verdict(alg, claims, access_token, code)->Err_0)
                } else {
                    Ok(claims)
                },
            },
        }
    }
}

/// The view of an optional access token.
pub open spec fn access_token_view(token: Option<&AccessToken>) -> Option<Seq<char>> {
    match token {
        Some(t) => Some(t@),
        None => None,
    }
}

/// The view of an optional authorization code.
pub open spec fn code_view(code: Option<&AuthorizationCode>) -> Option<Seq<char>> {
    match code {
        Some(c) => Some(c@),
        None => None,
    }
}

/// Decides whether an ID token is to be believed.
pub struct IdTokenVerifier {
    signature: SignatureVerifier,
    client_id: ClientId,
    issuer: IssuerUrl,
    clock_skew: u64,
    max_token_age: Option<u64>,
    max_auth_age: Option<u64>,
    acr_values: Vec<AuthenticationContextClass>,
}

impl View for IdTokenVerifier {
    type V = IdTokenVerifierView;

    closed spec fn view(&self) -> IdTokenVerifierView {
        IdTokenVerifierView {
            signature: self.signature@,
            client_id: self.client_id@,
            issuer: self.issuer@,
            clock_skew: self.clock_skew,
            max_token_age: self.max_token_age,
            max_auth_age: self.max_auth_age,
            acr_values: texts(self.acr_values@),
        }
    }
}

/// The verifier of a client without further settings: `RS256` only, no
/// unsigned tokens, no clock skew, no limits on age, no required context
/// class.
pub open spec fn default_verifier(
    client_id: Seq<char>,
    client_secret: Option<Seq<char>>,
    issuer: Seq<char>,
    jwks: Seq<crate::jwk::JsonWebKeyView>,
) -> IdTokenVerifierView {
    IdTokenVerifierView {
        signature: SignatureVerifierView {
            client_secret,
            jwks,
            allowed_algs: Some(seq![CoreJwsSigningAlgorithm::RsaSsaPkcs1V15Sha256]),
            accept_unsigned: false,
        },
        client_id,
        issuer,
        clock_skew: 0,
        max_token_age: None,
        max_auth_age: None,
        acr_values: Seq::empty(),
    }
}

/// Whether a hash claim belongs to a token; nothing is compared unless both
/// are there.
fn hash_claim_matches(alg: CoreJwsSigningAlgorithm, claim: Option<&str>, token: Option<&str>) -> (b:
    bool)
    ensures
        b == hash_matches(
            alg,
            match claim {
                Some(c) => Some(c@),
                None => None,
            },
            match token {
                Some(t) => Some(t@),
                None => None,
            },
        ),
{
    match (claim, token) {
        (Some(c), Some(t)) => match hash_claim(alg, t) {
            Some(expected) => str_eq(expected.as_str(), c),
            None => false,
        },
        _ => true,
    }
}

impl IdTokenVerifier {
    /// A verifier for a public client, one without a secret. It accepts no
    /// token signed with a symmetric algorithm.
    pub fn new_public_client(client_id: ClientId, issuer: IssuerUrl, jwks: JsonWebKeySet) -> (r:
        Self)
        ensures
            r@ == default_verifier(client_id@, None, issuer@, jwks@),
    {
        let r = IdTokenVerifier {
            signature: SignatureVerifier::new(None, jwks),
            client_id,
            issuer,
            clock_skew: 0,
            max_token_age: None,
            max_auth_age: None,
            acr_values: Vec::new(),
        };
        assert(r@.acr_values =~= Seq::empty());
        r
    }

    /// A verifier for a confidential client, whose secret is the key of
    /// tokens signed with a symmetric algorithm.
    pub fn new_confidential_client(
        client_id: ClientId,
        client_secret: ClientSecret,
        issuer: IssuerUrl,
        jwks: JsonWebKeySet,
    ) -> (r: Self)
        ensures
            r@ == default_verifier(client_id@, Some(client_secret@), issuer@, jwks@),
    {
        let r = IdTokenVerifier {
            signature: SignatureVerifier::new(Some(client_secret), jwks),
            client_id,
            issuer,
            clock_skew: 0,
            max_token_age: None,
            max_auth_age: None,
            acr_values: Vec::new(),
        };
        assert(r@.acr_values =~= Seq::empty());
        r
    }

    /// Allows the signing algorithms given and no others.
    pub fn set_allowed_algs(self, algs: Vec<CoreJwsSigningAlgorithm>) -> (r: Self)
        ensures
            r@ == (IdTokenVerifierView {
                signature: SignatureVerifierView { allowed_algs: Some(algs@), ..self@.signature },
                ..self@
            }),
    {
        let mut r = self;
        r.signature = r.signature.set_allowed_algs(algs);
        r
    }

    /// Allows every signing algorithm.
    pub fn allow_any_alg(self) -> (r: Self)
        ensures
            r@ == (IdTokenVerifierView {
                signature: SignatureVerifierView { allowed_algs: None, ..self@.signature },
                ..self@
            }),
    {
        let mut r = self;
        r.signature = r.signature.allow_any_alg();
        r
    }

    /// Accepts tokens without a signature, where the algorithm `none` is
    /// allowed. Such tokens prove nothing about who made them.
    pub fn insecure_accept_unsigned(self) -> (r: Self)
        ensures
            r@ == (IdTokenVerifierView {
                signature: SignatureVerifierView { accept_unsigned: true, ..self@.signature },
                ..self@
            }),
    {
        let mut r = self;
        r.signature = r.signature.insecure_accept_unsigned();
        r
    }

    /// Tolerates a difference of `seconds` between the clocks of provider
    /// and client.
    pub fn set_clock_skew(self, seconds: u64) -> (r: Self)
        ensures
            r@ == (IdTokenVerifierView { clock_skew: seconds, ..self@ }),
    {
        let mut r = self;
        r.clock_skew = seconds;
        r
    }

    /// Accepts only tokens issued at most `seconds` ago.
    pub fn set_max_token_age(self, seconds: u64) -> (r: Self)
        ensures
            r@ == (IdTokenVerifierView { max_token_age: Some(seconds), ..self@ }),
    {
        let mut r = self;
        r.max_token_age = Some(seconds);
        r
    }

    /// Accepts only tokens whose end user authenticated at most `seconds`
    /// ago.
    pub fn set_max_auth_age(self, seconds: u64) -> (r: Self)
        ensures
            r@ == (IdTokenVerifierView { max_auth_age: Some(seconds), ..self@ }),
    {
        let mut r = self;
        r.max_auth_age = Some(seconds);
        r
    }

    /// Accepts only tokens that name one of the authentication context
    /// classes given; any token where none is given.
    pub fn set_required_acr_values(self, values: Vec<AuthenticationContextClass>) -> (r: Self)
        ensures
            r@ == (IdTokenVerifierView { acr_values: texts(values@), ..self@ }),
    {
        let mut r = self;
        r.acr_values = values;
        r
    }

    /// Checks audience and authorized party.
    pub fn check_audience(&self, claims: &IdTokenClaims) -> (r: Result<
        (),
        ClaimsVerificationError,
    >)
        ensures
            r == self@.audience_verdict(claims@),
    {
        let n = claims.audiences.len();
        let mut named = false;
        let mut i: usize = 0;
        while i < n && !named
            invariant
                n == claims.audiences@.len(),
                i <= n,
                claims@.aud == texts(claims.audiences@),
                !named ==> forall|j: int| 0 <= j < i ==> claims@.aud[j] != self@.client_id,
                named ==> claims@.aud.contains(self@.client_id),
            decreases n - i + if named { 0int } else { 1int },
        {
            if str_eq(claims.audiences[i].as_str(), self.client_id.as_str()) {
                assert(claims@.aud[i as int] == self@.client_id);
                named = true;
            } else {
                i = i + 1;
            }
        }
        if !named {
            return Err(ClaimsVerificationError::InvalidAudience);
        }
        match &claims.authorized_party {
            None => {
                if n > 1 {
                    Err(ClaimsVerificationError::MissingAzp)
                } else {
                    Ok(())
                }
            },
            Some(azp) => {
                if str_eq(azp.as_str(), self.client_id.as_str()) {
                    Ok(())
                } else {
                    Err(ClaimsVerificationError::InvalidAzp)
                }
            },
        }
    }

    /// Checks expiration and time of issue at the time `now`, in seconds
    /// since the epoch.
    pub fn check_times(&self, claims: &IdTokenClaims, now: i64) -> (r: Result<
        (),
        ClaimsVerificationError,
    >)
        ensures
            r == self@.time_verdict(claims@, now),
    {
        let now_wide = now as i128;
        let skew = self.clock_skew as i128;
        if !(claims.expiration as i128 > now_wide - skew) {
            return Err(ClaimsVerificationError::Expired);
        }
        if claims.issue_time as i128 > now_wide + skew {
            return Err(ClaimsVerificationError::Other(OtherReason::IssuedInFuture));
        }
        match self.max_token_age {
            Some(limit) => {
                if now_wide - claims.issue_time as i128 > limit as i128 {
                    return Err(ClaimsVerificationError::Other(OtherReason::TokenTooOld));
                }
            },
            None => {},
        }
        Ok(())
    }

    /// Checks the claims about the authentication event at the time `now`.
    #[verifier::loop_isolation(false)]
    pub fn check_authentication(&self, claims: &IdTokenClaims, now: i64) -> (r: Result<
        (),
        ClaimsVerificationError,
    >)
        ensures
            r == self@.authentication_verdict(claims@, now),
    {
        match self.max_auth_age {
            Some(limit) => match claims.auth_time {
                None => {
                    return Err(ClaimsVerificationError::MissingClaim(ClaimName::AuthTime));
                },
                Some(at) => {
                    if now as i128 - at as i128 > limit as i128 {
                        return Err(ClaimsVerificationError::AuthTimeExceeded);
                    }
                },
            },
            None => {},
        }
        let n = self.acr_values.len();
        if n == 0 {
            return Ok(());
        }
        let acr = match &claims.auth_context_ref {
            Some(a) => a,
            None => {
                return Err(ClaimsVerificationError::MissingClaim(ClaimName::AuthContextRef));
            },
        };
        let mut i: usize = 0;
        while i < n
            invariant
                n == self.acr_values@.len(),
                i <= n,
                self@.acr_values == texts(self.acr_values@),
                claims@.acr == Some(acr@),
                forall|j: int| 0 <= j < i ==> self@.acr_values[j] != acr@,
            decreases n - i,
        {
            if str_eq(self.acr_values[i].as_str(), acr.as_str()) {
                assert(self@.acr_values[i as int] == acr@);
                return Ok(());
            }
            i = i + 1;
        }
        Err(ClaimsVerificationError::AcrMismatch)
    }

    /// Checks the claims of a token whose signature was accepted, at the
    /// time `now`: issuer, audience, times, nonce and authentication.
    pub fn check_claims<N: NonceVerifier>(
        &self,
        claims: &IdTokenClaims,
        nonce_verifier: &N,
        now: i64,
    ) -> (r: Result<(), ClaimsVerificationError>)
        ensures
            r == self@.claims_verdict(claims@, *nonce_verifier, now),
    {
        if !str_eq(claims.issuer.as_str(), self.issuer.as_str()) {
            return Err(ClaimsVerificationError::InvalidIssuer);
        }
        match self.check_audience(claims) {
            Err(e) => return Err(e),
            Ok(_) => {},
        }
        match self.check_times(claims, now) {
            Err(e) => return Err(e),
            Ok(_) => {},
        }
        match nonce_verifier.verify(claims.nonce.as_ref()) {
            Err(e) => return Err(e),
            Ok(_) => {},
        }
        self.check_authentication(claims, now)
    }

    /// Checks the hash claims of a token against the access token and the
    /// authorization code that came with it, as far as they are given.
    pub fn check_hashes(
        alg: CoreJwsSigningAlgorithm,
        claims: &IdTokenClaims,
        access_token: Option<&AccessToken>,
        code: Option<&AuthorizationCode>,
    ) -> (r: Result<(), ClaimsVerificationError>)
        ensures
            r == hash_verdict(alg, claims@, access_token_view(access_token), code_view(code)),
    {
        let at_hash = match &claims.access_token_hash {
            Some(h) => Some(h.as_str()),
            None => None,
        };
        let token = match access_token {
            Some(t) => Some(t.secret().as_str()),
            None => None,
        };
        if !hash_claim_matches(alg, at_hash, token) {
            return Err(ClaimsVerificationError::InvalidAtHash);
        }
        let c_hash = match &claims.code_hash {
            Some(h) => Some(h.as_str()),
            None => None,
        };
        let code_text = match code {
            Some(c) => Some(c.secret().as_str()),
            None => None,
        };
        if !hash_claim_matches(alg, c_hash, code_text) {
            return Err(ClaimsVerificationError::InvalidCHash);
        }
        Ok(())
    }

    /// Verifies a token at the time `now`, in seconds since the epoch, and
    /// returns its claims: checks the algorithm of the header, picks the
    /// key, checks the signature, reads the claims, and checks them. The
    /// hash claims are compared with `access_token` and `code` as far as
    /// those are given. No claims are returned after a failed check.
    pub fn verified_claims<N: NonceVerifier>(
        &self,
        token: &JsonWebToken,
        nonce_verifier: &N,
        access_token: Option<&AccessToken>,
        code: Option<&AuthorizationCode>,
        now: i64,
    ) -> (r: Result<IdTokenClaims, ClaimsVerificationError>)
        ensures
            match r {
                Ok(claims) => self@.verdict(
                    token@,
                    *nonce_verifier,
                    access_token_view(access_token),
                    code_view(code),
                    now,
                ) == Ok::<IdTokenClaimsView, ClaimsVerificationError>(claims@),
                Err(e) => self@.verdict(
                    token@,
                    *nonce_verifier,
                    access_token_view(access_token),
                    code_view(code),
                    now,
                ) == Err::<IdTokenClaimsView, ClaimsVerificationError>(e),
            },
    {
        let alg = match self.signature.check_signature(token) {
            Ok(alg) => alg,
            Err(e) => return Err(ClaimsVerificationError::SignatureVerification(e)),
        };
        let claims = match IdTokenClaims::from_json(token.unverified_payload()) {
            Ok(c) => c,
            Err(e) => return Err(e),
        };
        match self.check_claims(&claims, nonce_verifier, now) {
            Err(e) => return Err(e),
            Ok(_) => {},
        }
        match IdTokenVerifier::check_hashes(alg, &claims, access_token, code) {
            Err(e) => return Err(e),
            Ok(_) => {},
        }
        Ok(claims)
    }
}

/// What an ID token holds, as plain values.
pub struct IdTokenView {
    /// The token, taken apart.
    pub jwt: JsonWebTokenView,
    /// The compact form, as text.
    pub text: Seq<char>,
}

/// The ID token that the compact form `text` describes.
pub open spec fn id_token_of(text: Seq<char>) -> Result<IdTokenView, JsonWebTokenError> {
    match token_of(vstd::utf8::encode_utf8(text)) {
        Ok(jwt) => Ok(IdTokenView { jwt, text }),
        Err(e) => Err(e),
    }
}

/// An ID token as it arrived. Its claims are reached through
/// [`IdToken::claims`] alone, which asks a verifier.
#[derive(Debug, PartialEq, Eq)]
pub struct IdToken {
    jwt: JsonWebToken,
    text: String,
}

impl View for IdToken {
    type V = IdTokenView;

    closed spec fn view(&self) -> IdTokenView {
        IdTokenView { jwt: self.jwt@, text: self.text@ }
    }
}

impl IdToken {
    /// A token is what its compact form says.
    #[verifier::type_invariant]
    spec fn matches_compact_form(&self) -> bool {
        id_token_of(self.text@) == Ok::<IdTokenView, JsonWebTokenError>(self@)
    }

    /// Reads an ID token from its compact form.
    pub fn from_str(text: &str) -> (r: Result<Self, JsonWebTokenError>)
        ensures
            match r {
                Ok(t) => id_token_of(text@) == Ok::<IdTokenView, JsonWebTokenError>(t@),
                Err(e) => id_token_of(text@) == Err::<IdTokenView, JsonWebTokenError>(e),
            },
    {
        match JsonWebToken::parse(text.as_bytes()) {
            Ok(jwt) => Ok(IdToken { jwt, text: owned(text) }),
            Err(e) => Err(e),
        }
    }

    /// The compact form that the token was read from. Reading it gives the
    /// same token back.
    pub fn to_string(&self) -> (r: String)
        ensures
            r@ == self@.text,
            id_token_of(r@) == Ok::<IdTokenView, JsonWebTokenError>(self@),
    {
        proof {
            use_type_invariant(self);
        }
        self.text.clone()
    }

    /// A copy of the header.
    pub fn header(&self) -> (r: JsonWebTokenHeader)
        ensures
            r@ == self@.jwt.header,
    {
        self.jwt.header()
    }

    /// The signing algorithm that the header names; an error where the
    /// header names an encryption algorithm.
    pub fn signing_alg(&self) -> (r: Result<CoreJwsSigningAlgorithm, JsonWebTokenError>)
        ensures
            r == match self@.jwt.header.alg {
                JsonWebTokenAlgorithm::Signature(alg) => Ok::<
                    CoreJwsSigningAlgorithm,
                    JsonWebTokenError,
                >(alg),
                JsonWebTokenAlgorithm::Encryption(_) => Err::<
                    CoreJwsSigningAlgorithm,
                    JsonWebTokenError,
                >(JsonWebTokenError::UnsupportedAlg),
            },
    {
        match self.jwt.header_ref().algorithm() {
            JsonWebTokenAlgorithm::Signature(alg) => Ok(alg),
            JsonWebTokenAlgorithm::Encryption(_) => Err(JsonWebTokenError::UnsupportedAlg),
        }
    }

    /// The token, taken apart.
    pub fn token(&self) -> (r: &JsonWebToken)
        ensures
            r@ == self@.jwt,
    {
        &self.jwt
    }

    /// The claims of the token, where `verifier` accepts it at the time
    /// `now`; see [`IdTokenVerifier::verified_claims`].
    pub fn claims<N: NonceVerifier>(
        &self,
        verifier: &IdTokenVerifier,
        nonce_verifier: &N,
        access_token: Option<&AccessToken>,
        code: Option<&AuthorizationCode>,
        now: i64,
    ) -> (r: Result<IdTokenClaims, ClaimsVerificationError>)
        ensures
            match r {
                Ok(claims) => verifier@.verdict(
                    self@.jwt,
                    *nonce_verifier,
                    access_token_view(access_token),
                    code_view(code),
                    now,
                ) == Ok::<IdTokenClaimsView, ClaimsVerificationError>(claims@),
                Err(e) => verifier@.verdict(
                    self@.jwt,
                    *nonce_verifier,
                    access_token_view(access_token),
                    code_view(code),
                    now,
                ) == Err::<IdTokenClaimsView, ClaimsVerificationError>(e),
            },
    {
        verifier.verified_claims(&self.jwt, nonce_verifier, access_token, code, now)
    }
}

impl Clone for IdToken {
    fn clone(&self) -> (r: Self)
        ensures
            r@ == self@,
    {
        proof {
            use_type_invariant(self);
        }
        IdToken { jwt: self.jwt.clone(), text: self.text.clone() }
    }
}

/// A token without a signature is turned down with `DisallowedAlg` by every
/// verifier that was not told to accept unsigned tokens, whatever else the
/// token and the verifier hold.
pub proof fn lemma_unsigned_token_rejected<N: NonceVerifier>(
    verifier: IdTokenVerifierView,
    token: JsonWebTokenView,
    nonce_verifier: N,
    access_token: Option<Seq<char>>,
    code: Option<Seq<char>>,
    now: i64,
)
    requires
        token.header.alg == JsonWebTokenAlgorithm::Signature(CoreJwsSigningAlgorithm::Unsigned),
        !verifier.signature.accept_unsigned,
    ensures
        verifier.verdict(token, nonce_verifier, access_token, code, now) == Err::<
            IdTokenClaimsView,
            ClaimsVerificationError,
        >(
            ClaimsVerificationError::SignatureVerification(
                crate::signing::SignatureVerificationError::DisallowedAlg,
            ),
        ),
{
}

/// A token whose algorithm is not in the set of algorithms that the
/// verifier allows is turned down with `DisallowedAlg`, whatever else the
/// token and the verifier hold. An encryption algorithm is in no such set.
pub proof fn lemma_disallowed_algorithm_rejected<N: NonceVerifier>(
    verifier: IdTokenVerifierView,
    token: JsonWebTokenView,
    nonce_verifier: N,
    access_token: Option<Seq<char>>,
    code: Option<Seq<char>>,
    now: i64,
)
    requires
        verifier.signature.allowed_algs is Some,
        token.header.alg is Signature ==> !verifier.signature.allowed_algs->0.contains(
            token.header.alg->Signature_0,
        ),
    ensures
        verifier.verdict(token, nonce_verifier, access_token, code, now) == Err::<
            IdTokenClaimsView,
            ClaimsVerificationError,
        >(
            ClaimsVerificationError::SignatureVerification(
                crate::signing::SignatureVerificationError::DisallowedAlg,
            ),
        ),
{
}

/// Verification is deterministic: two outcomes of verifying the same token
/// with the same verifier, nonce verifier, access token and code at the
/// same time are the same outcome. This holds for every algorithm.
pub proof fn lemma_verification_deterministic<N: NonceVerifier>(
    verifier: IdTokenVerifierView,
    token: JsonWebTokenView,
    nonce_verifier: N,
    access_token: Option<Seq<char>>,
    code: Option<Seq<char>>,
    now: i64,
    first: Result<IdTokenClaimsView, ClaimsVerificationError>,
    second: Result<IdTokenClaimsView, ClaimsVerificationError>,
)
    requires
        first == verifier.verdict(token, nonce_verifier, access_token, code, now),
        second == verifier.verdict(token, nonce_verifier, access_token, code, now),
    ensures
        first == second,
{
}

/// No claims are returned unless every check has passed: an accepted token
/// has an accepted signature, carries the claims of its payload, and those
/// claims pass the checks on claims and on hashes.
pub proof fn lemma_claims_only_after_checks<N: NonceVerifier>(
    verifier: IdTokenVerifierView,
    token: JsonWebTokenView,
    nonce_verifier: N,
    access_token: Option<Seq<char>>,
    code: Option<Seq<char>>,
    now: i64,
)
    requires
        verifier.verdict(token, nonce_verifier, access_token, code, now) is Ok,
    ensures
        verifier.signature.signature_verdict(token) is Ok,
        id_token_claims_of(token.payload) == Ok::<IdTokenClaimsView, ClaimsVerificationError>(
            verifier.verdict(token, nonce_verifier, access_token, code, now)->Ok_0,
        ),
        verifier.claims_verdict(
            verifier.verdict(token, nonce_verifier, access_token, code, now)->Ok_0,
            nonce_verifier,
            now,
        ) is Ok,
        hash_verdict(
            verifier.signature.signature_verdict(token)->Ok_0,
            verifier.verdict(token, nonce_verifier, access_token, code, now)->Ok_0,
            access_token,
            code,
        ) is Ok,
        verifier.verdict(token, nonce_verifier, access_token, code, now)->Ok_0.iss
            == verifier.issuer,
        verifier.verdict(token, nonce_verifier, access_token, code, now)->Ok_0.aud.contains(
            verifier.client_id,
        ),
{
}

} // verus!
