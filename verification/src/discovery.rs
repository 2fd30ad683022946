//! Provider discovery: where the metadata document of an issuer is found,
//! what it holds, and the check that it speaks for the issuer it was asked
//! of.

use vstd::prelude::*;

use crate::core_types::CoreJwsSigningAlgorithm;
use crate::endpoint::url_parses;
use crate::json::{json_text, json_text_list, text_list_member, text_member};
use crate::jwk::{key_set_of_json, JsonWebKeySet, JsonWebKeyView};
use crate::jwt::copy_bytes;
use crate::text::{ends_with, has_suffix, owned, str_eq, text_views};
use crate::types::{AuthUrl, IssuerUrl, JsonWebKeySetUrl, TokenUrl, UserInfoUrl};
use crate::user_info::{is_media_type, names_media_type};

verus! {

/// Why a metadata document was turned down although it could be read.
#[derive(Clone, Copy, Debug, PartialEq, Eq, Structural)]
pub enum ValidationFailure {
    /// The document names another issuer than the one it was asked of.
    IssuerMismatch,
    /// The issuer already ends with the path of the metadata document.
    IssuerHasSuffix,
}

/// Why the metadata of a provider could not be had.
#[derive(Debug, PartialEq, Eq)]
pub enum DiscoveryError {
    /// The request could not be made or answered.
    Request,
    /// The response is not a metadata document.
    Parse,
    /// The provider answered with a status other than 200; the status and
    /// the body of the answer.
    Response(u16, Vec<u8>),
    /// The document was read and turned down.
    ValidationError(ValidationFailure),
}

/// Why the metadata of a provider could not be had, as plain values.
pub enum DiscoveryErrorView {
    /// The request could not be made or answered.
    Request,
    /// The response is not a metadata document.
    Parse,
    /// A status other than 200, with the body.
    Response(u16, Seq<u8>),
    /// The document was read and turned down.
    ValidationError(ValidationFailure),
}

impl View for DiscoveryError {
    type V = DiscoveryErrorView;

    open spec fn view(&self) -> DiscoveryErrorView {
        match self {
            DiscoveryError::Request => DiscoveryErrorView::Request,
            DiscoveryError::Parse => DiscoveryErrorView::Parse,
            DiscoveryError::Response(status, body) => DiscoveryErrorView::Response(*status, body@),
            DiscoveryError::ValidationError(f) => DiscoveryErrorView::ValidationError(*f),
        }
    }
}

/// The URL of the metadata document of `issuer`: the issuer, one `/`, and
/// the well-known path. A `/` at the end of the issuer serves as that `/`;
/// the path of the issuer stays as it is.
pub open spec fn discovery_url_text(issuer: Seq<char>) -> Seq<char> {
    if has_suffix(issuer, "/"@) {
        issuer + ".well-known/openid-configuration"@
    } else {
        issuer + "/"@ + ".well-known/openid-configuration"@
    }
}

/// Builds the URL of the metadata document of an issuer. An issuer that
/// already ends with the path of the document is turned down.
pub fn discovery_url(issuer: &IssuerUrl) -> (r: Result<String, DiscoveryError>)
    ensures
        match r {
            Ok(url) => !has_suffix(issuer@, "/.well-known/openid-configuration"@) && url@
                == discovery_url_text(issuer@),
            Err(e) => has_suffix(issuer@, "/.well-known/openid-configuration"@) && e@
                == DiscoveryErrorView::ValidationError(ValidationFailure::IssuerHasSuffix),
        },
{
    let text = issuer.as_str();
    if ends_with(text, "/.well-known/openid-configuration") {
        return Err(DiscoveryError::ValidationError(ValidationFailure::IssuerHasSuffix));
    }
    let base = if ends_with(text, "/") {
        owned(text)
    } else {
        owned(text).concat("/")
    };
    Ok(base.concat(".well-known/openid-configuration"))
}

/// The signing algorithms among `names` that are known, in order.
pub open spec fn known_algorithms(names: Seq<Seq<char>>) -> Seq<CoreJwsSigningAlgorithm>
    decreases names.len(),
{
    if names.len() == 0 {
        Seq::empty()
    } else {
        let before = known_algorithms(names.drop_last());
        match CoreJwsSigningAlgorithm::named(names.last()) {
            Some(alg) => before.push(alg),
            None => before,
        }
    }
}

/// The algorithms among `algs` whose signatures this library can check, in
/// order.
pub open spec fn implemented_algorithms(algs: Seq<CoreJwsSigningAlgorithm>) -> Seq<
    CoreJwsSigningAlgorithm,
>
    decreases algs.len(),
{
    if algs.len() == 0 {
        Seq::empty()
    } else {
        let before = implemented_algorithms(algs.drop_last());
        if algs.last().implemented() {
            before.push(algs.last())
        } else {
            before
        }
    }
}

/// Picks the known signing algorithms out of a list of names.
pub fn algorithms_from(names: &Vec<String>) -> (r: Vec<CoreJwsSigningAlgorithm>)
    ensures
        r@ == known_algorithms(text_views(names@)),
{
    let mut out: Vec<CoreJwsSigningAlgorithm> = Vec::new();
    let n = names.len();
    let mut i: usize = 0;
    assert(text_views(names@).take(0) =~= Seq::empty());
    while i < n
        invariant
            n == names@.len(),
            i <= n,
            out@ == known_algorithms(text_views(names@).take(i as int)),
        decreases n - i,
    {
        proof {
            let all = text_views(names@);
            assert(all.take(i as int + 1).drop_last() =~= all.take(i as int));
            assert(all.take(i as int + 1).last() == names@[i as int]@);
        }
        match CoreJwsSigningAlgorithm::from_text(names[i].as_str()) {
            Some(alg) => out.push(alg),
            None => {},
        }
        i = i + 1;
    }
    assert(text_views(names@).take(n as int) =~= text_views(names@));
    out
}

/// Picks out of a list of algorithms those whose signatures this library
/// can check.
pub fn implemented_from(algs: &Vec<CoreJwsSigningAlgorithm>) -> (r: Vec<CoreJwsSigningAlgorithm>)
    ensures
        r@ == implemented_algorithms(algs@),
{
    let mut out: Vec<CoreJwsSigningAlgorithm> = Vec::new();
    let n = algs.len();
    let mut i: usize = 0;
    assert(algs@.take(0) =~= Seq::empty());
    while i < n
        invariant
            n == algs@.len(),
            i <= n,
            out@ == implemented_algorithms(algs@.take(i as int)),
        decreases n - i,
    {
        proof {
            assert(algs@.take(i as int + 1).drop_last() =~= algs@.take(i as int));
            assert(algs@.take(i as int + 1).last() == algs@[i as int]);
        }
        if algs[i].is_implemented() {
            out.push(algs[i]);
        }
        i = i + 1;
    }
    assert(algs@.take(n as int) =~= algs@);
    out
}

/// What the metadata of a provider holds, as plain values.
pub struct ProviderMetadataView {
    /// The issuer (`issuer`).
    pub issuer: Seq<char>,
    /// The authorization endpoint (`authorization_endpoint`).
    pub authorization_endpoint: Seq<char>,
    /// The URL of the key set (`jwks_uri`).
    pub jwks_uri: Seq<char>,
    /// The response types that the provider supports, each as it is
    /// written (`response_types_supported`).
    pub response_types_supported: Seq<Seq<char>>,
    /// The subject identifier types that the provider supports
    /// (`subject_types_supported`).
    pub subject_types_supported: Seq<Seq<char>>,
    /// The known algorithms among those that the provider signs ID tokens
    /// with (`id_token_signing_alg_values_supported`).
    pub id_token_signing_alg_values_supported: Seq<CoreJwsSigningAlgorithm>,
    /// The token endpoint (`token_endpoint`), where there is one.
    pub token_endpoint: Option<Seq<char>>,
    /// The UserInfo endpoint (`userinfo_endpoint`), where there is one.
    pub userinfo_endpoint: Option<Seq<char>>,
    /// The scopes that the provider supports (`scopes_supported`), where it
    /// says so.
    pub scopes_supported: Option<Seq<Seq<char>>>,
    /// The claims that the provider may supply (`claims_supported`), where
    /// it says so.
    pub claims_supported: Option<Seq<Seq<char>>>,
    /// The keys of the provider, as far as they have been handed over.
    pub jwks: Seq<JsonWebKeyView>,
    /// The whole document, further members included.
    pub document: Seq<u8>,
}

/// Whether an optional member is absent or an absolute URL.
pub open spec fn absent_or_url(text: Option<Seq<char>>) -> bool {
    text is Some ==> url_parses(text->0)
}

/// Whether `doc` has every member that a metadata document must have, each
/// of the right kind, and an absolute URL wherever it names an endpoint.
pub open spec fn is_metadata(doc: Seq<u8>) -> bool {
    &&& json_text(doc, "issuer"@) is Some
    &&& url_parses(json_text(doc, "issuer"@)->0)
    &&& json_text(doc, "authorization_endpoint"@) is Some
    &&& url_parses(json_text(doc, "authorization_endpoint"@)->0)
    &&& json_text(doc, "jwks_uri"@) is Some
    &&& url_parses(json_text(doc, "jwks_uri"@)->0)
    &&& json_text_list(doc, "response_types_supported"@) is Some
    &&& json_text_list(doc, "subject_types_supported"@) is Some
    &&& json_text_list(doc, "id_token_signing_alg_values_supported"@) is Some
    &&& absent_or_url(json_text(doc, "token_endpoint"@))
    &&& absent_or_url(json_text(doc, "userinfo_endpoint"@))
}

/// The metadata that the JSON document `doc` holds, with no keys.
pub open spec fn metadata_of_json(doc: Seq<u8>) -> Option<ProviderMetadataView> {
    if is_metadata(doc) {
        Some(
            ProviderMetadataView {
                issuer: json_text(doc, "issuer"@)->0,
                authorization_endpoint: json_text(doc, "authorization_endpoint"@)->0,
                jwks_uri: json_text(doc, "jwks_uri"@)->0,
                response_types_supported: json_text_list(doc, "response_types_supported"@)->0,
                subject_types_supported: json_text_list(doc, "subject_types_supported"@)->0,
                id_token_signing_alg_values_supported: known_algorithms(
                    json_text_list(doc, "id_token_signing_alg_values_supported"@)->0,
                ),
                token_endpoint: json_text(doc, "token_endpoint"@),
                userinfo_endpoint: json_text(doc, "userinfo_endpoint"@),
                scopes_supported: json_text_list(doc, "scopes_supported"@),
                claims_supported: json_text_list(doc, "claims_supported"@),
                jwks: Seq::empty(),
                document: doc,
            },
        )
    } else {
        None
    }
}

/// The outcome of discovery for `issuer`, given the response to the request
/// for its metadata document.
pub open spec fn discovery_outcome(
    issuer: Seq<char>,
    status: u16,
    content_type: Option<Seq<char>>,
    body: Seq<u8>,
) -> Result<ProviderMetadataView, DiscoveryErrorView> {
    if status != 200 {
        Err(DiscoveryErrorView::Response(status, body))
    } else if !(content_type is Some && names_media_type(content_type->0, "application/json"@)) {
        Err(DiscoveryErrorView::Parse)
    } else {
        match metadata_of_json(body) {
            None => Err(DiscoveryErrorView::Parse),
            Some(metadata) => if metadata.issuer != issuer {
                Err(DiscoveryErrorView::ValidationError(ValidationFailure::IssuerMismatch))
            } else {
                Ok(metadata)
            },
        }
    }
}

/// The outcome of fetching a key set, given the response to the request for
/// it: the status must be 200 and the body a JSON key set.
pub open spec fn key_set_outcome(
    status: u16,
    content_type: Option<Seq<char>>,
    body: Seq<u8>,
    skip_unknown: bool,
) -> Result<Seq<JsonWebKeyView>, DiscoveryErrorView> {
    if status != 200 {
        Err(DiscoveryErrorView::Response(status, body))
    } else if !(content_type is Some && names_media_type(content_type->0, "application/json"@)) {
        Err(DiscoveryErrorView::Parse)
    } else {
        match key_set_of_json(body, skip_unknown) {
            Ok(keys) => Ok(keys),
            Err(_) => Err(DiscoveryErrorView::Parse),
        }
    }
}

/// Reads the response to the request for a key set. A key of an unknown
/// type makes the set fail unless `skip_unknown` is set.
pub fn key_set_from_response(
    status: u16,
    content_type: Option<&str>,
    body: &[u8],
    skip_unknown: bool,
) -> (r: Result<JsonWebKeySet, DiscoveryError>)
    ensures
        match r {
            Ok(set) => key_set_outcome(
                status,
                match content_type {
                    Some(t) => Some(t@),
                    None => None,
                },
                body@,
                skip_unknown,
            ) == Ok::<Seq<JsonWebKeyView>, DiscoveryErrorView>(set@),
            Err(e) => key_set_outcome(
                status,
                match content_type {
                    Some(t) => Some(t@),
                    None => None,
                },
                body@,
                skip_unknown,
            ) == Err::<Seq<JsonWebKeyView>, DiscoveryErrorView>(e@),
        },
{
    if status != 200 {
        return Err(DiscoveryError::Response(status, copy_bytes(body)));
    }
    let is_json = match content_type {
        Some(t) => is_media_type(t, "application/json"),
        None => false,
    };
    if !is_json {
        return Err(DiscoveryError::Parse);
    }
    match JsonWebKeySet::from_json(body, skip_unknown) {
        Ok(set) => Ok(set),
        Err(_) => Err(DiscoveryError::Parse),
    }
}

/// The view of an optional list of strings.
pub open spec fn optional_texts(list: Option<Vec<String>>) -> Option<Seq<Seq<char>>> {
    match list {
        Some(l) => Some(text_views(l@)),
        None => None,
    }
}

/// The metadata that a provider publishes about itself. A record of it does
/// not change once it is made, apart from being given the keys.
#[derive(Debug, PartialEq, Eq)]
pub struct ProviderMetadata {
    issuer: IssuerUrl,
    authorization_endpoint: AuthUrl,
    jwks_uri: JsonWebKeySetUrl,
    response_types_supported: Vec<String>,
    subject_types_supported: Vec<String>,
    id_token_signing_alg_values_supported: Vec<CoreJwsSigningAlgorithm>,
    token_endpoint: Option<TokenUrl>,
    userinfo_endpoint: Option<UserInfoUrl>,
    scopes_supported: Option<Vec<String>>,
    claims_supported: Option<Vec<String>>,
    jwks: JsonWebKeySet,
    document: Vec<u8>,
}

impl View for ProviderMetadata {
    type V = ProviderMetadataView;

    closed spec fn view(&self) -> ProviderMetadataView {
        ProviderMetadataView {
            issuer: self.issuer@,
            authorization_endpoint: self.authorization_endpoint@,
            jwks_uri: self.jwks_uri@,
            response_types_supported: text_views(self.response_types_supported@),
            subject_types_supported: text_views(self.subject_types_supported@),
            id_token_signing_alg_values_supported: self.id_token_signing_alg_values_supported@,
            token_endpoint: match self.token_endpoint {
                Some(u) => Some(u@),
                None => None,
            },
            userinfo_endpoint: match self.userinfo_endpoint {
                Some(u) => Some(u@),
                None => None,
            },
            scopes_supported: optional_texts(self.scopes_supported),
            claims_supported: optional_texts(self.claims_supported),
            jwks: self.jwks@,
            document: self.document@,
        }
    }
}

impl ProviderMetadataView {
    /// The same metadata without keys: what the document of the record
    /// holds.
    pub open spec fn without_keys(self) -> ProviderMetadataView {
        ProviderMetadataView { jwks: Seq::empty(), ..self }
    }
}

impl ProviderMetadata {
    /// A record is what its document says, apart from the keys.
    #[verifier::type_invariant]
    spec fn matches_document(&self) -> bool {
        metadata_of_json(self.document@) == Some(self@.without_keys())
    }

    /// Reads the metadata of a provider from its JSON document. The members
    /// `issuer`, `authorization_endpoint`, `jwks_uri`,
    /// `response_types_supported`, `subject_types_supported` and
    /// `id_token_signing_alg_values_supported` are required. The record
    /// holds no keys yet.
    pub fn from_json(doc: &[u8]) -> (r: Option<Self>)
        ensures
            match r {
                Some(m) => metadata_of_json(doc@) == Some(m@),
                None => metadata_of_json(doc@) is None,
            },
    {
        let issuer = match text_member(doc, "issuer") {
            Some(t) => match IssuerUrl::new(t) {
                Ok(u) => u,
                Err(_) => return None,
            },
            None => return None,
        };
        let authorization_endpoint = match text_member(doc, "authorization_endpoint") {
            Some(t) => match AuthUrl::new(t) {
                Ok(u) => u,
                Err(_) => return None,
            },
            None => return None,
        };
        let jwks_uri = match text_member(doc, "jwks_uri") {
            Some(t) => match JsonWebKeySetUrl::new(t) {
                Ok(u) => u,
                Err(_) => return None,
            },
            None => return None,
        };
        let response_types_supported = match text_list_member(doc, "response_types_supported") {
            Some(l) => l,
            None => return None,
        };
        let subject_types_supported = match text_list_member(doc, "subject_types_supported") {
            Some(l) => l,
            None => return None,
        };
        let alg_names = match text_list_member(doc, "id_token_signing_alg_values_supported") {
            Some(l) => l,
            None => return None,
        };
        let token_endpoint = match text_member(doc, "token_endpoint") {
            Some(t) => match TokenUrl::new(t) {
                Ok(u) => Some(u),
                Err(_) => return None,
            },
            None => None,
        };
        let userinfo_endpoint = match text_member(doc, "userinfo_endpoint") {
            Some(t) => match UserInfoUrl::new(t) {
                Ok(u) => Some(u),
                Err(_) => return None,
            },
            None => None,
        };
        let keys: Vec<crate::jwk::CoreJsonWebKey> = Vec::new();
        let jwks = JsonWebKeySet::new(keys);
        assert(jwks@ =~= Seq::empty());
        Some(
            ProviderMetadata {
                issuer,
                authorization_endpoint,
                jwks_uri,
                response_types_supported,
                subject_types_supported,
                id_token_signing_alg_values_supported: algorithms_from(&alg_names),
                token_endpoint,
                userinfo_endpoint,
                scopes_supported: text_list_member(doc, "scopes_supported"),
                claims_supported: text_list_member(doc, "claims_supported"),
                jwks,
                document: copy_bytes(doc),
            },
        )
    }

    /// Reads the response to the request for the metadata document of
    /// `issuer`: the status must be 200 and the body a JSON metadata
    /// document that names exactly this issuer. The keys are not fetched.
    pub fn from_response(
        issuer: &IssuerUrl,
        status: u16,
        content_type: Option<&str>,
        body: &[u8],
    ) -> (r: Result<Self, DiscoveryError>)
        ensures
            match r {
                Ok(m) => discovery_outcome(
                    issuer@,
                    status,
                    match content_type {
                        Some(t) => Some(t@),
                        None => None,
                    },
                    body@,
                ) == Ok::<ProviderMetadataView, DiscoveryErrorView>(m@),
                Err(e) => discovery_outcome(
                    issuer@,
                    status,
                    match content_type {
                        Some(t) => Some(t@),
                        None => None,
                    },
                    body@,
                ) == Err::<ProviderMetadataView, DiscoveryErrorView>(e@),
            },
    {
        if status != 200 {
            return Err(DiscoveryError::Response(status, copy_bytes(body)));
        }
        let is_json = match content_type {
            Some(t) => is_media_type(t, "application/json"),
            None => false,
        };
        if !is_json {
            return Err(DiscoveryError::Parse);
        }
        let metadata = match ProviderMetadata::from_json(body) {
            Some(m) => m,
            None => return Err(DiscoveryError::Parse),
        };
        if !str_eq(metadata.issuer.as_str(), issuer.as_str()) {
            return Err(DiscoveryError::ValidationError(ValidationFailure::IssuerMismatch));
        }
        Ok(metadata)
    }

    /// Hands the keys of the provider to the record.
    pub fn set_jwks(self, jwks: JsonWebKeySet) -> (r: Self)
        ensures
            r@ == (ProviderMetadataView { jwks: jwks@, ..self@ }),
    {
        proof {
            use_type_invariant(&self);
        }
        let mut r = self;
        r.jwks = jwks;
        r
    }

    /// Writes the metadata as a JSON document. Reading the document gives
    /// the same metadata back, without the keys, which are not part of it.
    pub fn to_json(&self) -> (r: Vec<u8>)
        ensures
            r@ == self@.document,
            metadata_of_json(r@) == Some(self@.without_keys()),
    {
        proof {
            use_type_invariant(self);
        }
        copy_bytes(self.document.as_slice())
    }

    /// The issuer.
    pub fn issuer(&self) -> (r: &IssuerUrl)
        ensures
            r@ == self@.issuer,
    {
        &self.issuer
    }

    /// The authorization endpoint.
    pub fn authorization_endpoint(&self) -> (r: &AuthUrl)
        ensures
            r@ == self@.authorization_endpoint,
    {
        &self.authorization_endpoint
    }

    /// The URL of the key set.
    pub fn jwks_uri(&self) -> (r: &JsonWebKeySetUrl)
        ensures
            r@ == self@.jwks_uri,
    {
        &self.jwks_uri
    }

    /// The keys of the provider, as far as they have been handed over.
    pub fn jwks(&self) -> (r: &JsonWebKeySet)
        ensures
            r@ == self@.jwks,
    {
        &self.jwks
    }

    /// The token endpoint, where there is one.
    pub fn token_endpoint(&self) -> (r: Option<&TokenUrl>)
        ensures
            match r {
                Some(u) => self@.token_endpoint == Some(u@),
                None => self@.token_endpoint is None,
            },
    {
        self.token_endpoint.as_ref()
    }

    /// The UserInfo endpoint, where there is one.
    pub fn userinfo_endpoint(&self) -> (r: Option<&UserInfoUrl>)
        ensures
            match r {
                Some(u) => self@.userinfo_endpoint == Some(u@),
                None => self@.userinfo_endpoint is None,
            },
    {
        self.userinfo_endpoint.as_ref()
    }

    /// The response types that the provider supports, each as it is written.
    pub fn response_types_supported(&self) -> (r: &Vec<String>)
        ensures
            text_views(r@) == self@.response_types_supported,
    {
        &self.response_types_supported
    }

    /// The subject identifier types that the provider supports.
    pub fn subject_types_supported(&self) -> (r: &Vec<String>)
        ensures
            text_views(r@) == self@.subject_types_supported,
    {
        &self.subject_types_supported
    }

    /// The known algorithms among those that the provider signs ID tokens
    /// with.
    pub fn id_token_signing_alg_values_supported(&self) -> (r: &Vec<CoreJwsSigningAlgorithm>)
        ensures
            r@ == self@.id_token_signing_alg_values_supported,
    {
        &self.id_token_signing_alg_values_supported
    }

    /// The scopes that the provider supports, where it says so.
    pub fn scopes_supported(&self) -> (r: Option<&Vec<String>>)
        ensures
            match r {
                Some(l) => self@.scopes_supported == Some(text_views(l@)),
                None => self@.scopes_supported is None,
            },
    {
        self.scopes_supported.as_ref()
    }

    /// The claims that the provider may supply, where it says so.
    pub fn claims_supported(&self) -> (r: Option<&Vec<String>>)
        ensures
            match r {
                Some(l) => self@.claims_supported == Some(text_views(l@)),
                None => self@.claims_supported is None,
            },
    {
        self.claims_supported.as_ref()
    }

    /// The whole document, for reading members beyond those above.
    pub fn document(&self) -> (r: &[u8])
        ensures
            r@ == self@.document,
    {
        self.document.as_slice()
    }
}

} // verus!
