use openidconnect::discovery::{algorithms_from, discovery_url, implemented_from};
use openidconnect::{
    ClientId, ClientSecret, CoreClient, CoreJsonWebKey, CoreJwsSigningAlgorithm, DiscoveryError,
    IssuerUrl, JsonWebKeySet, ProviderMetadata, ValidationFailure,
};

const METADATA: &str = r#"{
    "issuer": "https://accounts.example.com",
    "authorization_endpoint": "https://accounts.example.com/authorize",
    "token_endpoint": "https://accounts.example.com/token",
    "userinfo_endpoint": "https://accounts.example.com/userinfo",
    "jwks_uri": "https://accounts.example.com/jwk",
    "response_types_supported": ["code", "id_token token"],
    "subject_types_supported": ["pairwise"],
    "id_token_signing_alg_values_supported": ["RS256", "ES256", "XS999", "HS512", "none"],
    "scopes_supported": ["openid", "email"],
    "claims_supported": ["sub", "email"],
    "check_session_iframe": "https://accounts.example.com/session"
}"#;

const MINIMAL: &str = r#"{
    "issuer": "https://accounts.example.com",
    "authorization_endpoint": "https://accounts.example.com/authorize",
    "jwks_uri": "https://accounts.example.com/jwk",
    "response_types_supported": ["code"],
    "subject_types_supported": ["public"],
    "id_token_signing_alg_values_supported": ["RS256"]
}"#;

fn issuer(text: &str) -> IssuerUrl {
    IssuerUrl::new(text.to_string()).unwrap()
}

fn without(member: &str) -> String {
    let kept: Vec<&str> = MINIMAL.lines().filter(|l| !l.contains(member)).collect();
    kept.join("\n").replace("],\n}", "]\n}").replace("\",\n}", "\"\n}")
}

#[test]
fn metadata_document_is_found_under_the_issuer() {
    assert_eq!(
        discovery_url(&issuer("https://accounts.example.com")),
        Ok("https://accounts.example.com/.well-known/openid-configuration".to_string())
    );
    assert_eq!(
        discovery_url(&issuer("https://accounts.example.com/")),
        Ok("https://accounts.example.com/.well-known/openid-configuration".to_string())
    );
    assert_eq!(
        discovery_url(&issuer("https://example.com/tenant/a")),
        Ok("https://example.com/tenant/a/.well-known/openid-configuration".to_string())
    );
    assert_eq!(
        discovery_url(&issuer("https://example.com/tenant/a/")),
        Ok("https://example.com/tenant/a/.well-known/openid-configuration".to_string())
    );
    assert_eq!(
        discovery_url(&issuer("https://example.com/.well-known/openid-configuration")),
        Err(DiscoveryError::ValidationError(ValidationFailure::IssuerHasSuffix))
    );
}

#[test]
fn metadata_is_read_from_json() {
    let metadata = ProviderMetadata::from_json(METADATA.as_bytes()).unwrap();
    assert_eq!(metadata.issuer().as_str(), "https://accounts.example.com");
    assert_eq!(metadata.authorization_endpoint().as_str(), "https://accounts.example.com/authorize");
    assert_eq!(metadata.token_endpoint().unwrap().as_str(), "https://accounts.example.com/token");
    assert_eq!(metadata.userinfo_endpoint().unwrap().as_str(), "https://accounts.example.com/userinfo");
    assert_eq!(metadata.jwks_uri().as_str(), "https://accounts.example.com/jwk");
    assert_eq!(metadata.response_types_supported(), &vec!["code".to_string(), "id_token token".to_string()]);
    assert_eq!(metadata.subject_types_supported(), &vec!["pairwise".to_string()]);
    assert_eq!(
        metadata.id_token_signing_alg_values_supported(),
        &vec![
            CoreJwsSigningAlgorithm::RsaSsaPkcs1V15Sha256,
            CoreJwsSigningAlgorithm::EcdsaP256Sha256,
            CoreJwsSigningAlgorithm::HmacSha512,
            CoreJwsSigningAlgorithm::Unsigned,
        ]
    );
    assert_eq!(metadata.scopes_supported().unwrap(), &vec!["openid".to_string(), "email".to_string()]);
    assert_eq!(metadata.claims_supported().unwrap(), &vec!["sub".to_string(), "email".to_string()]);
    assert_eq!(metadata.jwks().keys().len(), 0);
    assert_eq!(metadata.document(), METADATA.as_bytes());

    let minimal = ProviderMetadata::from_json(MINIMAL.as_bytes()).unwrap();
    assert!(minimal.token_endpoint().is_none());
    assert!(minimal.userinfo_endpoint().is_none());
    assert!(minimal.scopes_supported().is_none());
    assert!(minimal.claims_supported().is_none());
}

#[test]
fn metadata_without_a_required_member_is_not_read() {
    for member in [
        "\"issuer\"",
        "\"authorization_endpoint\"",
        "\"jwks_uri\"",
        "\"response_types_supported\"",
        "\"subject_types_supported\"",
        "\"id_token_signing_alg_values_supported\"",
    ] {
        let doc = without(member);
        assert!(doc.len() < MINIMAL.len());
        assert!(ProviderMetadata::from_json(doc.as_bytes()).is_none());
    }
    assert!(ProviderMetadata::from_json(b"{}").is_none());
    assert!(ProviderMetadata::from_json(b"").is_none());
    let relative = MINIMAL.replace("https://accounts.example.com/authorize", "/authorize");
    assert!(ProviderMetadata::from_json(relative.as_bytes()).is_none());
    let bad_token_endpoint = METADATA.replace("https://accounts.example.com/token", "token");
    assert!(ProviderMetadata::from_json(bad_token_endpoint.as_bytes()).is_none());
}

#[test]
fn response_is_checked_before_it_is_believed() {
    let asked = issuer("https://accounts.example.com");
    let json = Some("application/json");
    let metadata = ProviderMetadata::from_response(&asked, 200, json, METADATA.as_bytes()).unwrap();
    assert_eq!(metadata, ProviderMetadata::from_json(METADATA.as_bytes()).unwrap());
    assert!(ProviderMetadata::from_response(&asked, 200, Some("application/json; charset=utf-8"), METADATA.as_bytes()).is_ok());

    assert_eq!(
        ProviderMetadata::from_response(&asked, 404, json, b"not found").err(),
        Some(DiscoveryError::Response(404, b"not found".to_vec()))
    );
    assert_eq!(
        ProviderMetadata::from_response(&asked, 500, None, METADATA.as_bytes()).err(),
        Some(DiscoveryError::Response(500, METADATA.as_bytes().to_vec()))
    );
    assert_eq!(
        ProviderMetadata::from_response(&asked, 200, Some("text/html"), METADATA.as_bytes()).err(),
        Some(DiscoveryError::Parse)
    );
    assert_eq!(
        ProviderMetadata::from_response(&asked, 200, None, METADATA.as_bytes()).err(),
        Some(DiscoveryError::Parse)
    );
    assert_eq!(
        ProviderMetadata::from_response(&asked, 200, json, b"{\"issuer\":").err(),
        Some(DiscoveryError::Parse)
    );
}

#[test]
fn issuer_of_the_document_must_be_the_issuer_asked() {
    let mismatch = Some(DiscoveryError::ValidationError(ValidationFailure::IssuerMismatch));
    let json = Some("application/json");
    for asked in [
        "https://accounts.example.com/",
        "https://Accounts.example.com",
        "https://accounts.example.org",
        "http://accounts.example.com",
    ] {
        assert_eq!(
            ProviderMetadata::from_response(&issuer(asked), 200, json, METADATA.as_bytes()).err(),
            mismatch
        );
    }
}

#[test]
fn known_and_implemented_algorithms_are_picked_out() {
    let names: Vec<String> = ["PS256", "nope", "none", "ES384", "HS256", "rs256"]
        .iter()
        .map(|s| s.to_string())
        .collect();
    let known = algorithms_from(&names);
    assert_eq!(
        known,
        vec![
            CoreJwsSigningAlgorithm::RsaSsaPssSha256,
            CoreJwsSigningAlgorithm::Unsigned,
            CoreJwsSigningAlgorithm::EcdsaP384Sha384,
            CoreJwsSigningAlgorithm::HmacSha256,
        ]
    );
    assert_eq!(
        implemented_from(&known),
        vec![CoreJwsSigningAlgorithm::RsaSsaPssSha256, CoreJwsSigningAlgorithm::HmacSha256]
    );
    assert_eq!(implemented_from(&vec![]), vec![]);
}

#[test]
fn client_takes_its_settings_from_the_metadata() {
    let keys = JsonWebKeySet::new(vec![CoreJsonWebKey::new_rsa(vec![1; 256], vec![1, 0, 1], None)]);
    let metadata = ProviderMetadata::from_json(METADATA.as_bytes()).unwrap().set_jwks(keys.clone());
    assert_eq!(metadata.jwks(), &keys);
    let client = CoreClient::from_provider_metadata(
        metadata,
        ClientId::new("my_client".to_string()),
        Some(ClientSecret::new("bbb".to_string())),
    );
    assert_eq!(client.client_id().as_str(), "my_client");
    assert_eq!(client.client_secret().unwrap().secret(), "bbb");
    assert_eq!(client.auth_url().as_str(), "https://accounts.example.com/authorize");
    assert_eq!(client.token_url().unwrap().as_str(), "https://accounts.example.com/token");
    assert!(client.redirect_uri().is_none());
    assert_eq!(client.auth_type(), openidconnect::AuthType::BasicAuth);
    let client = client.set_auth_type(openidconnect::AuthType::RequestBody);
    assert_eq!(client.auth_type(), openidconnect::AuthType::RequestBody);
}

#[test]
fn key_set_response_is_checked_before_it_is_read() {
    use_key_set_response();
}

fn use_key_set_response() {
    let json = Some("application/json");
    let body = br#"{"keys":[{"kty":"oct","k":"YmJi"},{"kty":"OKP"}]}"#;
    let set = openidconnect::discovery::key_set_from_response(200, json, body, true).unwrap();
    assert_eq!(set.keys().len(), 1);
    assert_eq!(
        openidconnect::discovery::key_set_from_response(200, json, body, false).err(),
        Some(DiscoveryError::Parse)
    );
    assert_eq!(
        openidconnect::discovery::key_set_from_response(200, Some("text/plain"), body, true).err(),
        Some(DiscoveryError::Parse)
    );
    assert_eq!(
        openidconnect::discovery::key_set_from_response(200, json, b"{}", true).err(),
        Some(DiscoveryError::Parse)
    );
    assert_eq!(
        openidconnect::discovery::key_set_from_response(503, json, b"busy", true).err(),
        Some(DiscoveryError::Response(503, b"busy".to_vec()))
    );
}

#[test]
fn metadata_written_and_read_again_is_the_same() {
    for doc in [METADATA, MINIMAL] {
        let metadata = ProviderMetadata::from_json(doc.as_bytes()).unwrap();
        let written = metadata.to_json();
        assert_eq!(written, doc.as_bytes());
        let again = ProviderMetadata::from_json(&written).unwrap();
        assert_eq!(again, metadata);
        assert_eq!(again.to_json(), written);
    }
    // The keys are not part of the document.
    let keys = JsonWebKeySet::new(vec![CoreJsonWebKey::new_symmetric(vec![1, 2, 3])]);
    let with_keys = ProviderMetadata::from_json(METADATA.as_bytes()).unwrap().set_jwks(keys);
    let again = ProviderMetadata::from_json(&with_keys.to_json()).unwrap();
    assert!(again != with_keys);
    assert_eq!(again.issuer(), with_keys.issuer());
    assert_eq!(again.jwks().keys().len(), 0);
}

#[test]
fn token_requests_carry_what_the_client_was_given() {
    let client = CoreClient::new(
        ClientId::new("my_client".to_string()),
        Some(ClientSecret::new("bbb".to_string())),
        IssuerUrl::new("https://good".to_string()).unwrap(),
        openidconnect::AuthUrl::new("https://good/authorize".to_string()).unwrap(),
        Some(openidconnect::TokenUrl::new("https://good/token".to_string()).unwrap()),
        None,
        JsonWebKeySet::default(),
    );
    assert_eq!(client.issuer().as_str(), "https://good");
    assert_eq!(client.jwks().keys().len(), 0);
    let code = openidconnect::AuthorizationCode::new("the_code".to_string());
    let (of, code, verifier) = client.exchange_code(code).into_parts();
    assert_eq!(of.client_id().as_str(), "my_client");
    assert_eq!(code.secret(), "the_code");
    assert!(verifier.is_none());
    let request = client
        .exchange_code(code)
        .set_pkce_verifier(openidconnect::PkceCodeVerifier::new("the_verifier".to_string()));
    let (_, _, verifier) = request.into_parts();
    assert_eq!(verifier.unwrap().secret(), "the_verifier");
    let refresh = openidconnect::RefreshToken::new("again".to_string());
    let (of, token) = client.exchange_refresh_token(&refresh).into_parts();
    assert_eq!(of.token_url().unwrap().as_str(), "https://good/token");
    assert_eq!(token.secret(), "again");
}
