use openidconnect::core_types::CoreJweKeyManagementAlgorithm;
use openidconnect::crypto::{HashFunction, RsaPadding};
use openidconnect::jwt::algorithm_from_text;
use openidconnect::text::{decimal_text, ends_with, split, starts_with};
use openidconnect::token::OAuth2TokenResponse;
use openidconnect::{
    AccessToken, ClientId, ClientSecret, CoreAuthDisplay, CoreAuthPrompt, CoreJsonWebKeyType,
    CoreJsonWebKeyUse, CoreJwsSigningAlgorithm, CoreRefreshTokenResponse, CoreResponseType,
    CoreTokenResponse, IdToken, IdTokenFields, JsonWebTokenAlgorithm, JsonWebTokenError,
    RefreshIdTokenFields, RefreshTokenResponse, Scope, TokenResponse, TokenResponseError,
};

const TOKEN_VALID: &str = "eyJhbGciOiJSUzI1NiIsImtpZCI6ImtleTEifQ.eyJpc3MiOiJodHRwczovL2dvb2QiLCJhdWQiOlsibXlfY2xpZW50Il0sImV4cCI6MTU0NDkzMjE0OSwiaWF0IjoxNTQ0OTI4NTQ5LCJhdXRoX3RpbWUiOjE1NDQ5Mjg1NDgsIm5vbmNlIjoidGhlX25vbmNlIiwiYWNyIjoidGhlX2FjciIsImFtciI6WyJwd2QiLCJvdHAiXSwic3ViIjoic3ViamVjdCIsImF0X2hhc2giOiJLOGZ0RG1KQks0VkJlVW1ZakJPU05BIiwiY19oYXNoIjoiQ2hiZlpzZ1NkSTRkaS1hWmxCcDNKQSIsIm5hbWUiOiJKYW5lIERvZSIsIm5hbWUjZGUiOiJKb2hhbm5hIERvZSIsImVtYWlsIjoiamFuZUBleGFtcGxlLmNvbSIsImVtYWlsX3ZlcmlmaWVkIjp0cnVlLCJhZGRyZXNzIjp7ImZvcm1hdHRlZCI6IjEgTWFpbiBTdCIsImNvdW50cnkiOiJOWiIsInN0cmVldF9hZGRyZXNzI2ZyIjoiMSBydWUgUHJpbmNpcGFsZSJ9LCJ1cGRhdGVkX2F0IjoxNTQ0MDAwMDAwLCJjdXN0b20iOiJtb3JlIn0.Cdp4xrNAQ1R3vrap0VCBTAeVg5GCRNXaCR6SvUethRWIt5EzGenPP6AoPt9of1oz2NL_Ezku7PdXEtGp35lQKzP3XrrO9ELYJ3d1j1OgYFS8oczsSyVSCsZ0J3o0KIwQkS7j2wINJra70ZUilCmpaPYH3DWLp8SpLOaniOAuiZnOyGyUBv5N6TaZQXP2mJU4e5J3cRDfLvImdDTWMkg_KjFCzw2xVP3xa5qaHl7Jap_6KrKTDZ8yP7ZyXx49IXIyHQq_YutVr5FdDiasX4M7SiBbfH7plMa0iRNFXVO2a-zztmHEHAIGQN1C_a_qmfR4QKrhpXeTDHekmoDhl1XWzw";

#[test]
fn values_are_written_as_the_protocol_names_them() {
    assert_eq!(CoreResponseType::Code.as_str(), "code");
    assert_eq!(CoreResponseType::IdToken.as_str(), "id_token");
    assert_eq!(CoreResponseType::NoResponse.as_str(), "none");
    assert_eq!(CoreResponseType::Token.as_str(), "token");
    assert_eq!(CoreAuthDisplay::Page.as_str(), "page");
    assert_eq!(CoreAuthDisplay::Popup.as_str(), "popup");
    assert_eq!(CoreAuthDisplay::Touch.as_str(), "touch");
    assert_eq!(CoreAuthDisplay::Wap.as_str(), "wap");
    assert_eq!(CoreAuthPrompt::Consent.as_str(), "consent");
    assert_eq!(CoreAuthPrompt::Login.as_str(), "login");
    assert_eq!(CoreAuthPrompt::NoPrompt.as_str(), "none");
    assert_eq!(CoreAuthPrompt::SelectAccount.as_str(), "select_account");
    assert_eq!(CoreJsonWebKeyType::EllipticCurve.as_str(), "EC");
    assert_eq!(CoreJsonWebKeyType::RSA.as_str(), "RSA");
    assert_eq!(CoreJsonWebKeyType::Symmetric.as_str(), "oct");
    assert_eq!(CoreJsonWebKeyUse::Signature.as_str(), "sig");
    assert_eq!(CoreJsonWebKeyUse::Encryption.as_str(), "enc");
}

#[test]
fn algorithms_are_read_back_from_their_names() {
    let algs = [
        (CoreJwsSigningAlgorithm::HmacSha256, "HS256"),
        (CoreJwsSigningAlgorithm::HmacSha384, "HS384"),
        (CoreJwsSigningAlgorithm::HmacSha512, "HS512"),
        (CoreJwsSigningAlgorithm::RsaSsaPkcs1V15Sha256, "RS256"),
        (CoreJwsSigningAlgorithm::RsaSsaPkcs1V15Sha384, "RS384"),
        (CoreJwsSigningAlgorithm::RsaSsaPkcs1V15Sha512, "RS512"),
        (CoreJwsSigningAlgorithm::EcdsaP256Sha256, "ES256"),
        (CoreJwsSigningAlgorithm::EcdsaP384Sha384, "ES384"),
        (CoreJwsSigningAlgorithm::EcdsaP521Sha512, "ES512"),
        (CoreJwsSigningAlgorithm::RsaSsaPssSha256, "PS256"),
        (CoreJwsSigningAlgorithm::RsaSsaPssSha384, "PS384"),
        (CoreJwsSigningAlgorithm::RsaSsaPssSha512, "PS512"),
        (CoreJwsSigningAlgorithm::Unsigned, "none"),
    ];
    for (alg, name) in algs {
        assert_eq!(alg.as_str(), name);
        assert_eq!(CoreJwsSigningAlgorithm::from_text(name), Some(alg));
        assert_eq!(algorithm_from_text(name), Some(JsonWebTokenAlgorithm::Signature(alg)));
    }
    assert_eq!(CoreJwsSigningAlgorithm::from_text("rs256"), None);
    assert_eq!(CoreJwsSigningAlgorithm::from_text(""), None);
    assert_eq!(CoreJwsSigningAlgorithm::from_text("RS256 "), None);
    for alg in [
        CoreJweKeyManagementAlgorithm::RsaPkcs1V15,
        CoreJweKeyManagementAlgorithm::RsaOaepSha256,
        CoreJweKeyManagementAlgorithm::Direct,
        CoreJweKeyManagementAlgorithm::EcdhEsAesKeyWrap192,
        CoreJweKeyManagementAlgorithm::PbEs2HmacSha512AesKeyWrap256,
    ] {
        assert_eq!(CoreJweKeyManagementAlgorithm::from_text(alg.as_str()), Some(alg));
        assert_eq!(algorithm_from_text(alg.as_str()), Some(JsonWebTokenAlgorithm::Encryption(alg)));
    }
    assert_eq!(algorithm_from_text("A128CBC-HS256"), None);
    for display in [CoreAuthDisplay::Page, CoreAuthDisplay::Popup, CoreAuthDisplay::Touch, CoreAuthDisplay::Wap] {
        assert_eq!(CoreAuthDisplay::from_text(display.as_str()), Some(display));
    }
    assert_eq!(CoreAuthPrompt::from_text("none"), Some(CoreAuthPrompt::NoPrompt));
    assert_eq!(CoreResponseType::from_text("none"), Some(CoreResponseType::NoResponse));
    assert_eq!(CoreResponseType::from_text("id_token token"), None);
}

#[test]
fn algorithms_name_their_parts() {
    assert_eq!(CoreJwsSigningAlgorithm::RsaSsaPkcs1V15Sha256.hash(), Some(HashFunction::Sha256));
    assert_eq!(CoreJwsSigningAlgorithm::RsaSsaPssSha384.hash(), Some(HashFunction::Sha384));
    assert_eq!(CoreJwsSigningAlgorithm::HmacSha512.hash(), Some(HashFunction::Sha512));
    assert_eq!(CoreJwsSigningAlgorithm::EcdsaP521Sha512.hash(), Some(HashFunction::Sha512));
    assert_eq!(CoreJwsSigningAlgorithm::Unsigned.hash(), None);
    assert_eq!(CoreJwsSigningAlgorithm::RsaSsaPkcs1V15Sha512.rsa_padding(), Some(RsaPadding::Pkcs1V15));
    assert_eq!(CoreJwsSigningAlgorithm::RsaSsaPssSha256.rsa_padding(), Some(RsaPadding::Pss));
    assert_eq!(CoreJwsSigningAlgorithm::HmacSha256.rsa_padding(), None);
    assert!(CoreJwsSigningAlgorithm::HmacSha384.is_symmetric());
    assert!(!CoreJwsSigningAlgorithm::RsaSsaPssSha512.is_symmetric());
    assert_eq!(CoreJwsSigningAlgorithm::HmacSha256.key_type(), Some(CoreJsonWebKeyType::Symmetric));
    assert_eq!(CoreJwsSigningAlgorithm::RsaSsaPssSha256.key_type(), Some(CoreJsonWebKeyType::RSA));
    assert_eq!(CoreJwsSigningAlgorithm::EcdsaP256Sha256.key_type(), Some(CoreJsonWebKeyType::EllipticCurve));
    assert_eq!(CoreJwsSigningAlgorithm::Unsigned.key_type(), None);
    assert!(CoreJwsSigningAlgorithm::RsaSsaPkcs1V15Sha256.is_implemented());
    assert!(CoreJwsSigningAlgorithm::HmacSha256.is_implemented());
    assert!(!CoreJwsSigningAlgorithm::EcdsaP384Sha384.is_implemented());
    assert!(!CoreJwsSigningAlgorithm::Unsigned.is_implemented());
}

#[test]
fn numbers_are_written_in_decimal() {
    assert_eq!(decimal_text(0), "0");
    assert_eq!(decimal_text(7), "7");
    assert_eq!(decimal_text(10), "10");
    assert_eq!(decimal_text(1800), "1800");
    assert_eq!(decimal_text(1234567890), "1234567890");
    assert_eq!(decimal_text(u64::MAX), "18446744073709551615");
}

#[test]
fn text_is_cut_and_compared_by_characters() {
    assert_eq!(split("openid email profile", ' '), vec!["openid", "email", "profile"]);
    assert_eq!(split("openid", ' '), vec!["openid"]);
    assert_eq!(split("", ' '), vec![""]);
    assert_eq!(split("a  b ", ' '), vec!["a", "", "b", ""]);
    assert_eq!(split("é è", ' '), vec!["é", "è"]);
    assert!(starts_with("application/json", "application"));
    assert!(starts_with("abc", ""));
    assert!(starts_with("abc", "abc"));
    assert!(!starts_with("abc", "abcd"));
    assert!(!starts_with("abc", "b"));
    assert!(ends_with("https://example.com/", "/"));
    assert!(ends_with("abc", ""));
    assert!(!ends_with("abc", "ab"));
    assert!(!ends_with("c", "bc"));
    assert!(ends_with("日本語", "語"));
}

#[test]
fn typed_values_keep_their_text() {
    let id = ClientId::new("aaa".to_string());
    assert_eq!(id.as_str(), "aaa");
    assert_eq!(id.clone(), id);
    assert!(id != ClientId::new("AAA".to_string()));
    let secret = ClientSecret::new("bbb".to_string());
    assert_eq!(secret.secret(), "bbb");
    assert!(secret.clone() == secret);
    assert_eq!(Scope::new("email".to_string()).as_str(), "email");
}

#[test]
fn token_response_is_read_from_json() {
    let doc = format!(
        "{{\"access_token\":\"the_token\",\"token_type\":\"bearer\",\"expires_in\":3600,\
         \"refresh_token\":\"again\",\"scope\":\"openid email\",\"id_token\":\"{}\"}}",
        TOKEN_VALID
    );
    let response = CoreTokenResponse::from_json(doc.as_bytes()).ok().unwrap();
    assert_eq!(response.access_token().secret(), "the_token");
    assert_eq!(response.token_type(), "bearer");
    assert_eq!(response.expires_in(), Some(3600));
    assert_eq!(response.refresh_token().unwrap().secret(), "again");
    let scopes = response.scopes().unwrap();
    assert_eq!(scopes.len(), 2);
    assert_eq!(scopes[0].as_str(), "openid");
    assert_eq!(scopes[1].as_str(), "email");
    assert_eq!(response.id_token().to_string(), TOKEN_VALID);
    assert_eq!(response.extra_fields().id_token(), &IdToken::from_str(TOKEN_VALID).unwrap());

    let refreshed = CoreRefreshTokenResponse::from_json(doc.as_bytes()).ok().unwrap();
    assert_eq!(refreshed.id_token().unwrap().to_string(), TOKEN_VALID);
    assert_eq!(refreshed.access_token().secret(), "the_token");
}

#[test]
fn id_token_is_required_in_a_first_response_only() {
    let doc = br#"{"access_token":"the_token","token_type":"bearer","expires_in":-1}"#;
    assert!(CoreTokenResponse::from_json(doc).err() == Some(TokenResponseError::MissingIdToken));
    let refreshed = CoreRefreshTokenResponse::from_json(doc).ok().unwrap();
    assert!(refreshed.id_token().is_none());
    assert_eq!(refreshed.expires_in(), None);
    assert!(refreshed.refresh_token().is_none());
    assert!(refreshed.scopes().is_none());
}

#[test]
fn token_response_that_cannot_be_read_is_an_error() {
    let first = |doc: &str| CoreTokenResponse::from_json(doc.as_bytes()).err();
    let refresh = |doc: &str| CoreRefreshTokenResponse::from_json(doc.as_bytes()).err();
    assert!(first("{}") == Some(TokenResponseError::MissingAccessToken));
    assert!(refresh("not json") == Some(TokenResponseError::MissingAccessToken));
    assert!(first(r#"{"access_token":"t"}"#) == Some(TokenResponseError::MissingTokenType));
    assert!(refresh(r#"{"access_token":"t","token_type":1}"#) == Some(TokenResponseError::MissingTokenType));
    let bad = r#"{"access_token":"t","token_type":"bearer","id_token":"a.b"}"#;
    assert!(first(bad) == Some(TokenResponseError::InvalidIdToken(JsonWebTokenError::Malformed)));
    assert!(refresh(bad) == Some(TokenResponseError::InvalidIdToken(JsonWebTokenError::Malformed)));
}

#[test]
fn token_response_is_made_from_its_parts() {
    let token = IdToken::from_str(TOKEN_VALID).unwrap();
    let response = CoreTokenResponse::new(
        AccessToken::new("some_secret".to_string()),
        "bearer".to_string(),
        IdTokenFields::new(token.clone()),
    );
    assert_eq!(response.id_token(), &token);
    assert_eq!(response.access_token().secret(), "some_secret");
    assert_eq!(response.expires_in(), None);
    let refreshed = CoreRefreshTokenResponse::new(
        AccessToken::new("some_secret".to_string()),
        "bearer".to_string(),
        RefreshIdTokenFields::new(None),
    );
    assert!(refreshed.id_token().is_none());
    let refreshed = CoreRefreshTokenResponse::new(
        AccessToken::new("some_secret".to_string()),
        "bearer".to_string(),
        RefreshIdTokenFields::new(Some(token.clone())),
    );
    assert_eq!(refreshed.id_token(), Some(&token));
}
