use openidconnect::jwt::split_segments;
use openidconnect::{
    CoreJwsSigningAlgorithm, IdToken, JsonWebToken, JsonWebTokenAlgorithm, JsonWebTokenError,
};
use openidconnect::core_types::CoreJweKeyManagementAlgorithm;

const TOKEN_VALID: &str = "eyJhbGciOiJSUzI1NiIsImtpZCI6ImtleTEifQ.eyJpc3MiOiJodHRwczovL2dvb2QiLCJhdWQiOlsibXlfY2xpZW50Il0sImV4cCI6MTU0NDkzMjE0OSwiaWF0IjoxNTQ0OTI4NTQ5LCJhdXRoX3RpbWUiOjE1NDQ5Mjg1NDgsIm5vbmNlIjoidGhlX25vbmNlIiwiYWNyIjoidGhlX2FjciIsImFtciI6WyJwd2QiLCJvdHAiXSwic3ViIjoic3ViamVjdCIsImF0X2hhc2giOiJLOGZ0RG1KQks0VkJlVW1ZakJPU05BIiwiY19oYXNoIjoiQ2hiZlpzZ1NkSTRkaS1hWmxCcDNKQSIsIm5hbWUiOiJKYW5lIERvZSIsIm5hbWUjZGUiOiJKb2hhbm5hIERvZSIsImVtYWlsIjoiamFuZUBleGFtcGxlLmNvbSIsImVtYWlsX3ZlcmlmaWVkIjp0cnVlLCJhZGRyZXNzIjp7ImZvcm1hdHRlZCI6IjEgTWFpbiBTdCIsImNvdW50cnkiOiJOWiIsInN0cmVldF9hZGRyZXNzI2ZyIjoiMSBydWUgUHJpbmNpcGFsZSJ9LCJ1cGRhdGVkX2F0IjoxNTQ0MDAwMDAwLCJjdXN0b20iOiJtb3JlIn0.Cdp4xrNAQ1R3vrap0VCBTAeVg5GCRNXaCR6SvUethRWIt5EzGenPP6AoPt9of1oz2NL_Ezku7PdXEtGp35lQKzP3XrrO9ELYJ3d1j1OgYFS8oczsSyVSCsZ0J3o0KIwQkS7j2wINJra70ZUilCmpaPYH3DWLp8SpLOaniOAuiZnOyGyUBv5N6TaZQXP2mJU4e5J3cRDfLvImdDTWMkg_KjFCzw2xVP3xa5qaHl7Jap_6KrKTDZ8yP7ZyXx49IXIyHQq_YutVr5FdDiasX4M7SiBbfH7plMa0iRNFXVO2a-zztmHEHAIGQN1C_a_qmfR4QKrhpXeTDHekmoDhl1XWzw";
const TOKEN_TYPED: &str = "eyJhbGciOiJSUzI1NiIsImtpZCI6ImtleTEiLCJ0eXAiOiJKV1QiLCJjdHkiOiJqc29uIn0.eyJpc3MiOiJodHRwczovL2dvb2QiLCJhdWQiOlsibXlfY2xpZW50Il0sImV4cCI6MTU0NDkzMjE0OSwiaWF0IjoxNTQ0OTI4NTQ5LCJhdXRoX3RpbWUiOjE1NDQ5Mjg1NDgsIm5vbmNlIjoidGhlX25vbmNlIiwiYWNyIjoidGhlX2FjciIsImFtciI6WyJwd2QiLCJvdHAiXSwic3ViIjoic3ViamVjdCIsImF0X2hhc2giOiJLOGZ0RG1KQks0VkJlVW1ZakJPU05BIiwiY19oYXNoIjoiQ2hiZlpzZ1NkSTRkaS1hWmxCcDNKQSIsIm5hbWUiOiJKYW5lIERvZSIsIm5hbWUjZGUiOiJKb2hhbm5hIERvZSIsImVtYWlsIjoiamFuZUBleGFtcGxlLmNvbSIsImVtYWlsX3ZlcmlmaWVkIjp0cnVlLCJhZGRyZXNzIjp7ImZvcm1hdHRlZCI6IjEgTWFpbiBTdCIsImNvdW50cnkiOiJOWiIsInN0cmVldF9hZGRyZXNzI2ZyIjoiMSBydWUgUHJpbmNpcGFsZSJ9LCJ1cGRhdGVkX2F0IjoxNTQ0MDAwMDAwLCJjdXN0b20iOiJtb3JlIn0.IZHoB7EFhcIamkUM1WP7nS2CHR-988Bofkj7jbvGKkh6TDznb5FITyxutNHxBNZKxGAjLFAH-qq6RWDuyDV5n5n0dFEZZPGc9yBm0G4Pczt5obZngw32JSqw2rKVr1_wMQyIqi1XR-Pbrlo6Eswij1gP-j9EMVDkX7K304Ezvr40IZXqJKYYZs-8AdsZOW74m60GPo3cpUwiiI1AgEzJ7FLiGOP4di6OufptPcPUpeH16MBS3PZBeXjZN4HAc2SfI5M562-kG94eYakwxYidqLwlcGgdpJgKIZOQ6hrzv2nq95Fj50HahUnaAc_F7mqfy9cenEKuGxN4zpVAW48XIA";
const TOKEN_NO_ALG: &str = "eyJraWQiOiJrZXkxIn0.eyJpc3MiOiJodHRwczovL2dvb2QiLCJhdWQiOlsibXlfY2xpZW50Il0sImV4cCI6MTU0NDkzMjE0OSwiaWF0IjoxNTQ0OTI4NTQ5LCJhdXRoX3RpbWUiOjE1NDQ5Mjg1NDgsIm5vbmNlIjoidGhlX25vbmNlIiwiYWNyIjoidGhlX2FjciIsImFtciI6WyJwd2QiLCJvdHAiXSwic3ViIjoic3ViamVjdCIsImF0X2hhc2giOiJLOGZ0RG1KQks0VkJlVW1ZakJPU05BIiwiY19oYXNoIjoiQ2hiZlpzZ1NkSTRkaS1hWmxCcDNKQSIsIm5hbWUiOiJKYW5lIERvZSIsIm5hbWUjZGUiOiJKb2hhbm5hIERvZSIsImVtYWlsIjoiamFuZUBleGFtcGxlLmNvbSIsImVtYWlsX3ZlcmlmaWVkIjp0cnVlLCJhZGRyZXNzIjp7ImZvcm1hdHRlZCI6IjEgTWFpbiBTdCIsImNvdW50cnkiOiJOWiIsInN0cmVldF9hZGRyZXNzI2ZyIjoiMSBydWUgUHJpbmNpcGFsZSJ9LCJ1cGRhdGVkX2F0IjoxNTQ0MDAwMDAwLCJjdXN0b20iOiJtb3JlIn0.h1wHUSmWpJEIuTtWgfROFn5hQNo5If0Mfy0yKOs-dT2pRIUNH__7AMdBAts-uOaDTOEgJaaxQ0j2WJOmSfGoCLNEV8MlsD4M_odPjj8zurgEDj6I_mynkCFMYmRNoMVjWIWGlVvD4P2LFYZ0xs0GigabwOae2yxeGVm3Eb60YH2GBw4ShnBWdiMkG9h4eEJiOEnyWOW2IRaO9qT3nJS7Abwb14MN58VQ0NIKcd1xR7iBRmrw_gOrj2fI5urmXOV8qYjlZL6rJxqKf2n7Ocm7mkdv6dPise3O8ECyrlcw6MJdw6R5SHDIJE0owis2J1a-26W_uhJEyngnbLdhqkXscg";
const TOKEN_UNKNOWN_ALG: &str = "eyJhbGciOiJYUzk5OSJ9.eyJpc3MiOiJodHRwczovL2dvb2QiLCJhdWQiOlsibXlfY2xpZW50Il0sImV4cCI6MTU0NDkzMjE0OSwiaWF0IjoxNTQ0OTI4NTQ5LCJhdXRoX3RpbWUiOjE1NDQ5Mjg1NDgsIm5vbmNlIjoidGhlX25vbmNlIiwiYWNyIjoidGhlX2FjciIsImFtciI6WyJwd2QiLCJvdHAiXSwic3ViIjoic3ViamVjdCIsImF0X2hhc2giOiJLOGZ0RG1KQks0VkJlVW1ZakJPU05BIiwiY19oYXNoIjoiQ2hiZlpzZ1NkSTRkaS1hWmxCcDNKQSIsIm5hbWUiOiJKYW5lIERvZSIsIm5hbWUjZGUiOiJKb2hhbm5hIERvZSIsImVtYWlsIjoiamFuZUBleGFtcGxlLmNvbSIsImVtYWlsX3ZlcmlmaWVkIjp0cnVlLCJhZGRyZXNzIjp7ImZvcm1hdHRlZCI6IjEgTWFpbiBTdCIsImNvdW50cnkiOiJOWiIsInN0cmVldF9hZGRyZXNzI2ZyIjoiMSBydWUgUHJpbmNpcGFsZSJ9LCJ1cGRhdGVkX2F0IjoxNTQ0MDAwMDAwLCJjdXN0b20iOiJtb3JlIn0.AQEBAQEBAQE";
const TOKEN_JWE_ALG: &str = "eyJhbGciOiJSU0EtT0FFUCIsImVuYyI6IkExMjhHQ00ifQ.eyJpc3MiOiJodHRwczovL2dvb2QiLCJhdWQiOlsibXlfY2xpZW50Il0sImV4cCI6MTU0NDkzMjE0OSwiaWF0IjoxNTQ0OTI4NTQ5LCJhdXRoX3RpbWUiOjE1NDQ5Mjg1NDgsIm5vbmNlIjoidGhlX25vbmNlIiwiYWNyIjoidGhlX2FjciIsImFtciI6WyJwd2QiLCJvdHAiXSwic3ViIjoic3ViamVjdCIsImF0X2hhc2giOiJLOGZ0RG1KQks0VkJlVW1ZakJPU05BIiwiY19oYXNoIjoiQ2hiZlpzZ1NkSTRkaS1hWmxCcDNKQSIsIm5hbWUiOiJKYW5lIERvZSIsIm5hbWUjZGUiOiJKb2hhbm5hIERvZSIsImVtYWlsIjoiamFuZUBleGFtcGxlLmNvbSIsImVtYWlsX3ZlcmlmaWVkIjp0cnVlLCJhZGRyZXNzIjp7ImZvcm1hdHRlZCI6IjEgTWFpbiBTdCIsImNvdW50cnkiOiJOWiIsInN0cmVldF9hZGRyZXNzI2ZyIjoiMSBydWUgUHJpbmNpcGFsZSJ9LCJ1cGRhdGVkX2F0IjoxNTQ0MDAwMDAwLCJjdXN0b20iOiJtb3JlIn0.AQEBAQEBAQE";
const TOKEN_UNSIGNED: &str = "eyJhbGciOiJub25lIn0.eyJpc3MiOiJodHRwczovL2dvb2QiLCJhdWQiOlsibXlfY2xpZW50Il0sImV4cCI6MTU0NDkzMjE0OSwiaWF0IjoxNTQ0OTI4NTQ5LCJhdXRoX3RpbWUiOjE1NDQ5Mjg1NDgsIm5vbmNlIjoidGhlX25vbmNlIiwiYWNyIjoidGhlX2FjciIsImFtciI6WyJwd2QiLCJvdHAiXSwic3ViIjoic3ViamVjdCIsImF0X2hhc2giOiJLOGZ0RG1KQks0VkJlVW1ZakJPU05BIiwiY19oYXNoIjoiQ2hiZlpzZ1NkSTRkaS1hWmxCcDNKQSIsIm5hbWUiOiJKYW5lIERvZSIsIm5hbWUjZGUiOiJKb2hhbm5hIERvZSIsImVtYWlsIjoiamFuZUBleGFtcGxlLmNvbSIsImVtYWlsX3ZlcmlmaWVkIjp0cnVlLCJhZGRyZXNzIjp7ImZvcm1hdHRlZCI6IjEgTWFpbiBTdCIsImNvdW50cnkiOiJOWiIsInN0cmVldF9hZGRyZXNzI2ZyIjoiMSBydWUgUHJpbmNpcGFsZSJ9LCJ1cGRhdGVkX2F0IjoxNTQ0MDAwMDAwLCJjdXN0b20iOiJtb3JlIn0.";
const TOKEN_HEADER_NOT_OBJECT: &str = "WzEsMl0.eyJpc3MiOiJodHRwczovL2dvb2QiLCJhdWQiOlsibXlfY2xpZW50Il0sImV4cCI6MTU0NDkzMjE0OSwiaWF0IjoxNTQ0OTI4NTQ5LCJhdXRoX3RpbWUiOjE1NDQ5Mjg1NDgsIm5vbmNlIjoidGhlX25vbmNlIiwiYWNyIjoidGhlX2FjciIsImFtciI6WyJwd2QiLCJvdHAiXSwic3ViIjoic3ViamVjdCIsImF0X2hhc2giOiJLOGZ0RG1KQks0VkJlVW1ZakJPU05BIiwiY19oYXNoIjoiQ2hiZlpzZ1NkSTRkaS1hWmxCcDNKQSIsIm5hbWUiOiJKYW5lIERvZSIsIm5hbWUjZGUiOiJKb2hhbm5hIERvZSIsImVtYWlsIjoiamFuZUBleGFtcGxlLmNvbSIsImVtYWlsX3ZlcmlmaWVkIjp0cnVlLCJhZGRyZXNzIjp7ImZvcm1hdHRlZCI6IjEgTWFpbiBTdCIsImNvdW50cnkiOiJOWiIsInN0cmVldF9hZGRyZXNzI2ZyIjoiMSBydWUgUHJpbmNpcGFsZSJ9LCJ1cGRhdGVkX2F0IjoxNTQ0MDAwMDAwLCJjdXN0b20iOiJtb3JlIn0.OH-x-G9lJ0CGYuKXnMJpAfvBp_7z_gh-X0boi1eC13zEkpAxCBvGe98lpjdujnRxgymY91J33a1V7zN4YXTJCuZWp0_zPkxp0amtdwtEPsnaHVQcMPvNahUNAVUW1DXfUsU0WIj-b8f9OeuYKX3aAcQrAtrmBAItRVeDS6A4l1LWokIyLBzmXphvLDhXADqTqWBRrkb7KeRoT5hA9RN1eeIyRpAXjdk479mBYM4oGLJZTGMwl6s5c-HfcHJqKTQ1barHNCYSXwIcC0AnXJE-c4y6r3IzYcelgjS4kxaz_OzB4TczNJyXhhLB9ciJHCwHyU0BI8umSlwWs946nB_Esg";
const TOKEN_PAYLOAD_NOT_JSON: &str = "eyJhbGciOiJSUzI1NiIsImtpZCI6ImtleTEifQ.bm90IGpzb24.M6oMVIArTF0TqKMXsgqViPEhASqMl3zVmqO4aZu_iP-pGvEZ8jhLoHWO8iwxAnaGlgi0wddXNEet4brFFl8KMGdKgGVoqZDk3ZXvFIwJoIgXG6265RIP1Zob0R83y4W71Ce9NDIUvPW7VqoVbNppw7GAX-PlhQc0jbt7nhZfmrqh0VTzrI0qA2tzXE3GVqJAR8ugjWCd0ZaIRDV3iNp6HVphWeZkkEd5zJu71XAF4Zk__a8u8QQIRy6FiLJZTtySCB7K3i51nrQvjfxjnFKj4DR_os2auwc7qyOU4z_99B5QUHMFvP2YmfCAKafu7J94LaCbKEdDkW_z6exQFDpSAg";

fn parse_error(text: &str) -> JsonWebTokenError {
    match JsonWebToken::parse(text.as_bytes()) {
        Ok(_) => panic!("the token was read"),
        Err(e) => e,
    }
}

#[test]
fn token_is_taken_apart() {
    let token = JsonWebToken::parse(TOKEN_TYPED.as_bytes()).unwrap();
    let header = token.header();
    assert_eq!(
        header.algorithm(),
        JsonWebTokenAlgorithm::Signature(CoreJwsSigningAlgorithm::RsaSsaPkcs1V15Sha256)
    );
    assert_eq!(header.key_id().unwrap().as_str(), "key1");
    assert_eq!(header.token_type().unwrap(), "JWT");
    assert_eq!(header.content_type().unwrap(), "json");
    assert_eq!(token.signature().len(), 256);
    let plain = JsonWebToken::parse(TOKEN_VALID.as_bytes()).unwrap().header();
    assert!(plain.token_type().is_none());
    assert!(plain.content_type().is_none());
}

#[test]
fn signing_input_is_the_text_before_the_second_full_stop() {
    for text in [TOKEN_VALID, TOKEN_TYPED, TOKEN_UNSIGNED, TOKEN_PAYLOAD_NOT_JSON] {
        let token = JsonWebToken::parse(text.as_bytes()).unwrap();
        let parts: Vec<&str> = text.split('.').collect();
        let expected = format!("{}.{}", parts[0], parts[1]);
        assert_eq!(token.signing_input(), expected.as_bytes());
        assert_eq!(token.signing_input(), &text.as_bytes()[..text.rfind('.').unwrap()]);
    }
}

#[test]
fn signing_input_is_kept_as_it_arrived() {
    // A header with spaces in it would be written differently if it were
    // written again; the signing input is the text as it came.
    let header = "eyAiYWxnIiA6ICJub25lIiB9";
    let payload = "eyAic3ViIiA6ICJ4IiB9";
    let text = format!("{}.{}.", header, payload);
    let token = JsonWebToken::parse(text.as_bytes()).unwrap();
    assert_eq!(token.signing_input(), format!("{}.{}", header, payload).as_bytes());
    assert_eq!(token.signature().len(), 0);
    assert_eq!(
        token.header().algorithm(),
        JsonWebTokenAlgorithm::Signature(CoreJwsSigningAlgorithm::Unsigned)
    );
}

#[test]
fn serialized_token_is_the_text_it_was_read_from() {
    for text in [TOKEN_VALID, TOKEN_TYPED, TOKEN_UNSIGNED] {
        let token = JsonWebToken::parse(text.as_bytes()).unwrap();
        assert_eq!(token.serialize(), text.as_bytes());
        let again = JsonWebToken::parse(&token.serialize()).unwrap();
        assert_eq!(again, token);
        let id_token = IdToken::from_str(text).unwrap();
        assert_eq!(id_token.to_string(), text);
        assert_eq!(id_token.token(), &token);
        assert_eq!(id_token.clone(), id_token);
    }
}

#[test]
fn text_without_three_segments_is_malformed() {
    let parts: Vec<&str> = TOKEN_VALID.split('.').collect();
    for text in [
        String::new(),
        ".".to_string(),
        "..".to_string(),
        "...".to_string(),
        parts[0].to_string(),
        format!("{}.{}", parts[0], parts[1]),
        format!("{}.{}.{}.{}", parts[0], parts[1], parts[2], parts[2]),
        format!("{}.", TOKEN_VALID),
        format!(".{}", TOKEN_VALID),
    ] {
        assert_eq!(parse_error(&text), JsonWebTokenError::Malformed);
    }
}

#[test]
fn segment_that_is_not_base64_is_malformed() {
    let parts: Vec<&str> = TOKEN_VALID.split('.').collect();
    for text in [
        format!("{}!.{}.{}", parts[0], parts[1], parts[2]),
        format!("{}.{}=.{}", parts[0], parts[1], parts[2]),
        format!("{}.{}.{}+", parts[0], parts[1], parts[2]),
        format!("{}.{}.{}/", parts[0], parts[1], parts[2]),
        format!("{}.{} .{}", parts[0], parts[1], parts[2]),
    ] {
        assert_eq!(parse_error(&text), JsonWebTokenError::Malformed);
    }
}

#[test]
fn header_must_be_a_json_object_with_a_known_algorithm() {
    assert_eq!(parse_error(TOKEN_HEADER_NOT_OBJECT), JsonWebTokenError::Malformed);
    let parts: Vec<&str> = TOKEN_VALID.split('.').collect();
    assert_eq!(
        parse_error(&format!("{}.{}.{}", "bm90IGpzb24", parts[1], parts[2])),
        JsonWebTokenError::Malformed
    );
    assert_eq!(parse_error(TOKEN_NO_ALG), JsonWebTokenError::MissingAlg);
    assert_eq!(parse_error(TOKEN_UNKNOWN_ALG), JsonWebTokenError::UnsupportedAlg);
    assert_eq!(
        IdToken::from_str(TOKEN_UNKNOWN_ALG).err(),
        Some(JsonWebTokenError::UnsupportedAlg)
    );
}

#[test]
fn encryption_algorithm_is_told_apart() {
    let token = IdToken::from_str(TOKEN_JWE_ALG).unwrap();
    assert_eq!(
        token.header().algorithm(),
        JsonWebTokenAlgorithm::Encryption(CoreJweKeyManagementAlgorithm::RsaOaep)
    );
    assert_eq!(token.signing_alg(), Err(JsonWebTokenError::UnsupportedAlg));
}

#[test]
fn payload_is_not_read_when_the_token_is_parsed() {
    assert!(JsonWebToken::parse(TOKEN_PAYLOAD_NOT_JSON.as_bytes()).is_ok());
}

#[test]
fn text_is_cut_at_every_full_stop() {
    let cut = |text: &str| -> Vec<String> {
        split_segments(text.as_bytes())
            .into_iter()
            .map(|s| String::from_utf8(s).unwrap())
            .collect()
    };
    assert_eq!(cut(""), vec![""]);
    assert_eq!(cut("abc"), vec!["abc"]);
    assert_eq!(cut("."), vec!["", ""]);
    assert_eq!(cut("a.b.c"), vec!["a", "b", "c"]);
    assert_eq!(cut("a..b"), vec!["a", "", "b"]);
    assert_eq!(cut(".a."), vec!["", "a", ""]);
    for text in ["", "a.b.c", "..", "x.", TOKEN_VALID] {
        assert_eq!(cut(text).join("."), text);
    }
}
