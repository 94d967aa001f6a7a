use base64ct::Encoding;
use policy_store::authresolver::{ClientError, JwkResolver, classify_validation, extract_jwt,
    user_from_claims, ClaimValue};
use policy_store::api::auth_outcome_status;
use policy_store::keyresolver::{ClientError as KeyClientError, JwkEntry, JwkParams, KidResolver,
    ServerError as KeyServerError};
use policy_store::metadata::User;
use policy_store::noop::NoOpResolver;
use policy_store::status::{BAD_REQUEST, NOT_FOUND, OK, UNAUTHORIZED};

const SECRET: [u8; 32] = [7u8; 32];
const OTHER_SECRET: [u8; 32] = [9u8; 32];
const CLAIM: &str = "initiator";
const FUTURE_EXP: u64 = 4102444800; // far in the future

fn encode_key(secret: &[u8]) -> String {
    let mut buf = [0u8; 64];
    let encoded = base64ct::Base64Url::encode(secret, &mut buf).expect("the buffer is large enough");
    encoded.to_string()
}

fn keyset_json() -> String {
    let k = encode_key(&SECRET);
    format!("{{\"keys\":[{{\"kty\":\"oct\",\"kid\":\"key1\",\"k\":\"{k}\"}}]}}")
}

fn resolver() -> JwkResolver<KidResolver> {
    let kid = KidResolver::new(&keyset_json()).expect("the key set is well formed");
    JwkResolver::new(CLAIM.to_string(), kid)
}

fn token_with_claims(kid: &str, secret: &[u8], claims: serde_json::Map<String, serde_json::Value>)
    -> String {
    let mut header = jsonwebtoken::Header::new(jsonwebtoken::Algorithm::HS256);
    header.kid = Some(kid.to_string());
    jsonwebtoken::encode(
        &header,
        &serde_json::Value::Object(claims),
        &jsonwebtoken::EncodingKey::from_secret(secret),
    )
    .expect("signing cannot fail for HS256")
}

fn standard_claims(initiator: serde_json::Value) -> serde_json::Map<String, serde_json::Value> {
    let mut claims = serde_json::Map::new();
    claims.insert(CLAIM.to_string(), initiator);
    claims.insert(
        "exp".to_string(),
        serde_json::Value::Number(serde_json::Number::from(FUTURE_EXP)),
    );
    claims
}

fn bearer(token: &str) -> Vec<u8> {
    format!("Bearer {token}").into_bytes()
}

#[test]
fn valid_token_authorizes_the_initiator() {
    let resolver = resolver();
    let token = token_with_claims(
        "key1",
        &SECRET,
        standard_claims(serde_json::Value::String("alice".to_string())),
    );
    let value = bearer(&token);
    let outcome = resolver.authorize(Some(&value));
    let user = outcome
        .expect("never a server fault")
        .expect("the token is valid");
    assert_eq!(user.id, "alice");
    assert_eq!(user.name, "John Smith");
}

#[test]
fn numeric_initiator_claim_becomes_textual_id() {
    let resolver = resolver();
    let token = token_with_claims(
        "key1",
        &SECRET,
        standard_claims(serde_json::Value::Number(serde_json::Number::from(42u64))),
    );
    let value = bearer(&token);
    let user = resolver
        .authorize(Some(&value))
        .expect("never a server fault")
        .expect("the token is valid");
    assert_eq!(user.id, "42");
}

#[test]
fn missing_header_is_400() {
    let resolver = resolver();
    let outcome = resolver.authorize(None);
    let err = outcome.expect("never a server fault").expect_err("no header");
    assert!(matches!(err, ClientError::AuthHeaderNotFound));
    assert_eq!(err.status_code(), BAD_REQUEST);
}

#[test]
fn non_text_header_is_400() {
    let resolver = resolver();
    let value: Vec<u8> = vec![66, 101, 255, 13];
    let err = resolver
        .authorize(Some(&value))
        .expect("never a server fault")
        .expect_err("the value is not readable text");
    assert!(matches!(err, ClientError::AuthHeaderNonUtf8));
    assert_eq!(err.status_code(), BAD_REQUEST);
}

#[test]
fn token_scheme_without_bearer_prefix_is_400() {
    let resolver = resolver();
    let value = b"Token abc".to_vec();
    let outcome = resolver.authorize(Some(&value));
    let err = outcome.expect("never a server fault").expect_err("wrong scheme");
    match &err {
        ClientError::MissingBearer { raw } => assert_eq!(raw, "Token abc"),
        other => panic!("expected MissingBearer, got {other:?}"),
    }
    assert_eq!(err.status_code(), BAD_REQUEST);
}

#[test]
fn undecodable_token_is_400() {
    let resolver = resolver();
    let value = b"Bearer not.a.jwt".to_vec();
    let err = resolver
        .authorize(Some(&value))
        .expect("never a server fault")
        .expect_err("the token is not a JWT");
    assert!(matches!(err, ClientError::IllegalJwt { .. }));
    assert_eq!(err.status_code(), BAD_REQUEST);
}

#[test]
fn unknown_key_id_is_a_classified_404_not_500() {
    let resolver = resolver();
    let token = token_with_claims(
        "absent-key",
        &SECRET,
        standard_claims(serde_json::Value::String("alice".to_string())),
    );
    let value = bearer(&token);
    let outcome = resolver.authorize(Some(&value));
    assert_eq!(auth_outcome_status(&outcome), NOT_FOUND);
    let err = outcome.expect("never a server fault").expect_err("unknown kid");
    match &err {
        ClientError::KeyResolve { source } => match source {
            KeyClientError::UnknownKeyId { kid } => assert_eq!(kid, "absent-key"),
            other => panic!("expected UnknownKeyId, got {other:?}"),
        },
        other => panic!("expected KeyResolve, got {other:?}"),
    }
}

#[test]
fn token_header_without_kid_is_400() {
    let resolver = resolver();
    let token = jsonwebtoken::encode(
        &jsonwebtoken::Header::new(jsonwebtoken::Algorithm::HS256),
        &serde_json::Value::Object(standard_claims(serde_json::Value::String(
            "alice".to_string(),
        ))),
        &jsonwebtoken::EncodingKey::from_secret(&SECRET),
    )
    .expect("signing cannot fail for HS256");
    let value = bearer(&token);
    let err = resolver
        .authorize(Some(&value))
        .expect("never a server fault")
        .expect_err("no kid in the token header");
    match &err {
        ClientError::KeyResolve { source } => {
            assert!(matches!(source, KeyClientError::HeaderKidNotFound));
            assert_eq!(err.status_code(), BAD_REQUEST);
        },
        other => panic!("expected KeyResolve, got {other:?}"),
    }
}

#[test]
fn wrong_signature_is_401() {
    let resolver = resolver();
    let token = token_with_claims(
        "key1",
        &OTHER_SECRET,
        standard_claims(serde_json::Value::String("alice".to_string())),
    );
    let value = bearer(&token);
    let outcome = resolver.authorize(Some(&value));
    assert_eq!(auth_outcome_status(&outcome), UNAUTHORIZED);
    let err = outcome.expect("never a server fault").expect_err("bad signature");
    assert!(matches!(err, ClientError::JwtValidate));
}

#[test]
fn array_initiator_claim_is_400_illegal_type() {
    let resolver = resolver();
    let token = token_with_claims(
        "key1",
        &SECRET,
        standard_claims(serde_json::Value::Array(vec![serde_json::Value::String(
            "alice".to_string(),
        )])),
    );
    let value = bearer(&token);
    let outcome = resolver.authorize(Some(&value));
    assert_eq!(auth_outcome_status(&outcome), BAD_REQUEST);
    let err = outcome.expect("never a server fault").expect_err("illegal claim type");
    match &err {
        ClientError::JwtIllegalType { claim, .. } => assert_eq!(claim, CLAIM),
        other => panic!("expected JwtIllegalType, got {other:?}"),
    }
}

#[test]
fn missing_initiator_claim_is_400() {
    let resolver = resolver();
    let mut claims = serde_json::Map::new();
    claims.insert(
        "exp".to_string(),
        serde_json::Value::Number(serde_json::Number::from(FUTURE_EXP)),
    );
    let token = token_with_claims("key1", &SECRET, claims);
    let value = bearer(&token);
    let err = resolver
        .authorize(Some(&value))
        .expect("never a server fault")
        .expect_err("the claim is absent");
    match &err {
        ClientError::JwtMissingInitiatorClaim { claim } => assert_eq!(claim, CLAIM),
        other => panic!("expected JwtMissingInitiatorClaim, got {other:?}"),
    }
    assert_eq!(err.status_code(), BAD_REQUEST);
}

#[test]
fn successful_outcome_maps_to_200() {
    let resolver = resolver();
    let token = token_with_claims(
        "key1",
        &SECRET,
        standard_claims(serde_json::Value::String("alice".to_string())),
    );
    let value = bearer(&token);
    let outcome = resolver.authorize(Some(&value));
    assert_eq!(auth_outcome_status(&outcome), OK);
}

#[test]
fn extract_jwt_returns_everything_after_the_prefix() {
    let value = b"Bearer abc.def.ghi".to_vec();
    let token = extract_jwt(Some(&value)).expect("the prefix is present");
    assert_eq!(token, "abc.def.ghi");
}

#[test]
fn extract_jwt_accepts_a_tab_as_header_text() {
    // The HTTP header grammar allows a horizontal tab in a value, so a tab
    // must not be reported as unreadable text.
    let value = b"Bearer a\tb".to_vec();
    let token = extract_jwt(Some(&value)).expect("a tab is readable header text");
    assert_eq!(token, "a\tb");
}

#[test]
fn extract_jwt_reports_each_fault() {
    assert!(matches!(extract_jwt(None), Err(ClientError::AuthHeaderNotFound)));
    let bad = vec![0u8, 200u8];
    assert!(matches!(extract_jwt(Some(&bad)), Err(ClientError::AuthHeaderNonUtf8)));
    let short = b"Bear".to_vec();
    assert!(matches!(extract_jwt(Some(&short)), Err(ClientError::MissingBearer { .. })));
}

#[test]
fn entries_without_key_id_are_skipped() {
    let k = encode_key(&SECRET);
    let text = format!(
        "{{\"keys\":[{{\"kty\":\"oct\",\"k\":\"{k}\"}},{{\"kty\":\"oct\",\"kid\":\"key1\",\"k\":\"{k}\"}}]}}"
    );
    let kid = KidResolver::new(&text).expect("the keyed entry is fine");
    let resolver = JwkResolver::new(CLAIM.to_string(), kid);
    let token = token_with_claims(
        "key1",
        &SECRET,
        standard_claims(serde_json::Value::String("alice".to_string())),
    );
    let value = bearer(&token);
    let user = resolver
        .authorize(Some(&value))
        .expect("never a server fault")
        .expect("the keyed entry resolves");
    assert_eq!(user.id, "alice");
}

#[test]
fn duplicate_key_id_keeps_the_first_key() {
    let first = encode_key(&SECRET);
    let second = encode_key(&OTHER_SECRET);
    let text = format!(
        "{{\"keys\":[{{\"kty\":\"oct\",\"kid\":\"key1\",\"k\":\"{first}\"}},{{\"kty\":\"oct\",\"kid\":\"key1\",\"k\":\"{second}\"}}]}}"
    );
    let kid = KidResolver::new(&text).expect("the set parses");
    let resolver = JwkResolver::new(CLAIM.to_string(), kid);
    // A token signed with the first key validates; one signed with the
    // second does not, because the first occurrence won.
    let good = bearer(&token_with_claims(
        "key1",
        &SECRET,
        standard_claims(serde_json::Value::String("alice".to_string())),
    ));
    assert!(resolver.authorize(Some(&good)).unwrap().is_ok());
    let bad = bearer(&token_with_claims(
        "key1",
        &OTHER_SECRET,
        standard_claims(serde_json::Value::String("alice".to_string())),
    ));
    assert!(matches!(
        resolver.authorize(Some(&bad)).unwrap(),
        Err(ClientError::JwtValidate)
    ));
}

#[test]
fn non_octet_key_fails_construction() {
    let text = "{\"keys\":[{\"kty\":\"RSA\",\"kid\":\"key1\",\"n\":\"AQAB\",\"e\":\"AQAB\"}]}";
    let err = KidResolver::new(text).expect_err("only octet keys are supported");
    match err {
        KeyServerError::KeyTypeUnsupported { kid } => assert_eq!(kid, "key1"),
        other => panic!("expected KeyTypeUnsupported, got {other:?}"),
    }
}

#[test]
fn undecodable_key_material_fails_construction() {
    let text = "{\"keys\":[{\"kty\":\"oct\",\"kid\":\"key1\",\"k\":\"!!!not-base64!!!\"}]}";
    let err = KidResolver::new(text).expect_err("the key is not base64url");
    match err {
        KeyServerError::KeyDecodeBase64 { kid } => assert_eq!(kid, "key1"),
        other => panic!("expected KeyDecodeBase64, got {other:?}"),
    }
}

#[test]
fn unparsable_key_set_fails_construction() {
    let err = KidResolver::new("not json at all").expect_err("the text is not JSON");
    assert!(matches!(err, KeyServerError::SetParse));
}

#[test]
fn from_entries_builds_the_same_store_as_parsing() {
    let k = encode_key(&SECRET);
    let entries = vec![
        JwkEntry { kid: None, params: JwkParams::Octet { value: k.clone() } },
        JwkEntry { kid: Some("key1".to_string()), params: JwkParams::Octet { value: k } },
    ];
    let kid = KidResolver::from_entries(&entries).expect("the entries are fine");
    let resolver = JwkResolver::new(CLAIM.to_string(), kid);
    let token = token_with_claims(
        "key1",
        &SECRET,
        standard_claims(serde_json::Value::String("alice".to_string())),
    );
    let value = bearer(&token);
    assert!(resolver.authorize(Some(&value)).unwrap().is_ok());
}

#[test]
fn failed_validation_classifies_as_401() {
    let claim = "who".to_string();
    let err = classify_validation(None, &claim).expect_err("no claims came back");
    assert!(matches!(err, ClientError::JwtValidate));
    assert_eq!(err.status_code(), UNAUTHORIZED);
    let claims = vec![("who".to_string(), ClaimValue::Str("alice".to_string()))];
    let user = classify_validation(Some(claims), &claim).expect("a string claim");
    assert_eq!(user.id, "alice");
}

#[test]
fn user_from_claims_classifies_each_value() {
    let claims = vec![
        ("who".to_string(), ClaimValue::Str("alice".to_string())),
        ("num".to_string(), ClaimValue::Num("7".to_string())),
        ("odd".to_string(), ClaimValue::Other("[1,2]".to_string())),
    ];
    let user: User = user_from_claims(&claims, &"who".to_string()).expect("a string claim");
    assert_eq!(user.id, "alice");
    let user = user_from_claims(&claims, &"num".to_string()).expect("a numeric claim");
    assert_eq!(user.id, "7");
    assert!(matches!(
        user_from_claims(&claims, &"odd".to_string()),
        Err(ClientError::JwtIllegalType { .. })
    ));
    assert!(matches!(
        user_from_claims(&claims, &"gone".to_string()),
        Err(ClientError::JwtMissingInitiatorClaim { .. })
    ));
}

#[test]
fn noop_resolver_authorizes_everyone() {
    let resolver = NoOpResolver::new();
    let user = resolver.authorize(None).expect("no fault").expect("no fault");
    assert_eq!(user.id, "johnsmith");
    assert_eq!(user.name, "John Smith");
}
