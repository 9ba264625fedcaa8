use agenthost::jwt_util::{
    claims_from_members, claims_json, create_token, create_token_at, jwt_error_kind, jwt_error_message, login,
    validated_claims, verify_outcome, verify_token, Claims, JwtErrorKind, CODE,
};

#[derive(Debug, PartialEq)]
struct Payload {
    username: String,
    expires: usize,
}

fn decode_payload(token: &str) -> Payload {
    let mut v = jsonwebtoken::Validation::default();
    v.required_spec_claims.clear();
    v.validate_exp = false;
    let key = jsonwebtoken::DecodingKey::from_secret(CODE.as_bytes());
    let claims = jsonwebtoken::decode::<serde_json::Value>(token, &key, &v).unwrap().claims;
    Payload {
        username: claims["username"].as_str().unwrap().to_string(),
        expires: claims["expires"].as_u64().unwrap() as usize,
    }
}

#[test]
fn claims_text() {
    let c = Claims { username: "bo\"b".to_string(), expires: 1700604800 };
    assert_eq!(claims_json(&c), "{\"username\":\"bo\\\"b\",\"expires\":1700604800}");
    let d = Claims { username: "a\u{1}\n\\".to_string(), expires: 0 };
    assert_eq!(claims_json(&d), "{\"username\":\"a\\u0001\\n\\\\\",\"expires\":0}");
}

#[test]
fn token_carries_claims() {
    let t = create_token_at("alice", 1_700_000_000).unwrap();
    assert_eq!(decode_payload(&t), Payload { username: "alice".to_string(), expires: 1_700_604_800 });
    assert_eq!(t.split('.').count(), 3);
}

#[test]
fn fresh_tokens() {
    let t = create_token("carol").unwrap();
    let p = decode_payload(&t);
    assert_eq!(p.username, "carol");
    let now = jsonwebtoken::get_current_timestamp() as usize;
    assert!(p.expires >= now + 604800 - 5 && p.expires <= now + 604800);
    let l = login("dave", "anything").unwrap();
    assert_eq!(decode_payload(&l).username, "dave");
}

#[test]
fn verification_failures() {
    assert_eq!(jwt_error_message(&JwtErrorKind::ExpiredSignature), "Expired signature");
    assert_eq!(jwt_error_message(&JwtErrorKind::MissingRequiredClaim("exp".to_string())), "exp");
    assert_eq!(jwt_error_message(&JwtErrorKind::Other), "Other JWT error");
    let e = verify_outcome(Err(JwtErrorKind::InvalidSignature)).unwrap_err();
    assert_eq!(e, (401, "Invalid signature".to_string()));
    let ok = verify_outcome(Ok(Claims { username: "u".to_string(), expires: 5 })).unwrap();
    assert_eq!(ok.username, "u");
}

fn sign(payload: &str, secret: &str) -> String {
    let value: serde_json::Value = serde_json::from_str(payload).unwrap();
    let key = jsonwebtoken::EncodingKey::from_secret(secret.as_bytes());
    jsonwebtoken::encode(&jsonwebtoken::Header::default(), &value, &key).unwrap()
}

#[test]
fn verify_issued_token_needs_exp() {
    // Tokens carry no `exp` claim, which the default validation requires.
    let t = create_token_at("alice", 1_700_000_000).unwrap();
    assert_eq!(verify_token(&t).unwrap_err(), (401, "exp".to_string()));
}

#[test]
fn verify_token_outcomes() {
    let later = jsonwebtoken::get_current_timestamp() + 3600;
    let good = sign(&format!("{{\"username\":\"eve\",\"expires\":42,\"exp\":{}}}", later), CODE);
    let c = verify_token(&good).unwrap();
    assert_eq!((c.username.as_str(), c.expires), ("eve", 42));

    let expired = sign("{\"username\":\"eve\",\"expires\":42,\"exp\":1000}", CODE);
    assert_eq!(verify_token(&expired).unwrap_err(), (401, "Expired signature".to_string()));

    let other_key = sign(&format!("{{\"username\":\"eve\",\"expires\":42,\"exp\":{}}}", later), "other");
    assert_eq!(verify_token(&other_key).unwrap_err(), (401, "Invalid signature".to_string()));

    assert_eq!(verify_token("not a token").unwrap_err(), (401, "Invalid token".to_string()));

    let nameless = sign(&format!("{{\"expires\":42,\"exp\":{}}}", later), CODE);
    assert_eq!(verify_token(&nameless).unwrap_err(), (401, "missing field `username`".to_string()));

    let negative = sign("{\"username\":\"eve\",\"expires\":-1}", CODE);
    assert_eq!(verify_token(&negative).unwrap_err(), (401, "invalid value: expected a usize for `expires`".to_string()));
}

#[test]
fn error_kinds_and_claims() {
    assert_eq!(jwt_error_message(&jwt_error_kind("InvalidToken", "InvalidToken")), "Invalid token");
    assert_eq!(
        jwt_error_message(&jwt_error_kind("MissingRequiredClaim(\"exp\")", "Missing required claim: exp")),
        "exp"
    );
    assert_eq!(jwt_error_message(&jwt_error_kind("Json(Error(..))", "JSON error: bad")), "bad");
    assert_eq!(jwt_error_message(&jwt_error_kind("Whatever", "x")), "Other JWT error");
    let ms = vec![
        ("expires".to_string(), "7".to_string()),
        ("username".to_string(), "\"zed\"".to_string()),
    ];
    let c = claims_from_members(&ms).unwrap();
    assert_eq!((c.username.as_str(), c.expires), ("zed", 7));
    let bad = vec![("username".to_string(), "5".to_string())];
    assert_eq!(claims_from_members(&bad).unwrap_err(), "invalid type: expected a string for `username`");
    let v = validated_claims(c, Err(("ExpiredSignature".to_string(), "ExpiredSignature".to_string())));
    assert_eq!(v.unwrap_err(), (401, "Expired signature".to_string()));
}

#[test]
fn verify_array_payload() {
    // jsonwebtoken reads its own claims from the payload before validating;
    // an array of two items is too short for them.
    let t = sign("[\"alice\",5]", CODE);
    assert_eq!(
        verify_token(&t).unwrap_err(),
        (401, "invalid length 2, expected struct ClaimsForValidation with 5 elements at line 1 column 11".to_string())
    );
}
