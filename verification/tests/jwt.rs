use todo_api::models::user::User;
use todo_api::services::jwt::{
    claims_for, claims_from_payload, generate, generate_at, identity_from, token_text, verify,
    verify_at, Claims, Payload, TokenError, DEFAULT_LIFETIME,
};
use todo_api::state::app::initialize;

fn sample_user() -> User {
    User { id: "123".into(), email: "test@test.com".into(), password: "".into() }
}

fn clock() -> i64 {
    std::time::SystemTime::now().duration_since(std::time::UNIX_EPOCH).unwrap().as_secs() as i64
}

fn sign(body: serde_json::Value, secret: &str) -> String {
    jsonwebtoken::encode(
        &jsonwebtoken::Header::default(),
        &body,
        &jsonwebtoken::EncodingKey::from_secret(secret.as_bytes()),
    )
    .unwrap()
}

fn object(pairs: Vec<(&str, serde_json::Value)>) -> serde_json::Value {
    let mut map = serde_json::Map::new();
    for (k, v) in pairs {
        map.insert(k.to_string(), v);
    }
    serde_json::Value::Object(map)
}

#[test]
fn generate_and_verify_jwt_token() {
    let state = initialize(None, None);
    let user = User { id: "123".into(), email: "test@test.com".into(), password: "".into() };
    let token = generate(&user.clone(), &state.static_data.jwt_secret, state.static_data.jwt_lifetime);
    let verify = match verify(token, &state.static_data.jwt_secret) {
        Ok(user) => user.id,
        Err(e) => panic!("{:?}", e),
    };

    assert_eq!(verify, user.id);
}

#[test]
fn token_is_three_base64url_parts_with_the_claims_in_order() {
    let token = generate_at(&sample_user(), "secret", 300, 1000);
    let parts: Vec<&str> = token.split('.').collect();
    assert_eq!(parts.len(), 3);
    let header = base64::decode_config(parts[0], base64::URL_SAFE_NO_PAD).unwrap();
    assert_eq!(String::from_utf8(header).unwrap(), r#"{"typ":"JWT","alg":"HS256"}"#);
    let claims = base64::decode_config(parts[1], base64::URL_SAFE_NO_PAD).unwrap();
    assert_eq!(
        String::from_utf8(claims).unwrap(),
        r#"{"sub":"123","email":"test@test.com","exp":1300,"iat":1000}"#
    );
    assert_eq!(base64::decode_config(parts[2], base64::URL_SAFE_NO_PAD).unwrap().len(), 32);
}

#[test]
fn token_is_a_function_of_user_secret_lifetime_and_time() {
    let one = generate_at(&sample_user(), "secret", 300, 1000);
    let two = generate_at(&sample_user(), "secret", 300, 1000);
    assert_eq!(one, two);
    assert_ne!(one, generate_at(&sample_user(), "secret", 300, 1001));
    assert_ne!(one, generate_at(&sample_user(), "secret", 301, 1000));
    assert_ne!(one, generate_at(&sample_user(), "other", 300, 1000));
}

#[test]
fn token_is_what_the_signing_crate_makes_of_the_claims() {
    let expected = sign(
        object(vec![
            ("sub", "123".into()),
            ("email", "test@test.com".into()),
            ("exp", 1300i64.into()),
            ("iat", 1000i64.into()),
        ]),
        "secret",
    );
    assert_eq!(generate_at(&sample_user(), "secret", 300, 1000), expected);
}

#[test]
fn issued_token_verifies_to_the_identity_without_a_password() {
    let user = User { id: "u-1".into(), email: "e@x.com".into(), password: "$2b$hash".into() };
    let token = generate_at(&user, "secret", 300, 1000);
    assert!(!token.is_empty());
    for at in [i64::MIN, -5, 0, 999, 1000, 1001, 1299, 1300] {
        let seen = verify_at(&token, "secret", at).unwrap();
        assert_eq!(seen.id, "u-1");
        assert_eq!(seen.email, "e@x.com");
        assert_eq!(seen.password, "");
    }
}

#[test]
fn token_fails_strictly_after_its_expiry() {
    let token = generate_at(&sample_user(), "secret", 300, 1000);
    assert!(verify_at(&token, "secret", 1300).is_ok());
    assert_eq!(verify_at(&token, "secret", 1301), Err(TokenError::Invalid));
    assert_eq!(verify_at(&token, "secret", 5000), Err(TokenError::Invalid));
    assert_eq!(verify_at(&token, "secret", i64::MAX), Err(TokenError::Invalid));
}

#[test]
fn token_issued_in_the_past_fails_now() {
    let now = clock();
    let stale = generate_at(&sample_user(), "secret", 300, now - 1000);
    assert_eq!(verify(stale, "secret"), Err(TokenError::Invalid));
    let fresh = generate_at(&sample_user(), "secret", 300, now);
    assert_eq!(verify(fresh, "secret").unwrap().id, "123");
}

#[test]
fn token_with_a_negative_lifetime_is_expired_at_once() {
    let token = generate(&sample_user(), "secret", -100);
    assert!(!token.is_empty());
    assert_eq!(verify(token, "secret"), Err(TokenError::Invalid));
}

#[test]
fn token_fails_under_another_secret() {
    let token = generate_at(&sample_user(), "secret A", 300, 1000);
    assert!(verify_at(&token, "secret A", 1000).is_ok());
    assert_eq!(verify_at(&token, "secret B", 1000), Err(TokenError::Invalid));
    assert_eq!(verify_at(&token, "", 1000), Err(TokenError::Invalid));
}

#[test]
fn secrets_that_pad_to_the_same_key_sign_alike() {
    // HMAC fills a short key with zero bytes, so these two secrets are one key.
    let token = generate_at(&sample_user(), "k", 300, 1000);
    assert_eq!(token, generate_at(&sample_user(), "k\0", 300, 1000));
    assert!(verify_at(&token, "k\0", 1000).is_ok());
    assert_eq!(verify_at(&token, "k\u{1}", 1000), Err(TokenError::Invalid));
}

#[test]
fn empty_secret_is_accepted() {
    let token = generate_at(&sample_user(), "", 300, 1000);
    assert!(!token.is_empty());
    assert_eq!(verify_at(&token, "", 1000).unwrap().email, "test@test.com");
    assert_eq!(verify_at(&token, "x", 1000), Err(TokenError::Invalid));
}

#[test]
fn malformed_tokens_are_invalid() {
    for token in ["", "abc", "a.b", "a.b.c", "a.b.c.d", "..", "Bearer x", "é.é.é"] {
        assert_eq!(verify_at(token, "secret", 0), Err(TokenError::Invalid), "{:?}", token);
    }
}

#[test]
fn tampered_token_is_invalid() {
    let token = generate_at(&sample_user(), "secret", 300, 1000);
    let parts: Vec<&str> = token.split('.').collect();
    let other = generate_at(
        &User { id: "999".into(), email: "test@test.com".into(), password: "".into() },
        "secret",
        300,
        1000,
    );
    let other_parts: Vec<&str> = other.split('.').collect();
    let forged = format!("{}.{}.{}", parts[0], other_parts[1], parts[2]);
    assert_eq!(verify_at(&forged, "secret", 1000), Err(TokenError::Invalid));
    let cut = &token[..token.len() - 1];
    assert_eq!(verify_at(cut, "secret", 1000), Err(TokenError::Invalid));
}

#[test]
fn token_for_another_algorithm_is_invalid() {
    let token = jsonwebtoken::encode(
        &jsonwebtoken::Header::new(jsonwebtoken::Algorithm::HS512),
        &object(vec![
            ("sub", "123".into()),
            ("email", "test@test.com".into()),
            ("exp", 1300i64.into()),
            ("iat", 1000i64.into()),
        ]),
        &jsonwebtoken::EncodingKey::from_secret(b"secret"),
    )
    .unwrap();
    assert_eq!(verify_at(&token, "secret", 1000), Err(TokenError::Invalid));
}

#[test]
fn token_with_incomplete_claims_is_invalid() {
    let full = vec![
        ("sub", serde_json::Value::from("123")),
        ("email", "test@test.com".into()),
        ("exp", 1300i64.into()),
        ("iat", 1000i64.into()),
    ];
    assert!(verify_at(&sign(object(full.clone()), "secret"), "secret", 1000).is_ok());
    for missing in 0..4 {
        let mut pairs = full.clone();
        pairs.remove(missing);
        let token = sign(object(pairs), "secret");
        assert_eq!(verify_at(&token, "secret", 1000), Err(TokenError::Invalid), "{}", missing);
    }
}

#[test]
fn token_with_claims_of_another_type_is_invalid() {
    let cases = vec![
        vec![("sub", serde_json::Value::from(123)), ("email", "e".into()), ("exp", 9.into()), ("iat", 1.into())],
        vec![("sub", "s".into()), ("email", serde_json::Value::Null), ("exp", 9.into()), ("iat", 1.into())],
        vec![("sub", "s".into()), ("email", "e".into()), ("exp", "9".into()), ("iat", 1.into())],
        vec![("sub", "s".into()), ("email", "e".into()), ("exp", 9.5.into()), ("iat", 1.into())],
        vec![("sub", "s".into()), ("email", "e".into()), ("exp", u64::MAX.into()), ("iat", 1.into())],
        vec![("sub", "s".into()), ("email", "e".into()), ("exp", 9.into()), ("iat", true.into())],
    ];
    for pairs in cases {
        let token = sign(object(pairs), "secret");
        assert_eq!(verify_at(&token, "secret", 0), Err(TokenError::Invalid));
    }
}

#[test]
fn token_with_more_claims_is_read_for_its_four() {
    let token = sign(
        object(vec![
            ("iat", 1000i64.into()),
            ("role", "admin".into()),
            ("exp", 1300i64.into()),
            ("password", "leak".into()),
            ("email", "e@x.com".into()),
            ("sub", "u-1".into()),
        ]),
        "secret",
    );
    let seen = verify_at(&token, "secret", 1200).unwrap();
    assert_eq!(seen, User { id: "u-1".into(), email: "e@x.com".into(), password: "".into() });
}

#[test]
fn claims_that_are_no_object_are_invalid() {
    let token = sign(serde_json::Value::from(vec![1, 2, 3]), "secret");
    assert_eq!(verify_at(&token, "secret", 0), Err(TokenError::Invalid));
    let token = sign(serde_json::Value::from("text"), "secret");
    assert_eq!(verify_at(&token, "secret", 0), Err(TokenError::Invalid));
}

#[test]
fn text_with_quotes_and_unicode_survives_the_token() {
    let user = User { id: "i\"d\\ \n\u{1F600}".into(), email: "é@x.com\t{}".into(), password: "p".into() };
    let token = generate_at(&user, "sécret \"k\"", 10, 5);
    let seen = verify_at(&token, "sécret \"k\"", 15).unwrap();
    assert_eq!(seen.id, user.id);
    assert_eq!(seen.email, user.email);
    assert_eq!(seen.password, "");
}

#[test]
fn claims_for_sets_the_window() {
    let claims = claims_for(&sample_user(), 300, 1000).unwrap();
    assert_eq!(claims, Claims { sub: "123".into(), email: "test@test.com".into(), exp: 1300, iat: 1000 });
    let claims = claims_for(&sample_user(), -300, 1000).unwrap();
    assert_eq!((claims.exp, claims.iat), (700, 1000));
    let claims = claims_for(&sample_user(), 0, -7).unwrap();
    assert_eq!((claims.exp, claims.iat), (-7, -7));
    let claims = claims_for(&sample_user(), 1, i64::MAX - 1).unwrap();
    assert_eq!(claims.exp, i64::MAX);
}

#[test]
fn expiry_that_does_not_fit_gives_no_token() {
    assert_eq!(claims_for(&sample_user(), 1, i64::MAX), None);
    assert_eq!(claims_for(&sample_user(), i64::MAX, 1), None);
    assert_eq!(claims_for(&sample_user(), -1, i64::MIN), None);
    assert_eq!(generate_at(&sample_user(), "secret", 1, i64::MAX), "");
    assert_eq!(generate_at(&sample_user(), "secret", i64::MIN, -1), "");
    assert_eq!(generate(&sample_user(), "secret", i64::MAX), "");
}

#[test]
fn default_lifetime_is_five_minutes() {
    assert_eq!(DEFAULT_LIFETIME, 300);
    let before = clock();
    let token = generate(&sample_user(), "secret", DEFAULT_LIFETIME);
    let after = clock();
    assert!(verify_at(&token, "secret", before + 300).is_ok());
    assert_eq!(verify_at(&token, "secret", after + 301), Err(TokenError::Invalid));
}

#[test]
fn token_text_is_empty_for_a_failed_signing() {
    assert_eq!(token_text(Ok("a.b.c".to_string())), "a.b.c");
    let failure = jsonwebtoken::decode::<serde_json::Value>(
        "x",
        &jsonwebtoken::DecodingKey::from_secret(b""),
        &jsonwebtoken::Validation::default(),
    )
    .unwrap_err();
    assert_eq!(token_text(Err(failure)), "");
}

#[test]
fn claims_from_payload_needs_all_four() {
    let full = Payload { sub: Some("s".into()), email: Some("e".into()), exp: Some(9), iat: Some(1) };
    assert_eq!(
        claims_from_payload(full.clone()),
        Some(Claims { sub: "s".into(), email: "e".into(), exp: 9, iat: 1 })
    );
    assert_eq!(claims_from_payload(Payload { sub: None, ..full.clone() }), None);
    assert_eq!(claims_from_payload(Payload { email: None, ..full.clone() }), None);
    assert_eq!(claims_from_payload(Payload { exp: None, ..full.clone() }), None);
    assert_eq!(claims_from_payload(Payload { iat: None, ..full.clone() }), None);
}

#[test]
fn identity_from_decides_on_the_decoded_payload() {
    let full = Payload { sub: Some("s".into()), email: Some("e".into()), exp: Some(9), iat: Some(1) };
    let expected = User { id: "s".into(), email: "e".into(), password: "".into() };
    assert_eq!(identity_from(Ok(full.clone()), 9), Ok(expected.clone()));
    assert_eq!(identity_from(Ok(full.clone()), 0), Ok(expected));
    assert_eq!(identity_from(Ok(full.clone()), 10), Err(TokenError::Invalid));
    assert_eq!(identity_from(Ok(Payload { iat: None, ..full }), 0), Err(TokenError::Invalid));
    let failure = jsonwebtoken::decode::<serde_json::Value>(
        "x",
        &jsonwebtoken::DecodingKey::from_secret(b""),
        &jsonwebtoken::Validation::default(),
    )
    .unwrap_err();
    assert_eq!(identity_from(Err(failure), 0), Err(TokenError::Invalid));
}

#[test]
fn from_jwt_leaves_the_password_empty() {
    let claims = Claims { sub: "s".into(), email: "e".into(), exp: 9, iat: 1 };
    assert_eq!(User::from_jwt(&claims), User { id: "s".into(), email: "e".into(), password: "".into() });
}

#[test]
fn generate_jwt_is_generate() {
    let user = sample_user();
    let now = clock();
    let token = user.generate_jwt("secret", 300);
    let seen = verify_at(&token, "secret", now).unwrap();
    assert_eq!(seen.id, "123");
    assert_eq!(verify_at(&token, "secret", now + 400), Err(TokenError::Invalid));
}

#[test]
fn issued_token_holds_token_characters_only() {
    let users = [
        sample_user(),
        User { id: "i d\t\n".into(), email: " é @x.com ".into(), password: "".into() },
        User { id: "".into(), email: "".into(), password: "".into() },
    ];
    for user in users.iter() {
        for secret in ["", "secret", "white space\n", "ключ"] {
            let token = generate_at(user, secret, 300, 1000);
            assert!(!token.is_empty());
            assert_eq!(token.split('.').count(), 3);
            assert!(token
                .chars()
                .all(|c| c.is_ascii_alphanumeric() || c == '-' || c == '_' || c == '.'));
            assert!(!token.chars().any(char::is_whitespace));
        }
    }
}

#[test]
fn token_is_issued_whenever_the_expiry_fits() {
    for (lifetime, now) in [(300, 0), (0, 0), (-300, 0), (1, i64::MAX - 1), (-1, i64::MIN + 1), (i64::MIN, 0), (i64::MAX, 0)] {
        let token = generate_at(&sample_user(), "secret", lifetime, now);
        assert!(!token.is_empty(), "{} {}", lifetime, now);
        assert!(verify_at(&token, "secret", now + lifetime).is_ok());
    }
}

#[test]
fn issued_token_has_three_parts_that_are_not_empty() {
    for (user, secret) in [
        (sample_user(), ""),
        (sample_user(), "secret"),
        (User { id: "".into(), email: "".into(), password: "".into() }, "."),
        (User { id: "a.b.c".into(), email: "...".into(), password: "".into() }, "k"),
    ] {
        let token = generate_at(&user, secret, 300, 1000);
        let parts: Vec<&str> = token.split('.').collect();
        assert_eq!(parts.len(), 3);
        for part in parts {
            assert!(!part.is_empty());
            assert!(part.chars().all(|c| c.is_ascii_alphanumeric() || c == '-' || c == '_'));
        }
    }
}
