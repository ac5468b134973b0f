use jsonwebtoken::{decode, Algorithm, DecodingKey, Validation};
use user_api::firebase::{
    check_firebase_claims, decoded_firebase_user, firebase_decoding_key, firebase_issuer,
    firebase_token_validation,
    firebase_key_id, get_required_env, key_id_from_header, select_signing_cert,
    FirebaseAuthError, FirebaseClaims, FirebaseUser,
};
use user_api::jwt::{
    access_token_validation, generate_auth_tokens, issue_token_pair, tokens_at, SigningAlgorithm, TokenPair, ACCESS_TOKEN_TTL_SECONDS,
    REFRESH_TOKEN_TTL_SECONDS,
};
use user_api::login::{event_answers, login_next, login_start, LoginEvent, LoginStep};
use user_api::users::{LoginRequest, UserRecord};

const PUBLIC_KEY: &str = "-----BEGIN PUBLIC KEY-----
MIIBIjANBgkqhkiG9w0BAQEFAAOCAQ8AMIIBCgKCAQEAyRE6rHuNR0QbHO3H3Kt2
pOKGVhQqGZXInOduQNxXzuKlvQTLUTv4l4sggh5/CYYi/cvI+SXVT9kPWSKXxJXB
Xd/4LkvcPuUakBoAkfh+eiFVMh2VrUyWyj3MFl0HTVF9KwRXLAcwkREiS3npThHR
yIxuy0ZMeZfxVL5arMhw1SRELB8HoGfG/AtH89BIE9jDBHZ9dLelK9a184zAf8Lw
oPLxvJb3Il5nncqPcSfKDDodMFBIMc4lQzDKL5gvmiXLXB1AGLm8KBjfE8s3L5xq
i+yUod+j8MtvIj812dkS4QMiRVN/by2h3ZY8LYVGrqZXZTcgn2ujn8uKjXLZVD5T
dQIDAQAB
-----END PUBLIC KEY-----
";

fn claims_of(token: &str, secret: &str) -> serde_json::Value {
    let mut validation = Validation::new(Algorithm::HS256);
    validation.validate_exp = false;
    decode::<serde_json::Value>(token, &DecodingKey::from_secret(secret.as_bytes()), &validation)
        .unwrap()
        .claims
}

fn invalid_message(e: &FirebaseAuthError) -> Option<String> {
    match e {
        FirebaseAuthError::InvalidToken(m) => Some(m.clone()),
        FirebaseAuthError::Service(_) => None,
    }
}

fn service_message(e: &FirebaseAuthError) -> Option<String> {
    match e {
        FirebaseAuthError::Service(m) => Some(m.clone()),
        FirebaseAuthError::InvalidToken(_) => None,
    }
}

#[test]
fn issued_pair_holds_signed_claims() {
    let pair = issue_token_pair(42, "+15550100", "access-secret", "refresh-secret", 1_700_000_000).ok().unwrap();
    assert_eq!(pair.token_type, "Bearer");
    assert_eq!(pair.access_expires_in, 900);
    assert_eq!(pair.refresh_expires_in, 2_592_000);
    assert_eq!(pair.access_token.split('.').count(), 3);
    assert_ne!(pair.access_token, "access-secret");

    let access = claims_of(&pair.access_token, "access-secret");
    assert_eq!(access["sub"], "42");
    assert_eq!(access["token_type"], "access");
    assert_eq!(access["user_id"], 42);
    assert_eq!(access["phone"], "+15550100");
    assert_eq!(access["iat"], 1_700_000_000u64);
    assert_eq!(access["exp"], 1_700_000_000u64 + ACCESS_TOKEN_TTL_SECONDS);

    let refresh = claims_of(&pair.refresh_token, "refresh-secret");
    assert_eq!(refresh["token_type"], "refresh");
    assert_eq!(refresh["exp"], 1_700_000_000u64 + REFRESH_TOKEN_TTL_SECONDS);
}

#[test]
fn issued_tokens_are_deterministic_and_key_bound() {
    let a = issue_token_pair(1, "+1", "s1", "s2", 10).ok().unwrap();
    let b = issue_token_pair(1, "+1", "s1", "s2", 10).ok().unwrap();
    assert_eq!(a.access_token, b.access_token);
    let mut validation = Validation::new(Algorithm::HS256);
    validation.validate_exp = false;
    let wrong = decode::<serde_json::Value>(
        &a.access_token,
        &DecodingKey::from_secret(b"s2"),
        &validation,
    );
    assert!(wrong.is_err());
}

#[test]
fn generated_tokens_use_the_clock_and_secrets() {
    let pair: TokenPair =
        generate_auth_tokens(5, "+2", Some("acc".to_string()), Some("ref".to_string()))
            .ok()
            .unwrap();
    let access = claims_of(&pair.access_token, "acc");
    let iat = access["iat"].as_u64().unwrap();
    assert!(iat > 1_600_000_000);
    assert_eq!(access["exp"].as_u64().unwrap(), iat + 900);
    let refresh = claims_of(&pair.refresh_token, "ref");
    assert_eq!(refresh["iat"].as_u64().unwrap(), iat);
}

#[test]
fn missing_secrets_are_named() {
    let none = generate_auth_tokens(5, "+2", None, Some("ref".to_string()));
    assert_eq!(none.err(), Some("JWT_ACCESS_SECRET is not set".to_string()));
    let blank = generate_auth_tokens(5, "+2", Some("acc".to_string()), Some(" ".to_string()));
    assert_eq!(blank.err(), Some("JWT_REFRESH_SECRET is empty".to_string()));
}

#[test]
fn firebase_settings() {
    let missing = get_required_env("FIREBASE_PROJECT_ID", None).err().unwrap();
    assert_eq!(service_message(&missing), Some("FIREBASE_PROJECT_ID is not set".to_string()));
    assert_eq!(missing.message(), "FIREBASE_PROJECT_ID is not set");
    assert_eq!(
        get_required_env("FIREBASE_PROJECT_ID", Some("demo".to_string())).ok(),
        Some("demo".to_string())
    );
    assert_eq!(firebase_issuer("demo"), "https://securetoken.google.com/demo");
}

#[test]
fn key_id_is_read_from_the_header() {
    let token = "eyJhbGciOiJSUzI1NiIsImtpZCI6ImtleS0xIiwidHlwIjoiSldUIn0.e30.sig";
    assert_eq!(firebase_key_id(token).ok(), Some("key-1".to_string()));

    let hs = "eyJhbGciOiJIUzI1NiIsInR5cCI6IkpXVCJ9.e30.sig";
    let err = firebase_key_id(hs).err().unwrap();
    assert_eq!(invalid_message(&err), Some("Invalid Firebase token algorithm".to_string()));

    let no_kid = "eyJhbGciOiJSUzI1NiIsInR5cCI6IkpXVCJ9.e30.sig";
    let err = firebase_key_id(no_kid).err().unwrap();
    assert_eq!(invalid_message(&err), Some("Firebase token is missing key id".to_string()));

    let err = firebase_key_id("not a token").err().unwrap();
    assert!(invalid_message(&err).is_some());
}

#[test]
fn header_judgement() {
    let ok = key_id_from_header(Ok(("RS256".to_string(), Some("k".to_string()))));
    assert_eq!(ok.ok(), Some("k".to_string()));
    let err = key_id_from_header(Err("InvalidToken".to_string())).err().unwrap();
    assert_eq!(invalid_message(&err), Some("InvalidToken".to_string()));
}

#[test]
fn signing_certificate_lookup() {
    let certs = vec![
        ("a".to_string(), "cert-a".to_string()),
        ("b".to_string(), "cert-b".to_string()),
    ];
    assert_eq!(select_signing_cert(&certs, "b").ok(), Some("cert-b".to_string()));
    let err = select_signing_cert(&certs, "c").err().unwrap();
    assert_eq!(invalid_message(&err), Some("Firebase signing key was not found".to_string()));
}

#[test]
fn decoding_key_from_certificate() {
    assert!(firebase_decoding_key(PUBLIC_KEY).is_ok());
    let err = firebase_decoding_key("not a pem").err().unwrap();
    assert!(service_message(&err).is_some());
}

fn claims(sub: &str, aud: &str, iss: &str, phone: Option<&str>) -> FirebaseClaims {
    FirebaseClaims {
        aud: aud.to_string(),
        iss: iss.to_string(),
        sub: sub.to_string(),
        exp: 2,
        iat: 1,
        phone_number: phone.map(|p| p.to_string()),
        name: Some("Ada".to_string()),
    }
}

#[test]
fn firebase_claims_rules() {
    let iss = "https://securetoken.google.com/demo";
    let user = check_firebase_claims(claims("uid", "demo", iss, Some(" +1555 ")), "demo")
        .ok()
        .unwrap();
    assert_eq!(user.phone, "+1555");
    assert_eq!(user.name.as_deref(), Some("Ada"));

    let cases = [
        (claims(" ", "demo", iss, Some("+1")), "Firebase token subject is invalid"),
        (claims("uid", "other", iss, Some("+1")), "Firebase token audience mismatch"),
        (claims("uid", "demo", "https://x/demo", Some("+1")), "Firebase token issuer mismatch"),
        (claims("uid", "demo", iss, None), "Firebase token does not contain a phone number"),
        (claims("uid", "demo", iss, Some("  ")), "Firebase token does not contain a phone number"),
    ];
    for (c, message) in cases {
        let err = check_firebase_claims(c, "demo").err().unwrap();
        assert_eq!(invalid_message(&err), Some(message.to_string()));
    }

    let err = decoded_firebase_user(Err("ExpiredSignature".to_string()), "demo").err().unwrap();
    assert_eq!(invalid_message(&err), Some("ExpiredSignature".to_string()));
}

fn firebase_user(phone: &str) -> FirebaseUser {
    FirebaseUser { phone: phone.to_string(), name: Some("  Grace ".to_string()) }
}

fn answer(step: LoginStep) -> (u16, String) {
    match step {
        LoginStep::Respond { response } => (response.status, response.message),
        _ => panic!("expected an answer"),
    }
}

fn run(step: LoginStep, event: LoginEvent) -> LoginStep {
    assert!(event_answers(&step, &event));
    login_next(step, event)
}

#[test]
fn login_refuses_blank_token() {
    let step = login_start(&LoginRequest { token: "   ".to_string() });
    assert_eq!(answer(step), (400, "token is required".to_string()));
}

#[test]
fn login_of_a_known_user() {
    let step = login_start(&LoginRequest { token: " tok ".to_string() });
    match &step {
        LoginStep::VerifyToken { token } => assert_eq!(token, "tok"),
        _ => panic!("expected verification"),
    }
    let step = run(step, LoginEvent::TokenVerified(Ok(firebase_user("+1555"))));
    assert!(matches!(step, LoginStep::Connect { .. }));
    let step = run(step, LoginEvent::Connected(Ok(())));
    assert!(matches!(step, LoginStep::FindUser { .. }));
    let found = UserRecord { id: 7, name: "Grace".to_string(), phone: "+1555".to_string() };
    let step = run(step, LoginEvent::UserLookedUp(Ok(Some(found))));
    match &step {
        LoginStep::IssueTokens { user_id, phone } => assert_eq!((*user_id, phone.as_str()), (7, "+1555")),
        _ => panic!("expected token issue"),
    }
    let pair = issue_token_pair(7, "+1555", "a", "b", 100).ok().unwrap();
    let step = run(step, LoginEvent::TokensIssued(Ok(pair)));
    match step {
        LoginStep::Respond { response } => {
            assert_eq!(response.status, 200);
            assert_eq!(response.message, "Login successful");
            assert!(response.data.is_some());
        },
        _ => panic!("expected an answer"),
    }
}

#[test]
fn login_creates_a_new_user_and_survives_a_race() {
    let step = LoginStep::FindUser { user: firebase_user("+1") };
    let step = run(step, LoginEvent::UserLookedUp(Ok(None)));
    match &step {
        LoginStep::CreateUser { name, .. } => assert_eq!(name, "Grace"),
        _ => panic!("expected creation"),
    }
    let step = run(step, LoginEvent::UserInserted(Err("duplicate key value".to_string())));
    assert!(matches!(step, LoginStep::FindAfterConflict { .. }));
    let existing = UserRecord { id: 3, name: "G".to_string(), phone: "+1".to_string() };
    let step = run(step, LoginEvent::UserLookedUp(Ok(Some(existing))));
    assert!(matches!(step, LoginStep::IssueTokens { user_id: 3, .. }));
}

#[test]
fn login_failures_are_answered() {
    let step = LoginStep::VerifyToken { token: "t".to_string() };
    let invalid = run(
        step,
        LoginEvent::TokenVerified(Err(FirebaseAuthError::InvalidToken("bad".to_string()))),
    );
    assert_eq!(answer(invalid), (401, "Invalid Firebase token: bad".to_string()));

    let step = LoginStep::VerifyToken { token: "t".to_string() };
    let service =
        run(step, LoginEvent::TokenVerified(Err(FirebaseAuthError::Service("down".to_string()))));
    assert_eq!(answer(service), (500, "Firebase verification failed: down".to_string()));

    let step = LoginStep::VerifyToken { token: "t".to_string() };
    let long = run(step, LoginEvent::TokenVerified(Ok(firebase_user("1234567890123456"))));
    assert_eq!(answer(long), (400, "phone must be at most 15 characters".to_string()));

    let step = LoginStep::Connect { user: firebase_user("+1") };
    let no_db = run(step, LoginEvent::Connected(Err("refused".to_string())));
    assert_eq!(answer(no_db), (500, "Database connection error: refused".to_string()));

    let step = LoginStep::FindUser { user: firebase_user("+1") };
    let lookup = run(step, LoginEvent::UserLookedUp(Err("io".to_string())));
    assert_eq!(answer(lookup), (500, "Failed to login: io".to_string()));

    let step = LoginStep::CreateUser { user: firebase_user("+1"), name: "G".to_string() };
    let insert = run(step, LoginEvent::UserInserted(Err("disk full".to_string())));
    assert_eq!(answer(insert), (500, "Failed to create user during login: disk full".to_string()));

    let step = LoginStep::FindAfterConflict { user: firebase_user("+1") };
    let vanished = run(step, LoginEvent::UserLookedUp(Ok(None)));
    assert_eq!(
        answer(vanished),
        (500, "Failed to resolve user after duplicate phone insert".to_string())
    );

    let step = LoginStep::FindAfterConflict { user: firebase_user("+1") };
    let refetch = run(step, LoginEvent::UserLookedUp(Err("io".to_string())));
    assert_eq!(
        answer(refetch),
        (500, "Failed to fetch user after duplicate phone insert: io".to_string())
    );

    let step = LoginStep::IssueTokens { user_id: 1, phone: "+1".to_string() };
    let tokens = run(step, LoginEvent::TokensIssued(Err("JWT_ACCESS_SECRET is not set".to_string())));
    assert_eq!(answer(tokens), (500, "Failed to login: JWT_ACCESS_SECRET is not set".to_string()));
}

#[test]
fn mismatched_events_are_detected() {
    let step = LoginStep::Connect { user: firebase_user("+1") };
    assert!(!event_answers(&step, &LoginEvent::TokensIssued(Err("x".to_string()))));
}

#[test]
fn tokens_at_each_clock_reading() {
    assert_eq!(
        tokens_at(1, "+1", "a", "b", None).err(),
        Some("system time should be after UNIX_EPOCH".to_string())
    );
    assert_eq!(
        tokens_at(1, "+1", "a", "b", Some(u64::MAX)).err(),
        Some("system time is out of range".to_string())
    );
    let pair = tokens_at(1, "+1", "a", "b", Some(500)).ok().unwrap();
    let again = issue_token_pair(1, "+1", "a", "b", 500).ok().unwrap();
    assert_eq!(pair.access_token, again.access_token);
    assert_eq!(pair.refresh_token, again.refresh_token);
    assert_eq!(claims_of(&pair.access_token, "a")["iat"], 500u64);
}

#[test]
fn validation_settings() {
    let access = access_token_validation();
    assert_eq!(access.algorithm, SigningAlgorithm::HS256);
    assert!(access.validate_exp);
    assert_eq!(access.audience, None);
    assert_eq!(access.issuer, None);

    let firebase = firebase_token_validation("demo");
    assert_eq!(firebase.algorithm, SigningAlgorithm::RS256);
    assert!(firebase.validate_exp);
    assert_eq!(firebase.audience.as_deref(), Some("demo"));
    assert_eq!(firebase.issuer.as_deref(), Some("https://securetoken.google.com/demo"));
}

#[test]
fn second_login_with_stored_phone_reuses_the_row() {
    let create = LoginStep::CreateUser { user: firebase_user("+1"), name: "Grace".to_string() };
    let stored = UserRecord { id: 11, name: "Grace".to_string(), phone: "+1".to_string() };
    let first = run(create, LoginEvent::UserInserted(Ok(stored.clone())));
    assert!(matches!(first, LoginStep::IssueTokens { user_id: 11, .. }));
    let second = run(
        LoginStep::FindUser { user: firebase_user("+1") },
        LoginEvent::UserLookedUp(Ok(Some(stored))),
    );
    assert!(matches!(second, LoginStep::IssueTokens { user_id: 11, .. }));
}
