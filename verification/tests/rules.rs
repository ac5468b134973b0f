use user_api::auth::{auth_from_verification, bearer_token, AuthError};
use user_api::db::{build_connect_options, parse_u32, pool_size};
use user_api::jwt::{access_token_outcome, build_claims, get_required_env, AuthUser, Claims};
use user_api::pagination::Pagination;
use user_api::response::ApiResponse;
use user_api::routes::{
    index_response, malformed_request_response, protected_response, unauthorized_response,
};
use user_api::text::{contains, i64_to_text, strip_prefix, text_eq, trim};
use user_api::users::{
    create_user_input, create_user_outcome, database_unavailable, delete_user_outcome,
    existing_user, get_user_outcome, is_duplicate_phone_error, list_users_outcome, map_db_error,
    plan_user_update, resolved_user_name, to_user_response, update_user_outcome,
    validate_user_payload, CreateUserRequest, UpdateUserRequest, UserRecord, UserResponse,
};

fn record(id: i64, name: &str, phone: &str) -> UserRecord {
    UserRecord { id, name: name.to_string(), phone: phone.to_string() }
}

#[test]
fn limit_defaults_to_twenty() {
    let p = Pagination { limit: None, skip: None };
    assert_eq!(p.resolved_limit(), 20);
    assert_eq!(p.resolved_skip(), 0);
}

#[test]
fn limit_is_clamped_into_range() {
    assert_eq!(Pagination { limit: Some(0), skip: None }.resolved_limit(), 1);
    assert_eq!(Pagination { limit: Some(1), skip: None }.resolved_limit(), 1);
    assert_eq!(Pagination { limit: Some(55), skip: None }.resolved_limit(), 55);
    assert_eq!(Pagination { limit: Some(100), skip: None }.resolved_limit(), 100);
    assert_eq!(Pagination { limit: Some(101), skip: None }.resolved_limit(), 100);
    assert_eq!(Pagination { limit: Some(u64::MAX), skip: None }.resolved_limit(), 100);
    assert_eq!(Pagination::DEFAULT_LIMIT, 20);
    assert_eq!(Pagination::MAX_LIMIT, 100);
}

#[test]
fn granted_limit_is_stable_on_examples() {
    for asked in [0u64, 1, 7, 100, 250] {
        let once = Pagination { limit: Some(asked), skip: None }.resolved_limit();
        let twice = Pagination { limit: Some(once), skip: None }.resolved_limit();
        assert_eq!(once, twice);
    }
}

#[test]
fn skip_is_passed_through() {
    assert_eq!(Pagination { limit: None, skip: Some(40) }.resolved_skip(), 40);
    assert_eq!(Pagination::default().resolved_skip(), 0);
}

#[test]
fn response_constructors_set_status_and_labels() {
    let ok: ApiResponse<u8> = ApiResponse::success(7, "fine");
    assert!(ok.success);
    assert_eq!(ok.status, 200);
    assert_eq!(ok.message, "fine");
    assert_eq!(ok.error, None);
    assert_eq!(ok.data, Some(7));

    let created: ApiResponse<u8> = ApiResponse::created(8, "made");
    assert!(created.success);
    assert_eq!(created.status, 201);
    assert_eq!(created.data, Some(8));

    let cases: [(ApiResponse<u8>, u16, &str); 5] = [
        (ApiResponse::not_found("m"), 404, "Not Found"),
        (ApiResponse::unauthorized("m"), 401, "Unauthorized"),
        (ApiResponse::bad_request("m"), 400, "Bad Request"),
        (ApiResponse::internal_error("m"), 500, "Internal Server Error"),
        (ApiResponse::malformed_error("m"), 422, "Unprocessable Entity"),
    ];
    for (r, status, label) in cases {
        assert!(!r.success);
        assert_eq!(r.status, status);
        assert_eq!(r.message, "m");
        assert_eq!(r.error.as_deref(), Some(label));
        assert_eq!(r.data, None);
    }

    let custom: ApiResponse<u8> = ApiResponse::error(418, "teapot", "I'm a teapot");
    assert_eq!(custom.status, 418);
    assert_eq!(custom.error.as_deref(), Some("I'm a teapot"));
}

#[test]
fn trim_removes_unicode_white_space_at_both_ends() {
    assert_eq!(trim("  Ada \t\n"), "Ada");
    assert_eq!(trim("\u{3000}\u{a0}x y\u{2029}"), "x y");
    assert_eq!(trim(" \t "), "");
    assert_eq!(trim(""), "");
    assert_eq!(trim("a"), "a");
    assert_eq!(trim(trim("  b  ")), trim("  b  "));
}

#[test]
fn text_helpers_on_examples() {
    assert!(text_eq("abc", "abc"));
    assert!(!text_eq("abc", "abd"));
    assert!(!text_eq("abc", "ab"));
    assert_eq!(strip_prefix("Bearer xyz", "Bearer "), Some("xyz"));
    assert_eq!(strip_prefix("Bear", "Bearer "), None);
    assert!(contains("ERROR: duplicate key value violates", "duplicate key value"));
    assert!(!contains("duplicate", "duplicate key"));
    assert!(contains("anything", ""));
    assert_eq!(i64_to_text(0), "0");
    assert_eq!(i64_to_text(42), "42");
    assert_eq!(i64_to_text(-7), "-7");
    assert_eq!(i64_to_text(i64::MIN), i64::MIN.to_string());
    assert_eq!(i64_to_text(i64::MAX), i64::MAX.to_string());
}

#[test]
fn payload_rules_in_order() {
    assert_eq!(validate_user_payload("", ""), Some("name is required".to_string()));
    let long_name = "n".repeat(101);
    assert_eq!(
        validate_user_payload(&long_name, ""),
        Some("name must be at most 100 characters".to_string())
    );
    assert_eq!(validate_user_payload(&"n".repeat(100), "1"), None);
    assert_eq!(validate_user_payload("Ada", ""), Some("phone is required".to_string()));
    assert_eq!(
        validate_user_payload("Ada", "1234567890123456"),
        Some("phone must be at most 15 characters".to_string())
    );
    assert_eq!(validate_user_payload("Ada", "123456789012345"), None);
}

#[test]
fn payload_lengths_count_bytes() {
    // 51 two-byte characters are 102 bytes.
    let name = "é".repeat(51);
    assert_eq!(
        validate_user_payload(&name, "1"),
        Some("name must be at most 100 characters".to_string())
    );
    assert_eq!(validate_user_payload(&"é".repeat(50), "1"), None);
}

#[test]
fn create_input_is_trimmed_or_refused() {
    let ok = create_user_input(&CreateUserRequest {
        name: "  Ada ".to_string(),
        phone: " +100 ".to_string(),
    });
    assert_eq!(ok.ok(), Some(("Ada".to_string(), "+100".to_string())));

    let refused = create_user_input(&CreateUserRequest {
        name: "   ".to_string(),
        phone: "1".to_string(),
    });
    let answer = refused.err().unwrap();
    assert_eq!(answer.status, 400);
    assert_eq!(answer.message, "name is required");
}

#[test]
fn user_response_shows_id_and_name() {
    let shown = to_user_response(record(3, "Ada", "+1"));
    assert_eq!(shown.id, 3);
    assert_eq!(shown.name, "Ada");
}

#[test]
fn login_names_are_trimmed_cut_or_defaulted() {
    assert_eq!(resolved_user_name(None), "User");
    assert_eq!(resolved_user_name(Some("   ")), "User");
    assert_eq!(resolved_user_name(Some("  Grace Hopper ")), "Grace Hopper");
    let long: String = "x".repeat(150);
    assert_eq!(resolved_user_name(Some(&long)), "x".repeat(100));
    let wide: String = "é".repeat(120);
    assert_eq!(resolved_user_name(Some(&wide)).chars().count(), 100);
}

#[test]
fn duplicate_phone_messages_are_recognised() {
    assert!(is_duplicate_phone_error("duplicate key value violates unique constraint"));
    assert!(is_duplicate_phone_error("constraint users_phone_key failed"));
    assert!(!is_duplicate_phone_error("connection reset"));
}

#[test]
fn db_errors_are_mapped() {
    let dup: ApiResponse<UserResponse> =
        map_db_error("duplicate key value violates", "Failed to create user");
    assert_eq!(dup.status, 400);
    assert_eq!(dup.message, "Phone already exists");
    let other: ApiResponse<UserResponse> = map_db_error("timeout", "Failed to create user");
    assert_eq!(other.status, 500);
    assert_eq!(other.message, "Failed to create user: timeout");
    assert_eq!(other.error.as_deref(), Some("Internal Server Error"));
    let down: ApiResponse<UserResponse> = database_unavailable("refused");
    assert_eq!(down.status, 500);
    assert_eq!(down.message, "Database connection error: refused");
}

#[test]
fn create_outcomes() {
    let made = create_user_outcome(Ok(record(9, "Ada", "+1")));
    assert_eq!(made.status, 201);
    assert_eq!(made.message, "User created successfully");
    assert_eq!(made.data.as_ref().map(|u| u.id), Some(9));
    let taken = create_user_outcome(Err("users_phone_key".to_string()));
    assert_eq!(taken.status, 400);
}

#[test]
fn list_outcomes() {
    let page = list_users_outcome(Ok(vec![record(1, "A", "1"), record(2, "B", "2")]));
    assert_eq!(page.status, 200);
    assert_eq!(page.message, "Users fetched successfully");
    let data = page.data.unwrap();
    assert_eq!(data.len(), 2);
    assert_eq!((data[0].id, data[0].name.as_str()), (1, "A"));
    assert_eq!((data[1].id, data[1].name.as_str()), (2, "B"));
    let failed = list_users_outcome(Err("boom".to_string()));
    assert_eq!(failed.status, 500);
    assert_eq!(failed.message, "Failed to fetch users: boom");
}

#[test]
fn get_outcomes() {
    let found = get_user_outcome(Ok(Some(record(4, "D", "4"))));
    assert_eq!(found.status, 200);
    assert_eq!(found.message, "User fetched successfully");
    let missing = get_user_outcome(Ok(None));
    assert_eq!(missing.status, 404);
    assert_eq!(missing.message, "User not found");
    let failed = get_user_outcome(Err("x".to_string()));
    assert_eq!(failed.status, 500);
    assert_eq!(failed.message, "Failed to fetch user: x");
}

#[test]
fn existing_user_lookup() {
    let found: Result<UserRecord, ApiResponse<UserResponse>> =
        existing_user(Ok(Some(record(5, "E", "5"))));
    assert_eq!(found.ok().map(|u| u.id), Some(5));
    let missing: Result<UserRecord, ApiResponse<UserResponse>> = existing_user(Ok(None));
    assert_eq!(missing.err().unwrap().status, 404);
    let failed: Result<UserRecord, ApiResponse<UserResponse>> = existing_user(Err("e".to_string()));
    assert_eq!(failed.err().unwrap().message, "Failed to fetch user: e");
}

#[test]
fn update_plans() {
    let nothing = plan_user_update(&UpdateUserRequest { name: None, phone: None });
    assert_eq!(nothing.err().unwrap().message, "Provide at least one field to update");

    let blank = plan_user_update(&UpdateUserRequest { name: Some("  ".to_string()), phone: None });
    assert_eq!(blank.err().unwrap().message, "name cannot be empty");

    let long = plan_user_update(&UpdateUserRequest { name: Some("n".repeat(101)), phone: None });
    assert_eq!(long.err().unwrap().message, "name must be at most 100 characters");

    let blank_phone =
        plan_user_update(&UpdateUserRequest { name: None, phone: Some("".to_string()) });
    assert_eq!(blank_phone.err().unwrap().message, "phone cannot be empty");

    let long_phone =
        plan_user_update(&UpdateUserRequest { name: None, phone: Some("1".repeat(16)) });
    assert_eq!(long_phone.err().unwrap().message, "phone must be at most 15 characters");

    let ok = plan_user_update(&UpdateUserRequest {
        name: Some(" Ada ".to_string()),
        phone: None,
    })
    .ok()
    .unwrap();
    assert_eq!(ok.name.as_deref(), Some("Ada"));
    assert_eq!(ok.phone, None);
}

#[test]
fn update_and_delete_outcomes() {
    let updated = update_user_outcome(Ok(record(6, "F", "6")));
    assert_eq!(updated.status, 200);
    assert_eq!(updated.message, "User updated successfully");
    let clash = update_user_outcome(Err("duplicate key value".to_string()));
    assert_eq!(clash.message, "Phone already exists");
    let other = update_user_outcome(Err("gone".to_string()));
    assert_eq!(other.message, "Failed to update user: gone");

    let deleted = delete_user_outcome(6, Ok(()));
    assert_eq!(deleted.status, 200);
    assert_eq!(deleted.message, "User deleted successfully");
    assert_eq!(deleted.data.map(|d| d.id), Some(6));
    let failed = delete_user_outcome(6, Err("locked".to_string()));
    assert_eq!(failed.status, 500);
    assert_eq!(failed.message, "Failed to delete user: locked");
}

#[test]
fn bearer_header_rules() {
    assert_eq!(bearer_token(None), Err(AuthError::Missing));
    assert_eq!(bearer_token(Some("Basic abc")), Err(AuthError::Invalid));
    assert_eq!(bearer_token(Some("bearer abc")), Err(AuthError::Invalid));
    assert_eq!(bearer_token(Some("Bearer  abc.def ")), Ok("abc.def"));
    assert_eq!(bearer_token(Some("Bearer ")), Ok(""));
}

#[test]
fn guard_outcomes() {
    let auth = auth_from_verification(Ok(AuthUser { user_id: 3, phone: "+1".to_string() }));
    let auth = auth.ok().unwrap();
    assert_eq!((auth.user_id, auth.phone.as_str()), (3, "+1"));
    let refused = auth_from_verification(Err("Invalid token type".to_string()));
    assert!(matches!(refused, Err(AuthError::Invalid)));
}

#[test]
fn plain_endpoint_answers() {
    let index = index_response();
    assert_eq!(index.status, 200);
    assert_eq!(index.message, "Welcome to api");
    assert_eq!(index.data, Some("Hello World"));

    let auth = auth_from_verification(Ok(AuthUser { user_id: 12, phone: "+1".to_string() }))
        .ok()
        .unwrap();
    let protected = protected_response(&auth);
    assert_eq!(protected.message, "Access granted");
    assert_eq!(protected.data.as_deref(), Some("this is protected data 12"));

    let unauthorized = unauthorized_response();
    assert_eq!(unauthorized.status, 401);
    assert_eq!(unauthorized.message, "The request requires user authentication.");
    let malformed = malformed_request_response();
    assert_eq!(malformed.status, 422);
    assert_eq!(malformed.message, "The request is malformed.");
}

#[test]
fn settings_are_required_and_non_blank() {
    assert_eq!(get_required_env("JWT_ACCESS_SECRET", None), Err("JWT_ACCESS_SECRET is not set".to_string()));
    assert_eq!(
        get_required_env("JWT_ACCESS_SECRET", Some("  ".to_string())),
        Err("JWT_ACCESS_SECRET is empty".to_string())
    );
    assert_eq!(get_required_env("X", Some(" s ".to_string())), Ok(" s ".to_string()));
}

#[test]
fn access_claims_are_checked() {
    let access = build_claims(8, "+44", "access", 1_000, 900);
    assert_eq!(access.sub, "8");
    assert_eq!((access.iat, access.exp), (1_000, 1_900));
    let user = access_token_outcome(Ok(access)).ok().unwrap();
    assert_eq!((user.user_id, user.phone.as_str()), (8, "+44"));

    let refresh = build_claims(8, "+44", "refresh", 1_000, 900);
    assert_eq!(access_token_outcome(Ok(refresh)).err(), Some("Invalid token type".to_string()));

    let bad: Result<Claims, String> = Err("ExpiredSignature".to_string());
    assert_eq!(
        access_token_outcome(bad).err(),
        Some("Invalid access token: ExpiredSignature".to_string())
    );
}

#[test]
fn numbers_parse_like_std() {
    for text in ["0", "16", "+7", "4294967295", "4294967296", "", "+", "-1", "1 ", "12a", "007"] {
        assert_eq!(parse_u32(text), text.parse::<u32>().ok(), "input {text:?}");
    }
}

#[test]
fn pool_settings() {
    assert_eq!(pool_size(None, 16), 16);
    assert_eq!(pool_size(Some("32".to_string()), 16), 32);
    assert_eq!(pool_size(Some("lots".to_string()), 16), 16);
    assert_eq!(
        build_connect_options(None, None, None).err(),
        Some("DATABASE_URL is not set".to_string())
    );
    let settings = build_connect_options(
        Some("postgres://db".to_string()),
        Some("8".to_string()),
        None,
    )
    .ok()
    .unwrap();
    assert_eq!(settings.database_url, "postgres://db");
    assert_eq!(settings.max_connections, 8);
    assert_eq!(settings.min_connections, 1);
    assert!(!settings.sqlx_logging);
}
