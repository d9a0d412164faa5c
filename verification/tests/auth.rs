use impedanz_server::auth::{
    authenticate, authenticate_optional, check_login, confirm_password, dummy_hash, hash_password,
    initial_admin, login_cookie, new_session, new_session_token, removal_cookie, session_cookie,
    token_hash, validate_password, validate_username, verify_password, AuthSession,
    ChangePasswordRequest, InitialAdmin, LoginRequest, Role, UserResponse, UserRow,
    DUMMY_PASSWORD, SESSION_COOKIE, SESSION_TTL_SECONDS,
};
use impedanz_server::config::Secret;
use impedanz_server::errors::ApiError;
use impedanz_server::text::hex_encode;
use impedanz_server::timestamp::{parse_timestamp, Timestamp};

const ADMIN_ID: &str = "6f1c2d3e-4a5b-4c6d-8e7f-0123456789ab";

fn admin_row(password_hash: &str) -> UserRow {
    UserRow {
        id: String::from(ADMIN_ID),
        username: String::from("admin"),
        password_hash: String::from(password_hash),
        role: String::from("admin"),
        created_at: String::from("2024-01-02T03:04:05.5+00:00"),
    }
}

fn validation_message(error: ApiError) -> String {
    match error {
        ApiError::Validation(message) => message,
        other => panic!("expected a validation error, got {other:?}"),
    }
}

#[test]
fn role_names_round_trip() {
    assert_eq!(Role::Admin.as_str(), "admin");
    assert_eq!(Role::Member.as_str(), "member");
    assert_eq!(Role::parse("admin").unwrap(), Role::Admin);
    assert_eq!(Role::parse("member").unwrap(), Role::Member);
    for role in [Role::Admin, Role::Member] {
        assert_eq!(Role::parse(role.as_str()).unwrap(), role);
    }
}

#[test]
fn unknown_role_is_quoted_in_the_message() {
    let message = validation_message(Role::parse("Admin").unwrap_err());
    assert_eq!(message, "unknown role \"Admin\"");
    let message = validation_message(Role::parse("a\"b").unwrap_err());
    assert_eq!(message, "unknown role \"a\\\"b\"");
}

#[test]
fn passwords_need_twelve_characters() {
    assert_eq!(
        validation_message(validate_password("short-pass1").unwrap_err()),
        "password must be at least 12 characters long"
    );
    assert!(validate_password("twelve-chars").is_ok());
    // characters, not bytes
    assert!(validation_message(validate_password("ääääääääää").unwrap_err()).contains("12"));
    assert!(validate_password("äääääääääääää").is_ok());
}

#[test]
fn usernames_are_checked_for_length_and_characters() {
    assert!(validate_username("pepe").is_ok());
    assert!(validate_username("a.b_c-9").is_ok());
    assert_eq!(
        validation_message(validate_username("ab").unwrap_err()),
        "username must be between 3 and 32 characters"
    );
    assert!(validate_username(&"x".repeat(32)).is_ok());
    assert!(validate_username(&"x".repeat(33)).is_err());
    assert_eq!(
        validation_message(validate_username("pe pe").unwrap_err()),
        "username may only contain a-z, 0-9, '.', '_' and '-'"
    );
    assert!(validate_username("jürgen").is_err());
}

#[test]
fn a_hashed_password_verifies_and_others_do_not() {
    let hash = hash_password("member-test-password").expect("hashing works");
    assert!(hash.starts_with("$argon2id$v=19$"));
    assert!(verify_password(&hash, "member-test-password"));
    assert!(!verify_password(&hash, "wrong-password"));
    assert!(!verify_password("not a phc string", "member-test-password"));
    // a fresh salt every time
    let again = hash_password("member-test-password").unwrap();
    assert_ne!(hash, again);
    assert!(confirm_password(&again, "member-test-password").is_ok());
    assert!(matches!(
        confirm_password(&again, "nope"),
        Err(ApiError::Unauthorized)
    ));
}

#[test]
fn token_hash_is_hex_of_sha256() {
    assert_eq!(
        token_hash("abc"),
        "ba7816bf8f01cfea414140de5dae2223b00361a396177a9cb410ff61f20015ad"
    );
    assert_eq!(
        token_hash(""),
        "e3b0c44298fc1c149afbf4c8996fb92427ae41e4649b934ca495991b7852b855"
    );
    assert_eq!(hex_encode(&[0x00, 0x0f, 0xa5, 0xff]), "000fa5ff");
    assert_eq!(hex_encode(&[]), "");
}

#[test]
fn new_sessions_hold_a_random_token_and_its_hash() {
    let token = new_session_token();
    assert_eq!(token.len(), 64);
    assert!(token.chars().all(|c| c.is_ascii_digit() || ('a'..='f').contains(&c)));
    assert_ne!(token, new_session_token());

    let now = Timestamp { seconds: 1_704_164_645, nanos: 500_000_000 };
    let session = new_session(now);
    assert_eq!(session.token_hash, token_hash(&session.token));
    assert_eq!(session.created_at, now);
    assert_eq!(
        session.expires_at,
        Timestamp { seconds: 1_704_164_645 + 30 * 24 * 60 * 60, nanos: 500_000_000 }
    );
    assert_eq!(SESSION_TTL_SECONDS, 2_592_000);
}

#[test]
fn session_cookies_are_strict_and_http_only() {
    let cookie = login_cookie(String::from("token"), false);
    assert_eq!(cookie.name, SESSION_COOKIE);
    assert_eq!(cookie.name, "impedanz_session");
    assert_eq!(cookie.value, "token");
    assert!(cookie.http_only && cookie.same_site_strict && !cookie.secure);
    assert_eq!(cookie.path, "/");
    assert_eq!(cookie.max_age_seconds, 30 * 24 * 60 * 60);

    let removal = removal_cookie(true);
    assert_eq!(removal.value, "");
    assert_eq!(removal.max_age_seconds, 0);
    assert!(removal.secure);

    let custom = session_cookie(String::from("x"), true, 7);
    assert_eq!(custom.max_age_seconds, 7);
}

#[test]
fn stored_users_convert_to_responses() {
    let user = admin_row("hash").into_response().expect("valid row");
    assert_eq!(user.id, 0x6f1c2d3e_4a5b_4c6d_8e7f_0123456789ab);
    assert_eq!(user.username, "admin");
    assert_eq!(user.role, Role::Admin);
    assert_eq!(user.created_at, Timestamp { seconds: 1_704_164_645, nanos: 500_000_000 });

    let mut row = admin_row("hash");
    row.id = String::from("not-a-uuid");
    assert_eq!(
        validation_message(row.into_response().unwrap_err()),
        "corrupt user id \"not-a-uuid\" in database"
    );

    let mut row = admin_row("hash");
    row.role = String::from("owner");
    assert_eq!(
        validation_message(row.into_response().unwrap_err()),
        "unknown role \"owner\""
    );

    let mut row = admin_row("hash");
    row.created_at = String::from("yesterday");
    assert!(matches!(row.into_response(), Err(ApiError::CorruptTimestamp(_))));
}

#[test]
fn timestamps_are_read_in_utc() {
    assert_eq!(
        parse_timestamp("2026-08-01T23:00:00+02:00").unwrap(),
        Timestamp { seconds: 1_785_618_000, nanos: 0 }
    );
    assert_eq!(
        parse_timestamp("2026-08-01T21:00:00Z").unwrap(),
        Timestamp { seconds: 1_785_618_000, nanos: 0 }
    );
    assert!(matches!(
        parse_timestamp("2026-08-01 21:00"),
        Err(ApiError::CorruptTimestamp(_))
    ));
}

#[test]
fn requests_need_a_known_session() {
    let row = admin_row("hash");
    assert!(matches!(
        authenticate(None, Some(admin_row("hash"))),
        Err(ApiError::Unauthorized)
    ));
    assert!(matches!(
        authenticate(Some(String::from("t")), None),
        Err(ApiError::Unauthorized)
    ));
    let session = authenticate(Some(String::from("t")), Some(row)).unwrap();
    assert_eq!(session.token, "t");
    assert_eq!(session.user.username, "admin");

    assert!(authenticate_optional(None, None).unwrap().is_none());
    assert!(authenticate_optional(Some(String::from("t")), None).unwrap().is_none());
    assert!(authenticate_optional(Some(String::from("t")), Some(admin_row("h")))
        .unwrap()
        .is_some());
    let mut corrupt = admin_row("h");
    corrupt.role = String::from("root");
    assert!(matches!(
        authenticate_optional(Some(String::from("t")), Some(corrupt)),
        Err(ApiError::Validation(_))
    ));
}

#[test]
fn roles_are_required_exactly() {
    let member = AuthSession {
        user: UserResponse {
            id: 1,
            username: String::from("pepe"),
            role: Role::Member,
            created_at: Timestamp { seconds: 0, nanos: 0 },
        },
        token: String::from("t"),
    };
    assert!(member.require_role(Role::Member).is_ok());
    assert!(matches!(member.require_role(Role::Admin), Err(ApiError::Forbidden)));
}

#[test]
fn login_rejects_unknown_users_and_wrong_passwords_alike() {
    let hash = hash_password("admin-test-password").unwrap();
    let dummy = hash_password(DUMMY_PASSWORD).unwrap();
    let row = admin_row(&hash);
    assert!(check_login(Some(&row), "admin-test-password", &dummy).is_ok());
    assert!(matches!(
        check_login(Some(&row), "wrong-password", &dummy),
        Err(ApiError::Unauthorized)
    ));
    assert!(matches!(
        check_login(None, "irrelevant-password", &dummy),
        Err(ApiError::Unauthorized)
    ));
    // even the dummy password does not log in an unknown user
    assert!(matches!(
        check_login(None, DUMMY_PASSWORD, &dummy),
        Err(ApiError::Unauthorized)
    ));
}

#[test]
fn login_names_are_trimmed() {
    let request = LoginRequest {
        username: String::from("  admin\t\n"),
        password: String::from("x"),
    };
    assert_eq!(request.lookup_name(), "admin");
    let request = LoginRequest { username: String::from("\u{3000}"), password: String::new() };
    assert_eq!(request.lookup_name(), "");
    let change = ChangePasswordRequest {
        current_password: String::from("old-password-1"),
        new_password: String::from("short"),
    };
    assert!(validate_password(&change.new_password).is_err());
    assert!(validate_password(&change.current_password).is_ok());
}

#[test]
fn the_initial_admin_is_created_only_on_an_empty_table() {
    let secret = Secret(String::from("admin-test-password"));
    assert!(matches!(
        initial_admin(1, Some("admin"), Some(&secret)),
        Ok(InitialAdmin::UsersExist)
    ));
    assert!(matches!(
        initial_admin(0, None, Some(&secret)),
        Ok(InitialAdmin::NotConfigured)
    ));
    assert!(matches!(
        initial_admin(0, Some("admin"), None),
        Ok(InitialAdmin::NotConfigured)
    ));
    match initial_admin(0, Some("admin"), Some(&secret)).unwrap() {
        InitialAdmin::Create { username, password_hash } => {
            assert_eq!(username, "admin");
            assert!(verify_password(&password_hash, "admin-test-password"));
        }
        _ => panic!("expected the admin to be created"),
    }
}

#[test]
fn the_login_cookie_finds_its_session_until_it_expires() {
    let now = Timestamp { seconds: 1_750_000_000, nanos: 0 };
    let session = new_session(now);
    let cookie = login_cookie(session.token.clone(), true);
    assert_eq!(token_hash(&cookie.value), session.token_hash);
    assert_eq!(
        cookie.max_age_seconds,
        session.expires_at.seconds - session.created_at.seconds
    );
}

#[test]
fn the_dummy_hash_accepts_the_dummy_password() {
    let hash = dummy_hash().unwrap();
    assert!(hash.starts_with("$argon2id$v=19$"));
    assert!(verify_password(&hash, DUMMY_PASSWORD));
    assert!(!verify_password(&hash, "member-test-password"));
}
