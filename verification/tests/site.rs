use impedanz_server::api::health;
use impedanz_server::config::{
    apply_override, file_value, file_variable, overrides_in_order, parse_cookie_secure, Setting,
    Settings, COOKIE_SECURE_VARIABLE, DEFAULT_BIND_ADDRESS, INITIAL_ADMIN_PASSWORD_VARIABLE,
};
use impedanz_server::errors::{ApiError, DatabaseFailure};
use impedanz_server::media::{
    allowed_extension, media_file_name, media_response, upload_extension, MAX_UPLOAD_BYTES,
};
use impedanz_server::static_files::{
    media_headers, site_headers, Header, CACHE_IMMUTABLE, CACHE_SHORT, CONTENT_SECURITY_POLICY,
};

fn validation_message(error: ApiError) -> String {
    match error {
        ApiError::Validation(message) => message,
        other => panic!("expected a validation error, got {other:?}"),
    }
}

fn find<'a>(headers: &'a [Header], name: &str) -> Option<&'a str> {
    headers.iter().find(|h| h.name == name).map(|h| h.value)
}

#[test]
fn uploads_are_sniffed_and_limited_to_images() {
    let png = [0x89, 0x50, 0x4E, 0x47, 0x0D, 0x0A, 0x1A, 0x0A, 0, 0, 0, 13];
    assert_eq!(upload_extension(Some(&png)).unwrap(), "png");
    let jpeg = [0xFF, 0xD8, 0xFF, 0xE0, 0, 16];
    assert_eq!(upload_extension(Some(&jpeg)).unwrap(), "jpg");
    let gif = b"GIF89a....";
    assert_eq!(
        validation_message(upload_extension(Some(gif)).unwrap_err()),
        "file type image/gif is not allowed (jpeg, png, webp, avif)"
    );
    assert_eq!(
        validation_message(upload_extension(Some(b"hello world")).unwrap_err()),
        "could not detect file type"
    );
    assert_eq!(
        validation_message(upload_extension(Some(&[])).unwrap_err()),
        "uploaded file is empty"
    );
    assert_eq!(
        validation_message(upload_extension(None).unwrap_err()),
        "multipart body needs a `file` field"
    );
    assert_eq!(allowed_extension("image/webp"), Some("webp"));
    assert_eq!(allowed_extension("image/avif"), Some("avif"));
    assert_eq!(allowed_extension("image/svg+xml"), None);
    assert_eq!(MAX_UPLOAD_BYTES, 15 * 1024 * 1024);
}

#[test]
fn stored_media_is_served_under_media() {
    let name = media_file_name("0b5c8a36-1d2e-4f3a-9b8c-7d6e5f4a3b2c", "png");
    assert_eq!(name, "0b5c8a36-1d2e-4f3a-9b8c-7d6e5f4a3b2c.png");
    assert_eq!(media_response(&name).url, "/media/0b5c8a36-1d2e-4f3a-9b8c-7d6e5f4a3b2c.png");
}

#[test]
fn html_documents_get_the_csp_and_a_short_cache() {
    let headers = site_headers("/events/", Some(b"text/html; charset=utf-8"));
    assert_eq!(headers.len(), 8);
    assert_eq!(find(&headers, "content-security-policy"), Some(CONTENT_SECURITY_POLICY));
    assert!(CONTENT_SECURITY_POLICY.starts_with("default-src 'none'; script-src 'self';"));
    assert!(CONTENT_SECURITY_POLICY.ends_with("form-action 'none'; frame-ancestors 'none'"));
    assert_eq!(find(&headers, "cache-control"), Some(CACHE_SHORT));
    assert_eq!(find(&headers, "x-frame-options"), Some("DENY"));
    assert_eq!(find(&headers, "referrer-policy"), Some("no-referrer"));
    assert!(find(&headers, "permissions-policy").unwrap().contains("microphone=(self)"));
    assert_eq!(headers.last().unwrap().name, "cache-control");
}

#[test]
fn hashed_assets_are_cached_forever() {
    let headers = site_headers("/_astro/index.abc123.js", Some(b"text/javascript"));
    assert_eq!(headers.len(), 7);
    assert_eq!(find(&headers, "content-security-policy"), None);
    assert_eq!(find(&headers, "cache-control"), Some(CACHE_IMMUTABLE));
    assert_eq!(CACHE_IMMUTABLE, "public, max-age=31536000, immutable");

    let headers = site_headers("/_astro", None);
    assert_eq!(find(&headers, "cache-control"), Some(CACHE_SHORT));
    let headers = site_headers("/x", Some(b"text/htm"));
    assert_eq!(find(&headers, "content-security-policy"), None);

    let media = media_headers();
    let names: Vec<&str> = media.iter().map(|h| h.name).collect();
    assert_eq!(
        names,
        vec![
            "strict-transport-security",
            "x-frame-options",
            "x-content-type-options",
            "referrer-policy",
            "cache-control"
        ]
    );
    assert_eq!(find(&media, "cache-control"), Some(CACHE_IMMUTABLE));
}

#[test]
fn the_cookie_flag_reads_true_false_one_and_zero() {
    assert!(parse_cookie_secure("true").unwrap());
    assert!(parse_cookie_secure("1").unwrap());
    assert!(!parse_cookie_secure("false").unwrap());
    assert!(!parse_cookie_secure("0").unwrap());
    let error = match parse_cookie_secure("yes") {
        Err(e) => e,
        Ok(_) => panic!("yes is not a flag"),
    };
    assert_eq!(error.variable, COOKIE_SECURE_VARIABLE);
    assert_eq!(error.message, "expected true/false, got \"yes\"");
    assert!(parse_cookie_secure("TRUE").is_err());
}

#[test]
fn file_variables_and_values() {
    assert_eq!(
        file_variable(INITIAL_ADMIN_PASSWORD_VARIABLE),
        "IMPEDANZ_INITIAL_ADMIN_PASSWORD_FILE"
    );
    assert_eq!(file_value("secret\r\n\n"), "secret");
    assert_eq!(file_value("  spaced  \n"), "  spaced  ");
    assert_eq!(file_value("a\nb\n"), "a\nb");
    assert_eq!(file_value("\n"), "");
}

#[test]
fn built_in_defaults() {
    let settings = Settings::defaults();
    assert_eq!(settings.public_dir, "/public");
    assert_eq!(settings.log_filter, "info");
    assert_eq!(settings.database_path, "/data/impedanz.db");
    assert_eq!(settings.media_dir, "/data/media");
    assert!(settings.cookie_secure);
    assert!(settings.initial_admin_username.is_none());
    assert!(settings.initial_admin_password.is_none());
    assert_eq!(DEFAULT_BIND_ADDRESS, "[::]:80");
}

#[test]
fn errors_map_to_status_codes_and_hide_server_details() {
    assert_eq!(ApiError::Unauthorized.status_code(), 401);
    assert_eq!(ApiError::Forbidden.status_code(), 403);
    assert_eq!(ApiError::NotFound.status_code(), 404);
    assert_eq!(ApiError::Conflict(String::from("c")).status_code(), 409);
    assert_eq!(ApiError::Validation(String::from("v")).status_code(), 422);
    let missing = ApiError::Database(DatabaseFailure {
        row_not_found: true,
        detail: String::from("RowNotFound"),
    });
    assert_eq!(missing.status_code(), 404);
    assert_eq!(missing.error_body().error, "database error");
    let broken = ApiError::Database(DatabaseFailure {
        row_not_found: false,
        detail: String::from("disk I/O error"),
    });
    assert_eq!(broken.status_code(), 500);
    assert!(broken.is_server_error());
    assert_eq!(broken.message(), "database error");
    assert_eq!(broken.error_body().error, "internal error");
    assert_eq!(ApiError::Io(String::from("denied")).error_body().error, "internal error");
    assert_eq!(
        ApiError::CorruptData(String::from("x")).message(),
        "stored data is corrupt"
    );
    assert_eq!(
        ApiError::Conflict(String::from("slug taken")).error_body().error,
        "slug taken"
    );
    assert_eq!(ApiError::Unauthorized.error_body().error, "authentication required");
    assert_eq!(ApiError::Forbidden.message(), "insufficient permissions");
}

#[test]
fn health_reports_ok_and_the_version() {
    let h = health("1.2.3");
    assert_eq!(h.status, "ok");
    assert_eq!(h.version, "1.2.3");
}

#[test]
fn later_overrides_replace_earlier_values() {
    let from_file = apply_override(Settings::defaults(), Setting::LogFilter, String::from("debug"))
        .unwrap();
    assert_eq!(from_file.log_filter, "debug");
    let from_env = apply_override(from_file, Setting::LogFilter, String::from("warn")).unwrap();
    assert_eq!(from_env.log_filter, "warn");
    assert_eq!(from_env.public_dir, "/public");

    let insecure = apply_override(from_env, Setting::CookieSecure, String::from("0")).unwrap();
    assert!(!insecure.cookie_secure);
    let error = match apply_override(insecure, Setting::CookieSecure, String::from("no")) {
        Err(e) => e,
        Ok(_) => panic!("no is not a flag"),
    };
    assert_eq!(error.variable, COOKIE_SECURE_VARIABLE);

    let admin = apply_override(
        Settings::defaults(),
        Setting::InitialAdminPassword,
        String::from("correct horse battery"),
    )
    .unwrap();
    assert_eq!(admin.initial_admin_password.unwrap().0, "correct horse battery");

    let order = overrides_in_order();
    assert_eq!(order.len(), 7);
    assert_eq!(order[0].variable(), "IMPEDANZ_PUBLIC_DIR");
    assert_eq!(order[6].variable(), "IMPEDANZ_INITIAL_ADMIN_PASSWORD");
}
