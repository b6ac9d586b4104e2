use auth_core::access::{extract_bearer, public_path, Access, AuthMiddleware};
use auth_core::config::{LoginLimitConfig, OtpConfig, SecurityConfig, SecuritySettings};
use auth_core::cookies::{
    base_access_token_cookie, clear_access_token, extract_access_token, set_access_token, SameSite,
};
use auth_core::cors::{cors_policy, parse_origins, CorsPolicy};
use auth_core::guard::LoginGuard;
use auth_core::rate_limit::{RateLimitMiddleware, Window};
use auth_core::reply::{logout, BodyKind, Reply, Response};
use auth_core::security::SecurityHeadersMiddleware;
use auth_core::token::issue_token;

#[test]
fn base_cookie_has_the_flags() {
    let cookie = base_access_token_cookie(false);
    assert_eq!(cookie.name, "access_token");
    assert_eq!(cookie.value, "");
    assert_eq!(cookie.path, "/");
    assert!(cookie.http_only);
    assert!(!cookie.secure);
    assert_eq!(cookie.same_site, SameSite::Lax);
    assert_eq!(cookie.max_age, None);
    assert!(base_access_token_cookie(true).secure);
}

#[test]
fn set_cookie_carries_the_token() {
    let cookie = set_access_token("abc.def", true);
    assert_eq!(cookie.name, "access_token");
    assert_eq!(cookie.value, "abc.def");
    assert_eq!(cookie.path, "/");
    assert!(cookie.http_only);
    assert!(cookie.secure);
    assert_eq!(cookie.same_site, SameSite::Lax);
    assert_eq!(cookie.max_age, None);
}

#[test]
fn cleared_cookie_is_empty_and_expires_at_once() {
    let cookie = clear_access_token(false);
    assert_eq!(cookie.name, "access_token");
    assert_eq!(cookie.value, "");
    assert_eq!(cookie.max_age, Some(0));
    assert!(cookie.http_only);
    assert_eq!(cookie.same_site, SameSite::Lax);
}

#[test]
fn logout_clears_the_cookie() {
    let response = logout();
    assert_eq!(response.reply, Reply::LoggedOut);
    assert_eq!(response.reply.status(), 200);
    assert_eq!(response.reply.text(), "Logged out");
    let cookie = response.cookie(true).unwrap();
    assert_eq!(cookie.value, "");
    assert_eq!(cookie.max_age, Some(0));
    assert!(cookie.secure);
}

#[test]
fn responses_set_a_cookie_only_with_a_token() {
    assert!(Response::of(Reply::InvalidCredentials).cookie(true).is_none());
    assert!(Response::of(Reply::ResetRequested).cookie(true).is_none());
    let opened = Response::with_token(Reply::LoggedIn, "tok".to_string());
    let cookie = opened.cookie(false).unwrap();
    assert_eq!(cookie.value, "tok");
    assert_eq!(cookie.max_age, None);
    assert!(!cookie.secure);
}

#[test]
fn replies_have_their_status_and_text() {
    let table = [
        (Reply::ValidationFailed, 400, "Validation failed", BodyKind::Error),
        (Reply::PasswordsDoNotMatch, 400, "Passwords do not match", BodyKind::Error),
        (Reply::InvalidOrExpiredOtp, 400, "Invalid or expired OTP", BodyKind::Error),
        (Reply::InvalidCredentials, 401, "Invalid credentials", BodyKind::Error),
        (Reply::MissingOrInvalidToken, 401, "Invalid or missing token", BodyKind::Plain),
        (
            Reply::LockedOut,
            429,
            "Too many failed login attempts. Please try again later.",
            BodyKind::Error,
        ),
        (Reply::TooManyResetRequests, 429, "Too many reset requests. Try again later.", BodyKind::Error),
        (
            Reply::ResetRequestedTooSoon,
            429,
            "Please wait before requesting another OTP.",
            BodyKind::Error,
        ),
        (Reply::RateLimited, 429, "Rate limit exceeded", BodyKind::Plain),
        (Reply::EmailTaken, 409, "Email already exists", BodyKind::ErrorWithDetail),
        (Reply::AccountNotFound, 404, "No user found", BodyKind::Plain),
        (Reply::Unavailable, 500, "", BodyKind::Empty),
        (Reply::LoggedIn, 200, "Logged in successfully", BodyKind::Message),
        (Reply::Registered, 201, "User registered successfully", BodyKind::Message),
        (Reply::LoggedOut, 200, "Logged out", BodyKind::Message),
        (
            Reply::ResetRequested,
            200,
            "If this email is registered, a reset code has been sent.",
            BodyKind::Message,
        ),
        (Reply::PasswordReset, 200, "Password reset successful", BodyKind::Message),
    ];
    for (reply, status, text, kind) in table {
        assert_eq!(reply.status(), status);
        assert_eq!(reply.text(), text);
        assert_eq!(reply.body_kind(), kind);
    }
    assert_eq!(Reply::EmailTaken.detail(), "An account with this email address already exists");
    assert_eq!(Reply::LoggedIn.detail(), "");
}

#[test]
fn login_limits_default_to_five_in_five_minutes() {
    let limits = LoginLimitConfig::from_parsed(None, None);
    assert_eq!(limits.max_attempts, 5);
    assert_eq!(limits.lockout_secs, 300);
    let limits = LoginLimitConfig::from_parsed(Some(3), Some(60));
    assert_eq!(limits.max_attempts, 3);
    assert_eq!(limits.lockout_secs, 60);
    assert!(!limits.is_locked(2));
    assert!(limits.is_locked(3));
    assert!(limits.is_locked(4));
    assert!(limits.in_window(41, 100));
    assert!(!limits.in_window(40, 100));
    assert!(!LoginLimitConfig::from_parsed(None, Some(i64::MIN)).in_window(i64::MAX, i64::MAX));
}

#[test]
fn otp_settings_and_their_rules() {
    let config = OtpConfig::from_parsed(None, None, None);
    assert_eq!(config.limit_per_hour, 5);
    assert_eq!(config.min_interval_secs, 60);
    assert_eq!(config.expiry_minutes, 10);
    assert!(!config.exceeds_hourly_limit(4));
    assert!(config.exceeds_hourly_limit(5));
    assert!(!config.can_resend(1000, 1059));
    assert!(config.can_resend(1000, 1060));
    assert!(!config.is_expired(1000, 1600));
    assert!(config.is_expired(1000, 1601));
    assert_eq!(config.expires_at(1000), Some(1600));
    assert_eq!(config.expires_at(i64::MAX), None);
    let custom = OtpConfig::from_parsed(Some(2), Some(5), Some(1));
    assert_eq!(custom.expires_at(0), Some(60));
    assert!(custom.exceeds_hourly_limit(2));
    assert!(custom.can_resend(0, 5));
}

#[test]
fn security_settings_default() {
    let config = SecurityConfig::default();
    assert_eq!(config.jwt_secret, "default-secret-change-in-production");
    assert_eq!(config.jwt_expiration_hours, 24);
    assert_eq!(config.password_min_length, 8);
    assert_eq!(config.password_max_length, 128);
    assert_eq!(config.rate_limit_auth_requests, 5);
    assert_eq!(config.rate_limit_auth_window_minutes, 5);
    assert_eq!(config.rate_limit_general_requests, 100);
    assert_eq!(config.rate_limit_general_window_minutes, 1);
    assert!(config.enable_security_headers);
    assert!(config.enable_rate_limiting);
    assert!(config.log_security_events);
    assert_eq!(config.get_auth_rate_limit_window(), 300);
    assert_eq!(config.get_general_rate_limit_window(), 60);
    assert!(config.is_production(Some("production")));
    assert!(!config.is_production(Some("Production")));
    assert!(!config.is_production(Some("development")));
    assert!(!config.is_production(None));
}

#[test]
fn security_settings_take_what_was_found() {
    let found = SecuritySettings {
        jwt_expiration_hours: Some(1),
        password_min_length: None,
        password_max_length: Some(64),
        rate_limit_auth_requests: Some(9),
        rate_limit_auth_window_minutes: Some(2),
        rate_limit_general_requests: None,
        rate_limit_general_window_minutes: Some(3),
        enable_security_headers: Some(false),
        enable_rate_limiting: None,
        log_security_events: Some(false),
    };
    let config = SecurityConfig::from_parsed("s3cret".to_string(), found);
    assert_eq!(config.jwt_secret, "s3cret");
    assert_eq!(config.jwt_expiration_hours, 1);
    assert_eq!(config.password_min_length, 8);
    assert_eq!(config.password_max_length, 64);
    assert_eq!(config.rate_limit_auth_requests, 9);
    assert_eq!(config.get_auth_rate_limit_window(), 120);
    assert_eq!(config.rate_limit_general_requests, 100);
    assert_eq!(config.get_general_rate_limit_window(), 180);
    assert!(!config.enable_security_headers);
    assert!(config.enable_rate_limiting);
    assert!(!config.log_security_events);
}

#[test]
fn guard_locks_at_the_limit_and_opens_when_the_window_has_passed() {
    let limits = LoginLimitConfig::from_parsed(Some(5), Some(300));
    let mut guard = LoginGuard::new();
    for t in 0..4 {
        guard.record_failure(7, 1000 + t);
        assert!(!guard.is_locked(7, 1010, &limits));
    }
    guard.record_failure(7, 1004);
    assert_eq!(guard.count_recent(7, 1010, &limits), 5);
    assert!(guard.is_locked(7, 1010, &limits));
    assert!(!guard.is_locked(8, 1010, &limits));
    // the first failure leaves the window at 1300
    assert!(guard.is_locked(7, 1299, &limits));
    assert!(!guard.is_locked(7, 1300, &limits));
    assert_eq!(guard.count_recent(7, 1300, &limits), 4);
    assert_eq!(guard.count_recent(7, 1304, &limits), 0);
}

#[test]
fn guard_reset_forgets_one_account_only() {
    let limits = LoginLimitConfig::from_parsed(Some(2), Some(300));
    let mut guard = LoginGuard::new();
    guard.record_failure(1, 10);
    guard.record_failure(2, 11);
    guard.record_failure(1, 12);
    guard.record_failure(2, 13);
    assert!(guard.is_locked(1, 20, &limits));
    assert!(guard.is_locked(2, 20, &limits));
    guard.reset(1);
    assert!(!guard.is_locked(1, 20, &limits));
    assert_eq!(guard.count_recent(1, 20, &limits), 0);
    assert!(guard.is_locked(2, 20, &limits));
    assert_eq!(guard.count_recent(2, 20, &limits), 2);
}

#[test]
fn public_paths() {
    assert!(public_path("/api/v1/auth/login"));
    assert!(public_path("/api/v1/auth/"));
    assert!(public_path("/health"));
    assert!(!public_path("/api/v1/auth"));
    assert!(!public_path("/health/"));
    assert!(!public_path("/api/v1/users"));
    assert!(!public_path(""));
    assert!(!public_path("x/api/v1/auth/login"));
}

#[test]
fn bearer_token_is_what_follows_the_scheme() {
    assert_eq!(extract_bearer("Bearer abc"), Some("abc".to_string()));
    assert_eq!(extract_bearer("Bearer   abc  "), Some("abc".to_string()));
    assert_eq!(extract_bearer("Bearer Bearer abc"), Some("abc".to_string()));
    assert_eq!(extract_bearer("Bearer "), Some("".to_string()));
    assert_eq!(extract_bearer("Bearer  Bearer abc"), Some("Bearer abc".to_string()));
    assert_eq!(extract_bearer("bearer abc"), None);
    assert_eq!(extract_bearer("Bearer"), None);
    assert_eq!(extract_bearer("Basic abc"), None);
    assert_eq!(extract_bearer(""), None);
}

fn subject_of(access: Access) -> Option<String> {
    match access {
        Access::Authenticated(claims) => Some(claims.sub),
        _ => None,
    }
}

#[test]
fn protected_path_needs_a_valid_token() {
    let control = AuthMiddleware::new("secret".to_string());
    let token = issue_token("alice", "secret", 1, 100).unwrap();
    let header = format!("Bearer {}", token);
    assert!(matches!(control.check("/api/v1/auth/login", None, None, 100), Access::Public));
    assert!(matches!(control.check("/health", None, None, 100), Access::Public));
    assert!(matches!(control.check("/api/v1/me", None, None, 100), Access::Rejected));
    assert_eq!(
        control.check("/api/v1/me", None, None, 100).refusal(),
        Some(Reply::MissingOrInvalidToken)
    );
    assert_eq!(control.check("/health", None, None, 100).refusal(), None);
    assert_eq!(subject_of(control.check("/api/v1/me", Some(&header), None, 100)), Some("alice".to_string()));
    assert_eq!(subject_of(control.check("/api/v1/me", None, Some(&token), 100)), Some("alice".to_string()));
    // past the expiry
    assert!(matches!(control.check("/api/v1/me", Some(&header), Some(&token), 3700), Access::Rejected));
    // the token alone is no header
    assert!(matches!(control.check("/api/v1/me", Some(&token), None, 100), Access::Rejected));
    // another secret
    let foreign = AuthMiddleware::new("other".to_string());
    assert!(matches!(foreign.check("/api/v1/me", Some(&header), Some(&token), 100), Access::Rejected));
}

#[test]
fn header_is_tried_before_the_cookie() {
    let control = AuthMiddleware::new("secret".to_string());
    let alice = issue_token("alice", "secret", 1, 100).unwrap();
    let bob = issue_token("bob", "secret", 1, 100).unwrap();
    let header = format!("Bearer {}", alice);
    assert_eq!(
        subject_of(control.check("/api/v1/me", Some(&header), Some(&bob), 100)),
        Some("alice".to_string())
    );
    // an invalid header falls back to the cookie
    assert_eq!(
        subject_of(control.check("/api/v1/me", Some("Bearer nonsense"), Some(&bob), 100)),
        Some("bob".to_string())
    );
    assert_eq!(
        subject_of(control.check("/api/v1/me", Some("Basic xyz"), Some(&bob), 100)),
        Some("bob".to_string())
    );
}

#[test]
fn throttle_presets() {
    let mut auth = RateLimitMiddleware::auth_endpoints().new_transform();
    for _ in 0..5 {
        assert!(auth.call("10.0.0.1", 0).is_ok());
    }
    assert_eq!(auth.call("10.0.0.1", 299), Err(Reply::RateLimited));
    assert!(auth.call("10.0.0.1", 300).is_ok());
    let mut general = RateLimitMiddleware::general().new_transform();
    for _ in 0..100 {
        assert!(general.call("10.0.0.1", 5).is_ok());
    }
    assert_eq!(general.call("10.0.0.1", 64), Err(Reply::RateLimited));
    assert!(general.call("10.0.0.1", 65).is_ok());
}

#[test]
fn throttle_counts_each_client_in_its_own_window() {
    let mut service = RateLimitMiddleware::new(2, 10).new_transform();
    assert_eq!(service.window("a"), None);
    assert!(service.call("a", 100).is_ok());
    assert_eq!(service.window("a"), Some(Window { window_start: 100, request_count: 1 }));
    assert!(service.call("a", 105).is_ok());
    assert_eq!(service.window("a"), Some(Window { window_start: 100, request_count: 2 }));
    assert_eq!(service.call("a", 109), Err(Reply::RateLimited));
    assert_eq!(service.window("a"), Some(Window { window_start: 100, request_count: 2 }));
    assert_eq!(service.window("b"), None);
    assert!(service.call("b", 109).is_ok());
    assert_eq!(service.window("b"), Some(Window { window_start: 109, request_count: 1 }));
    assert!(service.call("a", 110).is_ok());
    assert_eq!(service.window("a"), Some(Window { window_start: 110, request_count: 1 }));
    assert_eq!(service.window("b"), Some(Window { window_start: 109, request_count: 1 }));
    // a clock that went back stays in the window
    assert!(service.call("a", 50).is_ok());
    assert_eq!(service.window("a"), Some(Window { window_start: 110, request_count: 2 }));
    assert_eq!(service.call("a", 50), Err(Reply::RateLimited));
}

#[test]
fn throttle_with_no_window_or_no_requests() {
    let mut open = RateLimitMiddleware::new(1, 0).new_transform();
    assert!(open.call("a", 7).is_ok());
    assert!(open.call("a", 7).is_ok());
    assert_eq!(open.window("a"), Some(Window { window_start: 7, request_count: 1 }));
    let mut closed = RateLimitMiddleware::new(0, 10).new_transform();
    assert!(closed.call("a", 7).is_ok());
    assert_eq!(closed.call("a", 8), Err(Reply::RateLimited));
}

#[test]
fn security_headers_in_order() {
    let names = |production: bool| -> Vec<String> {
        SecurityHeadersMiddleware.headers(production).into_iter().map(|h| h.0).collect()
    };
    assert_eq!(
        names(false),
        vec![
            "X-Frame-Options",
            "X-Content-Type-Options",
            "X-XSS-Protection",
            "Content-Security-Policy",
            "Referrer-Policy",
            "Permissions-Policy"
        ]
    );
    assert_eq!(names(true)[3], "Strict-Transport-Security");
    assert_eq!(names(true).len(), 7);
    let headers = SecurityHeadersMiddleware.headers(true);
    assert_eq!(headers[0].1, "DENY");
    assert_eq!(headers[1].1, "nosniff");
    assert_eq!(headers[2].1, "1; mode=block");
    assert_eq!(headers[3].1, "max-age=31536000; includeSubDomains");
    assert!(headers[4].1.starts_with("default-src 'self';"));
    assert!(headers[4].1.ends_with("frame-ancestors 'none';"));
    assert_eq!(headers[5].1, "strict-origin-when-cross-origin");
    assert_eq!(headers[6].1, "geolocation=(), microphone=(), camera=()");
}

#[test]
fn origins_are_split_trimmed_and_filtered() {
    assert_eq!(parse_origins(""), Vec::<String>::new());
    assert_eq!(parse_origins(" , ,"), Vec::<String>::new());
    assert_eq!(parse_origins("https://a.example"), vec!["https://a.example"]);
    assert_eq!(
        parse_origins(" https://a.example , ,https://b.example,"),
        vec!["https://a.example", "https://b.example"]
    );
}

#[test]
fn cors_is_open_outside_production() {
    assert!(matches!(cors_policy(None, "https://a.example"), CorsPolicy::AnyOrigin));
    assert!(matches!(cors_policy(Some("development"), "https://a.example"), CorsPolicy::AnyOrigin));
    assert!(matches!(cors_policy(Some("production"), " , "), CorsPolicy::AnyOrigin));
    match cors_policy(Some("production"), "https://a.example, https://b.example") {
        CorsPolicy::Origins(origins) => {
            assert_eq!(origins, vec!["https://a.example", "https://b.example"])
        },
        CorsPolicy::AnyOrigin => panic!("production with origins is restricted"),
    }
}

#[test]
fn token_is_read_from_the_first_access_cookie() {
    let pair = |name: &str, value: &str| (name.to_string(), value.to_string());
    assert_eq!(extract_access_token(&Vec::new()), None);
    assert_eq!(extract_access_token(&vec![pair("theme", "dark")]), None);
    assert_eq!(extract_access_token(&vec![pair("Access_Token", "x")]), None);
    assert_eq!(
        extract_access_token(&vec![pair("theme", "dark"), pair("access_token", "abc")]),
        Some("abc".to_string())
    );
    assert_eq!(
        extract_access_token(&vec![pair("access_token", ""), pair("access_token", "abc")]),
        Some("".to_string())
    );
}
