use serde_json::Value;
use xing_trading_rust::auth::cache::{CachedToken, Timestamp};
use xing_trading_rust::auth::oauth::{
    cached_access_token, issued_token, token_request, TOKEN_CONTENT_TYPE,
};
use xing_trading_rust::auth::ws_auth::{
    approval_key, approval_request, can_request_token, check_request_interval,
    ApprovalKeyResponse, APPROVAL_CONTENT_TYPE,
};
use xing_trading_rust::config::{
    AppConfig, DEFAULT_TOKEN_CACHE_FILE, ENV_APP_KEY, ENV_APP_SECRET, ENV_TOKEN_CACHE_FILE,
    ENV_TOKEN_URL,
};

fn config() -> AppConfig {
    AppConfig::from_values(
        "key".to_string(),
        "secret".to_string(),
        "https://openapi.example".to_string(),
        None,
    )
}

fn at(secs: i64, nanos: u32) -> Timestamp {
    Timestamp { secs, nanos }
}

fn cached(secs: i64, nanos: u32) -> CachedToken {
    CachedToken { access_token: "cached".to_string(), expired_at: at(secs, nanos) }
}

#[test]
fn config_without_cache_path_uses_the_default() {
    let config = config();
    assert_eq!(config.app_key, "key");
    assert_eq!(config.app_secret, "secret");
    assert_eq!(config.token_url, "https://openapi.example");
    assert_eq!(config.token_cache_file, "kis_token_cache.json");
    assert_eq!(DEFAULT_TOKEN_CACHE_FILE, "kis_token_cache.json");
}

#[test]
fn config_with_cache_path_keeps_it() {
    let config = AppConfig::from_values(
        "k".to_string(),
        "s".to_string(),
        "u".to_string(),
        Some("/var/cache/token.json".to_string()),
    );
    assert_eq!(config.token_cache_file, "/var/cache/token.json");
}

#[test]
fn names_of_the_environment_variables() {
    assert_eq!(ENV_APP_KEY, "XING_APP_KEY");
    assert_eq!(ENV_APP_SECRET, "XING_SECRET_KEY");
    assert_eq!(ENV_TOKEN_URL, "XING_TOKEN_DOMAI");
    assert_eq!(ENV_TOKEN_CACHE_FILE, "KIS_TOKEN_CACHE_FILE");
}

#[test]
fn instants_are_ordered_by_seconds_then_nanoseconds() {
    assert!(at(10, 0).is_after(&at(9, 999_999_999)));
    assert!(at(10, 1).is_after(&at(10, 0)));
    assert!(!at(10, 0).is_after(&at(10, 0)));
    assert!(!at(10, 0).is_after(&at(10, 1)));
    assert!(!at(-5, 0).is_after(&at(-4, 0)));
    assert!(at(59, 1_500_000_000).is_after(&at(59, 999_999_999)));
    assert!(!at(59, 1_500_000_000).is_after(&at(60, 0)));
}

#[test]
fn cached_token_is_used_until_it_expires() {
    let entry = cached(1_000, 500);
    assert_eq!(cached_access_token(Some(&entry), at(999, 0)), Some("cached".to_string()));
    assert_eq!(cached_access_token(Some(&entry), at(1_000, 499)), Some("cached".to_string()));
    assert_eq!(cached_access_token(Some(&entry), at(1_000, 500)), None);
    assert_eq!(cached_access_token(Some(&entry), at(1_001, 0)), None);
    assert_eq!(cached_access_token(None, at(0, 0)), None);
}

#[test]
fn token_request_carries_the_credentials() {
    let request = token_request(&config());
    assert_eq!(request.url, "https://openapi.example/oauth2/token");
    assert_eq!(request.grant_type, "client_credentials");
    assert_eq!(request.appkey, "key");
    assert_eq!(request.appsecretkey, "secret");
    assert_eq!(request.scope, "oob");
    assert_eq!(TOKEN_CONTENT_TYPE, "application/x-www-form-urlencoded");
}

#[test]
fn issued_token_expires_that_many_seconds_later() {
    let entry = issued_token("fresh".to_string(), 86_400, at(1_700_000_000, 123_456_789));
    let expected = CachedToken {
        access_token: "fresh".to_string(),
        expired_at: at(1_700_086_400, 123_456_789),
    };
    assert_eq!(entry, Some(expected));
    let entry = issued_token("now".to_string(), 0, at(5, 7)).unwrap();
    assert_eq!(entry.expired_at, at(5, 7));
}

#[test]
fn issued_token_beyond_the_calendar_has_no_entry() {
    assert_eq!(issued_token("t".to_string(), i64::MAX as u64, at(0, 0)), None);
    assert_eq!(issued_token("t".to_string(), 1, at(i64::MAX, 0)), None);
    assert_eq!(issued_token("t".to_string(), 1, at(0, 2_000_000_000)), None);
}

#[test]
fn approval_request_has_the_credentials_in_its_body() {
    let (url, body) = approval_request(&config());
    assert_eq!(url, "https://openapi.example/oauth2/token");
    let expected: Value = serde_json::from_str(
        "{\"grant_type\": \"client_credentials\", \"appkey\": \"key\", \"secretkey\": \"secret\"}",
    )
    .unwrap();
    assert_eq!(body, expected);
    assert_eq!(APPROVAL_CONTENT_TYPE, "application/json; charset=UTF-8");
}

#[test]
fn approval_key_of_an_answer_that_holds_one() {
    let parsed = Some(ApprovalKeyResponse { approval_key: "abc-123".to_string() });
    assert_eq!(approval_key(parsed, "{\"approval_key\":\"abc-123\"}"), Ok("abc-123".to_string()));
}

#[test]
fn approval_key_of_an_answer_without_one_quotes_the_answer() {
    let text = "{\"error\":\"invalid client\"}";
    let expected = "KIS ApprovalKey 발급 실패: {\"error\":\"invalid client\"}".to_string();
    assert_eq!(approval_key(None, text), Err(expected));
}

#[test]
fn request_is_allowed_after_the_interval() {
    assert!(can_request_token(Some(100), 160, 60));
    assert!(can_request_token(Some(100), 161, 60));
    assert!(!can_request_token(Some(100), 159, 60));
    assert!(can_request_token(Some(100), 100, 0));
    assert!(!can_request_token(Some(100), 100, 1));
    assert!(can_request_token(None, 0, u64::MAX));
}

#[test]
fn request_interval_is_read_from_the_record() {
    assert_eq!(check_request_interval(Some("100"), 160, 60), Some(true));
    assert_eq!(check_request_interval(Some("100"), 159, 60), Some(false));
    assert_eq!(check_request_interval(Some("18446744073709551615"), u64::MAX, 0), Some(true));
}

#[test]
fn record_may_carry_a_plus_sign_and_leading_zeros() {
    assert_eq!(check_request_interval(Some("+100"), 160, 60), Some(true));
    assert_eq!(check_request_interval(Some("+100"), 159, 60), Some(false));
    assert_eq!(check_request_interval(Some("000100"), 159, 60), Some(false));
    assert_eq!(check_request_interval(Some("0"), 59, 60), Some(false));
    assert_eq!(check_request_interval(Some("+"), 5, 60), Some(true));
    assert_eq!(check_request_interval(Some("++1"), 5, 60), Some(true));
    assert_eq!(check_request_interval(Some(" 1"), 5, 60), Some(true));
    assert_eq!(check_request_interval(Some("1e3"), 5, 60), Some(true));
}

#[test]
fn request_is_allowed_without_a_usable_record() {
    assert_eq!(check_request_interval(None, 5, 60), Some(true));
    assert_eq!(check_request_interval(Some(""), 5, 60), Some(true));
    assert_eq!(check_request_interval(Some("100\n"), 5, 60), Some(true));
    assert_eq!(check_request_interval(Some("-1"), 5, 60), Some(true));
    assert_eq!(check_request_interval(Some("18446744073709551616"), 5, 60), Some(true));
}

#[test]
fn record_from_the_future_gives_no_interval() {
    assert_eq!(check_request_interval(Some("200"), 100, 60), None);
}
