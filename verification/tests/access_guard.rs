use ticket_queue::auth_challenge;
use ticket_queue::check_request;
use ticket_queue::GuardConfig;
use ticket_queue::GuardOutcome;
use ticket_queue::Method;

fn config() -> GuardConfig {
    GuardConfig::new("https://venue.example".to_string(), "secret")
}

const GOOD_AUTH: &str = "Basic YWRtaW46c2VjcmV0";

#[test]
fn expected_header_is_basic_of_admin_and_password() {
    let cfg = config();
    assert_eq!(cfg.expected_auth, "Basic YWRtaW46c2VjcmV0");
    assert_eq!(cfg.base_url, "https://venue.example");
}

#[test]
fn correct_credential_passes() {
    let cfg = config();
    let out = check_request(&cfg, Method::Get, Some(GOOD_AUTH), None, None);
    assert_eq!(out, GuardOutcome::Allow);
}

#[test]
fn one_altered_character_fails() {
    let cfg = config();
    let out = check_request(&cfg, Method::Get, Some("Basic YWRtaW46c2VjcmV1"), None, None);
    assert_eq!(out, GuardOutcome::Unauthorized);
    let out = check_request(&cfg, Method::Get, Some("basic YWRtaW46c2VjcmV0"), None, None);
    assert_eq!(out, GuardOutcome::Unauthorized);
}

#[test]
fn missing_credential_is_a_mismatch() {
    let cfg = config();
    let out = check_request(&cfg, Method::Get, None, None, None);
    assert_eq!(out, GuardOutcome::Unauthorized);
    let out = check_request(&cfg, Method::Post, None, Some("https://venue.example"), None);
    assert_eq!(out, GuardOutcome::Unauthorized);
}

#[test]
fn post_from_foreign_origin_is_forbidden() {
    let cfg = config();
    let out = check_request(&cfg, Method::Post, Some(GOOD_AUTH), Some("https://evil.example"), None);
    assert_eq!(out, GuardOutcome::Forbidden);
}

#[test]
fn post_from_own_origin_is_allowed() {
    let cfg = config();
    let out = check_request(
        &cfg,
        Method::Post,
        Some(GOOD_AUTH),
        Some("https://venue.example/admin/front"),
        None,
    );
    assert_eq!(out, GuardOutcome::Allow);
}

#[test]
fn post_with_neither_origin_nor_referer_is_forbidden() {
    let cfg = config();
    let out = check_request(&cfg, Method::Post, Some(GOOD_AUTH), None, None);
    assert_eq!(out, GuardOutcome::Forbidden);
}

#[test]
fn referer_backs_up_a_missing_origin() {
    let cfg = config();
    let out = check_request(
        &cfg,
        Method::Post,
        Some(GOOD_AUTH),
        None,
        Some("https://venue.example/admin/call"),
    );
    assert_eq!(out, GuardOutcome::Allow);
    let out = check_request(&cfg, Method::Post, Some(GOOD_AUTH), None, Some("https://evil.example"));
    assert_eq!(out, GuardOutcome::Forbidden);
}

#[test]
fn get_is_never_subject_to_the_origin_check() {
    let cfg = config();
    let out = check_request(&cfg, Method::Get, Some(GOOD_AUTH), Some("https://evil.example"), None);
    assert_eq!(out, GuardOutcome::Allow);
    let out = check_request(&cfg, Method::Head, Some(GOOD_AUTH), Some("https://evil.example"), None);
    assert_eq!(out, GuardOutcome::Allow);
}

#[test]
fn put_and_delete_are_mutating_too() {
    let cfg = config();
    for method in [Method::Put, Method::Delete] {
        let out = check_request(&cfg, method, Some(GOOD_AUTH), Some("https://evil.example"), None);
        assert_eq!(out, GuardOutcome::Forbidden);
        let out = check_request(&cfg, method, Some(GOOD_AUTH), Some("https://venue.example"), None);
        assert_eq!(out, GuardOutcome::Allow);
    }
}

#[test]
fn failure_responses_are_distinct() {
    assert_eq!(GuardOutcome::Unauthorized.status_code(), 401);
    assert_eq!(GuardOutcome::Forbidden.status_code(), 403);
    assert_eq!(GuardOutcome::Allow.status_code(), 200);
    assert_eq!(GuardOutcome::Unauthorized.message(), "Unauthorized: Access Denied");
    assert_eq!(GuardOutcome::Forbidden.message(), "Forbidden: CSRF Check Failed (Invalid Origin)");
    assert_ne!(GuardOutcome::Unauthorized.message(), GuardOutcome::Forbidden.message());
    assert_eq!(auth_challenge(), "Basic realm=\"Admin Area\"");
}
